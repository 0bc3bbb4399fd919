use vstd::prelude::*;
use vstd::string::StrSliceExecFns;
use crate::errors::VotingError;
use crate::identity::{Identity, PollKey};

verus! {

/// One poll record: the immutable configuration chosen at creation and the
/// running tallies mutated by accepted ballots.
pub struct Poll {
    pub creator: Identity,
    pub poll_id: u64,
    pub question: String,
    pub candidates: Vec<String>,
    pub vote_counts: Vec<i64>,
    pub total_voters: u64,
    pub is_active: bool,
    pub created_at: i64,
    pub max_plus_votes: u8,
    pub allow_minus_vote: bool,
}

impl Poll {
    /// The address of this poll: its creator and its sequence number.
    pub open spec fn key(self) -> PollKey {
        PollKey { creator: self.creator, poll_id: self.poll_id }
    }

    /// Well-formedness: the creation rules hold, each candidate has its
    /// tally, and no tally can have moved by more than one for each
    /// accepted ballot.
    pub open spec fn wf(self) -> bool {
        &&& self.vote_counts@.len() == self.candidates@.len()
        &&& 3 <= self.candidates@.len() <= 8
        &&& 2 <= self.max_plus_votes <= 3
        &&& self.question@.len() <= 200
        &&& forall|i: int| 0 <= i < self.candidates@.len() ==> #[trigger] self.candidates@[i]@.len() <= 50
        &&& forall|i: int| 0 <= i < self.vote_counts@.len()
                ==> -(self.total_voters as int) <= #[trigger] self.vote_counts@[i] <= self.total_voters as int
    }
}

/// The first creation rule a request breaks, if any, in the order the rules
/// are checked: candidate count, plus-vote limit, question length, candidate
/// name lengths. Lengths of text are counted in characters.
pub open spec fn create_check(
    question: Seq<char>,
    candidates: Seq<String>,
    max_plus_votes: u8,
) -> Option<VotingError> {
    if !(3 <= candidates.len() <= 8) {
        Some(VotingError::InvalidCandidateCount)
    } else if !(2 <= max_plus_votes <= 3) {
        Some(VotingError::InvalidMaxVotes)
    } else if question.len() > 200 {
        Some(VotingError::QuestionTooLong)
    } else if exists|i: int| 0 <= i < candidates.len() && #[trigger] candidates[i]@.len() > 50 {
        Some(VotingError::CandidateNameTooLong)
    } else {
        None
    }
}

/// What a freshly created poll looks like: the supplied configuration, one
/// zeroed tally per candidate, no voters yet, and the open state.
pub open spec fn created_poll(
    p: Poll,
    creator: Identity,
    poll_id: u64,
    question: String,
    candidates: Seq<String>,
    max_plus_votes: u8,
    allow_minus_vote: bool,
    now: i64,
) -> bool {
    &&& p.creator == creator
    &&& p.poll_id == poll_id
    &&& p.question == question
    &&& p.candidates@ == candidates
    &&& p.vote_counts@.len() == candidates.len()
    &&& forall|i: int| 0 <= i < p.vote_counts@.len() ==> #[trigger] p.vote_counts@[i] == 0
    &&& p.total_voters == 0
    &&& p.is_active
    &&& p.created_at == now
    &&& p.max_plus_votes == max_plus_votes
    &&& p.allow_minus_vote == allow_minus_vote
}

/// How many plus picks a ballot carries: the first is mandatory, the second
/// optional.
pub open spec fn plus_vote_len(vote_option_2: Option<u8>) -> int {
    if vote_option_2 is Some {
        2
    } else {
        1
    }
}

/// The first vote-casting rule a ballot breaks against this poll, if any,
/// in the order the rules are checked: the poll must be open, the plus
/// picks must fit the poll's limit and be distinct valid indices, and a
/// minus pick must be allowed, accompanied by two plus picks, a valid
/// index, and distinct from both plus picks.
pub open spec fn vote_check(
    poll: Poll,
    vote_option_1: u8,
    vote_option_2: Option<u8>,
    minus_vote_index: Option<u8>,
) -> Option<VotingError> {
    let n = poll.candidates@.len() as int;
    if !poll.is_active {
        Some(VotingError::PollClosed)
    } else if plus_vote_len(vote_option_2) > poll.max_plus_votes as int {
        Some(VotingError::TooManyPlusVotes)
    } else if vote_option_2 is Some && vote_option_2->0 == vote_option_1 {
        Some(VotingError::DuplicateVote)
    } else if vote_option_1 as int >= n || (vote_option_2 is Some && vote_option_2->0 as int >= n) {
        Some(VotingError::InvalidCandidateIndex)
    } else if minus_vote_index is Some {
        if !poll.allow_minus_vote {
            Some(VotingError::MinusVoteNotAllowed)
        } else if plus_vote_len(vote_option_2) < 2 {
            Some(VotingError::MinusVoteRequiresTwoPlusVotes)
        } else if minus_vote_index->0 as int >= n {
            Some(VotingError::InvalidCandidateIndex)
        } else if minus_vote_index->0 == vote_option_1
              || (vote_option_2 is Some && minus_vote_index->0 == vote_option_2->0) {
            Some(VotingError::CannotPlusAndMinusSameCandidate)
        } else {
            None
        }
    } else {
        None
    }
}

/// How one accepted ballot moves the tally of candidate `c`: one up for
/// each plus pick on `c`, one down for a minus pick on `c`.
pub open spec fn vote_delta(
    vote_option_1: u8,
    vote_option_2: Option<u8>,
    minus_vote_index: Option<u8>,
    c: int,
) -> int {
    (if vote_option_1 as int == c { 1int } else { 0int })
    + (if vote_option_2 is Some && vote_option_2->0 as int == c { 1int } else { 0int })
    - (if minus_vote_index is Some && minus_vote_index->0 as int == c { 1int } else { 0int })
}

/// How a poll changes when one ballot is accepted: every tally moves by its
/// delta, the voter count grows by one, and the configuration, the state
/// and the address stay as they were.
pub open spec fn ballot_applied(
    pre: Poll,
    post: Poll,
    vote_option_1: u8,
    vote_option_2: Option<u8>,
    minus_vote_index: Option<u8>,
) -> bool {
    &&& post.creator == pre.creator
    &&& post.poll_id == pre.poll_id
    &&& post.question == pre.question
    &&& post.candidates == pre.candidates
    &&& post.vote_counts@.len() == pre.vote_counts@.len()
    &&& forall|c: int| 0 <= c < pre.vote_counts@.len()
            ==> #[trigger] post.vote_counts@[c]
                == pre.vote_counts@[c] + vote_delta(vote_option_1, vote_option_2, minus_vote_index, c)
    &&& post.total_voters == pre.total_voters + 1
    &&& post.is_active == pre.is_active
    &&& post.created_at == pre.created_at
    &&& post.max_plus_votes == pre.max_plus_votes
    &&& post.allow_minus_vote == pre.allow_minus_vote
}

/// The first closure rule a request breaks, if any: the poll must still be
/// open, and only the creator may close it.
pub open spec fn close_check(poll: Poll, caller: Identity) -> Option<VotingError> {
    if !poll.is_active {
        Some(VotingError::PollAlreadyClosed)
    } else if poll.creator != caller {
        Some(VotingError::Unauthorized)
    } else {
        None
    }
}

/// No two polls share an address.
pub open spec fn polls_distinct(s: Seq<Poll>) -> bool {
    forall|i: int, j: int|
        0 <= i < s.len() && 0 <= j < s.len() && i != j ==> (#[trigger] s[i]).key() != (
        #[trigger] s[j]).key()
}

/// Some poll in `s` sits at address `k`.
pub open spec fn has_poll_in(s: Seq<Poll>, k: PollKey) -> bool {
    exists|i: int| 0 <= i < s.len() && (#[trigger] s[i]).key() == k
}

/// The position of the poll at address `k`; meaningful only when one
/// exists.
pub open spec fn poll_index_in(s: Seq<Poll>, k: PollKey) -> int {
    choose|i: int| 0 <= i < s.len() && (#[trigger] s[i]).key() == k
}

/// The poll at address `k`; meaningful only when one exists.
pub open spec fn poll_at_in(s: Seq<Poll>, k: PollKey) -> Poll {
    s[poll_index_in(s, k)]
}

/// In a distinct sequence, the poll at any position is the one its
/// address's lookup finds.
pub proof fn lemma_poll_lookup(s: Seq<Poll>, i: int)
    requires
        polls_distinct(s),
        0 <= i < s.len(),
    ensures
        has_poll_in(s, s[i].key()),
        poll_index_in(s, s[i].key()) == i,
        poll_at_in(s, s[i].key()) == s[i],
{
    assert(has_poll_in(s, s[i].key()));
    let j = poll_index_in(s, s[i].key());
    assert(0 <= j < s.len() && s[j].key() == s[i].key());
}

/// Appending a poll at a fresh address keeps the sequence distinct, makes
/// the new poll its address's lookup result, and leaves every other lookup
/// as it was.
pub proof fn lemma_poll_push(s: Seq<Poll>, p: Poll)
    requires
        polls_distinct(s),
        !has_poll_in(s, p.key()),
    ensures
        polls_distinct(s.push(p)),
        has_poll_in(s.push(p), p.key()),
        poll_at_in(s.push(p), p.key()) == p,
        forall|k: PollKey| k != p.key() ==> has_poll_in(s.push(p), k) == has_poll_in(s, k),
        forall|k: PollKey|
            k != p.key() && has_poll_in(s, k) ==> poll_at_in(s.push(p), k) == poll_at_in(s, k),
{
    let t = s.push(p);
    assert forall|i: int, j: int|
        0 <= i < t.len() && 0 <= j < t.len() && i != j implies t[i].key() != t[j].key() by {
        if i < s.len() && j < s.len() {
        } else if i == s.len() {
            assert(t[j] == s[j]);
        } else {
            assert(t[i] == s[i]);
        }
    }
    assert(t[s.len() as int] == p);
    lemma_poll_lookup(t, s.len() as int);
    assert forall|k: PollKey| k != p.key() implies has_poll_in(t, k) == has_poll_in(s, k) by {
        if has_poll_in(s, k) {
            let i = poll_index_in(s, k);
            assert(t[i] == s[i]);
            assert(has_poll_in(t, k));
        }
        if has_poll_in(t, k) {
            let i = poll_index_in(t, k);
            assert(i < s.len() && t[i] == s[i]);
            assert(has_poll_in(s, k));
        }
    }
    assert forall|k: PollKey| k != p.key() && has_poll_in(s, k) implies poll_at_in(t, k)
        == poll_at_in(s, k) by {
        let i = poll_index_in(s, k);
        assert(0 <= i < s.len() && s[i].key() == k);
        assert(t[i] == s[i]);
        lemma_poll_lookup(t, i);
    }
}

/// Replacing a poll by one at the same address keeps the sequence
/// distinct, makes the new poll its address's lookup result, and leaves
/// every other lookup as it was.
pub proof fn lemma_poll_update(s: Seq<Poll>, i: int, p: Poll)
    requires
        polls_distinct(s),
        0 <= i < s.len(),
        p.key() == s[i].key(),
    ensures
        polls_distinct(s.update(i, p)),
        has_poll_in(s.update(i, p), p.key()),
        poll_at_in(s.update(i, p), p.key()) == p,
        forall|k: PollKey| k != p.key() ==> has_poll_in(s.update(i, p), k) == has_poll_in(s, k),
        forall|k: PollKey|
            k != p.key() && has_poll_in(s, k) ==> poll_at_in(s.update(i, p), k) == poll_at_in(s, k),
{
    let t = s.update(i, p);
    assert forall|x: int, y: int|
        0 <= x < t.len() && 0 <= y < t.len() && x != y implies t[x].key() != t[y].key() by {
        assert(t[x].key() == s[x].key());
        assert(t[y].key() == s[y].key());
    }
    lemma_poll_lookup(t, i);
    assert forall|k: PollKey| k != p.key() implies has_poll_in(t, k) == has_poll_in(s, k) by {
        if has_poll_in(s, k) {
            let x = poll_index_in(s, k);
            assert(t[x].key() == s[x].key());
            assert(has_poll_in(t, k));
        }
        if has_poll_in(t, k) {
            let x = poll_index_in(t, k);
            assert(s[x].key() == t[x].key());
            assert(has_poll_in(s, k));
        }
    }
    assert forall|k: PollKey| k != p.key() && has_poll_in(s, k) implies poll_at_in(t, k)
        == poll_at_in(s, k) by {
        let x = poll_index_in(s, k);
        assert(0 <= x < s.len() && s[x].key() == k);
        assert(x != i);
        assert(t[x] == s[x]);
        lemma_poll_lookup(t, x);
    }
}

/// Find the position of the poll at address `key`, if one exists.
pub fn find_poll(polls: &Vec<Poll>, key: PollKey) -> (r: Option<usize>)
    ensures
        match r {
            Some(i) => i < polls@.len() && polls@[i as int].key() == key,
            None => !has_poll_in(polls@, key),
        },
{
    let n = polls.len();
    let mut i: usize = 0;
    while i < n
        invariant
            n == polls@.len(),
            i <= n,
            forall|j: int| 0 <= j < i ==> (#[trigger] polls@[j]).key() != key,
        decreases n - i,
    {
        if polls[i].creator == key.creator && polls[i].poll_id == key.poll_id {
            return Some(i);
        }
        i = i + 1;
    }
    None
}

/// Check the creation rules for a request, reporting the first broken one.
pub fn check_creation(question: &String, candidates: &Vec<String>, max_plus_votes: u8) -> (r: Option<
    VotingError,
>)
    ensures
        r == create_check(question@, candidates@, max_plus_votes),
{
    if !(3 <= candidates.len() && candidates.len() <= 8) {
        return Some(VotingError::InvalidCandidateCount);
    }
    if !(2 <= max_plus_votes && max_plus_votes <= 3) {
        return Some(VotingError::InvalidMaxVotes);
    }
    if question.as_str().unicode_len() > 200 {
        return Some(VotingError::QuestionTooLong);
    }
    let n = candidates.len();
    let mut i: usize = 0;
    while i < n
        invariant
            n == candidates@.len(),
            i <= n,
            3 <= candidates@.len() <= 8,
            2 <= max_plus_votes <= 3,
            question@.len() <= 200,
            forall|j: int| 0 <= j < i ==> #[trigger] candidates@[j]@.len() <= 50,
        decreases n - i,
    {
        if candidates[i].as_str().unicode_len() > 50 {
            proof {
                assert(candidates@[i as int]@.len() > 50);
            }
            return Some(VotingError::CandidateNameTooLong);
        }
        i = i + 1;
    }
    None
}

impl Poll {
    /// Validate a creation request and build the poll: the supplied
    /// configuration, a zeroed tally per candidate, no voters, open state.
    /// The first broken creation rule is reported instead, in checking
    /// order.
    pub fn new(
        creator: Identity,
        poll_id: u64,
        question: String,
        candidates: Vec<String>,
        max_plus_votes: u8,
        allow_minus_vote: bool,
        now: i64,
    ) -> (r: Result<Poll, VotingError>)
        ensures
            match r {
                Ok(p) => {
                    &&& create_check(question@, candidates@, max_plus_votes) is None
                    &&& p.wf()
                    &&& created_poll(
                        p,
                        creator,
                        poll_id,
                        question,
                        candidates@,
                        max_plus_votes,
                        allow_minus_vote,
                        now,
                    )
                },
                Err(e) => create_check(question@, candidates@, max_plus_votes) == Some(e),
            },
    {
        if let Some(e) = check_creation(&question, &candidates, max_plus_votes) {
            return Err(e);
        }
        let n = candidates.len();
        let mut vote_counts: Vec<i64> = Vec::new();
        while vote_counts.len() < n
            invariant
                vote_counts@.len() <= n,
                forall|j: int| 0 <= j < vote_counts@.len() ==> #[trigger] vote_counts@[j] == 0,
            decreases n - vote_counts@.len(),
        {
            vote_counts.push(0);
        }
        Ok(
            Poll {
                creator,
                poll_id,
                question,
                candidates,
                vote_counts,
                total_voters: 0,
                is_active: true,
                created_at: now,
                max_plus_votes,
                allow_minus_vote,
            },
        )
    }

    /// Check the vote-casting rules for a ballot against this poll,
    /// reporting the first broken one.
    pub fn check_vote(
        &self,
        vote_option_1: u8,
        vote_option_2: Option<u8>,
        minus_vote_index: Option<u8>,
    ) -> (r: Option<VotingError>)
        ensures
            r == vote_check(*self, vote_option_1, vote_option_2, minus_vote_index),
    {
        let n = self.candidates.len();
        let plus_len: u8 = if vote_option_2.is_some() {
            2
        } else {
            1
        };
        if !self.is_active {
            return Some(VotingError::PollClosed);
        }
        if plus_len > self.max_plus_votes {
            return Some(VotingError::TooManyPlusVotes);
        }
        if let Some(opt2) = vote_option_2 {
            if opt2 == vote_option_1 {
                return Some(VotingError::DuplicateVote);
            }
        }
        if vote_option_1 as usize >= n {
            return Some(VotingError::InvalidCandidateIndex);
        }
        if let Some(opt2) = vote_option_2 {
            if opt2 as usize >= n {
                return Some(VotingError::InvalidCandidateIndex);
            }
        }
        if let Some(minus_idx) = minus_vote_index {
            if !self.allow_minus_vote {
                return Some(VotingError::MinusVoteNotAllowed);
            }
            if plus_len < 2 {
                return Some(VotingError::MinusVoteRequiresTwoPlusVotes);
            }
            if minus_idx as usize >= n {
                return Some(VotingError::InvalidCandidateIndex);
            }
            if minus_idx == vote_option_1 {
                return Some(VotingError::CannotPlusAndMinusSameCandidate);
            }
            if let Some(opt2) = vote_option_2 {
                if minus_idx == opt2 {
                    return Some(VotingError::CannotPlusAndMinusSameCandidate);
                }
            }
        }
        None
    }

    /// Commit a ballot that passed the vote-casting rules: move the chosen
    /// tallies and count the voter.
    pub fn apply_vote(
        &mut self,
        vote_option_1: u8,
        vote_option_2: Option<u8>,
        minus_vote_index: Option<u8>,
    )
        requires
            old(self).wf(),
            old(self).total_voters < 0x7fff_ffff_ffff_ffff,
            vote_check(*old(self), vote_option_1, vote_option_2, minus_vote_index) is None,
        ensures
            final(self).wf(),
            ballot_applied(*old(self), *final(self), vote_option_1, vote_option_2, minus_vote_index),
    {
        let i1 = vote_option_1 as usize;
        let c1 = self.vote_counts[i1];
        self.vote_counts[i1] = c1 + 1;
        if let Some(opt2) = vote_option_2 {
            let i2 = opt2 as usize;
            let c2 = self.vote_counts[i2];
            self.vote_counts[i2] = c2 + 1;
        }
        if let Some(minus_idx) = minus_vote_index {
            let im = minus_idx as usize;
            let cm = self.vote_counts[im];
            self.vote_counts[im] = cm - 1;
        }
        self.total_voters = self.total_voters + 1;
    }

    /// Close the poll if the caller may: the poll must still be open and
    /// the caller must be its creator. A closed poll never reopens.
    pub fn close(&mut self, caller: Identity) -> (r: Result<(), VotingError>)
        ensures
            match r {
                Ok(_) => close_check(*old(self), caller) is None && *final(self) == (Poll {
                    is_active: false,
                    ..*old(self)
                }),
                Err(e) => close_check(*old(self), caller) == Some(e) && *final(self) == *old(self),
            },
    {
        if !self.is_active {
            return Err(VotingError::PollAlreadyClosed);
        }
        if !(self.creator == caller) {
            return Err(VotingError::Unauthorized);
        }
        self.is_active = false;
        Ok(())
    }
}

} // verus!
