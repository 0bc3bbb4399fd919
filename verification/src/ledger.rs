use vstd::prelude::*;
use vstd::pervasive::unreached;
use crate::counter::{
    counter_value_in, counters_distinct, find_counter, has_counter_in, lemma_counter_lookup,
    lemma_counter_push, lemma_counter_update, PollCounter,
};
use crate::errors::VotingError;
use crate::identity::{Identity, PollKey};
use crate::poll::{
    ballot_applied, close_check, create_check, created_poll, find_poll, has_poll_in,
    lemma_poll_lookup, lemma_poll_push, lemma_poll_update, poll_at_in, polls_distinct, vote_check,
    Poll,
};
use crate::record::{
    ballot_at_in, ballots_distinct, find_ballot, has_ballot_in, lemma_ballot_push, VoteRecord,
};

verus! {

/// The record store the operations run against: one addressable record per
/// counter, per poll and per ballot receipt, each created at most once
/// under its key. Every operation reads and writes it as one atomic step,
/// committing fully or not at all.
pub struct VotingLedger {
    pub counters: Vec<PollCounter>,
    pub polls: Vec<Poll>,
    pub ballots: Vec<VoteRecord>,
}

impl VotingLedger {
    /// Well-formedness: keys are unique, every poll is well formed, and
    /// every poll's number was allocated, so it sits strictly below its
    /// creator's counter.
    pub open spec fn wf(self) -> bool {
        &&& counters_distinct(self.counters@)
        &&& polls_distinct(self.polls@)
        &&& ballots_distinct(self.ballots@)
        &&& forall|i: int| 0 <= i < self.polls@.len() ==> (#[trigger] self.polls@[i]).wf()
        &&& forall|i: int|
            0 <= i < self.polls@.len() ==> has_counter_in(
                self.counters@,
                (#[trigger] self.polls@[i]).creator,
            ) && (self.polls@[i].poll_id as int) < counter_value_in(
                self.counters@,
                self.polls@[i].creator,
            ) as int
    }

    /// A counter exists for `owner`.
    pub open spec fn has_counter(self, owner: Identity) -> bool {
        has_counter_in(self.counters@, owner)
    }

    /// The poll number `owner`'s counter will assign next.
    pub open spec fn counter_of(self, owner: Identity) -> u64 {
        counter_value_in(self.counters@, owner)
    }

    /// A poll exists at address `k`.
    pub open spec fn has_poll(self, k: PollKey) -> bool {
        has_poll_in(self.polls@, k)
    }

    /// The poll at address `k`.
    pub open spec fn poll_of(self, k: PollKey) -> Poll {
        poll_at_in(self.polls@, k)
    }

    /// `voter` holds a ballot receipt for the poll at `k`.
    pub open spec fn has_ballot(self, k: PollKey, voter: Identity) -> bool {
        has_ballot_in(self.ballots@, k, voter)
    }

    /// `voter`'s ballot receipt for the poll at `k`.
    pub open spec fn ballot_of(self, k: PollKey, voter: Identity) -> VoteRecord {
        ballot_at_in(self.ballots@, k, voter)
    }

    /// An empty store: no counters, no polls, no ballots.
    pub fn new() -> (r: VotingLedger)
        ensures
            r.wf(),
            r.counters@.len() == 0,
            r.polls@.len() == 0,
            r.ballots@.len() == 0,
    {
        VotingLedger { counters: Vec::new(), polls: Vec::new(), ballots: Vec::new() }
    }
}

/// The two stores hold the same records.
pub open spec fn unchanged(pre: VotingLedger, post: VotingLedger) -> bool {
    &&& post.counters@ == pre.counters@
    &&& post.polls@ == pre.polls@
    &&& post.ballots@ == pre.ballots@
}

/// Every counter lookup away from `owner` answers as before.
pub open spec fn counters_otherwise_unchanged(
    pre: VotingLedger,
    post: VotingLedger,
    owner: Identity,
) -> bool {
    &&& forall|o: Identity| o != owner ==> #[trigger] post.has_counter(o) == pre.has_counter(o)
    &&& forall|o: Identity|
        o != owner && pre.has_counter(o) ==> #[trigger] post.counter_of(o) == pre.counter_of(o)
}

/// Every poll lookup away from `k` answers as before.
pub open spec fn polls_otherwise_unchanged(
    pre: VotingLedger,
    post: VotingLedger,
    k: PollKey,
) -> bool {
    &&& forall|k2: PollKey| k2 != k ==> #[trigger] post.has_poll(k2) == pre.has_poll(k2)
    &&& forall|k2: PollKey|
        k2 != k && pre.has_poll(k2) ==> #[trigger] post.poll_of(k2) == pre.poll_of(k2)
}

/// Every ballot lookup away from `k` and `voter` answers as before.
pub open spec fn ballots_otherwise_unchanged(
    pre: VotingLedger,
    post: VotingLedger,
    k: PollKey,
    voter: Identity,
) -> bool {
    &&& forall|k2: PollKey, v2: Identity|
        !(k2 == k && v2 == voter) ==> #[trigger] post.has_ballot(k2, v2) == pre.has_ballot(k2, v2)
    &&& forall|k2: PollKey, v2: Identity|
        !(k2 == k && v2 == voter) && pre.has_ballot(k2, v2) ==> #[trigger] post.ballot_of(k2, v2)
            == pre.ballot_of(k2, v2)
}

/// The one-step transition of `initialize_poll_counter`: a fresh counter
/// at zero for an owner who had none, `AlreadyExists` and no change for
/// one who had.
pub open spec fn initialize_step(
    pre: VotingLedger,
    post: VotingLedger,
    owner: Identity,
    r: Result<(), VotingError>,
) -> bool {
    if pre.has_counter(owner) {
        r == Err::<(), VotingError>(VotingError::AlreadyExists) && unchanged(pre, post)
    } else {
        &&& r == Ok::<(), VotingError>(())
        &&& post.has_counter(owner)
        &&& post.counter_of(owner) == 0
        &&& counters_otherwise_unchanged(pre, post, owner)
        &&& post.polls@ == pre.polls@
        &&& post.ballots@ == pre.ballots@
    }
}

/// The one-step transition of `create_poll`: on valid input, the creator's
/// counter hands out its value as the poll number and advances by one, and
/// a fresh poll appears at that address; on invalid input, the first
/// broken creation rule and no change.
pub open spec fn create_poll_step(
    pre: VotingLedger,
    post: VotingLedger,
    creator: Identity,
    question: String,
    candidates: Seq<String>,
    max_plus_votes: u8,
    allow_minus_vote: bool,
    now: i64,
    r: Result<u64, VotingError>,
) -> bool {
    match create_check(question@, candidates, max_plus_votes) {
        Some(e) => r == Err::<u64, VotingError>(e) && unchanged(pre, post),
        None => {
            let id = pre.counter_of(creator);
            let k = PollKey { creator, poll_id: id };
            &&& r == Ok::<u64, VotingError>(id)
            &&& post.has_counter(creator)
            &&& post.counter_of(creator) == id + 1
            &&& counters_otherwise_unchanged(pre, post, creator)
            &&& !pre.has_poll(k)
            &&& post.has_poll(k)
            &&& created_poll(
                post.poll_of(k),
                creator,
                id,
                question,
                candidates,
                max_plus_votes,
                allow_minus_vote,
                now,
            )
            &&& polls_otherwise_unchanged(pre, post, k)
            &&& post.ballots@ == pre.ballots@
        },
    }
}

/// The one-step transition of `cast_vote`: the ballot is held against the
/// vote-casting rules first, then against the one-receipt-per-voter
/// uniqueness of the store; only when both pass are the tallies moved, the
/// voter counted, and the receipt recorded.
pub open spec fn cast_vote_step(
    pre: VotingLedger,
    post: VotingLedger,
    voter: Identity,
    k: PollKey,
    vote_option_1: u8,
    vote_option_2: Option<u8>,
    minus_vote_index: Option<u8>,
    now: i64,
    r: Result<VoteRecord, VotingError>,
) -> bool {
    match vote_check(pre.poll_of(k), vote_option_1, vote_option_2, minus_vote_index) {
        Some(e) => r == Err::<VoteRecord, VotingError>(e) && unchanged(pre, post),
        None => {
            if pre.has_ballot(k, voter) {
                r == Err::<VoteRecord, VotingError>(VotingError::DuplicateBallot) && unchanged(
                    pre,
                    post,
                )
            } else {
                let rec = VoteRecord {
                    voter,
                    poll: k,
                    vote_option_1,
                    vote_option_2,
                    minus_vote: minus_vote_index,
                    voted_at: now,
                };
                &&& r == Ok::<VoteRecord, VotingError>(rec)
                &&& post.has_ballot(k, voter)
                &&& post.ballot_of(k, voter) == rec
                &&& ballots_otherwise_unchanged(pre, post, k, voter)
                &&& post.has_poll(k)
                &&& ballot_applied(
                    pre.poll_of(k),
                    post.poll_of(k),
                    vote_option_1,
                    vote_option_2,
                    minus_vote_index,
                )
                &&& polls_otherwise_unchanged(pre, post, k)
                &&& post.counters@ == pre.counters@
            }
        },
    }
}

/// The one-step transition of `close_poll`: an open poll closed by its
/// creator goes inactive, with everything else untouched; otherwise the
/// broken closure rule and no change. Nothing ever reopens a poll.
pub open spec fn close_poll_step(
    pre: VotingLedger,
    post: VotingLedger,
    caller: Identity,
    k: PollKey,
    r: Result<(), VotingError>,
) -> bool {
    match close_check(pre.poll_of(k), caller) {
        Some(e) => r == Err::<(), VotingError>(e) && unchanged(pre, post),
        None => {
            &&& r == Ok::<(), VotingError>(())
            &&& post.has_poll(k)
            &&& post.poll_of(k) == (Poll { is_active: false, ..pre.poll_of(k) })
            &&& polls_otherwise_unchanged(pre, post, k)
            &&& post.counters@ == pre.counters@
            &&& post.ballots@ == pre.ballots@
        },
    }
}

/// The records an `initialize_poll_counter` request names: the identity
/// asking for its one counter.
#[derive(Clone, Copy, PartialEq, Eq, Structural, Debug)]
pub struct InitializePollCounter {
    pub creator: Identity,
}

/// The records a `create_poll` request names: the identity creating the
/// poll, whose counter assigns the number.
#[derive(Clone, Copy, PartialEq, Eq, Structural, Debug)]
pub struct CreatePoll {
    pub creator: Identity,
}

/// The records a `cast_vote` request names: the voter and the poll voted
/// on.
#[derive(Clone, Copy, PartialEq, Eq, Structural, Debug)]
pub struct CastVote {
    pub voter: Identity,
    pub poll: PollKey,
}

/// The records a `close_poll` request names: the caller claiming to be the
/// creator, and the poll to close.
#[derive(Clone, Copy, PartialEq, Eq, Structural, Debug)]
pub struct ClosePoll {
    pub creator: Identity,
    pub poll: PollKey,
}

/// Create the one sequence counter of `ctx.creator`, at zero. Fails with
/// `AlreadyExists`, touching nothing, when that identity already has one.
pub fn initialize_poll_counter(ledger: &mut VotingLedger, ctx: InitializePollCounter) -> (r: Result<
    (),
    VotingError,
>)
    requires
        old(ledger).wf(),
    ensures
        final(ledger).wf(),
        initialize_step(*old(ledger), *final(ledger), ctx.creator, r),
{
    match find_counter(&ledger.counters, ctx.creator) {
        Some(_) => Err(VotingError::AlreadyExists),
        None => {
            let counter = PollCounter { creator: ctx.creator, poll_count: 0 };
            ledger.counters.push(counter);
            proof {
                lemma_counter_push(old(ledger).counters@, counter);
                assert forall|i: int| 0 <= i < ledger.polls@.len() implies has_counter_in(
                    ledger.counters@,
                    (#[trigger] ledger.polls@[i]).creator,
                ) && (ledger.polls@[i].poll_id as int) < counter_value_in(
                    ledger.counters@,
                    ledger.polls@[i].creator,
                ) as int by {
                    assert(ledger.polls@[i].creator != ctx.creator);
                }
            }
            Ok(())
        },
    }
}

/// Create a poll for `ctx.creator`: validate the request, then consume the
/// creator's counter for the poll number and store the new poll, open and
/// with zeroed tallies. On the first broken creation rule, fails with it
/// and touches nothing.
pub fn create_poll(
    ledger: &mut VotingLedger,
    ctx: CreatePoll,
    question: String,
    candidates: Vec<String>,
    max_plus_votes: u8,
    allow_minus_vote: bool,
    now: i64,
) -> (r: Result<u64, VotingError>)
    requires
        old(ledger).wf(),
        old(ledger).has_counter(ctx.creator),
        old(ledger).counter_of(ctx.creator) < u64::MAX,
    ensures
        final(ledger).wf(),
        create_poll_step(
            *old(ledger),
            *final(ledger),
            ctx.creator,
            question,
            candidates@,
            max_plus_votes,
            allow_minus_vote,
            now,
            r,
        ),
{
    let idx = match find_counter(&ledger.counters, ctx.creator) {
        Some(i) => i,
        None => unreached(),
    };
    proof {
        lemma_counter_lookup(ledger.counters@, idx as int);
    }
    let poll_id = ledger.counters[idx].poll_count;
    let poll = match Poll::new(
        ctx.creator,
        poll_id,
        question,
        candidates,
        max_plus_votes,
        allow_minus_vote,
        now,
    ) {
        Ok(p) => p,
        Err(e) => { return Err(e) },
    };
    let ghost k = PollKey { creator: ctx.creator, poll_id };
    proof {
        // a poll at the fresh address would sit below the counter it equals
        if has_poll_in(ledger.polls@, k) {
            let i = crate::poll::poll_index_in(ledger.polls@, k);
            assert(0 <= i < ledger.polls@.len() && ledger.polls@[i].key() == k);
            assert((ledger.polls@[i].poll_id as int) < counter_value_in(
                ledger.counters@,
                ledger.polls@[i].creator,
            ) as int);
        }
        assert(!has_poll_in(ledger.polls@, k));
    }
    let bumped = PollCounter { creator: ctx.creator, poll_count: poll_id + 1 };
    ledger.counters[idx] = bumped;
    proof {
        lemma_counter_update(old(ledger).counters@, idx as int, bumped);
    }
    ledger.polls.push(poll);
    proof {
        lemma_poll_push(old(ledger).polls@, poll);
        assert forall|i: int| 0 <= i < ledger.polls@.len() implies has_counter_in(
            ledger.counters@,
            (#[trigger] ledger.polls@[i]).creator,
        ) && (ledger.polls@[i].poll_id as int) < counter_value_in(
            ledger.counters@,
            ledger.polls@[i].creator,
        ) as int by {
            if i < old(ledger).polls@.len() {
                assert(ledger.polls@[i] == old(ledger).polls@[i]);
            } else {
                assert(ledger.polls@[i] == poll);
            }
        }
    }
    Ok(poll_id)
}

/// Cast `ctx.voter`'s one ballot on the poll at `ctx.poll`. The ballot is
/// held against the vote-casting rules in order, then the store refuses a
/// second receipt for the same poll and voter with `DuplicateBallot`; only
/// then are the tallies moved, the voter counted, and the receipt stored
/// and returned. Any failure touches nothing.
pub fn cast_vote(
    ledger: &mut VotingLedger,
    ctx: CastVote,
    vote_option_1: u8,
    vote_option_2: Option<u8>,
    minus_vote_index: Option<u8>,
    now: i64,
) -> (r: Result<VoteRecord, VotingError>)
    requires
        old(ledger).wf(),
        old(ledger).has_poll(ctx.poll),
        old(ledger).poll_of(ctx.poll).total_voters < 0x7fff_ffff_ffff_ffff,
    ensures
        final(ledger).wf(),
        cast_vote_step(
            *old(ledger),
            *final(ledger),
            ctx.voter,
            ctx.poll,
            vote_option_1,
            vote_option_2,
            minus_vote_index,
            now,
            r,
        ),
{
    let pidx = match find_poll(&ledger.polls, ctx.poll) {
        Some(i) => i,
        None => unreached(),
    };
    proof {
        lemma_poll_lookup(ledger.polls@, pidx as int);
    }
    if let Some(e) = ledger.polls[pidx].check_vote(
        vote_option_1,
        vote_option_2,
        minus_vote_index,
    ) {
        return Err(e);
    }
    if find_ballot(&ledger.ballots, ctx.poll, ctx.voter).is_some() {
        return Err(VotingError::DuplicateBallot);
    }
    let poll_ref = &mut ledger.polls[pidx];
    poll_ref.apply_vote(vote_option_1, vote_option_2, minus_vote_index);
    let rec = VoteRecord {
        voter: ctx.voter,
        poll: ctx.poll,
        vote_option_1,
        vote_option_2,
        minus_vote: minus_vote_index,
        voted_at: now,
    };
    ledger.ballots.push(rec);
    proof {
        let pre = *old(ledger);
        let post_poll = ledger.polls@[pidx as int];
        assert(post_poll.key() == ctx.poll);
        lemma_poll_update(pre.polls@, pidx as int, post_poll);
        lemma_ballot_push(pre.ballots@, rec);
        assert forall|i: int| 0 <= i < ledger.polls@.len() implies has_counter_in(
            ledger.counters@,
            (#[trigger] ledger.polls@[i]).creator,
        ) && (ledger.polls@[i].poll_id as int) < counter_value_in(
            ledger.counters@,
            ledger.polls@[i].creator,
        ) as int by {
            if i != pidx as int {
                assert(ledger.polls@[i] == pre.polls@[i]);
            } else {
                assert(post_poll.creator == pre.polls@[i].creator);
                assert(post_poll.poll_id == pre.polls@[i].poll_id);
            }
        }
    }
    Ok(rec)
}

/// Close the poll at `ctx.poll`: it must still be open and `ctx.creator`
/// must be its creator, else the broken rule is reported and nothing is
/// touched. Closure is terminal.
pub fn close_poll(ledger: &mut VotingLedger, ctx: ClosePoll) -> (r: Result<(), VotingError>)
    requires
        old(ledger).wf(),
        old(ledger).has_poll(ctx.poll),
    ensures
        final(ledger).wf(),
        close_poll_step(*old(ledger), *final(ledger), ctx.creator, ctx.poll, r),
{
    let pidx = match find_poll(&ledger.polls, ctx.poll) {
        Some(i) => i,
        None => unreached(),
    };
    proof {
        lemma_poll_lookup(ledger.polls@, pidx as int);
    }
    let poll_ref = &mut ledger.polls[pidx];
    let res = poll_ref.close(ctx.creator);
    proof {
        let pre = *old(ledger);
        let post_poll = ledger.polls@[pidx as int];
        assert(post_poll.key() == ctx.poll);
        lemma_poll_update(pre.polls@, pidx as int, post_poll);
        if res is Err {
            assert(ledger.polls@ =~= pre.polls@);
        }
        assert forall|i: int| 0 <= i < ledger.polls@.len() implies has_counter_in(
            ledger.counters@,
            (#[trigger] ledger.polls@[i]).creator,
        ) && (ledger.polls@[i].poll_id as int) < counter_value_in(
            ledger.counters@,
            ledger.polls@[i].creator,
        ) as int by {
            if i != pidx as int {
                assert(ledger.polls@[i] == pre.polls@[i]);
            } else {
                assert(post_poll.creator == pre.polls@[i].creator);
                assert(post_poll.poll_id == pre.polls@[i].poll_id);
            }
        }
    }
    match res {
        Ok(_) => Ok(()),
        Err(e) => Err(e),
    }
}

/// Read the value `owner`'s counter will assign next, if the counter
/// exists.
pub fn get_counter(ledger: &VotingLedger, owner: Identity) -> (r: Option<u64>)
    requires
        ledger.wf(),
    ensures
        r == (if ledger.has_counter(owner) {
            Some(ledger.counter_of(owner))
        } else {
            None::<u64>
        }),
{
    match find_counter(&ledger.counters, owner) {
        Some(i) => {
            proof {
                lemma_counter_lookup(ledger.counters@, i as int);
            }
            Some(ledger.counters[i].poll_count)
        },
        None => None,
    }
}

/// Read the poll at address `key`, if one exists.
pub fn get_poll(ledger: &VotingLedger, key: PollKey) -> (r: Option<&Poll>)
    requires
        ledger.wf(),
    ensures
        match r {
            Some(p) => ledger.has_poll(key) && *p == ledger.poll_of(key),
            None => !ledger.has_poll(key),
        },
{
    match find_poll(&ledger.polls, key) {
        Some(i) => {
            proof {
                lemma_poll_lookup(ledger.polls@, i as int);
            }
            Some(&ledger.polls[i])
        },
        None => None,
    }
}

/// Read `voter`'s ballot receipt on the poll at `key`, if one exists.
pub fn get_ballot(ledger: &VotingLedger, key: PollKey, voter: Identity) -> (r: Option<VoteRecord>)
    requires
        ledger.wf(),
    ensures
        match r {
            Some(b) => ledger.has_ballot(key, voter) && b == ledger.ballot_of(key, voter),
            None => !ledger.has_ballot(key, voter),
        },
{
    match find_ballot(&ledger.ballots, key, voter) {
        Some(i) => {
            proof {
                crate::record::lemma_ballot_lookup(ledger.ballots@, i as int);
            }
            Some(ledger.ballots[i])
        },
        None => None,
    }
}

} // verus!
