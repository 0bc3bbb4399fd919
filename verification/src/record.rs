use vstd::prelude::*;
use crate::identity::{Identity, PollKey};

verus! {

/// One ballot receipt. It exists exactly once per poll and voter; that
/// uniqueness, not any lookup in the engine, is what makes re-voting
/// impossible.
#[derive(Clone, Copy, PartialEq, Eq, Debug)]
pub struct VoteRecord {
    pub voter: Identity,
    pub poll: PollKey,
    pub vote_option_1: u8,
    pub vote_option_2: Option<u8>,
    pub minus_vote: Option<u8>,
    pub voted_at: i64,
}

/// No two receipts share a poll and a voter.
pub open spec fn ballots_distinct(s: Seq<VoteRecord>) -> bool {
    forall|i: int, j: int|
        0 <= i < s.len() && 0 <= j < s.len() && i != j ==> !((#[trigger] s[i]).poll == (
        #[trigger] s[j]).poll && s[i].voter == s[j].voter)
}

/// Some receipt in `s` is `voter`'s ballot on the poll at `k`.
pub open spec fn has_ballot_in(s: Seq<VoteRecord>, k: PollKey, voter: Identity) -> bool {
    exists|i: int| 0 <= i < s.len() && (#[trigger] s[i]).poll == k && s[i].voter == voter
}

/// The position of `voter`'s ballot on the poll at `k`; meaningful only
/// when one exists.
pub open spec fn ballot_index_in(s: Seq<VoteRecord>, k: PollKey, voter: Identity) -> int {
    choose|i: int| 0 <= i < s.len() && (#[trigger] s[i]).poll == k && s[i].voter == voter
}

/// `voter`'s ballot on the poll at `k`; meaningful only when one exists.
pub open spec fn ballot_at_in(s: Seq<VoteRecord>, k: PollKey, voter: Identity) -> VoteRecord {
    s[ballot_index_in(s, k, voter)]
}

/// In a distinct sequence, the receipt at any position is the one its
/// poll's and voter's lookup finds.
pub proof fn lemma_ballot_lookup(s: Seq<VoteRecord>, i: int)
    requires
        ballots_distinct(s),
        0 <= i < s.len(),
    ensures
        has_ballot_in(s, s[i].poll, s[i].voter),
        ballot_index_in(s, s[i].poll, s[i].voter) == i,
        ballot_at_in(s, s[i].poll, s[i].voter) == s[i],
{
    assert(has_ballot_in(s, s[i].poll, s[i].voter));
    let j = ballot_index_in(s, s[i].poll, s[i].voter);
    assert(0 <= j < s.len() && s[j].poll == s[i].poll && s[j].voter == s[i].voter);
}

/// Appending a receipt for a poll and voter that had none keeps the
/// sequence distinct, makes the new receipt their lookup result, and
/// leaves every other lookup as it was.
pub proof fn lemma_ballot_push(s: Seq<VoteRecord>, b: VoteRecord)
    requires
        ballots_distinct(s),
        !has_ballot_in(s, b.poll, b.voter),
    ensures
        ballots_distinct(s.push(b)),
        has_ballot_in(s.push(b), b.poll, b.voter),
        ballot_at_in(s.push(b), b.poll, b.voter) == b,
        forall|k: PollKey, v: Identity|
            !(k == b.poll && v == b.voter) ==> has_ballot_in(s.push(b), k, v) == has_ballot_in(
                s,
                k,
                v,
            ),
        forall|k: PollKey, v: Identity|
            !(k == b.poll && v == b.voter) && has_ballot_in(s, k, v) ==> ballot_at_in(
                s.push(b),
                k,
                v,
            ) == ballot_at_in(s, k, v),
{
    let t = s.push(b);
    assert forall|i: int, j: int|
        0 <= i < t.len() && 0 <= j < t.len() && i != j implies !(t[i].poll == t[j].poll
        && t[i].voter == t[j].voter) by {
        if i < s.len() && j < s.len() {
        } else if i == s.len() {
            assert(t[j] == s[j]);
        } else {
            assert(t[i] == s[i]);
        }
    }
    assert(t[s.len() as int] == b);
    lemma_ballot_lookup(t, s.len() as int);
    assert forall|k: PollKey, v: Identity| !(k == b.poll && v == b.voter) implies has_ballot_in(
        t,
        k,
        v,
    ) == has_ballot_in(s, k, v) by {
        if has_ballot_in(s, k, v) {
            let i = ballot_index_in(s, k, v);
            assert(t[i] == s[i]);
            assert(has_ballot_in(t, k, v));
        }
        if has_ballot_in(t, k, v) {
            let i = ballot_index_in(t, k, v);
            assert(i < s.len() && t[i] == s[i]);
            assert(has_ballot_in(s, k, v));
        }
    }
    assert forall|k: PollKey, v: Identity|
        !(k == b.poll && v == b.voter) && has_ballot_in(s, k, v) implies ballot_at_in(t, k, v)
        == ballot_at_in(s, k, v) by {
        let i = ballot_index_in(s, k, v);
        assert(0 <= i < s.len() && s[i].poll == k && s[i].voter == v);
        assert(t[i] == s[i]);
        lemma_ballot_lookup(t, i);
    }
}

/// Find the position of `voter`'s ballot on the poll at `key`, if one
/// exists.
pub fn find_ballot(ballots: &Vec<VoteRecord>, key: PollKey, voter: Identity) -> (r: Option<usize>)
    ensures
        match r {
            Some(i) => i < ballots@.len() && ballots@[i as int].poll == key && ballots@[
                i as int
            ].voter == voter,
            None => !has_ballot_in(ballots@, key, voter),
        },
{
    let n = ballots.len();
    let mut i: usize = 0;
    while i < n
        invariant
            n == ballots@.len(),
            i <= n,
            forall|j: int|
                0 <= j < i ==> !((#[trigger] ballots@[j]).poll == key && ballots@[j].voter
                    == voter),
        decreases n - i,
    {
        if ballots[i].poll == key && ballots[i].voter == voter {
            return Some(i);
        }
        i = i + 1;
    }
    None
}

} // verus!
