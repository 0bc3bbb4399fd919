use vstd::prelude::*;
use crate::errors::VotingError;
use crate::identity::{Identity, PollKey};
use crate::ledger::{
    cast_vote_step, close_poll_step, create_poll_step, initialize_step, unchanged, VotingLedger,
};
use crate::poll::vote_check;
use crate::record::VoteRecord;

verus! {

/// Initializing a counter twice for the same owner fails the second time
/// with `AlreadyExists`, leaves the store untouched, and the counter still
/// reads zero.
pub proof fn lemma_initialize_twice(
    l0: VotingLedger,
    l1: VotingLedger,
    l2: VotingLedger,
    owner: Identity,
    r2: Result<(), VotingError>,
)
    requires
        initialize_step(l0, l1, owner, Ok(())),
        initialize_step(l1, l2, owner, r2),
    ensures
        r2 == Err::<(), VotingError>(VotingError::AlreadyExists),
        unchanged(l1, l2),
        l2.counter_of(owner) == 0,
{
}

/// Two successful poll creations by the same creator, one after the other,
/// are numbered consecutively: the second poll's number is one above the
/// first's, so the numbers are strictly increasing and distinct.
pub proof fn lemma_poll_ids_strictly_increase(
    l0: VotingLedger,
    l1: VotingLedger,
    l2: VotingLedger,
    creator: Identity,
    question1: String,
    candidates1: Seq<String>,
    max_plus_votes1: u8,
    allow_minus_vote1: bool,
    now1: i64,
    question2: String,
    candidates2: Seq<String>,
    max_plus_votes2: u8,
    allow_minus_vote2: bool,
    now2: i64,
    id1: u64,
    id2: u64,
)
    requires
        create_poll_step(
            l0,
            l1,
            creator,
            question1,
            candidates1,
            max_plus_votes1,
            allow_minus_vote1,
            now1,
            Ok(id1),
        ),
        create_poll_step(
            l1,
            l2,
            creator,
            question2,
            candidates2,
            max_plus_votes2,
            allow_minus_vote2,
            now2,
            Ok(id2),
        ),
    ensures
        id2 == id1 + 1,
        id1 < id2,
{
}

/// One ballot per voter per poll: a ballot that passes the vote-casting
/// rules, from a voter without a receipt, is accepted; any second attempt
/// by the same voter on the same poll is rejected and leaves the store —
/// tallies included — exactly as the first vote left it.
pub proof fn lemma_single_ballot_per_voter(
    l0: VotingLedger,
    l1: VotingLedger,
    l2: VotingLedger,
    voter: Identity,
    k: PollKey,
    vote_option_1: u8,
    vote_option_2: Option<u8>,
    minus_vote_index: Option<u8>,
    now1: i64,
    r1: Result<VoteRecord, VotingError>,
    retry_option_1: u8,
    retry_option_2: Option<u8>,
    retry_minus_index: Option<u8>,
    now2: i64,
    r2: Result<VoteRecord, VotingError>,
)
    requires
        vote_check(l0.poll_of(k), vote_option_1, vote_option_2, minus_vote_index) is None,
        !l0.has_ballot(k, voter),
        cast_vote_step(l0, l1, voter, k, vote_option_1, vote_option_2, minus_vote_index, now1, r1),
        cast_vote_step(l1, l2, voter, k, retry_option_1, retry_option_2, retry_minus_index, now2, r2),
    ensures
        r1 is Ok,
        r2 is Err,
        unchanged(l1, l2),
{
}

/// A closed poll accepts no ballot: after a successful closure, a vote on
/// that poll is rejected with `PollClosed` whatever its arguments, and the
/// store stays as closure left it.
pub proof fn lemma_closed_poll_rejects_votes(
    l0: VotingLedger,
    l1: VotingLedger,
    l2: VotingLedger,
    caller: Identity,
    k: PollKey,
    voter: Identity,
    vote_option_1: u8,
    vote_option_2: Option<u8>,
    minus_vote_index: Option<u8>,
    now: i64,
    r: Result<VoteRecord, VotingError>,
)
    requires
        close_poll_step(l0, l1, caller, k, Ok(())),
        cast_vote_step(l1, l2, voter, k, vote_option_1, vote_option_2, minus_vote_index, now, r),
    ensures
        r == Err::<VoteRecord, VotingError>(VotingError::PollClosed),
        unchanged(l1, l2),
{
    assert(!l1.poll_of(k).is_active);
}

} // verus!
