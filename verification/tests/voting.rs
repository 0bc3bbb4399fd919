use voting_dapp::{
    cast_vote, close_poll, create_poll, get_ballot, get_counter, get_poll,
    initialize_poll_counter, CastVote, ClosePoll, CreatePoll, Identity, InitializePollCounter,
    Poll, PollKey, VotingError, VotingLedger,
};

fn identity(n: u64) -> Identity {
    Identity { k0: n, k1: n + 1, k2: n + 2, k3: n + 3 }
}

fn abc_candidates() -> Vec<String> {
    vec!["A".to_string(), "B".to_string(), "C".to_string()]
}

/// A ledger with one creator's counter initialized and one open poll
/// `["A","B","C"]`, `max_plus_votes = 2`, `allow_minus_vote = true`.
fn ledger_with_abc_poll(creator: Identity) -> (VotingLedger, PollKey) {
    let mut ledger = VotingLedger::new();
    initialize_poll_counter(&mut ledger, InitializePollCounter { creator }).unwrap();
    let id = create_poll(
        &mut ledger,
        CreatePoll { creator },
        "Favourite letter?".to_string(),
        abc_candidates(),
        2,
        true,
        1_700_000_000,
    )
    .unwrap();
    (ledger, PollKey { creator, poll_id: id })
}

#[test]
fn creation_yields_zeroed_tallies() {
    let creator = identity(10);
    let (ledger, key) = ledger_with_abc_poll(creator);
    let poll = get_poll(&ledger, key).unwrap();
    assert_eq!(poll.candidates.len(), 3);
    assert_eq!(poll.vote_counts.len(), poll.candidates.len());
    assert_eq!(poll.vote_counts, vec![0, 0, 0]);
    assert_eq!(poll.total_voters, 0);
    assert!(poll.is_active);
    assert_eq!(poll.creator, creator);
    assert_eq!(poll.poll_id, 0);
    assert_eq!(poll.question, "Favourite letter?");
    assert_eq!(poll.created_at, 1_700_000_000);
    assert_eq!(poll.max_plus_votes, 2);
    assert!(poll.allow_minus_vote);
}

#[test]
fn poll_ids_strictly_increase() {
    let creator = identity(20);
    let mut ledger = VotingLedger::new();
    initialize_poll_counter(&mut ledger, InitializePollCounter { creator }).unwrap();
    let first = create_poll(
        &mut ledger,
        CreatePoll { creator },
        "First?".to_string(),
        abc_candidates(),
        2,
        false,
        1,
    )
    .unwrap();
    let second = create_poll(
        &mut ledger,
        CreatePoll { creator },
        "Second?".to_string(),
        abc_candidates(),
        3,
        true,
        2,
    )
    .unwrap();
    assert_eq!(first, 0);
    assert_eq!(second, 1);
    assert!(first < second);
    assert_eq!(get_counter(&ledger, creator), Some(2));
}

#[test]
fn initialize_twice_fails_and_preserves_counter() {
    let creator = identity(30);
    let mut ledger = VotingLedger::new();
    assert_eq!(initialize_poll_counter(&mut ledger, InitializePollCounter { creator }), Ok(()));
    assert_eq!(get_counter(&ledger, creator), Some(0));
    assert_eq!(
        initialize_poll_counter(&mut ledger, InitializePollCounter { creator }),
        Err(VotingError::AlreadyExists)
    );
    assert_eq!(get_counter(&ledger, creator), Some(0));
}

#[test]
fn one_ballot_per_voter() {
    let creator = identity(40);
    let voter = identity(50);
    let (mut ledger, key) = ledger_with_abc_poll(creator);
    let first = cast_vote(&mut ledger, CastVote { voter, poll: key }, 0, Some(1), None, 7);
    assert!(first.is_ok());
    let counts_after_first = get_poll(&ledger, key).unwrap().vote_counts.clone();
    let retry = cast_vote(&mut ledger, CastVote { voter, poll: key }, 2, None, None, 8);
    assert_eq!(retry, Err(VotingError::DuplicateBallot));
    let poll = get_poll(&ledger, key).unwrap();
    assert_eq!(poll.vote_counts, counts_after_first);
    assert_eq!(poll.total_voters, 1);
}

#[test]
fn candidate_count_boundaries() {
    let creator = identity(60);
    let mut ledger = VotingLedger::new();
    initialize_poll_counter(&mut ledger, InitializePollCounter { creator }).unwrap();
    let of_len = |n: usize| -> Vec<String> {
        (0..n).map(|i| format!("cand{}", i)).collect()
    };
    let two = create_poll(&mut ledger, CreatePoll { creator }, "Q".to_string(), of_len(2), 2, false, 1);
    assert_eq!(two, Err(VotingError::InvalidCandidateCount));
    let three = create_poll(&mut ledger, CreatePoll { creator }, "Q".to_string(), of_len(3), 2, false, 1);
    assert_eq!(three, Ok(0));
    let eight = create_poll(&mut ledger, CreatePoll { creator }, "Q".to_string(), of_len(8), 2, false, 1);
    assert_eq!(eight, Ok(1));
    let nine = create_poll(&mut ledger, CreatePoll { creator }, "Q".to_string(), of_len(9), 2, false, 1);
    assert_eq!(nine, Err(VotingError::InvalidCandidateCount));
    // failed creations consume no poll number
    assert_eq!(get_counter(&ledger, creator), Some(2));
}

#[test]
fn plus_plus_minus_example() {
    let creator = identity(70);
    let voter = identity(80);
    let (mut ledger, key) = ledger_with_abc_poll(creator);
    let receipt = cast_vote(&mut ledger, CastVote { voter, poll: key }, 0, Some(1), Some(2), 42)
        .unwrap();
    assert_eq!(receipt.voter, voter);
    assert_eq!(receipt.poll, key);
    assert_eq!(receipt.vote_option_1, 0);
    assert_eq!(receipt.vote_option_2, Some(1));
    assert_eq!(receipt.minus_vote, Some(2));
    assert_eq!(receipt.voted_at, 42);
    let poll = get_poll(&ledger, key).unwrap();
    assert_eq!(poll.vote_counts, vec![1, 1, -1]);
    assert_eq!(poll.total_voters, 1);
    assert_eq!(get_ballot(&ledger, key, voter), Some(receipt));
    // any retry by the same voter is a duplicate ballot
    let retry = cast_vote(&mut ledger, CastVote { voter, poll: key }, 1, None, None, 43);
    assert_eq!(retry, Err(VotingError::DuplicateBallot));
    assert_eq!(get_poll(&ledger, key).unwrap().vote_counts, vec![1, 1, -1]);
}

#[test]
fn minus_vote_requires_two_plus_votes() {
    let creator = identity(90);
    let voter = identity(100);
    let (mut ledger, key) = ledger_with_abc_poll(creator);
    let r = cast_vote(&mut ledger, CastVote { voter, poll: key }, 0, None, Some(1), 5);
    assert_eq!(r, Err(VotingError::MinusVoteRequiresTwoPlusVotes));
    let poll = get_poll(&ledger, key).unwrap();
    assert_eq!(poll.vote_counts, vec![0, 0, 0]);
    assert_eq!(poll.total_voters, 0);
    assert_eq!(get_ballot(&ledger, key, voter), None);
}

#[test]
fn close_by_non_creator_is_rejected() {
    let creator = identity(110);
    let stranger = identity(120);
    let voter = identity(130);
    let (mut ledger, key) = ledger_with_abc_poll(creator);
    let r = close_poll(&mut ledger, ClosePoll { creator: stranger, poll: key });
    assert_eq!(r, Err(VotingError::Unauthorized));
    assert!(get_poll(&ledger, key).unwrap().is_active);
    // the poll still accepts ballots
    let vote = cast_vote(&mut ledger, CastVote { voter, poll: key }, 2, None, None, 9);
    assert!(vote.is_ok());
    assert_eq!(get_poll(&ledger, key).unwrap().vote_counts, vec![0, 0, 1]);
}

#[test]
fn closed_poll_rejects_every_vote() {
    let creator = identity(140);
    let voter = identity(150);
    let (mut ledger, key) = ledger_with_abc_poll(creator);
    assert_eq!(close_poll(&mut ledger, ClosePoll { creator, poll: key }), Ok(()));
    assert!(!get_poll(&ledger, key).unwrap().is_active);
    // a structurally valid ballot
    let valid = cast_vote(&mut ledger, CastVote { voter, poll: key }, 0, Some(1), None, 10);
    assert_eq!(valid, Err(VotingError::PollClosed));
    // an invalid one is rejected the same way: the closed check comes first
    let invalid = cast_vote(&mut ledger, CastVote { voter, poll: key }, 9, Some(9), Some(9), 11);
    assert_eq!(invalid, Err(VotingError::PollClosed));
    assert_eq!(get_poll(&ledger, key).unwrap().total_voters, 0);
}

#[test]
fn close_twice_reports_already_closed() {
    let creator = identity(160);
    let (mut ledger, key) = ledger_with_abc_poll(creator);
    assert_eq!(close_poll(&mut ledger, ClosePoll { creator, poll: key }), Ok(()));
    // even the creator cannot close again; the state check comes first
    assert_eq!(
        close_poll(&mut ledger, ClosePoll { creator, poll: key }),
        Err(VotingError::PollAlreadyClosed)
    );
    let stranger = identity(170);
    assert_eq!(
        close_poll(&mut ledger, ClosePoll { creator: stranger, poll: key }),
        Err(VotingError::PollAlreadyClosed)
    );
}

#[test]
fn invalid_max_plus_votes_is_rejected() {
    let creator = identity(180);
    let mut ledger = VotingLedger::new();
    initialize_poll_counter(&mut ledger, InitializePollCounter { creator }).unwrap();
    for bad in [0u8, 1, 4, 255] {
        let r = create_poll(
            &mut ledger,
            CreatePoll { creator },
            "Q".to_string(),
            abc_candidates(),
            bad,
            false,
            1,
        );
        assert_eq!(r, Err(VotingError::InvalidMaxVotes));
    }
    assert_eq!(get_counter(&ledger, creator), Some(0));
}

#[test]
fn question_length_is_counted_in_characters() {
    let creator = identity(190);
    let mut ledger = VotingLedger::new();
    initialize_poll_counter(&mut ledger, InitializePollCounter { creator }).unwrap();
    let ok = create_poll(
        &mut ledger,
        CreatePoll { creator },
        "é".repeat(200),
        abc_candidates(),
        2,
        false,
        1,
    );
    assert_eq!(ok, Ok(0));
    let too_long = create_poll(
        &mut ledger,
        CreatePoll { creator },
        "é".repeat(201),
        abc_candidates(),
        2,
        false,
        1,
    );
    assert_eq!(too_long, Err(VotingError::QuestionTooLong));
}

#[test]
fn candidate_name_length_is_counted_in_characters() {
    let creator = identity(200);
    let mut ledger = VotingLedger::new();
    initialize_poll_counter(&mut ledger, InitializePollCounter { creator }).unwrap();
    let ok = create_poll(
        &mut ledger,
        CreatePoll { creator },
        "Q".to_string(),
        vec!["A".to_string(), "B".to_string(), "ü".repeat(50)],
        2,
        false,
        1,
    );
    assert_eq!(ok, Ok(0));
    let too_long = create_poll(
        &mut ledger,
        CreatePoll { creator },
        "Q".to_string(),
        vec!["A".to_string(), "B".to_string(), "ü".repeat(51)],
        2,
        false,
        1,
    );
    assert_eq!(too_long, Err(VotingError::CandidateNameTooLong));
}

#[test]
fn duplicate_plus_pick_is_rejected() {
    let creator = identity(210);
    let voter = identity(220);
    let (mut ledger, key) = ledger_with_abc_poll(creator);
    let r = cast_vote(&mut ledger, CastVote { voter, poll: key }, 1, Some(1), None, 3);
    assert_eq!(r, Err(VotingError::DuplicateVote));
    assert_eq!(get_poll(&ledger, key).unwrap().vote_counts, vec![0, 0, 0]);
}

#[test]
fn out_of_range_candidate_indices_are_rejected() {
    let creator = identity(230);
    let voter = identity(240);
    let (mut ledger, key) = ledger_with_abc_poll(creator);
    let first = cast_vote(&mut ledger, CastVote { voter, poll: key }, 3, None, None, 3);
    assert_eq!(first, Err(VotingError::InvalidCandidateIndex));
    let second = cast_vote(&mut ledger, CastVote { voter, poll: key }, 0, Some(7), None, 3);
    assert_eq!(second, Err(VotingError::InvalidCandidateIndex));
    let minus = cast_vote(&mut ledger, CastVote { voter, poll: key }, 0, Some(1), Some(3), 3);
    assert_eq!(minus, Err(VotingError::InvalidCandidateIndex));
    assert_eq!(get_poll(&ledger, key).unwrap().total_voters, 0);
}

#[test]
fn minus_vote_disallowed_by_configuration() {
    let creator = identity(250);
    let voter = identity(260);
    let mut ledger = VotingLedger::new();
    initialize_poll_counter(&mut ledger, InitializePollCounter { creator }).unwrap();
    let id = create_poll(
        &mut ledger,
        CreatePoll { creator },
        "Q".to_string(),
        abc_candidates(),
        2,
        false,
        1,
    )
    .unwrap();
    let key = PollKey { creator, poll_id: id };
    let r = cast_vote(&mut ledger, CastVote { voter, poll: key }, 0, Some(1), Some(2), 2);
    assert_eq!(r, Err(VotingError::MinusVoteNotAllowed));
}

#[test]
fn plus_and_minus_on_same_candidate_is_rejected() {
    let creator = identity(270);
    let voter = identity(280);
    let (mut ledger, key) = ledger_with_abc_poll(creator);
    let on_first = cast_vote(&mut ledger, CastVote { voter, poll: key }, 0, Some(1), Some(0), 2);
    assert_eq!(on_first, Err(VotingError::CannotPlusAndMinusSameCandidate));
    let on_second = cast_vote(&mut ledger, CastVote { voter, poll: key }, 0, Some(1), Some(1), 2);
    assert_eq!(on_second, Err(VotingError::CannotPlusAndMinusSameCandidate));
}

#[test]
fn too_many_plus_votes_guard() {
    // No poll built by `create_poll` can have a limit below two, so the
    // rule is checked against a hand-built record.
    let creator = identity(290);
    let poll = Poll {
        creator,
        poll_id: 0,
        question: "Q".to_string(),
        candidates: abc_candidates(),
        vote_counts: vec![0, 0, 0],
        total_voters: 0,
        is_active: true,
        created_at: 1,
        max_plus_votes: 1,
        allow_minus_vote: false,
    };
    assert_eq!(poll.check_vote(0, Some(1), None), Some(VotingError::TooManyPlusVotes));
    assert_eq!(poll.check_vote(0, None, None), None);
}

#[test]
fn tallies_can_go_negative() {
    let creator = identity(300);
    let (mut ledger, key) = ledger_with_abc_poll(creator);
    for n in 0..3u64 {
        let voter = identity(400 + 10 * n);
        cast_vote(&mut ledger, CastVote { voter, poll: key }, 0, Some(1), Some(2), 5).unwrap();
    }
    let poll = get_poll(&ledger, key).unwrap();
    assert_eq!(poll.vote_counts, vec![3, 3, -3]);
    assert_eq!(poll.total_voters, 3);
}

#[test]
fn validation_precedes_the_duplicate_ballot_check() {
    let creator = identity(340);
    let voter = identity(350);
    let (mut ledger, key) = ledger_with_abc_poll(creator);
    cast_vote(&mut ledger, CastVote { voter, poll: key }, 0, None, None, 4).unwrap();
    // a malformed retry is rejected for its arguments, before the store
    // would refuse the second receipt
    let retry = cast_vote(&mut ledger, CastVote { voter, poll: key }, 9, None, None, 5);
    assert_eq!(retry, Err(VotingError::InvalidCandidateIndex));
    // a well-formed retry reaches the store and is refused there
    let retry = cast_vote(&mut ledger, CastVote { voter, poll: key }, 1, None, None, 6);
    assert_eq!(retry, Err(VotingError::DuplicateBallot));
}

#[test]
fn lookups_on_absent_records() {
    let ledger = VotingLedger::new();
    let someone = identity(310);
    let key = PollKey { creator: someone, poll_id: 0 };
    assert_eq!(get_counter(&ledger, someone), None);
    assert!(get_poll(&ledger, key).is_none());
    assert_eq!(get_ballot(&ledger, key, someone), None);
}

#[test]
fn counters_are_per_creator() {
    let first = identity(320);
    let second = identity(330);
    let mut ledger = VotingLedger::new();
    initialize_poll_counter(&mut ledger, InitializePollCounter { creator: first }).unwrap();
    initialize_poll_counter(&mut ledger, InitializePollCounter { creator: second }).unwrap();
    create_poll(
        &mut ledger,
        CreatePoll { creator: first },
        "Q".to_string(),
        abc_candidates(),
        2,
        false,
        1,
    )
    .unwrap();
    assert_eq!(get_counter(&ledger, first), Some(1));
    assert_eq!(get_counter(&ledger, second), Some(0));
}

#[test]
fn error_messages_match_the_taxonomy() {
    assert_eq!(
        VotingError::InvalidCandidateCount.message(),
        "Poll must have between 3 and 8 candidates"
    );
    assert_eq!(
        VotingError::MinusVoteRequiresTwoPlusVotes.message(),
        "Minus vote requires at least two plus votes"
    );
    assert_eq!(
        VotingError::Unauthorized.message(),
        "Unauthorized: Only poll creator can close poll"
    );
}
