use vstd::prelude::*;

verus! {

/// Every way a request can be rejected.
///
/// The validation variants mirror the rules of poll creation, vote casting
/// and closure. `AlreadyExists` and `DuplicateBallot` are the uniqueness
/// violations the record store reports when a counter or a ballot receipt
/// is created a second time under the same key.
///
/// `MustCastAtLeastOnePlusVote` stays in the taxonomy for compatibility,
/// but the first plus pick is a mandatory argument of `cast_vote`, so no
/// request can currently trigger it.
#[derive(Clone, Copy, PartialEq, Eq, Structural, Debug)]
pub enum VotingError {
    InvalidCandidateCount,
    InvalidMaxVotes,
    QuestionTooLong,
    CandidateNameTooLong,
    PollClosed,
    TooManyPlusVotes,
    MustCastAtLeastOnePlusVote,
    DuplicateVote,
    InvalidCandidateIndex,
    MinusVoteNotAllowed,
    MinusVoteRequiresTwoPlusVotes,
    CannotPlusAndMinusSameCandidate,
    PollAlreadyClosed,
    Unauthorized,
    AlreadyExists,
    DuplicateBallot,
}

impl VotingError {
    /// A short description of the error, for reporting outside the core.
    pub fn message(&self) -> &'static str {
        match self {
            VotingError::InvalidCandidateCount => "Poll must have between 3 and 8 candidates",
            VotingError::InvalidMaxVotes => "Max plus votes must be between 2 and 3",
            VotingError::QuestionTooLong => "Question is too long (max 200 characters)",
            VotingError::CandidateNameTooLong => "Candidate name is too long (max 50 characters)",
            VotingError::PollClosed => "Poll is closed",
            VotingError::TooManyPlusVotes => "Too many plus votes",
            VotingError::MustCastAtLeastOnePlusVote => "Must cast at least one plus vote",
            VotingError::DuplicateVote => "Cannot vote for the same candidate twice",
            VotingError::InvalidCandidateIndex => "Invalid candidate index",
            VotingError::MinusVoteNotAllowed => "Minus vote is not allowed for this poll",
            VotingError::MinusVoteRequiresTwoPlusVotes => "Minus vote requires at least two plus votes",
            VotingError::CannotPlusAndMinusSameCandidate => "Cannot cast plus and minus vote for same candidate",
            VotingError::PollAlreadyClosed => "Poll is already closed",
            VotingError::Unauthorized => "Unauthorized: Only poll creator can close poll",
            VotingError::AlreadyExists => "A record already exists under this key",
            VotingError::DuplicateBallot => "This voter has already cast a ballot on this poll",
        }
    }
}

} // verus!
