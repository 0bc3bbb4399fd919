pub mod counter;
pub mod errors;
pub mod identity;
pub mod laws;
pub mod ledger;
pub mod poll;
pub mod record;

pub use counter::PollCounter;
pub use errors::VotingError;
pub use identity::{Identity, PollKey};
pub use ledger::{
    cast_vote, close_poll, create_poll, get_ballot, get_counter, get_poll,
    initialize_poll_counter, CastVote, ClosePoll, CreatePoll, InitializePollCounter, VotingLedger,
};
pub use poll::Poll;
pub use record::VoteRecord;
