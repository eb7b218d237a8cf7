//! Coordinator for a multi-round word-guessing game.
//!
//! Many independent players play against one external guess-checking
//! service. Every exchange with that service is an asynchronous
//! request/reply pair, so the coordinator is written as a pure state
//! machine: each entry point takes the identifiers the host assigns to
//! messages, decides on the next session state, and returns the commands
//! (send, reply, suspend, wake, schedule a timeout) the host must carry
//! out. The host loop itself lives outside this crate.

pub mod laws;
pub mod protocol;
pub mod session;

pub use protocol::{
    check_word_format, ActorId, Command, GameSessionAction, GameSessionEvent, GameSessionInit,
    GameSessionState, GameStatus, HandleError, InitError, MessageId, SessionInfo, SessionStatus,
    WordleAction, WordleEvent, TIMEOUT_DELAY_BLOCKS, TRIES_LIMIT,
};
pub use session::{init, GameSession};

