//! Engine of a terminal-driven HTTP load generator.
//!
//! The library holds everything the tool decides and computes: the bounded
//! log buffer, the shared run state with its control surface, the paced
//! dispatch state machine, payload and correlation-id generation, outcome
//! classification, and the text-field editing rules. The surrounding
//! binary only performs terminal and network I/O on the library's behalf.

pub mod config;
pub mod dispatch;
pub mod editor;
pub mod logbuf;
pub mod numtext;
pub mod request;
pub mod state;

pub use config::Protocol;
pub use config::RunConfig;
pub use logbuf::LogBuffer;
pub use state::AppState;
