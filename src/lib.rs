//! Command execution core of a blockchain command-line client.
//!
//! The library holds no I/O. A command is turned into a session that asks its
//! caller for outside work through actions (request funds from a faucet, read
//! the clock, wait for a transaction, collect build information) and takes the
//! answers back as events, until it finishes with a typed result or a
//! classified error.
pub mod error;
pub mod text;
pub mod build_info;
pub mod fund;
pub mod session;
pub mod laws;

pub use build_info::BuildInfo;
pub use error::CliError;
pub use fund::{FundAccount, PendingTransactionId};
pub use session::{AccountTool, Action, Event, InfoTool, Output, Session, Tool};
