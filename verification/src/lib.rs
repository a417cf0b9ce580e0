//! The daily check-in on the V2EX forum, and the report of the account that a
//! Telegram bot delivers afterwards.
//!
//! The crate decides and computes; it performs no request. `workflow` holds the
//! run as a state machine that a driver steps through, `page` reads what the
//! run needs from the pages of the forum, `message` composes the report,
//! `config` and `client` check the settings, and `text` holds the operations on
//! text that the others share.

pub mod client;
pub mod config;
pub mod message;
pub mod page;
pub mod text;
pub mod workflow;
