//! Retry decisions and a resumable download, kept apart from the network that they steer.
//!
//! - [`error`] has the errors of a failed request, as far as the decisions tell them apart.
//! - [`retry`] says which failures are worth another try and keeps the budget of tries.
//! - [`response`] has what is read of a response before its body.
//! - [`resumable_reader`] steers a download that goes on where a lost connection left off.
//! - [`text`] reads and writes the numbers in headers and messages.
//! - [`laws`] states what holds of these together.
//! - [`trusted`] has the calls into other crates and into the clock.

pub mod error;
pub mod laws;
pub mod response;
pub mod resumable_reader;
pub mod retry;
pub mod text;
pub mod trusted;
