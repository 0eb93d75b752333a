//! An abort holder: at most one live cancellation token at a time.
//!
//! A holder hands out cancellation tokens one after another. Handing out a
//! new token retires the one before it, an explicit abort retires the current
//! one, and so does the teardown of whatever scope the holder lives in.
//!
//! The holder decides; a host carries out. Every operation returns the
//! cancellation that the host has to perform on its own controller objects,
//! and the holder's view records, for each token ever issued, whether that
//! cancellation has been ordered.

pub mod abort;
pub mod laws;
pub mod ledger;
pub mod token;

pub use abort::{create_abort, Abort, Issued};
pub use token::Token;
