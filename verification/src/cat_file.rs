//! Retrieving one commit from a remote: a shallow, single-want fetch over
//! protocol version 2, whose pack is searched for the commit while it arrives.

pub mod decoder;
pub mod driver;
pub mod entry;
pub mod error;
pub mod locate;
pub mod materialize;
pub mod request;
pub mod session;

pub use error::Error;
