//! Fetching or pushing a single Git object over the smart protocol: the
//! protocol decisions, the band demultiplexer, the hand-off of decoded pack
//! entries, the commit locator and the object materializer, with their
//! contracts.

pub mod cat_file;
pub mod object_id;
pub mod packet_line;
pub mod push;
pub mod transport;
