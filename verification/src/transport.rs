//! What a connection is asked for and what it negotiated.

use vstd::prelude::*;

verus! {

/// The version of the way client and server talk.
#[derive(Clone, Copy, Debug, PartialEq, Eq)]
pub enum Protocol {
    V0,
    V1,
    V2,
}

/// The service that a connection invokes on the remote.
#[derive(Clone, Copy, Debug, PartialEq, Eq)]
pub enum Service {
    /// The remote sends a pack: used to fetch.
    UploadPack,
    /// The remote receives a pack: used to push.
    ReceivePack,
}

} // verus!
