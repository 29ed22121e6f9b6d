//! The one request that a fetch sends, and the checks on what the server
//! answers before the pack.

use crate::cat_file::error::{Error, ErrorView};
use crate::object_id::ObjectId;
use crate::transport::Protocol;
use vstd::prelude::*;

verus! {

/// A fetch request: what is wanted, how deep, and with which features.
#[derive(Clone, Debug, PartialEq, Eq)]
pub struct FetchRequest {
    /// The objects asked for.
    pub wants: Vec<ObjectId>,
    /// How many commits of history to ask for, counted from the wants.
    pub deepen: usize,
    /// Ask the server to send no progress text.
    pub no_progress: bool,
    /// Ask for a shallow history.
    pub shallow: bool,
}

/// The mathematical value of a [`FetchRequest`].
pub struct FetchRequestView {
    pub wants: Seq<Seq<u8>>,
    pub deepen: nat,
    pub no_progress: bool,
    pub shallow: bool,
}

impl View for FetchRequest {
    type V = FetchRequestView;

    open spec fn view(&self) -> FetchRequestView {
        FetchRequestView {
            wants: Seq::new(self.wants@.len(), |i: int| self.wants@[i]@),
            deepen: self.deepen as nat,
            no_progress: self.no_progress,
            shallow: self.shallow,
        }
    }
}

impl FetchRequestView {
    /// The request for one commit and nothing behind it: a single want, a depth
    /// of one, no progress text, shallow.
    pub open spec fn single(id: Seq<u8>) -> FetchRequestView {
        FetchRequestView { wants: seq![id], deepen: 1, no_progress: true, shallow: true }
    }

    /// What every request of this library satisfies: exactly one want, shallow
    /// by one.
    pub open spec fn well_formed(self) -> bool {
        &&& self.wants.len() == 1
        &&& self.deepen == 1
        &&& self.shallow
    }
}

impl FetchRequest {
    /// The request for the commit `id` alone.
    pub fn single(id: ObjectId) -> (request: FetchRequest)
        ensures
            request@ == FetchRequestView::single(id@),
            request@.well_formed(),
    {
        let mut wants: Vec<ObjectId> = Vec::new();
        wants.push(id);
        let request = FetchRequest { wants, deepen: 1, no_progress: true, shallow: true };
        assert(request@.wants =~= seq![id@]);
        request
    }
}

/// What a handshake's answer means for a fetch.
pub open spec fn version_check(actual: Protocol) -> Result<(), ErrorView> {
    if actual == Protocol::V2 {
        Ok(())
    } else {
        Err(ErrorView::UnsupportedServer)
    }
}

/// Accepts the protocol that the handshake negotiated if it is version 2, and
/// fails with `UnsupportedServer` for any other: the request of this library
/// has no form in the older versions.
pub fn require_v2(actual: Protocol) -> (r: Result<(), Error>)
    ensures
        match r {
            Ok(()) => version_check(actual) == Ok::<(), ErrorView>(()),
            Err(e) => version_check(actual) == Err::<(), ErrorView>(e@),
        },
{
    match actual {
        Protocol::V2 => Ok(()),
        _ => Err(Error::UnsupportedServer),
    }
}

} // verus!
