//! The fetch as a whole: connecting, negotiating, running the driver, the
//! decoder and the locator side by side, and turning what they return into the
//! object.
//!
//! Like the driver, the session is a state machine that touches nothing: its
//! owner performs each action and hands back what came of it.

use crate::cat_file::entry::{Entry, EntryView};
use crate::cat_file::error::{joined, Error, ErrorView, Joined};
use crate::cat_file::materialize::{materialize, materialized, object_view};
use crate::cat_file::request::{require_v2, version_check};
use crate::object_id::ObjectId;
use crate::transport::{Protocol, Service};
use vstd::prelude::*;

verus! {

/// The value of what joining the driver or the decoder yields.
pub open spec fn joined_unit(outcome: Joined<Result<(), Error>>) -> Result<(), ErrorView> {
    match outcome {
        Joined::Returned(Ok(())) => Ok(()),
        Joined::Returned(Err(e)) => Err(e@),
        Joined::Panicked => Err(ErrorView::ThreadPanicked),
    }
}

/// The value of what joining the locator yields.
pub open spec fn joined_locator(outcome: Joined<Result<Entry, Error>>) -> Result<
    EntryView,
    ErrorView,
> {
    match outcome {
        Joined::Returned(Ok(entry)) => Ok(entry@),
        Joined::Returned(Err(e)) => Err(e@),
        Joined::Panicked => Err(ErrorView::ThreadPanicked),
    }
}

/// What a fetch comes to once its three units have returned: the failure of
/// the driver if it failed, else that of the decoder, else that of the
/// locator, else what materializing the located entry gives.
pub open spec fn concluded(
    driver: Result<(), ErrorView>,
    decoder: Result<(), ErrorView>,
    locator: Result<EntryView, ErrorView>,
) -> Result<Seq<u8>, ErrorView> {
    match driver {
        Err(e) => Err(e),
        Ok(()) => match decoder {
            Err(e) => Err(e),
            Ok(()) => match locator {
                Err(e) => Err(e),
                Ok(entry) => materialized(entry),
            },
        },
    }
}

/// Joins the three units and materializes the commit that the locator found.
/// A unit that ended abnormally counts as failed with `ThreadPanicked`; the
/// driver's failure goes before the decoder's, and the decoder's before the
/// locator's.
pub fn conclude(
    driver: Joined<Result<(), Error>>,
    decoder: Joined<Result<(), Error>>,
    locator: Joined<Result<Entry, Error>>,
) -> (r: Result<Vec<u8>, Error>)
    ensures
        object_view(r) == concluded(
            joined_unit(driver),
            joined_unit(decoder),
            joined_locator(locator),
        ),
        r matches Ok(bytes) ==> locator matches Joined::Returned(Ok(entry)) && bytes@.len()
            == entry.decompressed_size,
{
    match joined(driver) {
        Err(e) => Err(e),
        Ok(()) => match joined(decoder) {
            Err(e) => Err(e),
            Ok(()) => match joined(locator) {
                Err(e) => Err(e),
                Ok(entry) => materialize(&entry),
            },
        },
    }
}

/// What the session waits for.
#[derive(Clone, Copy, Debug, PartialEq, Eq)]
pub enum SessionState {
    /// The connection is being opened.
    Connecting,
    /// The handshake is under way.
    Handshaking,
    /// The pipe between driver and decoder is being made.
    OpeningPipe,
    /// Driver, decoder and locator are running.
    Running,
    /// The object is being written out.
    Emitting,
    /// The fetch is over.
    Finished,
}

/// A fetch in progress.
#[derive(Clone, Copy, Debug, PartialEq, Eq)]
pub struct Session {
    /// The commit asked for.
    pub want: ObjectId,
    /// What the session waits for.
    pub state: SessionState,
}

/// What came of the action that the session asked for.
#[derive(Clone, Debug, PartialEq, Eq)]
pub enum SessionEvent {
    /// The connection is open.
    Connected,
    /// The remote could not be reached.
    ConnectFailed(String),
    /// The handshake is done, and negotiated this version.
    Handshaken(Protocol),
    /// The handshake was refused.
    HandshakeFailed(String),
    /// The pipe is there.
    PipeOpened,
    /// The pipe could not be made.
    PipeFailed(String),
    /// All units were joined: how the driver ended, how the decoder did, and
    /// how the locator did.
    UnitsJoined(Joined<Result<(), Error>>, Joined<Result<(), Error>>, Joined<Result<Entry, Error>>),
    /// The object was written out.
    Emitted,
    /// Writing the object out failed.
    EmitFailed(String),
}

/// The mathematical value of a [`SessionEvent`].
pub enum SessionEventView {
    Connected,
    ConnectFailed(Seq<char>),
    Handshaken(Protocol),
    HandshakeFailed(Seq<char>),
    PipeOpened,
    PipeFailed(Seq<char>),
    UnitsJoined(Result<(), ErrorView>, Result<(), ErrorView>, Result<EntryView, ErrorView>),
    Emitted,
    EmitFailed(Seq<char>),
}

impl View for SessionEvent {
    type V = SessionEventView;

    open spec fn view(&self) -> SessionEventView {
        match self {
            SessionEvent::Connected => SessionEventView::Connected,
            SessionEvent::ConnectFailed(m) => SessionEventView::ConnectFailed(m@),
            SessionEvent::Handshaken(actual) => SessionEventView::Handshaken(*actual),
            SessionEvent::HandshakeFailed(m) => SessionEventView::HandshakeFailed(m@),
            SessionEvent::PipeOpened => SessionEventView::PipeOpened,
            SessionEvent::PipeFailed(m) => SessionEventView::PipeFailed(m@),
            SessionEvent::UnitsJoined(driver, decoder, locator) => SessionEventView::UnitsJoined(
                joined_unit(*driver),
                joined_unit(*decoder),
                joined_locator(*locator),
            ),
            SessionEvent::Emitted => SessionEventView::Emitted,
            SessionEvent::EmitFailed(m) => SessionEventView::EmitFailed(m@),
        }
    }
}

/// What the session asks its owner to do next.
#[derive(Clone, Debug, PartialEq, Eq)]
pub enum SessionAction {
    /// Open a connection to the remote and ask for this protocol version.
    Connect(Protocol),
    /// Perform the handshake for this service.
    Handshake(Service),
    /// Make the pipe that carries the pack from the driver to the decoder.
    OpenPipe,
    /// Launch three units and join them: a driver for this commit, which
    /// writes to the pipe; the decoder, which reads from the pipe and fills an
    /// ordered queue; and the locator, which takes from that queue.
    RunUnits(ObjectId),
    /// Write these bytes, the whole object, to the output.
    Emit(Vec<u8>),
    /// End with success.
    Done,
    /// End with this failure, having written nothing of the object.
    Fail(Error),
}

/// The mathematical value of a [`SessionAction`].
pub enum SessionActionView {
    Connect(Protocol),
    Handshake(Service),
    OpenPipe,
    RunUnits(Seq<u8>),
    Emit(Seq<u8>),
    Done,
    Fail(ErrorView),
}

impl View for SessionAction {
    type V = SessionActionView;

    open spec fn view(&self) -> SessionActionView {
        match self {
            SessionAction::Connect(version) => SessionActionView::Connect(*version),
            SessionAction::Handshake(service) => SessionActionView::Handshake(*service),
            SessionAction::OpenPipe => SessionActionView::OpenPipe,
            SessionAction::RunUnits(want) => SessionActionView::RunUnits(want@),
            SessionAction::Emit(bytes) => SessionActionView::Emit(bytes@),
            SessionAction::Done => SessionActionView::Done,
            SessionAction::Fail(e) => SessionActionView::Fail(e@),
        }
    }
}

/// The end of a session that is handed an event that it did not ask for.
pub open spec fn session_derailed() -> (SessionState, SessionActionView) {
    (SessionState::Finished, SessionActionView::Fail(ErrorView::ThreadPanicked))
}

/// The session's transition: the state after `event` and the action to take.
pub open spec fn session_next(session: Session, event: SessionEventView) -> (
    SessionState,
    SessionActionView,
) {
    match session.state {
        SessionState::Connecting => match event {
            SessionEventView::Connected => (
                SessionState::Handshaking,
                SessionActionView::Handshake(Service::UploadPack),
            ),
            SessionEventView::ConnectFailed(text) => (
                SessionState::Finished,
                SessionActionView::Fail(ErrorView::Connecting(text)),
            ),
            _ => session_derailed(),
        },
        SessionState::Handshaking => match event {
            SessionEventView::Handshaken(actual) => match version_check(actual) {
                Ok(()) => (SessionState::OpeningPipe, SessionActionView::OpenPipe),
                Err(e) => (SessionState::Finished, SessionActionView::Fail(e)),
            },
            SessionEventView::HandshakeFailed(text) => (
                SessionState::Finished,
                SessionActionView::Fail(ErrorView::GitClientError(text)),
            ),
            _ => session_derailed(),
        },
        SessionState::OpeningPipe => match event {
            SessionEventView::PipeOpened => (
                SessionState::Running,
                SessionActionView::RunUnits(session.want@),
            ),
            SessionEventView::PipeFailed(text) => (
                SessionState::Finished,
                SessionActionView::Fail(ErrorView::IOError(text)),
            ),
            _ => session_derailed(),
        },
        SessionState::Running => match event {
            SessionEventView::UnitsJoined(driver, decoder, locator) => match concluded(
                driver,
                decoder,
                locator,
            ) {
                Ok(bytes) => (SessionState::Emitting, SessionActionView::Emit(bytes)),
                Err(e) => (SessionState::Finished, SessionActionView::Fail(e)),
            },
            _ => session_derailed(),
        },
        SessionState::Emitting => match event {
            SessionEventView::Emitted => (SessionState::Finished, SessionActionView::Done),
            SessionEventView::EmitFailed(text) => (
                SessionState::Finished,
                SessionActionView::Fail(ErrorView::IOError(text)),
            ),
            _ => session_derailed(),
        },
        SessionState::Finished => session_derailed(),
    }
}

/// Starts the fetch of the commit `want`: the first action is to connect and
/// ask for protocol version 2.
pub fn session_start(want: ObjectId) -> (start: (Session, SessionAction))
    ensures
        start.0 == (Session { want, state: SessionState::Connecting }),
        start.1@ == SessionActionView::Connect(Protocol::V2),
{
    (Session { want, state: SessionState::Connecting }, SessionAction::Connect(Protocol::V2))
}

/// Advances the fetch by one event. The commit asked for stays the same
/// throughout.
pub fn session_step(session: Session, event: SessionEvent) -> (next: (Session, SessionAction))
    ensures
        next.0.want == session.want,
        (next.0.state, next.1@) == session_next(session, event@),
{
    let want = session.want;
    let derailed = (
        Session { want, state: SessionState::Finished },
        SessionAction::Fail(Error::ThreadPanicked),
    );
    match session.state {
        SessionState::Connecting => match event {
            SessionEvent::Connected => (
                Session { want, state: SessionState::Handshaking },
                SessionAction::Handshake(Service::UploadPack),
            ),
            SessionEvent::ConnectFailed(text) => (
                Session { want, state: SessionState::Finished },
                SessionAction::Fail(Error::Connecting(text)),
            ),
            _ => derailed,
        },
        SessionState::Handshaking => match event {
            SessionEvent::Handshaken(actual) => match require_v2(actual) {
                Ok(()) => (Session { want, state: SessionState::OpeningPipe }, SessionAction::OpenPipe),
                Err(e) => (Session { want, state: SessionState::Finished }, SessionAction::Fail(e)),
            },
            SessionEvent::HandshakeFailed(text) => (
                Session { want, state: SessionState::Finished },
                SessionAction::Fail(Error::GitClientError(text)),
            ),
            _ => derailed,
        },
        SessionState::OpeningPipe => match event {
            SessionEvent::PipeOpened => (
                Session { want, state: SessionState::Running },
                SessionAction::RunUnits(want),
            ),
            SessionEvent::PipeFailed(text) => (
                Session { want, state: SessionState::Finished },
                SessionAction::Fail(Error::IOError(text)),
            ),
            _ => derailed,
        },
        SessionState::Running => match event {
            SessionEvent::UnitsJoined(driver, decoder, locator) => match conclude(
                driver,
                decoder,
                locator,
            ) {
                Ok(bytes) => (Session { want, state: SessionState::Emitting }, SessionAction::Emit(bytes)),
                Err(e) => (Session { want, state: SessionState::Finished }, SessionAction::Fail(e)),
            },
            _ => derailed,
        },
        SessionState::Emitting => match event {
            SessionEvent::Emitted => (
                Session { want, state: SessionState::Finished },
                SessionAction::Done,
            ),
            SessionEvent::EmitFailed(text) => (
                Session { want, state: SessionState::Finished },
                SessionAction::Fail(Error::IOError(text)),
            ),
            _ => derailed,
        },
        SessionState::Finished => derailed,
    }
}

/// Nothing of an object is written before all of it is there: the session
/// asks to write only after all units have returned without failure, and then
/// exactly the bytes that materializing the located entry gave, as many as the
/// entry declares.
pub proof fn lemma_emit_only_whole_object(session: Session, event: SessionEventView, bytes: Seq<u8>)
    requires
        session_next(session, event).1 == SessionActionView::Emit(bytes),
    ensures
        session.state == SessionState::Running,
        event matches SessionEventView::UnitsJoined(Ok(()), Ok(()), Ok(entry)) && materialized(entry)
            == Ok::<Seq<u8>, ErrorView>(bytes) && bytes.len() == entry.decompressed_size,
{
}

/// A failure of the driver is the failure of the fetch, with its kind and
/// text unchanged, whatever the decoder and the locator returned.
pub proof fn lemma_driver_failure_surfaces(
    session: Session,
    failure: ErrorView,
    decoder: Result<(), ErrorView>,
    locator: Result<EntryView, ErrorView>,
)
    requires
        session.state == SessionState::Running,
    ensures
        session_next(session, SessionEventView::UnitsJoined(Err(failure), decoder, locator)) == (
            SessionState::Finished,
            SessionActionView::Fail(failure),
        ),
{
}

} // verus!
