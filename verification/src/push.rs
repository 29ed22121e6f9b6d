//! Pushing one commit to a remote ref over protocol version 1.
//!
//! The push, too, is a state machine that touches no connection: its owner
//! performs each action and hands back what came of it.

use crate::object_id::{hex_text, null_bytes, ObjectId};
use crate::packet_line::{lossy_decoding, lossy_text, PacketLine, PacketLineView};
use crate::transport::Protocol;
use vstd::prelude::*;

verus! {

/// The failure of a push. A variant with a text carries the message of the
/// stage that failed, unchanged.
#[derive(Clone, Debug, PartialEq, Eq)]
pub enum Error {
    /// The remote could not be reached.
    Connecting(String),
    /// The object to push is no commit.
    ParsingCommit(String),
    /// The object to push could not be hashed.
    HashingCommit(String),
    /// A local read or write failed.
    IOError(String),
    /// The transport refused the request.
    GitClientError(String),
    /// A packet line of the server's report was malformed.
    ReadingPktLine(String),
    /// The push was handed an event that it did not ask for.
    OutOfTurn,
}

/// The mathematical value of an [`Error`].
pub enum ErrorView {
    Connecting(Seq<char>),
    ParsingCommit(Seq<char>),
    HashingCommit(Seq<char>),
    IOError(Seq<char>),
    GitClientError(Seq<char>),
    ReadingPktLine(Seq<char>),
    OutOfTurn,
}

impl View for Error {
    type V = ErrorView;

    open spec fn view(&self) -> ErrorView {
        match self {
            Error::Connecting(m) => ErrorView::Connecting(m@),
            Error::ParsingCommit(m) => ErrorView::ParsingCommit(m@),
            Error::HashingCommit(m) => ErrorView::HashingCommit(m@),
            Error::IOError(m) => ErrorView::IOError(m@),
            Error::GitClientError(m) => ErrorView::GitClientError(m@),
            Error::ReadingPktLine(m) => ErrorView::ReadingPktLine(m@),
            Error::OutOfTurn => ErrorView::OutOfTurn,
        }
    }
}

/// Whether `gix_object::CommitRef::from_bytes` takes `data` for a commit: `Ok`
/// if it does, else the text of its refusal.
pub uninterp spec fn commit_decoding(data: Seq<u8>) -> Result<(), Seq<char>>;

/// The value of a check's result.
pub open spec fn check_view(r: Result<(), String>) -> Result<(), Seq<char>> {
    match r {
        Ok(()) => Ok(()),
        Err(text) => Err(text@),
    }
}

/// Parses bytes as a commit with `gix_object::CommitRef::from_bytes` and drops
/// what was parsed. The contract names the outcome, which is to claim that it
/// depends on the bytes alone.
#[verifier::external_body]
fn check_commit(data: &[u8]) -> (r: Result<(), String>)
    ensures
        check_view(r) == commit_decoding(data@),
{
    match gix_object::CommitRef::from_bytes(data, gix_hash::Kind::Sha1) {
        Ok(_) => Ok(()),
        Err(e) => Err(e.to_string()),
    }
}

/// The identifier that `gix_object::compute_hash` gives to `data` taken as a
/// commit, or the text of its failure.
pub uninterp spec fn commit_hashing(data: Seq<u8>) -> Result<Seq<u8>, Seq<char>>;

/// The value of a hashing's result.
pub open spec fn hash_view(r: Result<[u8; 20], String>) -> Result<Seq<u8>, Seq<char>> {
    match r {
        Ok(bytes) => Ok(bytes@),
        Err(text) => Err(text@),
    }
}

/// Hashes bytes as a commit with `gix_object::compute_hash`. The contract
/// names the outcome, which is to claim that it depends on the bytes alone.
#[verifier::external_body]
fn hash_commit(data: &[u8]) -> (r: Result<[u8; 20], String>)
    ensures
        hash_view(r) == commit_hashing(data@),
{
    let id = gix_object::compute_hash(gix_hash::Kind::Sha1, gix_object::Kind::Commit, data)
        .map_err(|e| e.to_string())?;
    <[u8; 20]>::try_from(id.as_slice()).map_err(|e| e.to_string())
}

/// What a check and a hashing of one object come to: the refusal of the
/// check goes first, then the failure of the hashing.
pub open spec fn commit_id_of(
    checked: Result<(), Seq<char>>,
    hashed: Result<Seq<u8>, Seq<char>>,
) -> Result<Seq<u8>, ErrorView> {
    match checked {
        Err(text) => Err(ErrorView::ParsingCommit(text)),
        Ok(()) => match hashed {
            Err(text) => Err(ErrorView::HashingCommit(text)),
            Ok(id) => Ok(id),
        },
    }
}

/// The identifier under which `object` is pushed, or why it is not pushed.
pub open spec fn commit_identified(object: Seq<u8>) -> Result<Seq<u8>, ErrorView> {
    commit_id_of(commit_decoding(object), commit_hashing(object))
}

/// The value of an identification's result.
pub open spec fn identified_view(r: Result<ObjectId, Error>) -> Result<Seq<u8>, ErrorView> {
    match r {
        Ok(id) => Ok(id@),
        Err(e) => Err(e@),
    }
}

/// Judges the check and the hashing of one object. Fails with `ParsingCommit`
/// and the check's text if the check refused the object; else with
/// `HashingCommit` and the hashing's text if the hashing failed; else returns
/// the identifier.
pub fn commit_id_from(checked: Result<(), String>, hashed: Result<[u8; 20], String>) -> (r: Result<
    ObjectId,
    Error,
>)
    ensures
        identified_view(r) == commit_id_of(check_view(checked), hash_view(hashed)),
{
    match checked {
        Err(text) => Err(Error::ParsingCommit(text)),
        Ok(()) => match hashed {
            Err(text) => Err(Error::HashingCommit(text)),
            Ok(bytes) => Ok(ObjectId::from_bytes(bytes)),
        },
    }
}

/// Checks that `object` is a commit and computes its identifier. Fails with
/// `ParsingCommit` if the bytes do not parse as a commit, and with
/// `HashingCommit` if they parse and cannot be hashed.
pub fn identify_commit(object: &Vec<u8>) -> (r: Result<ObjectId, Error>)
    ensures
        identified_view(r) == commit_identified(object@),
{
    let checked = check_commit(object.as_slice());
    let hashed = hash_commit(object.as_slice());
    commit_id_from(checked, hashed)
}

/// A command that moves a ref from one object to another.
#[derive(Clone, Debug, PartialEq, Eq)]
pub struct RefUpdate {
    /// What the ref points to now; the null identifier for a ref to create.
    pub old: ObjectId,
    /// What the ref shall point to.
    pub new: ObjectId,
    /// The full name of the ref.
    pub name: Vec<u8>,
}

/// The mathematical value of a [`RefUpdate`].
pub struct RefUpdateView {
    pub old: Seq<u8>,
    pub new: Seq<u8>,
    pub name: Seq<u8>,
}

impl View for RefUpdate {
    type V = RefUpdateView;

    open spec fn view(&self) -> RefUpdateView {
        RefUpdateView { old: self.old@, new: self.new@, name: self.name@ }
    }
}

impl RefUpdateView {
    /// The command as one line of text: the old identifier, the new one and
    /// the ref's name, each in full and a blank between them, then a NUL byte
    /// and the list of capabilities, which is a single blank.
    pub open spec fn command(self) -> Seq<u8> {
        hex_text(self.old) + seq![32u8] + hex_text(self.new) + seq![32u8] + self.name + seq![
            0u8,
            32u8,
        ]
    }
}

impl RefUpdate {
    /// The command that creates the ref `name` at `new`.
    pub fn create(new: ObjectId, name: Vec<u8>) -> (update: RefUpdate)
        ensures
            update@ == (RefUpdateView { old: null_bytes(), new: new@, name: name@ }),
    {
        RefUpdate { old: ObjectId::null(), new, name }
    }

    /// The command as one line of text. Every identifier is written out as it
    /// is, the null identifier too: judging it is the server's part.
    pub fn command(&self) -> (line: Vec<u8>)
        ensures
            line@ == self@.command(),
    {
        let mut line = self.old.to_hex();
        line.push(32u8);
        let mut new = self.new.to_hex();
        line.append(&mut new);
        line.push(32u8);
        let mut i: usize = 0;
        while i < self.name.len()
            invariant
                i <= self.name@.len(),
                line@ == hex_text(self.old@) + seq![32u8] + hex_text(self.new@) + seq![32u8]
                    + self.name@.take(i as int),
            decreases self.name@.len() - i,
        {
            line.push(self.name[i]);
            assert(self.name@.take(i as int + 1) =~= self.name@.take(i as int).push(
                self.name@[i as int],
            ));
            i += 1;
        }
        assert(self.name@.take(i as int) =~= self.name@);
        line.push(0u8);
        line.push(32u8);
        assert(line@ =~= self@.command());
        line
    }
}

/// The marker that stands where the pack goes.
pub open spec fn pack_marker() -> Seq<u8> {
    seq![80u8, 65u8, 67u8, 75u8]
}

/// What is shown for a line of the server's report that is no data line.
pub open spec fn not_a_slice() -> Seq<u8> {
    seq![
        108u8, 105u8, 110u8, 101u8, 32u8, 119u8, 97u8, 115u8, 32u8, 110u8, 111u8, 116u8, 32u8,
        97u8, 32u8, 115u8, 108u8, 105u8, 99u8, 101u8,
    ]
}

/// The text shown for a line of the server's report: the line's own bytes,
/// unmodified, made into text.
pub open spec fn status_text(line: PacketLineView) -> Seq<char> {
    match line.data() {
        Some(data) => lossy_decoding(data),
        None => lossy_decoding(not_a_slice()),
    }
}

/// Whether `text` shows a line as it is: where the line holds well-formed
/// text, `text`, encoded, is the line's bytes.
pub open spec fn shows(line: PacketLineView, text: Seq<char>) -> bool {
    match line.data() {
        Some(data) => vstd::utf8::valid_utf8(data) ==> vstd::utf8::encode_utf8(text) == data,
        None => true,
    }
}

/// The text to show for a line of the server's report. What the server wrote
/// in well-formed text is shown as it is, byte for byte.
pub fn status_line(line: &PacketLine) -> (text: String)
    ensures
        text@ == status_text(line@),
        shows(line@, text@),
{
    match line.as_slice() {
        Some(data) => lossy_text(data),
        None => {
            let placeholder: Vec<u8> = vec![
                108u8, 105u8, 110u8, 101u8, 32u8, 119u8, 97u8, 115u8, 32u8, 110u8, 111u8, 116u8,
                32u8, 97u8, 32u8, 115u8, 108u8, 105u8, 99u8, 101u8,
            ];
            assert(placeholder@ =~= not_a_slice());
            lossy_text(&placeholder)
        },
    }
}

/// What the push waits for.
#[derive(Clone, Copy, Debug, PartialEq, Eq)]
pub enum PushState {
    /// The connection is being opened.
    Connecting,
    /// The request writer is being opened.
    OpeningRequest,
    /// The command is being sent.
    SendingCommand,
    /// The flush behind the command is being sent.
    SendingFlush,
    /// The pack is being sent.
    SendingPack,
    /// The next line of the server's report is being read.
    Draining,
    /// The push is over.
    Finished,
}

/// A push in progress.
#[derive(Clone, Debug, PartialEq, Eq)]
pub struct Push {
    /// The command to send.
    pub update: RefUpdate,
    /// What the push waits for.
    pub state: PushState,
}

/// What came of the action that the push asked for.
#[derive(Clone, Debug, PartialEq, Eq)]
pub enum PushEvent {
    /// The connection is open.
    Connected,
    /// The remote could not be reached.
    ConnectFailed(String),
    /// The request writer is open.
    RequestOpened,
    /// The transport refused the request.
    RequestFailed(String),
    /// What was to be sent is sent.
    Sent,
    /// Sending failed.
    SendFailed(String),
    /// A line of the report was read.
    Line(PacketLine),
    /// Reading a line failed.
    ReadFailed(String),
    /// A line was read and is malformed.
    LineMalformed(String),
    /// The report has ended.
    EndOfLines,
}

/// The mathematical value of a [`PushEvent`].
pub enum PushEventView {
    Connected,
    ConnectFailed(Seq<char>),
    RequestOpened,
    RequestFailed(Seq<char>),
    Sent,
    SendFailed(Seq<char>),
    Line(PacketLineView),
    ReadFailed(Seq<char>),
    LineMalformed(Seq<char>),
    EndOfLines,
}

impl View for PushEvent {
    type V = PushEventView;

    open spec fn view(&self) -> PushEventView {
        match self {
            PushEvent::Connected => PushEventView::Connected,
            PushEvent::ConnectFailed(m) => PushEventView::ConnectFailed(m@),
            PushEvent::RequestOpened => PushEventView::RequestOpened,
            PushEvent::RequestFailed(m) => PushEventView::RequestFailed(m@),
            PushEvent::Sent => PushEventView::Sent,
            PushEvent::SendFailed(m) => PushEventView::SendFailed(m@),
            PushEvent::Line(line) => PushEventView::Line(line@),
            PushEvent::ReadFailed(m) => PushEventView::ReadFailed(m@),
            PushEvent::LineMalformed(m) => PushEventView::LineMalformed(m@),
            PushEvent::EndOfLines => PushEventView::EndOfLines,
        }
    }
}

/// What the push asks its owner to do next.
#[derive(Clone, Debug, PartialEq, Eq)]
pub enum PushAction {
    /// Open a connection to the remote and ask for this protocol version.
    Connect(Protocol),
    /// Open a writer for the request, one line of text for each write.
    OpenRequest,
    /// Send these bytes as one line of text.
    SendText(Vec<u8>),
    /// Send a flush packet.
    SendFlush,
    /// Send these bytes as they are, outside any line.
    SendRaw(Vec<u8>),
    /// Read the next line of the server's report.
    ReadLine,
    /// Show this line of the server's report, then read the next.
    Report(String),
    /// End with success.
    Done,
    /// End with this failure.
    Fail(Error),
}

/// The mathematical value of a [`PushAction`].
pub enum PushActionView {
    Connect(Protocol),
    OpenRequest,
    SendText(Seq<u8>),
    SendFlush,
    SendRaw(Seq<u8>),
    ReadLine,
    Report(Seq<char>),
    Done,
    Fail(ErrorView),
}

impl View for PushAction {
    type V = PushActionView;

    open spec fn view(&self) -> PushActionView {
        match self {
            PushAction::Connect(version) => PushActionView::Connect(*version),
            PushAction::OpenRequest => PushActionView::OpenRequest,
            PushAction::SendText(bytes) => PushActionView::SendText(bytes@),
            PushAction::SendFlush => PushActionView::SendFlush,
            PushAction::SendRaw(bytes) => PushActionView::SendRaw(bytes@),
            PushAction::ReadLine => PushActionView::ReadLine,
            PushAction::Report(text) => PushActionView::Report(text@),
            PushAction::Done => PushActionView::Done,
            PushAction::Fail(e) => PushActionView::Fail(e@),
        }
    }
}

/// The end of a push that fails with `e`.
pub open spec fn push_failed(e: ErrorView) -> (PushState, PushActionView) {
    (PushState::Finished, PushActionView::Fail(e))
}

/// The push's transition: the state after `event` and the action to take.
///
/// The command goes out first, as a line of text, then a flush, then the
/// marker of the pack; after that the server's report is read to its end and
/// shown line by line. A failure of any step ends the push; nothing is tried
/// again.
pub open spec fn push_next(update: RefUpdateView, state: PushState, event: PushEventView) -> (
    PushState,
    PushActionView,
) {
    match state {
        PushState::Connecting => match event {
            PushEventView::Connected => (PushState::OpeningRequest, PushActionView::OpenRequest),
            PushEventView::ConnectFailed(text) => push_failed(ErrorView::Connecting(text)),
            _ => push_failed(ErrorView::OutOfTurn),
        },
        PushState::OpeningRequest => match event {
            PushEventView::RequestOpened => (
                PushState::SendingCommand,
                PushActionView::SendText(update.command()),
            ),
            PushEventView::RequestFailed(text) => push_failed(ErrorView::GitClientError(text)),
            _ => push_failed(ErrorView::OutOfTurn),
        },
        PushState::SendingCommand => match event {
            PushEventView::Sent => (PushState::SendingFlush, PushActionView::SendFlush),
            PushEventView::SendFailed(text) => push_failed(ErrorView::IOError(text)),
            _ => push_failed(ErrorView::OutOfTurn),
        },
        PushState::SendingFlush => match event {
            PushEventView::Sent => (PushState::SendingPack, PushActionView::SendRaw(pack_marker())),
            PushEventView::SendFailed(text) => push_failed(ErrorView::IOError(text)),
            _ => push_failed(ErrorView::OutOfTurn),
        },
        PushState::SendingPack => match event {
            PushEventView::Sent => (PushState::Draining, PushActionView::ReadLine),
            PushEventView::SendFailed(text) => push_failed(ErrorView::IOError(text)),
            _ => push_failed(ErrorView::OutOfTurn),
        },
        PushState::Draining => match event {
            PushEventView::Line(line) => (
                PushState::Draining,
                PushActionView::Report(status_text(line)),
            ),
            PushEventView::ReadFailed(text) => push_failed(ErrorView::IOError(text)),
            PushEventView::LineMalformed(text) => push_failed(ErrorView::ReadingPktLine(text)),
            PushEventView::EndOfLines => (PushState::Finished, PushActionView::Done),
            _ => push_failed(ErrorView::OutOfTurn),
        },
        PushState::Finished => push_failed(ErrorView::OutOfTurn),
    }
}

/// Starts the push of `update`: the first action is to connect and ask for
/// protocol version 1.
pub fn push_start(update: RefUpdate) -> (start: (Push, PushAction))
    ensures
        start.0.update@ == update@,
        start.0.state == PushState::Connecting,
        start.1@ == PushActionView::Connect(Protocol::V1),
{
    (Push { update, state: PushState::Connecting }, PushAction::Connect(Protocol::V1))
}

/// Advances the push by one event. The command stays the same throughout,
/// and a line of the server's report in well-formed text is shown as it is,
/// byte for byte.
pub fn push_step(push: Push, event: PushEvent) -> (next: (Push, PushAction))
    ensures
        next.0.update@ == push.update@,
        (next.0.state, next.1@) == push_next(push.update@, push.state, event@),
        push.state == PushState::Draining ==> (event@ matches PushEventView::Line(line) ==> (
        next.1@ matches PushActionView::Report(text) && shows(line, text))),
{
    let Push { update, state } = push;
    let (state, action) = match state {
        PushState::Connecting => match event {
            PushEvent::Connected => (PushState::OpeningRequest, PushAction::OpenRequest),
            PushEvent::ConnectFailed(text) => (
                PushState::Finished,
                PushAction::Fail(Error::Connecting(text)),
            ),
            _ => (PushState::Finished, PushAction::Fail(Error::OutOfTurn)),
        },
        PushState::OpeningRequest => match event {
            PushEvent::RequestOpened => (
                PushState::SendingCommand,
                PushAction::SendText(update.command()),
            ),
            PushEvent::RequestFailed(text) => (
                PushState::Finished,
                PushAction::Fail(Error::GitClientError(text)),
            ),
            _ => (PushState::Finished, PushAction::Fail(Error::OutOfTurn)),
        },
        PushState::SendingCommand => match event {
            PushEvent::Sent => (PushState::SendingFlush, PushAction::SendFlush),
            PushEvent::SendFailed(text) => (
                PushState::Finished,
                PushAction::Fail(Error::IOError(text)),
            ),
            _ => (PushState::Finished, PushAction::Fail(Error::OutOfTurn)),
        },
        PushState::SendingFlush => match event {
            PushEvent::Sent => {
                let marker: Vec<u8> = vec![80u8, 65u8, 67u8, 75u8];
                assert(marker@ =~= pack_marker());
                (PushState::SendingPack, PushAction::SendRaw(marker))
            },
            PushEvent::SendFailed(text) => (
                PushState::Finished,
                PushAction::Fail(Error::IOError(text)),
            ),
            _ => (PushState::Finished, PushAction::Fail(Error::OutOfTurn)),
        },
        PushState::SendingPack => match event {
            PushEvent::Sent => (PushState::Draining, PushAction::ReadLine),
            PushEvent::SendFailed(text) => (
                PushState::Finished,
                PushAction::Fail(Error::IOError(text)),
            ),
            _ => (PushState::Finished, PushAction::Fail(Error::OutOfTurn)),
        },
        PushState::Draining => match event {
            PushEvent::Line(line) => (PushState::Draining, PushAction::Report(status_line(&line))),
            PushEvent::ReadFailed(text) => (
                PushState::Finished,
                PushAction::Fail(Error::IOError(text)),
            ),
            PushEvent::LineMalformed(text) => (
                PushState::Finished,
                PushAction::Fail(Error::ReadingPktLine(text)),
            ),
            PushEvent::EndOfLines => (PushState::Finished, PushAction::Done),
            _ => (PushState::Finished, PushAction::Fail(Error::OutOfTurn)),
        },
        PushState::Finished => (PushState::Finished, PushAction::Fail(Error::OutOfTurn)),
    };
    (Push { update, state }, action)
}

} // verus!
