//! The protocol driver: the unit that sends the request, reads the response
//! line by line and forwards the pack's bytes to the decoder.
//!
//! The driver itself touches no connection. It is a state machine: its owner
//! performs what an action asks for and hands back what came of it as the next
//! event.

use crate::cat_file::error::{Error, ErrorView};
use crate::cat_file::request::{FetchRequest, FetchRequestView};
use crate::object_id::ObjectId;
use crate::packet_line::{
    band_refusal, lossy_decoding, lossy_text, Frame, FrameView, PacketLine, PacketLineView,
};
use vstd::prelude::*;

verus! {

/// What the driver waits for.
#[derive(Clone, Copy, Debug, PartialEq, Eq)]
pub enum DriverState {
    /// The request is being sent.
    AwaitingSend,
    /// The head of the response is being read.
    AwaitingHeader,
    /// The next line of the pack stream is being read.
    AwaitingLine,
    /// Bytes of the pack are being handed to the decoder.
    AwaitingWrite,
    /// The driver has returned.
    Finished,
}

/// What came of the action that the driver asked for.
#[derive(Clone, Debug, PartialEq, Eq)]
pub enum DriverEvent {
    /// The request was sent.
    Sent,
    /// The transport refused the request.
    SendFailed(String),
    /// The head of the response was read; the flag tells whether a pack follows.
    Header(bool),
    /// The head of the response could not be understood.
    HeaderFailed(String),
    /// A line was read.
    Line(PacketLine),
    /// Reading a line failed.
    ReadFailed(String),
    /// A line was read and is malformed.
    LineMalformed(String),
    /// The stream has ended.
    EndOfLines,
    /// The decoder took the bytes.
    Written,
    /// The decoder has stopped reading.
    WriteRefused,
}

/// The mathematical value of a [`DriverEvent`].
pub enum DriverEventView {
    Sent,
    SendFailed(Seq<char>),
    Header(bool),
    HeaderFailed(Seq<char>),
    Line(PacketLineView),
    ReadFailed(Seq<char>),
    LineMalformed(Seq<char>),
    EndOfLines,
    Written,
    WriteRefused,
}

impl View for DriverEvent {
    type V = DriverEventView;

    open spec fn view(&self) -> DriverEventView {
        match self {
            DriverEvent::Sent => DriverEventView::Sent,
            DriverEvent::SendFailed(m) => DriverEventView::SendFailed(m@),
            DriverEvent::Header(has_pack) => DriverEventView::Header(*has_pack),
            DriverEvent::HeaderFailed(m) => DriverEventView::HeaderFailed(m@),
            DriverEvent::Line(line) => DriverEventView::Line(line@),
            DriverEvent::ReadFailed(m) => DriverEventView::ReadFailed(m@),
            DriverEvent::LineMalformed(m) => DriverEventView::LineMalformed(m@),
            DriverEvent::EndOfLines => DriverEventView::EndOfLines,
            DriverEvent::Written => DriverEventView::Written,
            DriverEvent::WriteRefused => DriverEventView::WriteRefused,
        }
    }
}

/// What the driver asks its owner to do next.
#[derive(Clone, Debug, PartialEq, Eq)]
pub enum DriverAction {
    /// Send this request, and say that no further round follows.
    Send(FetchRequest),
    /// Read the head of the response, up to where the pack begins.
    ReadHeader,
    /// Read the next line.
    ReadLine,
    /// Hand these bytes, all of them, to the decoder.
    Forward(Vec<u8>),
    /// Return normally.
    Done,
    /// Return with this failure.
    Fail(Error),
}

/// The mathematical value of a [`DriverAction`].
pub enum DriverActionView {
    Send(FetchRequestView),
    ReadHeader,
    ReadLine,
    Forward(Seq<u8>),
    Done,
    Fail(ErrorView),
}

impl View for DriverAction {
    type V = DriverActionView;

    open spec fn view(&self) -> DriverActionView {
        match self {
            DriverAction::Send(request) => DriverActionView::Send(request@),
            DriverAction::ReadHeader => DriverActionView::ReadHeader,
            DriverAction::ReadLine => DriverActionView::ReadLine,
            DriverAction::Forward(bytes) => DriverActionView::Forward(bytes@),
            DriverAction::Done => DriverActionView::Done,
            DriverAction::Fail(e) => DriverActionView::Fail(e@),
        }
    }
}

/// What the driver does with a frame: data goes to the decoder, progress is
/// dropped, and an error ends the fetch with the server's own text.
pub open spec fn on_frame(frame: FrameView) -> (DriverState, DriverActionView) {
    match frame {
        FrameView::Data(payload) => (DriverState::AwaitingWrite, DriverActionView::Forward(payload)),
        FrameView::Progress(_) => (DriverState::AwaitingLine, DriverActionView::ReadLine),
        FrameView::Error(payload) => (
            DriverState::Finished,
            DriverActionView::Fail(ErrorView::BadPack(lossy_decoding(payload))),
        ),
    }
}

/// What the driver does with a line of the pack stream.
pub open spec fn on_line(line: PacketLineView) -> (DriverState, DriverActionView) {
    match line.frame() {
        Some(frame) => on_frame(frame),
        None => (
            DriverState::Finished,
            DriverActionView::Fail(ErrorView::DecodingPackBand(band_refusal(line))),
        ),
    }
}

/// Whether an action ends the driver with `BadPack` and a text that, encoded,
/// is `payload` byte for byte.
pub open spec fn surfaces(action: DriverActionView, payload: Seq<u8>) -> bool {
    action matches DriverActionView::Fail(ErrorView::BadPack(text)) && vstd::utf8::encode_utf8(text)
        == payload
}

/// Whether an action surfaces the error frame among `frame`, where there is
/// one and its payload is well-formed text.
pub open spec fn surfaces_error(frame: Option<FrameView>, action: DriverActionView) -> bool {
    match frame {
        Some(FrameView::Error(payload)) => vstd::utf8::valid_utf8(payload) ==> surfaces(
            action,
            payload,
        ),
        _ => true,
    }
}

/// The end that a driver comes to when it is handed an event that it did not
/// ask for, or any event after it has returned.
pub open spec fn derailed() -> (DriverState, DriverActionView) {
    (DriverState::Finished, DriverActionView::Fail(ErrorView::ThreadPanicked))
}

/// The driver's transition: the state after `event` and the action to take.
pub open spec fn driver_next(state: DriverState, event: DriverEventView) -> (
    DriverState,
    DriverActionView,
) {
    match state {
        DriverState::AwaitingSend => match event {
            DriverEventView::Sent => (DriverState::AwaitingHeader, DriverActionView::ReadHeader),
            DriverEventView::SendFailed(text) => (
                DriverState::Finished,
                DriverActionView::Fail(ErrorView::GitClientError(text)),
            ),
            _ => derailed(),
        },
        DriverState::AwaitingHeader => match event {
            DriverEventView::Header(has_pack) => if has_pack {
                (DriverState::AwaitingLine, DriverActionView::ReadLine)
            } else {
                (DriverState::Finished, DriverActionView::Fail(ErrorView::ThreadPanicked))
            },
            DriverEventView::HeaderFailed(text) => (
                DriverState::Finished,
                DriverActionView::Fail(ErrorView::Fetching(text)),
            ),
            _ => derailed(),
        },
        DriverState::AwaitingLine => match event {
            DriverEventView::Line(line) => on_line(line),
            DriverEventView::ReadFailed(text) => (
                DriverState::Finished,
                DriverActionView::Fail(ErrorView::IOError(text)),
            ),
            DriverEventView::LineMalformed(text) => (
                DriverState::Finished,
                DriverActionView::Fail(ErrorView::ReadingPktLine(text)),
            ),
            DriverEventView::EndOfLines => (DriverState::Finished, DriverActionView::Done),
            _ => derailed(),
        },
        DriverState::AwaitingWrite => match event {
            DriverEventView::Written => (DriverState::AwaitingLine, DriverActionView::ReadLine),
            DriverEventView::WriteRefused => (DriverState::Finished, DriverActionView::Done),
            _ => derailed(),
        },
        DriverState::Finished => derailed(),
    }
}

/// Starts a driver for the commit `id`: its first action is to send the
/// request for that commit alone.
pub fn driver_start(id: ObjectId) -> (start: (DriverState, DriverAction))
    ensures
        start.0 == DriverState::AwaitingSend,
        start.1@ == DriverActionView::Send(FetchRequestView::single(id@)),
{
    (DriverState::AwaitingSend, DriverAction::Send(FetchRequest::single(id)))
}

/// Ends the driver with the text of an error frame.
pub fn server_error(text: String) -> (next: (DriverState, DriverAction))
    ensures
        next.0 == DriverState::Finished,
        next.1@ == DriverActionView::Fail(ErrorView::BadPack(text@)),
{
    (DriverState::Finished, DriverAction::Fail(Error::BadPack(text)))
}

/// Classifies a frame. Every frame falls under exactly one of three cases:
/// data is forwarded, progress is dropped and the next line read, an error
/// ends the driver with the frame's text, unchanged, as `BadPack`.
pub fn demux_frame(frame: Frame) -> (next: (DriverState, DriverAction))
    ensures
        (next.0, next.1@) == on_frame(frame@),
        match frame {
            Frame::Data(payload) => next.0 == DriverState::AwaitingWrite && next.1@
                == DriverActionView::Forward(payload@),
            Frame::Progress(_) => next.0 == DriverState::AwaitingLine && next.1@
                == DriverActionView::ReadLine,
            Frame::Error(payload) => next.0 == DriverState::Finished && next.1@
                == DriverActionView::Fail(ErrorView::BadPack(lossy_decoding(payload@))),
        },
        surfaces_error(Some(frame@), next.1@),
{
    match frame {
        Frame::Data(payload) => (DriverState::AwaitingWrite, DriverAction::Forward(payload)),
        Frame::Progress(_) => (DriverState::AwaitingLine, DriverAction::ReadLine),
        Frame::Error(payload) => server_error(lossy_text(&payload)),
    }
}

/// What the driver does once the band of a line was decoded.
pub open spec fn on_decoded(decoded: Result<FrameView, Seq<char>>) -> (
    DriverState,
    DriverActionView,
) {
    match decoded {
        Ok(frame) => on_frame(frame),
        Err(text) => (
            DriverState::Finished,
            DriverActionView::Fail(ErrorView::DecodingPackBand(text)),
        ),
    }
}

/// The value of a decoding's result.
pub open spec fn decoded_view(decoded: Result<Frame, String>) -> Result<FrameView, Seq<char>> {
    match decoded {
        Ok(frame) => Ok(frame@),
        Err(text) => Err(text@),
    }
}

/// Decides on a line whose band was decoded: classifies the frame if there is
/// one, and ends the driver with `DecodingPackBand` and the decoder's text if
/// there is none.
pub fn demux_decoded(decoded: Result<Frame, String>) -> (next: (DriverState, DriverAction))
    ensures
        (next.0, next.1@) == on_decoded(decoded_view(decoded)),
        decoded_view(decoded) matches Ok(frame) ==> surfaces_error(Some(frame), next.1@),
{
    match decoded {
        Ok(frame) => demux_frame(frame),
        Err(text) => (DriverState::Finished, DriverAction::Fail(Error::DecodingPackBand(text))),
    }
}

/// Decides on a line of the pack stream: decodes its band and classifies the
/// frame; a line without a band ends the driver with `DecodingPackBand`.
pub fn demux_line(line: PacketLine) -> (next: (DriverState, DriverAction))
    ensures
        (next.0, next.1@) == on_line(line@),
        surfaces_error(line@.frame(), next.1@),
{
    demux_decoded(line.decode_band())
}

/// Advances the driver by one event.
///
/// A write that the decoder refuses is no failure: the decoder stops reading
/// once the commit is found, and the driver then returns normally. A response
/// that announces no pack ends the driver as an abnormal end does, and so does
/// an event that the state did not ask for. The well-formed text of an error
/// frame is surfaced byte for byte.
pub fn driver_step(state: DriverState, event: DriverEvent) -> (next: (DriverState, DriverAction))
    ensures
        (next.0, next.1@) == driver_next(state, event@),
        state == DriverState::AwaitingLine ==> (event@ matches DriverEventView::Line(line)
            ==> surfaces_error(line.frame(), next.1@)),
{
    match state {
        DriverState::AwaitingSend => match event {
            DriverEvent::Sent => (DriverState::AwaitingHeader, DriverAction::ReadHeader),
            DriverEvent::SendFailed(text) => (
                DriverState::Finished,
                DriverAction::Fail(Error::GitClientError(text)),
            ),
            _ => (DriverState::Finished, DriverAction::Fail(Error::ThreadPanicked)),
        },
        DriverState::AwaitingHeader => match event {
            DriverEvent::Header(has_pack) => {
                if has_pack {
                    (DriverState::AwaitingLine, DriverAction::ReadLine)
                } else {
                    (DriverState::Finished, DriverAction::Fail(Error::ThreadPanicked))
                }
            },
            DriverEvent::HeaderFailed(text) => (
                DriverState::Finished,
                DriverAction::Fail(Error::Fetching(text)),
            ),
            _ => (DriverState::Finished, DriverAction::Fail(Error::ThreadPanicked)),
        },
        DriverState::AwaitingLine => match event {
            DriverEvent::Line(line) => demux_line(line),
            DriverEvent::ReadFailed(text) => (
                DriverState::Finished,
                DriverAction::Fail(Error::IOError(text)),
            ),
            DriverEvent::LineMalformed(text) => (
                DriverState::Finished,
                DriverAction::Fail(Error::ReadingPktLine(text)),
            ),
            DriverEvent::EndOfLines => (DriverState::Finished, DriverAction::Done),
            _ => (DriverState::Finished, DriverAction::Fail(Error::ThreadPanicked)),
        },
        DriverState::AwaitingWrite => match event {
            DriverEvent::Written => (DriverState::AwaitingLine, DriverAction::ReadLine),
            DriverEvent::WriteRefused => (DriverState::Finished, DriverAction::Done),
            _ => (DriverState::Finished, DriverAction::Fail(Error::ThreadPanicked)),
        },
        DriverState::Finished => (DriverState::Finished, DriverAction::Fail(Error::ThreadPanicked)),
    }
}

/// A driver together with what it has done so far.
#[derive(Clone, Debug, PartialEq, Eq)]
pub struct Run {
    /// What the driver waits for.
    pub state: DriverState,
    /// The bytes handed to the decoder so far, in the order of handing.
    pub forwarded: Vec<u8>,
    /// How the driver returned, once it has.
    pub outcome: Option<Result<(), Error>>,
}

/// The mathematical value of a [`Run`].
pub struct RunView {
    pub state: DriverState,
    pub forwarded: Seq<u8>,
    pub outcome: Option<Result<(), ErrorView>>,
}

impl View for Run {
    type V = RunView;

    open spec fn view(&self) -> RunView {
        RunView {
            state: self.state,
            forwarded: self.forwarded@,
            outcome: match self.outcome {
                None => None,
                Some(Ok(())) => Some(Ok(())),
                Some(Err(e)) => Some(Err(e@)),
            },
        }
    }
}

/// The values of a sequence of events.
pub open spec fn events_view(events: Seq<DriverEvent>) -> Seq<DriverEventView> {
    Seq::new(events.len(), |i: int| events[i]@)
}

/// The run of a driver whose request is on its way.
pub open spec fn fresh_run() -> RunView {
    RunView { state: DriverState::AwaitingSend, forwarded: Seq::empty(), outcome: None }
}

/// A run after one more event.
pub open spec fn advance(run: RunView, event: DriverEventView) -> RunView {
    let next = driver_next(run.state, event);
    RunView {
        state: next.0,
        forwarded: match next.1 {
            DriverActionView::Forward(bytes) => run.forwarded + bytes,
            _ => run.forwarded,
        },
        outcome: match next.1 {
            DriverActionView::Done => Some(Ok(())),
            DriverActionView::Fail(e) => Some(Err(e)),
            _ => None,
        },
    }
}

/// A run after a sequence of events. Once the driver has returned, nothing is
/// handed to it any more: what follows in `events` is left unread.
pub open spec fn run_on(run: RunView, events: Seq<DriverEventView>) -> RunView
    decreases events.len(),
{
    if events.len() == 0 || run.outcome is Some {
        run
    } else {
        run_on(advance(run, events[0]), events.skip(1))
    }
}

/// Runs a driver over recorded events, from the sending of the request on.
pub fn replay(events: Vec<DriverEvent>) -> (run: Run)
    ensures
        run@ == run_on(fresh_run(), events_view(events@)),
{
    let ghost all = events_view(events@);
    let mut run = Run { state: DriverState::AwaitingSend, forwarded: Vec::new(), outcome: None };
    assert(run@.forwarded =~= fresh_run().forwarded);
    assert(all.skip(0) =~= all);
    for event in it: events
        invariant
            all == events_view(it.seq()),
            run@.outcome is None,
            run_on(fresh_run(), all) == run_on(run@, all.skip(it.index() as int)),
    {
        let ghost before = run@;
        let ghost rest = all.skip(it.index() as int);
        assert(rest[0] == event@);
        assert(rest.skip(1) =~= all.skip(it.index() + 1));
        let (state, action) = driver_step(run.state, event);
        run.state = state;
        match action {
            DriverAction::Forward(bytes) => {
                let mut bytes = bytes;
                run.forwarded.append(&mut bytes);
            },
            DriverAction::Done => {
                run.outcome = Some(Ok(()));
            },
            DriverAction::Fail(e) => {
                run.outcome = Some(Err(e));
            },
            _ => {},
        }
        assert(run@ == advance(before, event@));
        if run.outcome.is_some() {
            return run;
        }
    }
    run
}

/// Running over two sequences of events one after the other is running over
/// their concatenation.
pub proof fn lemma_run_concat(run: RunView, first: Seq<DriverEventView>, second: Seq<DriverEventView>)
    ensures
        run_on(run, first + second) == run_on(run_on(run, first), second),
    decreases first.len(),
{
    if first.len() == 0 {
        assert(first + second =~= second);
    } else if run.outcome is Some {
        lemma_run_returned(run, second);
    } else {
        assert((first + second)[0] == first[0]);
        assert((first + second).skip(1) =~= first.skip(1) + second);
        lemma_run_concat(advance(run, first[0]), first.skip(1), second);
    }
}

/// A driver that has returned stays as it is, whatever is held out to it.
pub proof fn lemma_run_returned(run: RunView, events: Seq<DriverEventView>)
    requires
        run.outcome is Some,
    ensures
        run_on(run, events) == run,
{
}

/// An error frame ends the fetch at once: whatever the driver has done before
/// and whatever the server sends after, the driver returns with `BadPack` and
/// the frame's own text, and hands the decoder nothing more.
pub proof fn lemma_error_frame_short_circuits(
    before: Seq<DriverEventView>,
    line: PacketLineView,
    payload: Seq<u8>,
    after: Seq<DriverEventView>,
)
    requires
        run_on(fresh_run(), before).outcome is None,
        run_on(fresh_run(), before).state == DriverState::AwaitingLine,
        line.frame() == Some(FrameView::Error(payload)),
    ensures
        run_on(fresh_run(), before + seq![DriverEventView::Line(line)] + after) == (RunView {
            state: DriverState::Finished,
            forwarded: run_on(fresh_run(), before).forwarded,
            outcome: Some(Err(ErrorView::BadPack(lossy_decoding(payload)))),
        }),
{
    let reached = run_on(fresh_run(), before);
    let event = DriverEventView::Line(line);
    lemma_run_concat(fresh_run(), before + seq![event], after);
    lemma_run_concat(fresh_run(), before, seq![event]);
    assert(seq![event].skip(1) =~= Seq::<DriverEventView>::empty());
    assert(run_on(reached, seq![event]) == run_on(advance(reached, event), seq![event].skip(1)));
    lemma_run_returned(advance(reached, event), after);
}

/// Early stop: when the decoder refuses a write because it has stopped
/// reading, the driver returns normally, asks for nothing more and ignores
/// whatever the server still sends.
pub proof fn lemma_refused_write_stops(before: Seq<DriverEventView>, after: Seq<DriverEventView>)
    requires
        run_on(fresh_run(), before).outcome is None,
        run_on(fresh_run(), before).state == DriverState::AwaitingWrite,
    ensures
        run_on(fresh_run(), before + seq![DriverEventView::WriteRefused] + after) == (RunView {
            state: DriverState::Finished,
            forwarded: run_on(fresh_run(), before).forwarded,
            outcome: Some(Ok(())),
        }),
{
    let reached = run_on(fresh_run(), before);
    let event = DriverEventView::WriteRefused;
    lemma_run_concat(fresh_run(), before + seq![event], after);
    lemma_run_concat(fresh_run(), before, seq![event]);
    assert(seq![event].skip(1) =~= Seq::<DriverEventView>::empty());
    assert(run_on(reached, seq![event]) == run_on(advance(reached, event), seq![event].skip(1)));
    lemma_run_returned(advance(reached, event), after);
}

/// What demultiplexing makes of a recorded stream of lines that ends cleanly,
/// when the decoder takes every byte: the bytes for the decoder, which are the
/// payloads of the data frames in the order of arrival, up to the first line
/// that fails; and how the driver returns.
pub open spec fn demuxed(lines: Seq<PacketLineView>) -> (Seq<u8>, Result<(), ErrorView>)
    decreases lines.len(),
{
    if lines.len() == 0 {
        (Seq::empty(), Ok(()))
    } else {
        match on_line(lines[0]).1 {
            DriverActionView::Forward(bytes) => {
                let rest = demuxed(lines.skip(1));
                (bytes + rest.0, rest.1)
            },
            DriverActionView::Fail(e) => (Seq::empty(), Err(e)),
            _ => demuxed(lines.skip(1)),
        }
    }
}

/// The events that a driver meets while it reads `lines` to their clean end
/// and the decoder takes every write.
pub open spec fn stream_events(lines: Seq<PacketLineView>) -> Seq<DriverEventView>
    decreases lines.len(),
{
    if lines.len() == 0 {
        seq![DriverEventView::EndOfLines]
    } else if on_line(lines[0]).1 is Forward {
        seq![DriverEventView::Line(lines[0]), DriverEventView::Written] + stream_events(
            lines.skip(1),
        )
    } else {
        seq![DriverEventView::Line(lines[0])] + stream_events(lines.skip(1))
    }
}

/// A driver that reads a stream hands the decoder what [`demuxed`] says, after
/// what it has handed over before, and returns as [`demuxed`] says.
pub proof fn lemma_stream_is_demuxed(run: RunView, lines: Seq<PacketLineView>)
    requires
        run.outcome is None,
        run.state == DriverState::AwaitingLine,
    ensures
        run_on(run, stream_events(lines)) == (RunView {
            state: DriverState::Finished,
            forwarded: run.forwarded + demuxed(lines).0,
            outcome: Some(demuxed(lines).1),
        }),
    decreases lines.len(),
{
    let events = stream_events(lines);
    if lines.len() == 0 {
        let ended = advance(run, DriverEventView::EndOfLines);
        assert(events.skip(1) =~= Seq::<DriverEventView>::empty());
        assert(run_on(run, events) == run_on(ended, events.skip(1)));
        assert(run.forwarded + demuxed(lines).0 =~= run.forwarded);
    } else {
        let rest = lines.skip(1);
        let read = advance(run, DriverEventView::Line(lines[0]));
        assert(events[0] == DriverEventView::Line(lines[0]));
        assert(run_on(run, events) == run_on(read, events.skip(1)));
        match on_line(lines[0]).1 {
            DriverActionView::Forward(bytes) => {
                let written = advance(read, DriverEventView::Written);
                assert(events.skip(1)[0] == DriverEventView::Written);
                assert(events.skip(1).skip(1) =~= stream_events(rest));
                assert(run_on(read, events.skip(1)) == run_on(written, events.skip(1).skip(1)));
                lemma_stream_is_demuxed(written, rest);
                assert(run.forwarded + (bytes + demuxed(rest).0) =~= (run.forwarded + bytes)
                    + demuxed(rest).0);
            },
            DriverActionView::Fail(e) => {
                assert(events.skip(1) =~= stream_events(rest));
                lemma_run_returned(read, events.skip(1));
                assert(run.forwarded + demuxed(lines).0 =~= run.forwarded);
            },
            _ => {
                assert(events.skip(1) =~= stream_events(rest));
                lemma_stream_is_demuxed(read, rest);
            },
        }
    }
}

/// The bytes of the pack reach the decoder in the order in which the server
/// sent them: a fetch whose request is accepted and answered with a pack
/// forwards exactly what [`demuxed`] makes of the lines that follow.
pub proof fn lemma_fetch_forwards_in_order(lines: Seq<PacketLineView>)
    ensures
        run_on(
            fresh_run(),
            seq![DriverEventView::Sent, DriverEventView::Header(true)] + stream_events(lines),
        ) == (RunView {
            state: DriverState::Finished,
            forwarded: demuxed(lines).0,
            outcome: Some(demuxed(lines).1),
        }),
{
    let head = seq![DriverEventView::Sent, DriverEventView::Header(true)];
    let sent = advance(fresh_run(), DriverEventView::Sent);
    let answered = advance(sent, DriverEventView::Header(true));
    lemma_run_concat(fresh_run(), head, stream_events(lines));
    assert(head.skip(1)[0] == DriverEventView::Header(true));
    assert(head.skip(1).skip(1) =~= Seq::<DriverEventView>::empty());
    assert(run_on(fresh_run(), head) == run_on(sent, head.skip(1)));
    assert(run_on(sent, head.skip(1)) == run_on(answered, head.skip(1).skip(1)));
    lemma_stream_is_demuxed(answered, lines);
    assert(answered.forwarded + demuxed(lines).0 =~= demuxed(lines).0);
}

} // verus!
