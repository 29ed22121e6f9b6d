//! The pack decoder's unit: the one that opens the pack stream, asks it for
//! entry after entry and hands each to the locator through an ordered queue.
//!
//! Decoding itself is not done here. The unit is a state machine: its owner
//! performs what an action asks for and hands back what came of it as the next
//! event.

use crate::cat_file::error::{Error, ErrorView};
use crate::cat_file::locate::{item_view, Item, ItemView};
use vstd::prelude::*;

verus! {

/// What the decoder's unit waits for.
#[derive(Clone, Copy, Debug, PartialEq, Eq)]
pub enum DecoderState {
    /// The head of the pack is being read.
    Opening,
    /// The next entry is being decoded.
    AwaitingEntry,
    /// An entry is being put into the queue.
    AwaitingHandOff,
    /// The unit has returned.
    Finished,
}

/// What came of the action that the unit asked for.
#[derive(Debug, PartialEq, Eq)]
pub enum DecoderEvent {
    /// The head of the pack was read and is sound.
    Opened,
    /// The head of the pack could not be read or is malformed.
    OpenFailed(String),
    /// The stream yielded this: an entry, or the failure to decode one.
    Yielded(Item),
    /// The stream yields no more.
    Exhausted,
    /// The queue took what was handed to it.
    Handed,
    /// The locator has stopped taking from the queue.
    HandRefused,
}

/// The mathematical value of a [`DecoderEvent`].
pub enum DecoderEventView {
    Opened,
    OpenFailed(Seq<char>),
    Yielded(ItemView),
    Exhausted,
    Handed,
    HandRefused,
}

impl View for DecoderEvent {
    type V = DecoderEventView;

    open spec fn view(&self) -> DecoderEventView {
        match self {
            DecoderEvent::Opened => DecoderEventView::Opened,
            DecoderEvent::OpenFailed(m) => DecoderEventView::OpenFailed(m@),
            DecoderEvent::Yielded(item) => DecoderEventView::Yielded(item_view(*item)),
            DecoderEvent::Exhausted => DecoderEventView::Exhausted,
            DecoderEvent::Handed => DecoderEventView::Handed,
            DecoderEvent::HandRefused => DecoderEventView::HandRefused,
        }
    }
}

/// What the unit asks its owner to do next.
#[derive(Debug, PartialEq, Eq)]
pub enum DecoderAction {
    /// Read the head of the pack from the pipe. The stream is to be checked
    /// against its trailing checksum, and each entry is to come with its
    /// compressed bytes and their checksum.
    Open,
    /// Decode the next entry.
    Next,
    /// Put this into the queue, behind all that was put there before.
    Hand(Item),
    /// Return normally, and let go of the pipe.
    Done,
    /// Return with this failure, and let go of the pipe.
    Fail(Error),
}

/// The mathematical value of a [`DecoderAction`].
pub enum DecoderActionView {
    Open,
    Next,
    Hand(ItemView),
    Done,
    Fail(ErrorView),
}

impl View for DecoderAction {
    type V = DecoderActionView;

    open spec fn view(&self) -> DecoderActionView {
        match self {
            DecoderAction::Open => DecoderActionView::Open,
            DecoderAction::Next => DecoderActionView::Next,
            DecoderAction::Hand(item) => DecoderActionView::Hand(item_view(*item)),
            DecoderAction::Done => DecoderActionView::Done,
            DecoderAction::Fail(e) => DecoderActionView::Fail(e@),
        }
    }
}

/// The end that the unit comes to when it is handed an event that it did not
/// ask for, or any event after it has returned.
pub open spec fn decoder_derailed() -> (DecoderState, DecoderActionView) {
    (DecoderState::Finished, DecoderActionView::Fail(ErrorView::ThreadPanicked))
}

/// The unit's transition: the state after `event` and the action to take.
///
/// Whatever the stream yields goes into the queue as it is and in the order of
/// decoding, a failure to decode too: judging the entries is the locator's
/// part. A hand-off that the queue refuses is no failure: the locator stops
/// taking once it has its commit, and the unit then returns normally.
pub open spec fn decoder_next(state: DecoderState, event: DecoderEventView) -> (
    DecoderState,
    DecoderActionView,
) {
    match state {
        DecoderState::Opening => match event {
            DecoderEventView::Opened => (DecoderState::AwaitingEntry, DecoderActionView::Next),
            DecoderEventView::OpenFailed(text) => (
                DecoderState::Finished,
                DecoderActionView::Fail(ErrorView::IteratingPackEntries(text)),
            ),
            _ => decoder_derailed(),
        },
        DecoderState::AwaitingEntry => match event {
            DecoderEventView::Yielded(item) => (
                DecoderState::AwaitingHandOff,
                DecoderActionView::Hand(item),
            ),
            DecoderEventView::Exhausted => (DecoderState::Finished, DecoderActionView::Done),
            _ => decoder_derailed(),
        },
        DecoderState::AwaitingHandOff => match event {
            DecoderEventView::Handed => (DecoderState::AwaitingEntry, DecoderActionView::Next),
            DecoderEventView::HandRefused => (DecoderState::Finished, DecoderActionView::Done),
            _ => decoder_derailed(),
        },
        DecoderState::Finished => decoder_derailed(),
    }
}

/// Starts the unit: its first action is to open the pack stream.
pub fn decoder_start() -> (start: (DecoderState, DecoderAction))
    ensures
        start.0 == DecoderState::Opening,
        start.1@ == DecoderActionView::Open,
{
    (DecoderState::Opening, DecoderAction::Open)
}

/// Advances the unit by one event.
pub fn decoder_step(state: DecoderState, event: DecoderEvent) -> (next: (
    DecoderState,
    DecoderAction,
))
    ensures
        (next.0, next.1@) == decoder_next(state, event@),
{
    match state {
        DecoderState::Opening => match event {
            DecoderEvent::Opened => (DecoderState::AwaitingEntry, DecoderAction::Next),
            DecoderEvent::OpenFailed(text) => (
                DecoderState::Finished,
                DecoderAction::Fail(Error::IteratingPackEntries(text)),
            ),
            _ => (DecoderState::Finished, DecoderAction::Fail(Error::ThreadPanicked)),
        },
        DecoderState::AwaitingEntry => match event {
            DecoderEvent::Yielded(item) => (DecoderState::AwaitingHandOff, DecoderAction::Hand(item)),
            DecoderEvent::Exhausted => (DecoderState::Finished, DecoderAction::Done),
            _ => (DecoderState::Finished, DecoderAction::Fail(Error::ThreadPanicked)),
        },
        DecoderState::AwaitingHandOff => match event {
            DecoderEvent::Handed => (DecoderState::AwaitingEntry, DecoderAction::Next),
            DecoderEvent::HandRefused => (DecoderState::Finished, DecoderAction::Done),
            _ => (DecoderState::Finished, DecoderAction::Fail(Error::ThreadPanicked)),
        },
        DecoderState::Finished => (
            DecoderState::Finished,
            DecoderAction::Fail(Error::ThreadPanicked),
        ),
    }
}

/// The unit together with what it has put into the queue so far.
pub struct Decoding {
    pub state: DecoderState,
    /// What was handed to the queue, in the order of handing.
    pub handed: Seq<ItemView>,
    /// How the unit returned, once it has.
    pub outcome: Option<Result<(), ErrorView>>,
}

/// The unit before the pack is opened.
pub open spec fn fresh_decoding() -> Decoding {
    Decoding { state: DecoderState::Opening, handed: Seq::empty(), outcome: None }
}

/// A decoding after one more event.
pub open spec fn decoding_advance(run: Decoding, event: DecoderEventView) -> Decoding {
    let next = decoder_next(run.state, event);
    Decoding {
        state: next.0,
        handed: match next.1 {
            DecoderActionView::Hand(item) => run.handed.push(item),
            _ => run.handed,
        },
        outcome: match next.1 {
            DecoderActionView::Done => Some(Ok(())),
            DecoderActionView::Fail(e) => Some(Err(e)),
            _ => None,
        },
    }
}

/// A decoding after a sequence of events. Once the unit has returned, nothing
/// is handed to it any more.
pub open spec fn decoding_on(run: Decoding, events: Seq<DecoderEventView>) -> Decoding
    decreases events.len(),
{
    if events.len() == 0 || run.outcome is Some {
        run
    } else {
        decoding_on(decoding_advance(run, events[0]), events.skip(1))
    }
}

/// The events that the unit meets while the stream yields `items` to its end
/// and the queue takes every one of them.
pub open spec fn decoding_events(items: Seq<ItemView>) -> Seq<DecoderEventView>
    decreases items.len(),
{
    if items.len() == 0 {
        seq![DecoderEventView::Exhausted]
    } else {
        seq![DecoderEventView::Yielded(items[0]), DecoderEventView::Handed] + decoding_events(
            items.skip(1),
        )
    }
}

/// The queue is filled in the order of decoding: a unit that waits for an
/// entry and meets the events of `items` hands over exactly `items`, behind
/// what it has handed over before, and returns normally.
pub proof fn lemma_hands_over_in_order(run: Decoding, items: Seq<ItemView>)
    requires
        run.outcome is None,
        run.state == DecoderState::AwaitingEntry,
    ensures
        decoding_on(run, decoding_events(items)) == (Decoding {
            state: DecoderState::Finished,
            handed: run.handed + items,
            outcome: Some(Ok(())),
        }),
    decreases items.len(),
{
    let events = decoding_events(items);
    if items.len() == 0 {
        let ended = decoding_advance(run, DecoderEventView::Exhausted);
        assert(events.skip(1) =~= Seq::<DecoderEventView>::empty());
        assert(decoding_on(run, events) == decoding_on(ended, events.skip(1)));
        assert(run.handed + items =~= run.handed);
    } else {
        let rest = items.skip(1);
        let yielded = decoding_advance(run, DecoderEventView::Yielded(items[0]));
        let handed = decoding_advance(yielded, DecoderEventView::Handed);
        assert(events[0] == DecoderEventView::Yielded(items[0]));
        assert(events.skip(1)[0] == DecoderEventView::Handed);
        assert(events.skip(1).skip(1) =~= decoding_events(rest));
        assert(decoding_on(run, events) == decoding_on(yielded, events.skip(1)));
        assert(decoding_on(yielded, events.skip(1)) == decoding_on(handed, events.skip(1).skip(1)));
        lemma_hands_over_in_order(handed, rest);
        assert(run.handed.push(items[0]) + rest =~= run.handed + items);
    }
}

/// From the opening of a sound pack on, the locator is handed what the stream
/// yields, entry for entry and in the same order.
pub proof fn lemma_queue_keeps_the_order(items: Seq<ItemView>)
    ensures
        decoding_on(fresh_decoding(), seq![DecoderEventView::Opened] + decoding_events(items)) == (
        Decoding { state: DecoderState::Finished, handed: items, outcome: Some(Ok(())) }),
{
    let events = seq![DecoderEventView::Opened] + decoding_events(items);
    let opened = decoding_advance(fresh_decoding(), DecoderEventView::Opened);
    assert(events[0] == DecoderEventView::Opened);
    assert(events.skip(1) =~= decoding_events(items));
    assert(decoding_on(fresh_decoding(), events) == decoding_on(opened, events.skip(1)));
    lemma_hands_over_in_order(opened, items);
    assert(opened.handed + items =~= items);
}

/// Early stop: when the queue refuses a hand-off because the locator has
/// stopped, the unit returns normally at once, whatever the stream would
/// still yield.
pub proof fn lemma_refused_hand_off_stops(run: Decoding, after: Seq<DecoderEventView>)
    requires
        run.outcome is None,
        run.state == DecoderState::AwaitingHandOff,
    ensures
        decoding_on(run, seq![DecoderEventView::HandRefused] + after) == (Decoding {
            state: DecoderState::Finished,
            handed: run.handed,
            outcome: Some(Ok(())),
        }),
{
    let events = seq![DecoderEventView::HandRefused] + after;
    let stopped = decoding_advance(run, DecoderEventView::HandRefused);
    assert(events[0] == DecoderEventView::HandRefused);
    assert(decoding_on(run, events) == decoding_on(stopped, events.skip(1)));
}

} // verus!
