use git_single_object_fetch::cat_file::decoder::{
    decoder_start, decoder_step, DecoderAction, DecoderEvent, DecoderState,
};
use git_single_object_fetch::cat_file::entry::{Entry, EntryKind};
use git_single_object_fetch::cat_file::locate::Item;
use git_single_object_fetch::cat_file::Error;

fn entry(kind: EntryKind, pack_offset: u64) -> Entry {
    Entry {
        kind,
        pack_offset,
        header_size: 2,
        decompressed_size: 10,
        compressed: Some(vec![pack_offset as u8]),
        crc32: Some(7),
    }
}

/// Steps a unit over what a stream yields while a queue that takes `room`
/// items is behind it, and returns what the queue holds and how the unit ended.
fn run(items: Vec<Item>, room: usize) -> (Vec<Item>, Result<(), Error>) {
    let mut source = items.into_iter();
    let mut queue = Vec::new();
    let (state, action) = decoder_start();
    assert_eq!((state, &action), (DecoderState::Opening, &DecoderAction::Open));
    let (mut state, mut action) = decoder_step(state, DecoderEvent::Opened);
    loop {
        let event = match action {
            DecoderAction::Next => match source.next() {
                Some(item) => DecoderEvent::Yielded(item),
                None => DecoderEvent::Exhausted,
            },
            DecoderAction::Hand(item) => {
                if queue.len() < room {
                    queue.push(item);
                    DecoderEvent::Handed
                } else {
                    DecoderEvent::HandRefused
                }
            }
            DecoderAction::Done => return (queue, Ok(())),
            DecoderAction::Fail(e) => return (queue, Err(e)),
            DecoderAction::Open => panic!("opened twice"),
        };
        (state, action) = decoder_step(state, event);
    }
}

#[test]
fn the_queue_holds_the_entries_in_the_order_of_decoding() {
    let items: Vec<Item> = vec![
        Ok(entry(EntryKind::Tree, 12)),
        Ok(entry(EntryKind::Commit, 40)),
        Ok(entry(EntryKind::Blob, 80)),
    ];
    assert_eq!(run(items.clone(), 10), (items, Ok(())));
}

#[test]
fn a_failure_to_decode_goes_through_the_queue_as_it_is() {
    let items: Vec<Item> = vec![Ok(entry(EntryKind::Tree, 12)), Err(String::from("truncated"))];
    assert_eq!(run(items.clone(), 10), (items, Ok(())));
}

#[test]
fn an_empty_pack_ends_the_unit_normally() {
    assert_eq!(run(vec![], 10), (vec![], Ok(())));
}

#[test]
fn a_refused_hand_off_is_a_quiet_stop() {
    let items: Vec<Item> = vec![
        Ok(entry(EntryKind::Commit, 12)),
        Ok(entry(EntryKind::Blob, 40)),
        Ok(entry(EntryKind::Blob, 80)),
    ];
    assert_eq!(run(items.clone(), 1), (items[..1].to_vec(), Ok(())));
    assert_eq!(
        decoder_step(DecoderState::AwaitingHandOff, DecoderEvent::HandRefused),
        (DecoderState::Finished, DecoderAction::Done)
    );
}

#[test]
fn a_pack_that_cannot_be_opened_fails_in_iterating() {
    assert_eq!(
        decoder_step(DecoderState::Opening, DecoderEvent::OpenFailed(String::from("bad header"))),
        (
            DecoderState::Finished,
            DecoderAction::Fail(Error::IteratingPackEntries(String::from("bad header")))
        )
    );
}

#[test]
fn the_steps_of_a_sound_decoding() {
    assert_eq!(
        decoder_step(DecoderState::Opening, DecoderEvent::Opened),
        (DecoderState::AwaitingEntry, DecoderAction::Next)
    );
    let item: Item = Ok(entry(EntryKind::Tag, 5));
    assert_eq!(
        decoder_step(DecoderState::AwaitingEntry, DecoderEvent::Yielded(item.clone())),
        (DecoderState::AwaitingHandOff, DecoderAction::Hand(item))
    );
    assert_eq!(
        decoder_step(DecoderState::AwaitingHandOff, DecoderEvent::Handed),
        (DecoderState::AwaitingEntry, DecoderAction::Next)
    );
    assert_eq!(
        decoder_step(DecoderState::AwaitingEntry, DecoderEvent::Exhausted),
        (DecoderState::Finished, DecoderAction::Done)
    );
}

#[test]
fn an_event_out_of_turn_ends_the_decoder_abnormally() {
    let derailed = || (DecoderState::Finished, DecoderAction::Fail(Error::ThreadPanicked));
    assert_eq!(decoder_step(DecoderState::Opening, DecoderEvent::Handed), derailed());
    assert_eq!(decoder_step(DecoderState::AwaitingEntry, DecoderEvent::Opened), derailed());
    assert_eq!(decoder_step(DecoderState::AwaitingHandOff, DecoderEvent::Exhausted), derailed());
    assert_eq!(decoder_step(DecoderState::Finished, DecoderEvent::Exhausted), derailed());
}
