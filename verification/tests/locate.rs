use git_single_object_fetch::cat_file::entry::{Entry, EntryKind};
use git_single_object_fetch::cat_file::locate::{locate, locate_step, Item, LocateStep};
use git_single_object_fetch::cat_file::Error;

fn entry(kind: EntryKind, pack_offset: u64) -> Entry {
    Entry {
        kind,
        pack_offset,
        header_size: 2,
        decompressed_size: 10,
        compressed: Some(vec![pack_offset as u8]),
        crc32: Some(7),
    }
}

#[test]
fn the_first_commit_in_arrival_order_is_found() {
    let items: Vec<Item> = vec![
        Ok(entry(EntryKind::Tree, 12)),
        Ok(entry(EntryKind::Commit, 40)),
        Ok(entry(EntryKind::Blob, 80)),
        Ok(entry(EntryKind::Commit, 120)),
    ];
    assert_eq!(locate(items), Ok(entry(EntryKind::Commit, 40)));
}

#[test]
fn the_match_may_stand_at_any_place() {
    for place in 0..3u64 {
        let items: Vec<Item> = (0..3u64)
            .map(|i| {
                Ok(entry(if i == place { EntryKind::Commit } else { EntryKind::Blob }, 12 + i))
            })
            .collect();
        assert_eq!(locate(items), Ok(entry(EntryKind::Commit, 12 + place)));
    }
}

#[test]
fn a_pack_without_a_commit_gives_not_found() {
    let items: Vec<Item> = vec![
        Ok(entry(EntryKind::Tree, 12)),
        Ok(entry(EntryKind::Blob, 40)),
        Ok(entry(EntryKind::Tag, 80)),
        Ok(entry(EntryKind::OfsDelta, 120)),
        Ok(entry(EntryKind::RefDelta, 160)),
    ];
    assert_eq!(locate(items), Err(Error::NoCommitFound));
}

#[test]
fn an_empty_pack_gives_not_found() {
    assert_eq!(locate(Vec::new()), Err(Error::NoCommitFound));
}

#[test]
fn a_decoding_failure_before_any_commit_ends_the_search() {
    let items: Vec<Item> = vec![
        Ok(entry(EntryKind::Tree, 12)),
        Err(String::from("pack is incomplete")),
        Ok(entry(EntryKind::Commit, 80)),
    ];
    assert_eq!(
        locate(items),
        Err(Error::IteratingPackEntries(String::from("pack is incomplete")))
    );
}

#[test]
fn a_decoding_failure_behind_the_commit_is_never_seen() {
    let items: Vec<Item> = vec![
        Ok(entry(EntryKind::Commit, 12)),
        Err(String::from("checksum mismatch")),
    ];
    assert_eq!(locate(items), Ok(entry(EntryKind::Commit, 12)));
}

#[test]
fn a_step_continues_on_what_is_no_commit() {
    for kind in [
        EntryKind::Tree,
        EntryKind::Blob,
        EntryKind::Tag,
        EntryKind::OfsDelta,
        EntryKind::RefDelta,
    ] {
        assert_eq!(locate_step(Some(Ok(entry(kind, 12)))), LocateStep::Continue);
    }
}

#[test]
fn a_step_stops_on_a_commit_with_the_entry() {
    let commit = entry(EntryKind::Commit, 99);
    assert_eq!(locate_step(Some(Ok(commit.clone()))), LocateStep::Found(commit));
}

#[test]
fn a_step_fails_on_a_decoding_failure_and_at_the_end() {
    assert_eq!(
        locate_step(Some(Err(String::from("bad header")))),
        LocateStep::Failed(Error::IteratingPackEntries(String::from("bad header")))
    );
    assert_eq!(locate_step(None), LocateStep::Failed(Error::NoCommitFound));
}

#[test]
fn is_commit_holds_of_commits_only() {
    assert!(entry(EntryKind::Commit, 1).is_commit());
    assert!(!entry(EntryKind::Tree, 1).is_commit());
    assert!(!entry(EntryKind::RefDelta, 1).is_commit());
}
