use git_single_object_fetch::cat_file::entry::{Entry, EntryKind};
use git_single_object_fetch::cat_file::materialize::{materialize, object_from_run, InflateStatus};
use git_single_object_fetch::cat_file::Error;

const COMMIT: &[u8] = b"tree 4b825dc642cb6eb9a060e54bf8d69288fbee4904\n\
author A U Thor <author@example.com> 1700000000 +0000\n\
committer C O Mitter <committer@example.com> 1700000000 +0000\n\
\n\
initial\n";

const COMPRESSED_COMMIT: [u8; 123] = [
    120, 156, 43, 41, 74, 77, 85, 48, 73, 178, 48, 50, 77, 73, 54, 51, 49, 74, 78, 50, 75, 77, 178,
    76, 52, 48, 51, 72, 53, 53, 73, 74, 179, 72, 49, 179, 52, 178, 176, 72, 75, 74, 77, 53, 177,
    52, 48, 225, 74, 44, 45, 201, 200, 47, 82, 112, 84, 8, 85, 8, 1, 49, 108, 32, 2, 14, 169, 21,
    137, 185, 5, 57, 169, 122, 201, 249, 185, 118, 10, 134, 230, 6, 80, 160, 160, 13, 34, 185,
    128, 162, 185, 153, 37, 37, 169, 69, 10, 206, 10, 254, 10, 190, 16, 166, 13, 92, 148, 128,
    110, 174, 204, 188, 204, 146, 204, 196, 28, 46, 0, 113, 168, 51, 113,
];

fn commit_entry(compressed: Option<Vec<u8>>, decompressed_size: u64) -> Entry {
    Entry {
        kind: EntryKind::Commit,
        pack_offset: 12,
        header_size: 2,
        decompressed_size,
        compressed,
        crc32: None,
    }
}

#[test]
fn a_commit_is_materialized_byte_for_byte() {
    let entry = commit_entry(Some(COMPRESSED_COMMIT.to_vec()), COMMIT.len() as u64);
    assert_eq!(materialize(&entry), Ok(COMMIT.to_vec()));
}

#[test]
fn a_materialized_commit_begins_with_its_tree() {
    let entry = commit_entry(Some(COMPRESSED_COMMIT.to_vec()), 171);
    let object = materialize(&entry).unwrap();
    assert_eq!(object.len(), 171);
    assert_eq!(&object[..5], b"tree ");
    assert!(object[5..45].iter().all(|b| b.is_ascii_hexdigit()));
    assert_eq!(object[45], b'\n');
}

#[test]
fn materializing_twice_gives_the_same_bytes() {
    let entry = commit_entry(Some(COMPRESSED_COMMIT.to_vec()), COMMIT.len() as u64);
    let first = materialize(&entry);
    let second = materialize(&entry);
    assert!(first.is_ok());
    assert_eq!(first, second);
    let broken = commit_entry(Some(vec![1, 2, 3]), 5);
    assert_eq!(materialize(&broken), materialize(&broken));
}

#[test]
fn fewer_bytes_than_declared_is_a_size_mismatch() {
    let entry = commit_entry(Some(COMPRESSED_COMMIT.to_vec()), COMMIT.len() as u64 + 1);
    assert_eq!(materialize(&entry), Err(Error::SizeMismatch));
}

#[test]
fn more_bytes_than_declared_is_a_size_mismatch() {
    let entry = commit_entry(Some(COMPRESSED_COMMIT.to_vec()), COMMIT.len() as u64 - 1);
    assert_eq!(materialize(&entry), Err(Error::SizeMismatch));
    let none_declared = commit_entry(Some(COMPRESSED_COMMIT.to_vec()), 0);
    assert_eq!(materialize(&none_declared), Err(Error::SizeMismatch));
}

#[test]
fn corrupt_bytes_fail_in_decompressing() {
    let entry = commit_entry(Some(vec![0xde, 0xad, 0xbe, 0xef, 0, 1, 2, 3]), 8);
    assert!(matches!(materialize(&entry), Err(Error::Decompressing(_))));
}

#[test]
fn a_flipped_byte_never_gives_an_object() {
    let mut compressed = COMPRESSED_COMMIT.to_vec();
    compressed[60] ^= 0x55;
    let entry = commit_entry(Some(compressed), COMMIT.len() as u64);
    assert!(matches!(
        materialize(&entry),
        Err(Error::Decompressing(_)) | Err(Error::SizeMismatch)
    ));
}

#[test]
fn a_truncated_stream_never_gives_an_object() {
    let compressed = COMPRESSED_COMMIT[..COMPRESSED_COMMIT.len() - 4].to_vec();
    let entry = commit_entry(Some(compressed), COMMIT.len() as u64);
    assert!(materialize(&entry).is_err());
    let entry = commit_entry(Some(COMPRESSED_COMMIT[..40].to_vec()), COMMIT.len() as u64);
    assert_eq!(materialize(&entry), Err(Error::SizeMismatch));
}

#[test]
fn missing_compressed_bytes_are_reported() {
    let entry = commit_entry(None, COMMIT.len() as u64);
    assert_eq!(materialize(&entry), Err(Error::MissingCompressedBytes));
}

#[test]
fn a_size_beyond_what_a_buffer_can_hold_is_a_bit_width_mismatch() {
    let entry = commit_entry(Some(COMPRESSED_COMMIT.to_vec()), u64::MAX);
    assert_eq!(materialize(&entry), Err(Error::BitWidthMismatch));
    let missing = commit_entry(None, u64::MAX);
    assert_eq!(materialize(&missing), Err(Error::BitWidthMismatch));
    let just_beyond = commit_entry(None, isize::MAX as u64 + 1);
    assert_eq!(materialize(&just_beyond), Err(Error::BitWidthMismatch));
}

#[test]
fn a_run_to_the_end_that_fills_the_buffer_is_the_object() {
    let run = Ok((InflateStatus::StreamEnd, 11, 3));
    assert_eq!(object_from_run(run, vec![7, 8, 9]), Ok(vec![7, 8, 9]));
    let empty = Ok((InflateStatus::StreamEnd, 8, 0));
    assert_eq!(object_from_run(empty, vec![]), Ok(vec![]));
}

#[test]
fn a_run_that_stops_short_or_goes_on_is_a_size_mismatch() {
    let short = Ok((InflateStatus::StreamEnd, 11, 2));
    assert_eq!(object_from_run(short, vec![7, 8, 0]), Err(Error::SizeMismatch));
    let going_on = Ok((InflateStatus::Ongoing, 11, 3));
    assert_eq!(object_from_run(going_on, vec![7, 8, 9]), Err(Error::SizeMismatch));
    let stuck = Ok((InflateStatus::BufError, 0, 0));
    assert_eq!(object_from_run(stuck, vec![]), Err(Error::SizeMismatch));
}

#[test]
fn a_failed_run_keeps_its_text() {
    let run = Err(String::from("stream error"));
    assert_eq!(
        object_from_run(run, vec![0, 0]),
        Err(Error::Decompressing(String::from("stream error")))
    );
}

#[test]
fn an_empty_object_is_materialized_as_empty() {
    let compressed = vec![120, 156, 3, 0, 0, 0, 0, 1];
    let entry = commit_entry(Some(compressed), 0);
    assert_eq!(materialize(&entry), Ok(vec![]));
}

#[test]
fn a_single_byte_is_materialized() {
    let compressed = vec![120, 156, 75, 4, 0, 0, 98, 0, 98];
    let entry = commit_entry(Some(compressed), 1);
    assert_eq!(materialize(&entry), Ok(vec![b'a']));
}
