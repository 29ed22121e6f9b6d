//! Turning the located entry into the object's bytes.

use crate::cat_file::entry::{Entry, EntryView};
use crate::cat_file::error::{Error, ErrorView};
use gix_features::zlib::{Inflate, Status};
use vstd::prelude::*;

verus! {

/// How one run of the decompressor ended.
#[derive(Clone, Copy, Debug, PartialEq, Eq)]
pub enum InflateStatus {
    /// Progress was made and the stream goes on.
    Ongoing,
    /// No progress was possible with the buffers given.
    BufError,
    /// The stream was decompressed to its end.
    StreamEnd,
}

/// What one run of `gix_features::zlib::Inflate::once` on a fresh decompressor
/// yields for the compressed bytes `input` and an output buffer with room for
/// `room` bytes: the status, the numbers of bytes consumed and produced, and
/// the bytes produced; or the text of the failure.
pub uninterp spec fn inflate_once(input: Seq<u8>, room: nat) -> Result<
    (InflateStatus, nat, nat, Seq<u8>),
    Seq<char>,
>;

/// Runs `gix_features::zlib::Inflate::once` on a fresh decompressor. The
/// contract claims that the buffer keeps its length and that no more bytes are
/// produced than it has room for. It names the status, the two counts and the
/// bytes produced, which stand at the head of the buffer; that is to claim
/// that they depend on the input and on the room alone. Of the buffer behind
/// the bytes produced it claims nothing.
#[verifier::external_body]
fn run_inflate(input: &[u8], out: &mut Vec<u8>) -> (r: Result<(InflateStatus, usize, usize), String>)
    ensures
        final(out)@.len() == old(out)@.len(),
        match r {
            Ok((status, consumed, produced)) => produced <= final(out)@.len() && inflate_once(
                input@,
                old(out)@.len(),
            ) == Ok::<(InflateStatus, nat, nat, Seq<u8>), Seq<char>>(
                (status, consumed as nat, produced as nat, final(out)@.take(produced as int)),
            ),
            Err(text) => inflate_once(input@, old(out)@.len()) == Err::<
                (InflateStatus, nat, nat, Seq<u8>),
                Seq<char>,
            >(text@),
        },
{
    match Inflate::default().once(input, out) {
        Ok((Status::Ok, consumed, produced)) => Ok((InflateStatus::Ongoing, consumed, produced)),
        Ok((Status::BufError, consumed, produced)) => Ok((InflateStatus::BufError, consumed, produced)),
        Ok((Status::StreamEnd, consumed, produced)) => Ok((InflateStatus::StreamEnd, consumed, produced)),
        Err(e) => Err(e.to_string()),
    }
}

/// The value of a run: its result, with the bytes produced taken from the head
/// of the buffer that the run wrote to.
pub open spec fn run_view(
    outcome: Result<(InflateStatus, usize, usize), String>,
    buffer: Seq<u8>,
) -> Result<(InflateStatus, nat, nat, Seq<u8>), Seq<char>> {
    match outcome {
        Ok((status, consumed, produced)) => Ok(
            (status, consumed as nat, produced as nat, buffer.take(produced as int)),
        ),
        Err(text) => Err(text@),
    }
}

/// What a run of the decompressor with room for `size` bytes gives: the bytes
/// produced are the object if the run reached the end of the stream and
/// produced exactly `size` bytes, no less and no more.
pub open spec fn object_of_run(
    size: nat,
    run: Result<(InflateStatus, nat, nat, Seq<u8>), Seq<char>>,
) -> Result<Seq<u8>, ErrorView> {
    match run {
        Err(text) => Err(ErrorView::Decompressing(text)),
        Ok((status, consumed, produced, bytes)) => if status == InflateStatus::StreamEnd
            && produced == size && bytes.len() == produced {
            Ok(bytes)
        } else {
            Err(ErrorView::SizeMismatch)
        },
    }
}

/// The object that an entry holds, or why it cannot be had. The compressed
/// bytes are inflated in one run with room for exactly the declared size,
/// which has to be a size that a buffer of this machine can have.
pub open spec fn materialized(entry: EntryView) -> Result<Seq<u8>, ErrorView> {
    if entry.decompressed_size > isize::MAX {
        Err(ErrorView::BitWidthMismatch)
    } else {
        match entry.compressed {
            None => Err(ErrorView::MissingCompressedBytes),
            Some(compressed) => object_of_run(
                entry.decompressed_size as nat,
                inflate_once(compressed, entry.decompressed_size as nat),
            ),
        }
    }
}

/// The value of a materialization's result.
pub open spec fn object_view(r: Result<Vec<u8>, Error>) -> Result<Seq<u8>, ErrorView> {
    match r {
        Ok(bytes) => Ok(bytes@),
        Err(e) => Err(e@),
    }
}

/// Judges one run of the decompressor into `buffer`.
///
/// Returns the buffer as the object if the run ended the stream and produced
/// as many bytes as the buffer holds. Fails with `Decompressing` and the
/// decompressor's text if the run failed, and with `SizeMismatch` if the
/// stream holds fewer bytes than the buffer or more.
pub fn object_from_run(outcome: Result<(InflateStatus, usize, usize), String>, buffer: Vec<u8>) -> (r:
    Result<Vec<u8>, Error>)
    ensures
        object_view(r) == object_of_run(buffer@.len(), run_view(outcome, buffer@)),
{
    match outcome {
        Err(text) => Err(Error::Decompressing(text)),
        Ok((status, _consumed, produced)) => {
            match status {
                InflateStatus::StreamEnd => {
                    if produced == buffer.len() {
                        assert(buffer@.take(produced as int) =~= buffer@);
                        Ok(buffer)
                    } else {
                        Err(Error::SizeMismatch)
                    }
                },
                _ => Err(Error::SizeMismatch),
            }
        },
    }
}

/// Decompresses the retained bytes of `entry` into the object's content.
///
/// Fails with `BitWidthMismatch` if the declared size is more than a buffer
/// of this machine can hold, with `MissingCompressedBytes` if the entry came
/// without its compressed bytes, with `Decompressing` if the decompressor
/// refuses them, and with `SizeMismatch` if they do not inflate to exactly the
/// declared size.
pub fn materialize(entry: &Entry) -> (r: Result<Vec<u8>, Error>)
    ensures
        object_view(r) == materialized(entry@),
        r matches Ok(bytes) ==> bytes@.len() == entry.decompressed_size,
{
    if entry.decompressed_size > isize::MAX as u64 {
        return Err(Error::BitWidthMismatch);
    }
    let size: usize = entry.decompressed_size as usize;
    let mut object: Vec<u8> = vec![0u8; size];
    match &entry.compressed {
        None => Err(Error::MissingCompressedBytes),
        Some(compressed) => {
            let outcome = run_inflate(compressed.as_slice(), &mut object);
            object_from_run(outcome, object)
        },
    }
}

/// Materializing is a function of the entry: two results for one entry are
/// the same, byte for byte; and an object that was had is as long as its
/// entry declares.
pub proof fn lemma_materialize_idempotent(
    entry: EntryView,
    first: Result<Seq<u8>, ErrorView>,
    second: Result<Seq<u8>, ErrorView>,
)
    requires
        first == materialized(entry),
        second == materialized(entry),
    ensures
        first == second,
        first matches Ok(bytes) ==> bytes.len() == entry.decompressed_size,
{
}

} // verus!
