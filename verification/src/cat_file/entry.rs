//! Descriptors of the entries of a pack, as the pack decoder yields them.

use vstd::prelude::*;

verus! {

/// The type of a pack entry.
#[derive(Clone, Copy, Debug, PartialEq, Eq)]
pub enum EntryKind {
    Commit,
    Tree,
    Blob,
    Tag,
    /// A delta against an entry of the same pack, found by its distance.
    OfsDelta,
    /// A delta against an object named by its identifier.
    RefDelta,
}

/// What the pack decoder tells of one entry. Entries come in pack order, the
/// order in which the server wrote them.
#[derive(Clone, Debug, PartialEq, Eq)]
pub struct Entry {
    /// The type of the entry.
    pub kind: EntryKind,
    /// Where in the pack the entry's header begins.
    pub pack_offset: u64,
    /// How many bytes the header takes.
    pub header_size: u16,
    /// How many bytes the entry holds once inflated.
    pub decompressed_size: u64,
    /// The compressed bytes behind the header, where the decoder kept them.
    pub compressed: Option<Vec<u8>>,
    /// The checksum over header and compressed bytes, where the decoder kept it.
    pub crc32: Option<u32>,
}

/// The mathematical value of an [`Entry`].
pub struct EntryView {
    pub kind: EntryKind,
    pub pack_offset: u64,
    pub header_size: u16,
    pub decompressed_size: u64,
    pub compressed: Option<Seq<u8>>,
    pub crc32: Option<u32>,
}

impl View for Entry {
    type V = EntryView;

    open spec fn view(&self) -> EntryView {
        EntryView {
            kind: self.kind,
            pack_offset: self.pack_offset,
            header_size: self.header_size,
            decompressed_size: self.decompressed_size,
            compressed: match self.compressed {
                Some(bytes) => Some(bytes@),
                None => None,
            },
            crc32: self.crc32,
        }
    }
}

impl EntryView {
    /// Whether the entry is a commit.
    pub open spec fn is_commit(self) -> bool {
        self.kind == EntryKind::Commit
    }
}

impl Entry {
    /// Whether the entry is a commit.
    pub fn is_commit(&self) -> (commit: bool)
        ensures
            commit == self@.is_commit(),
    {
        match self.kind {
            EntryKind::Commit => true,
            _ => false,
        }
    }
}

} // verus!
