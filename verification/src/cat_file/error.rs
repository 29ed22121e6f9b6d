//! How a fetch fails.

use vstd::prelude::*;

verus! {

/// The failure of a fetch. A variant with a text carries the message of the
/// stage that failed, unchanged.
#[derive(Clone, Debug, PartialEq, Eq)]
pub enum Error {
    /// The remote could not be reached.
    Connecting(String),
    /// A local read or write failed.
    IOError(String),
    /// A concurrently running stage ended abnormally.
    ThreadPanicked,
    /// The server does not speak protocol version 2.
    UnsupportedServer,
    /// The transport refused the handshake or the request.
    GitClientError(String),
    /// The response to the request could not be understood.
    Fetching(String),
    /// A packet line was malformed.
    ReadingPktLine(String),
    /// The server reported an error in place of the pack.
    BadPack(String),
    /// A line of the pack stream carried no band.
    DecodingPackBand(String),
    /// The pack stream is corrupt or incomplete.
    IteratingPackEntries(String),
    /// The pack holds no commit.
    NoCommitFound,
    /// The compressed bytes of the commit are corrupt.
    Decompressing(String),
    /// The commit did not inflate to the size that its entry declares.
    SizeMismatch,
    /// The declared size of the commit is more than a buffer of this machine
    /// can hold.
    BitWidthMismatch,
    /// The entry of the commit came without its compressed bytes.
    MissingCompressedBytes,
}

/// The mathematical value of an [`Error`].
pub enum ErrorView {
    Connecting(Seq<char>),
    IOError(Seq<char>),
    ThreadPanicked,
    UnsupportedServer,
    GitClientError(Seq<char>),
    Fetching(Seq<char>),
    ReadingPktLine(Seq<char>),
    BadPack(Seq<char>),
    DecodingPackBand(Seq<char>),
    IteratingPackEntries(Seq<char>),
    NoCommitFound,
    Decompressing(Seq<char>),
    SizeMismatch,
    BitWidthMismatch,
    MissingCompressedBytes,
}

impl View for Error {
    type V = ErrorView;

    open spec fn view(&self) -> ErrorView {
        match self {
            Error::Connecting(m) => ErrorView::Connecting(m@),
            Error::IOError(m) => ErrorView::IOError(m@),
            Error::ThreadPanicked => ErrorView::ThreadPanicked,
            Error::UnsupportedServer => ErrorView::UnsupportedServer,
            Error::GitClientError(m) => ErrorView::GitClientError(m@),
            Error::Fetching(m) => ErrorView::Fetching(m@),
            Error::ReadingPktLine(m) => ErrorView::ReadingPktLine(m@),
            Error::BadPack(m) => ErrorView::BadPack(m@),
            Error::DecodingPackBand(m) => ErrorView::DecodingPackBand(m@),
            Error::IteratingPackEntries(m) => ErrorView::IteratingPackEntries(m@),
            Error::NoCommitFound => ErrorView::NoCommitFound,
            Error::Decompressing(m) => ErrorView::Decompressing(m@),
            Error::SizeMismatch => ErrorView::SizeMismatch,
            Error::BitWidthMismatch => ErrorView::BitWidthMismatch,
            Error::MissingCompressedBytes => ErrorView::MissingCompressedBytes,
        }
    }
}

/// How a concurrently running stage ended, as its owner learns on joining it.
#[derive(Clone, Debug, PartialEq, Eq)]
pub enum Joined<T> {
    /// The stage returned normally, with this value.
    Returned(T),
    /// The stage ended abnormally and left no value.
    Panicked,
}

/// What joining a stage yields: the stage's own result where it returned, and
/// the report of an abnormal end where it did not.
pub fn joined<T>(outcome: Joined<Result<T, Error>>) -> (r: Result<T, Error>)
    ensures
        r == match outcome {
            Joined::Returned(result) => result,
            Joined::Panicked => Err(Error::ThreadPanicked),
        },
{
    match outcome {
        Joined::Returned(result) => result,
        Joined::Panicked => Err(Error::ThreadPanicked),
    }
}

} // verus!
