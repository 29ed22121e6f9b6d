//! Packet lines as the frame reader hands them over, and the sideband frames
//! that they carry.

use gix_packetline::{BandRef, PacketLineRef};
use vstd::prelude::*;

verus! {

/// One unit read from the connection.
#[derive(Clone, Debug, PartialEq, Eq)]
pub enum PacketLine {
    /// A chunk of raw data.
    Data(Vec<u8>),
    /// A flush packet.
    Flush,
    /// A delimiter packet.
    Delimiter,
    /// The end of the response.
    ResponseEnd,
}

/// The mathematical value of a [`PacketLine`].
pub enum PacketLineView {
    Data(Seq<u8>),
    Flush,
    Delimiter,
    ResponseEnd,
}

impl View for PacketLine {
    type V = PacketLineView;

    open spec fn view(&self) -> PacketLineView {
        match self {
            PacketLine::Data(d) => PacketLineView::Data(d@),
            PacketLine::Flush => PacketLineView::Flush,
            PacketLine::Delimiter => PacketLineView::Delimiter,
            PacketLine::ResponseEnd => PacketLineView::ResponseEnd,
        }
    }
}

/// A demultiplexed unit: the payload of a data line without its band byte,
/// tagged with the channel that the band byte named.
#[derive(Clone, Debug, PartialEq, Eq)]
pub enum Frame {
    /// Bytes of the pack.
    Data(Vec<u8>),
    /// Progress text for a human reader.
    Progress(Vec<u8>),
    /// An error reported by the server.
    Error(Vec<u8>),
}

/// The mathematical value of a [`Frame`].
pub enum FrameView {
    Data(Seq<u8>),
    Progress(Seq<u8>),
    Error(Seq<u8>),
}

impl View for Frame {
    type V = FrameView;

    open spec fn view(&self) -> FrameView {
        match self {
            Frame::Data(d) => FrameView::Data(d@),
            Frame::Progress(d) => FrameView::Progress(d@),
            Frame::Error(d) => FrameView::Error(d@),
        }
    }
}

impl PacketLineView {
    /// The bytes of a data line; nothing for the three marker lines.
    pub open spec fn data(self) -> Option<Seq<u8>> {
        match self {
            PacketLineView::Data(d) => Some(d),
            _ => None,
        }
    }

    /// The frame that the line carries: its first byte names the channel (1 for
    /// data, 2 for progress, 3 for errors) and the rest is the payload. A
    /// marker line, an empty line and a line with another first byte carry none.
    pub open spec fn frame(self) -> Option<FrameView> {
        match self {
            PacketLineView::Data(d) => if d.len() == 0 {
                None
            } else if d[0] == 1 {
                Some(FrameView::Data(d.skip(1)))
            } else if d[0] == 2 {
                Some(FrameView::Progress(d.skip(1)))
            } else if d[0] == 3 {
                Some(FrameView::Error(d.skip(1)))
            } else {
                None
            },
            _ => None,
        }
    }
}

/// The text with which `gix_packetline::PacketLineRef::decode_band` refuses a
/// line that carries no frame.
pub uninterp spec fn band_refusal(line: PacketLineView) -> Seq<char>;

/// Decodes the band of a line with `gix_packetline::PacketLineRef::decode_band`.
/// The contract claims that the call succeeds exactly on the lines that carry
/// a frame, and then yields that frame; of the refusal's text it claims nothing
/// but that it depends on the line alone.
#[verifier::external_body]
fn band_of(line: &PacketLine) -> (r: Result<Frame, String>)
    ensures
        r is Ok <==> line@.frame() is Some,
        r matches Ok(frame) ==> line@.frame() == Some(frame@),
        r matches Err(text) ==> text@ == band_refusal(line@),
{
    let line = match line {
        PacketLine::Data(d) => PacketLineRef::Data(d),
        PacketLine::Flush => PacketLineRef::Flush,
        PacketLine::Delimiter => PacketLineRef::Delimiter,
        PacketLine::ResponseEnd => PacketLineRef::ResponseEnd,
    };
    match line.decode_band() {
        Ok(BandRef::Data(d)) => Ok(Frame::Data(d.to_vec())),
        Ok(BandRef::Progress(d)) => Ok(Frame::Progress(d.to_vec())),
        Ok(BandRef::Error(d)) => Ok(Frame::Error(d.to_vec())),
        Err(e) => Err(e.to_string()),
    }
}

/// The text that `String::from_utf8_lossy` makes of bytes.
pub uninterp spec fn lossy_decoding(bytes: Seq<u8>) -> Seq<char>;

/// Turns bytes into text with `String::from_utf8_lossy`. The contract names the
/// result, which is to claim that it depends on the bytes alone, and claims
/// that well-formed text comes back as it is: encoded again, it is the bytes
/// that were given.
#[verifier::external_body]
fn lossy_text_of(bytes: &[u8]) -> (text: String)
    ensures
        text@ == lossy_decoding(bytes@),
        vstd::utf8::valid_utf8(bytes@) ==> vstd::utf8::encode_utf8(text@) == bytes@,
{
    String::from_utf8_lossy(bytes).into_owned()
}

/// The text of `bytes` for display. Well-formed text is kept as it is; every
/// malformed sequence is replaced.
pub fn lossy_text(bytes: &Vec<u8>) -> (text: String)
    ensures
        text@ == lossy_decoding(bytes@),
        vstd::utf8::valid_utf8(bytes@) ==> vstd::utf8::encode_utf8(text@) == bytes@,
{
    lossy_text_of(bytes.as_slice())
}

impl PacketLine {
    /// The bytes of a data line.
    pub fn as_slice(&self) -> (data: Option<&Vec<u8>>)
        ensures
            match data {
                Some(d) => self@.data() == Some(d@),
                None => self@.data() is None,
            },
    {
        match self {
            PacketLine::Data(d) => Some(d),
            _ => None,
        }
    }

    /// Classifies the line by its band byte. Succeeds exactly when the line
    /// carries a frame, and then returns it; otherwise returns the decoder's
    /// refusal.
    pub fn decode_band(&self) -> (r: Result<Frame, String>)
        ensures
            r is Ok <==> self@.frame() is Some,
            r matches Ok(frame) ==> self@.frame() == Some(frame@),
            r matches Err(text) ==> text@ == band_refusal(self@),
    {
        band_of(self)
    }
}

} // verus!
