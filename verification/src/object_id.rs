//! Object identifiers and their canonical hexadecimal text.

use vstd::prelude::*;

verus! {

/// The lower-case hexadecimal digit, as an ASCII byte, of a value below sixteen.
pub open spec fn hex_digit(nibble: int) -> u8 {
    if nibble < 10 {
        (48 + nibble) as u8
    } else {
        (87 + nibble) as u8
    }
}

/// The hexadecimal text of `bytes`: two lower-case digits per byte, the high
/// half of each byte first.
pub open spec fn hex_text(bytes: Seq<u8>) -> Seq<u8> {
    Seq::new(
        2 * bytes.len(),
        |i: int|
            if i % 2 == 0 {
                hex_digit(bytes[i / 2] as int / 16)
            } else {
                hex_digit(bytes[i / 2] as int % 16)
            },
    )
}

/// The bytes of the identifier that stands for "no object".
pub open spec fn null_bytes() -> Seq<u8> {
    Seq::new(20, |i: int| 0u8)
}

/// A fixed-width binary object identifier (a SHA-1 digest).
#[derive(Clone, Copy, Debug, PartialEq, Eq)]
pub struct ObjectId {
    pub bytes: [u8; 20],
}

impl View for ObjectId {
    type V = Seq<u8>;

    open spec fn view(&self) -> Seq<u8> {
        self.bytes@
    }
}

/// Renders a digest with `gix_hash::ObjectId::to_hex`. The contract claims that
/// the text holds two lower-case hexadecimal digits for each byte, in order,
/// the high half of a byte before its low half.
#[verifier::external_body]
fn hex_of(bytes: &[u8; 20]) -> (text: Vec<u8>)
    ensures
        text@ == hex_text(bytes@),
{
    gix_hash::ObjectId::from(*bytes).to_hex().to_string().into_bytes()
}

impl ObjectId {
    /// The identifier made of the given bytes.
    pub fn from_bytes(bytes: [u8; 20]) -> (id: ObjectId)
        ensures
            id@ == bytes@,
    {
        ObjectId { bytes }
    }

    /// The all-zero identifier, which stands for "no object".
    pub fn null() -> (id: ObjectId)
        ensures
            id@ == null_bytes(),
    {
        let id = ObjectId { bytes: [0u8; 20] };
        assert(id@ =~= null_bytes());
        id
    }

    /// The raw bytes.
    pub fn as_bytes(&self) -> (bytes: &[u8; 20])
        ensures
            bytes@ == self@,
    {
        &self.bytes
    }

    /// Whether every byte is zero.
    pub fn is_null(&self) -> (null: bool)
        ensures
            null == (self@ == null_bytes()),
    {
        let mut i: usize = 0;
        while i < 20
            invariant
                i <= 20,
                forall|j: int| 0 <= j < i ==> self.bytes@[j] == 0u8,
            decreases 20 - i,
        {
            if self.bytes[i] != 0 {
                assert(null_bytes()[i as int] == 0u8);
                return false;
            }
            i += 1;
        }
        assert(self@ =~= null_bytes());
        true
    }

    /// The canonical text form: forty lower-case hexadecimal digits.
    pub fn to_hex(&self) -> (text: Vec<u8>)
        ensures
            text@ == hex_text(self@),
            text@.len() == 40,
    {
        hex_of(&self.bytes)
    }
}

/// The text of the null identifier is forty times the digit zero.
pub proof fn lemma_null_hex()
    ensures
        hex_text(null_bytes()) == Seq::new(40, |i: int| 48u8),
{
    assert(hex_text(null_bytes()) =~= Seq::new(40, |i: int| 48u8));
}

} // verus!
