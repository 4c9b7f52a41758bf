use vstd::prelude::*;

verus! {

/// A UUID, held as its sixteen bytes in the order that its text form writes them.
#[derive(Clone, Copy, Debug, PartialEq, Eq)]
pub struct Uuid {
    pub(crate) bytes: [u8; 16],
}

impl View for Uuid {
    type V = Seq<u8>;

    open(crate) spec fn view(&self) -> Seq<u8> {
        self.bytes@
    }
}

/// The lower-case hex digit of `d`, for `d < 16`.
pub open spec fn hex_digit(d: int) -> char {
    seq!['0', '1', '2', '3', '4', '5', '6', '7', '8', '9', 'a', 'b', 'c', 'd', 'e', 'f'][d]
}

/// Two lower-case hex digits for each byte, the high half first.
pub open spec fn hex_text(b: Seq<u8>) -> Seq<char> {
    Seq::new(
        2 * b.len(),
        |i: int|
            if i % 2 == 0 {
                hex_digit(b[i / 2] as int / 16)
            } else {
                hex_digit(b[i / 2] as int % 16)
            },
    )
}

/// The hyphenated text form of a UUID's sixteen bytes: groups of 8, 4, 4, 4
/// and 12 hex digits, joined by `-`.
pub open spec fn hyphenated_text(b: Seq<u8>) -> Seq<char> {
    hex_text(b.subrange(0, 4)) + seq!['-'] + hex_text(b.subrange(4, 6)) + seq!['-'] + hex_text(
        b.subrange(6, 8),
    ) + seq!['-'] + hex_text(b.subrange(8, 10)) + seq!['-'] + hex_text(b.subrange(10, 16))
}

/// Relies on uuid's `Display` for `uuid::Uuid`, which writes the hyphenated
/// form in lower-case hex.
#[verifier::external_body]
fn hyphenated(bytes: &[u8; 16]) -> (r: String)
    ensures
        r@ == hyphenated_text(bytes@),
{
    uuid::Uuid::from_bytes(*bytes).to_string()
}

impl Uuid {
    /// The UUID with these bytes.
    pub fn from_bytes(bytes: [u8; 16]) -> (r: Uuid)
        ensures
            r@ == bytes@,
    {
        Uuid { bytes }
    }

    /// The bytes of the UUID.
    pub fn as_bytes(&self) -> (r: [u8; 16])
        ensures
            r@ == self@,
    {
        self.bytes
    }

    /// The hyphenated text form, such as `a26a61cc-8c2e-4237-977d-4ce0195735c3`.
    pub fn hyphenated(&self) -> (r: String)
        ensures
            r@ == hyphenated_text(self@),
    {
        hyphenated(&self.bytes)
    }
}

} // verus!
