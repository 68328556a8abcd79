//! The process runtime identifier: a random version-4 UUID, generated once
//! from a single-threaded phase, and its hyphenated lowercase-hex textual
//! form (8-4-4-4-12 digits, 36 bytes in all).
//!
//! The identifier is modeled as its sixteen raw bytes, so the formatting is
//! verified here; only the random generation itself is delegated to the
//! `uuid` crate.

use vstd::prelude::*;

verus! {

/// The lowercase hexadecimal digit for a nibble.
pub open spec fn hex_digit(nibble: u8) -> u8
    recommends
        nibble < 16,
{
    if nibble < 10 {
        (0x30 + nibble) as u8
    } else {
        (0x57 + nibble) as u8
    }
}

/// The two lowercase hexadecimal digits of one byte, high nibble first.
pub open spec fn hex_byte(byte: u8) -> Seq<u8> {
    seq![hex_digit(byte / 16), hex_digit(byte % 16)]
}

/// The lowercase hexadecimal digits of `bytes[lo..hi]`.
pub open spec fn hex_seq(bytes: Seq<u8>, lo: int, hi: int) -> Seq<u8>
    decreases hi - lo,
{
    if lo >= hi {
        Seq::empty()
    } else {
        hex_byte(bytes[lo]) + hex_seq(bytes, lo + 1, hi)
    }
}

/// The hyphenated lowercase-hex form of sixteen bytes: five dash-separated
/// groups of 8, 4, 4, 4 and 12 digits.
pub open spec fn hyphenated(bytes: Seq<u8>) -> Seq<u8> {
    hex_seq(bytes, 0, 4) + seq![0x2du8] + hex_seq(bytes, 4, 6) + seq![0x2du8] + hex_seq(bytes, 6, 8)
        + seq![0x2du8] + hex_seq(bytes, 8, 10) + seq![0x2du8] + hex_seq(bytes, 10, 16)
}

/// Extending the range by one byte appends that byte's two digits.
proof fn lemma_hex_seq_snoc(bytes: Seq<u8>, lo: int, hi: int)
    requires
        0 <= lo <= hi < bytes.len(),
    ensures
        hex_seq(bytes, lo, hi + 1) == hex_seq(bytes, lo, hi) + hex_byte(bytes[hi]),
    decreases hi - lo,
{
    if lo == hi {
        assert(hex_seq(bytes, lo, hi) =~= Seq::empty());
        assert(hex_seq(bytes, lo + 1, hi + 1) =~= Seq::empty());
        assert(hex_seq(bytes, lo, hi + 1) =~= hex_seq(bytes, lo, hi) + hex_byte(bytes[hi]));
    } else {
        lemma_hex_seq_snoc(bytes, lo + 1, hi);
        assert(hex_seq(bytes, lo, hi + 1) =~= hex_seq(bytes, lo, hi) + hex_byte(bytes[hi]));
    }
}

/// The digits of a range are two per byte.
proof fn lemma_hex_seq_len(bytes: Seq<u8>, lo: int, hi: int)
    requires
        lo <= hi,
    ensures
        hex_seq(bytes, lo, hi).len() == 2 * (hi - lo),
    decreases hi - lo,
{
    if lo < hi {
        lemma_hex_seq_len(bytes, lo + 1, hi);
    }
}

/// The process runtime identifier, held as the sixteen bytes of a UUID.
pub struct RuntimeId {
    bytes: Vec<u8>,
}

impl RuntimeId {
    /// An identifier always holds exactly sixteen bytes.
    pub closed spec fn wf(&self) -> bool {
        self.bytes@.len() == 16
    }

    /// The sixteen bytes of the identifier.
    pub closed spec fn bytes(&self) -> Seq<u8> {
        self.bytes@
    }

    /// An identifier built from sixteen given bytes.
    pub fn from_bytes(bytes: Vec<u8>) -> (id: RuntimeId)
        requires
            bytes@.len() == 16,
        ensures
            id.wf(),
            id.bytes() == bytes@,
    {
        RuntimeId { bytes }
    }
}

/// Relies on `uuid::Uuid::new_v4`: sixteen random bytes with the version
/// nibble of the seventh byte set to 4 and the variant bits of the ninth
/// byte set to the RFC pattern `10`; nothing else is promised of a random
/// value.
#[verifier::external_body]
fn random_uuid_bytes() -> (bytes: Vec<u8>)
    ensures
        bytes@.len() == 16,
        bytes@[6] / 16 == 4,
        bytes@[8] / 64 == 2,
{
    uuid::Uuid::new_v4().as_bytes().to_vec()
}

/// Generates the process runtime identifier: a random version-4 UUID. The
/// caller must invoke this from a single-threaded phase, before any
/// concurrent reads of the stored identifier begin.
pub fn ddtrace_generate_runtime_id() -> (id: RuntimeId)
    ensures
        id.wf(),
        id.bytes().len() == 16,
        id.bytes()[6] / 16 == 4,
        id.bytes()[8] / 64 == 2,
{
    RuntimeId::from_bytes(random_uuid_bytes())
}

/// Appends the lowercase hexadecimal digits of `bytes[lo..hi]` to `out`.
fn push_hex_range(out: &mut Vec<u8>, bytes: &Vec<u8>, lo: usize, hi: usize)
    requires
        lo <= hi <= bytes@.len(),
    ensures
        final(out)@ == old(out)@ + hex_seq(bytes@, lo as int, hi as int),
{
    let mut i: usize = lo;
    while i < hi
        invariant
            lo <= i <= hi <= bytes@.len(),
            out@ == old(out)@ + hex_seq(bytes@, lo as int, i as int),
        decreases hi - i,
    {
        let byte = bytes[i];
        out.push(if byte / 16 < 10 {
            0x30 + byte / 16
        } else {
            0x57 + byte / 16
        });
        out.push(if byte % 16 < 10 {
            0x30 + byte % 16
        } else {
            0x57 + byte % 16
        });
        proof {
            lemma_hex_seq_snoc(bytes@, lo as int, i as int);
            assert(out@ =~= old(out)@ + hex_seq(bytes@, lo as int, i as int + 1));
        }
        i = i + 1;
    }
}

/// Formats the identifier as its hyphenated lowercase-hex textual form:
/// exactly 36 bytes, five dash-separated groups of 8, 4, 4, 4 and 12 digits.
pub fn ddtrace_format_runtime_id(id: &RuntimeId) -> (out: Vec<u8>)
    requires
        id.wf(),
    ensures
        out@ == hyphenated(id.bytes()),
        out@.len() == 36,
{
    let mut out: Vec<u8> = Vec::new();
    push_hex_range(&mut out, &id.bytes, 0, 4);
    out.push(0x2d);
    push_hex_range(&mut out, &id.bytes, 4, 6);
    out.push(0x2d);
    push_hex_range(&mut out, &id.bytes, 6, 8);
    out.push(0x2d);
    push_hex_range(&mut out, &id.bytes, 8, 10);
    out.push(0x2d);
    push_hex_range(&mut out, &id.bytes, 10, 16);
    proof {
        lemma_hex_seq_len(id.bytes(), 0, 4);
        lemma_hex_seq_len(id.bytes(), 4, 6);
        lemma_hex_seq_len(id.bytes(), 6, 8);
        lemma_hex_seq_len(id.bytes(), 8, 10);
        lemma_hex_seq_len(id.bytes(), 10, 16);
        assert(out@ =~= hyphenated(id.bytes()));
    }
    out
}

} // verus!
