//! UTF-8 sanitization of a byte buffer at the boundary: either the input is
//! already well-formed and the caller keeps it unchanged, or an owned
//! replacement buffer is produced in which every maximal subpart of an
//! ill-formed sequence is replaced by one replacement character (U+FFFD),
//! as the lossy UTF-8 conversion substitutes.

use vstd::prelude::*;

verus! {

/// Whether a byte is a UTF-8 continuation byte.
pub open spec fn is_continuation(b: u8) -> bool {
    0x80 <= b <= 0xBF
}

/// The admissible second byte of a three-byte sequence: the leading byte
/// narrows its range so that overlong forms and surrogate code points are
/// ill-formed.
pub open spec fn valid_second_of_three(b0: u8, b1: u8) -> bool {
    if b0 == 0xE0 {
        0xA0 <= b1 <= 0xBF
    } else if b0 == 0xED {
        0x80 <= b1 <= 0x9F
    } else {
        is_continuation(b1)
    }
}

/// The admissible second byte of a four-byte sequence: the leading byte
/// narrows its range so that overlong forms and code points beyond U+10FFFF
/// are ill-formed.
pub open spec fn valid_second_of_four(b0: u8, b1: u8) -> bool {
    if b0 == 0xF0 {
        0x90 <= b1 <= 0xBF
    } else if b0 == 0xF4 {
        0x80 <= b1 <= 0x8F
    } else {
        is_continuation(b1)
    }
}

/// Length of the well-formed UTF-8 sequence starting at index `i` of `s`,
/// or 0 when no well-formed sequence starts there.
pub open spec fn utf8_seq_len(s: Seq<u8>, i: int) -> int
    recommends
        0 <= i < s.len(),
{
    let b0 = s[i];
    if b0 < 0x80 {
        1
    } else if 0xC2 <= b0 <= 0xDF {
        if i + 2 <= s.len() && is_continuation(s[i + 1]) {
            2
        } else {
            0
        }
    } else if 0xE0 <= b0 <= 0xEF {
        if i + 3 <= s.len() && valid_second_of_three(b0, s[i + 1]) && is_continuation(s[i + 2]) {
            3
        } else {
            0
        }
    } else if 0xF0 <= b0 <= 0xF4 {
        if i + 4 <= s.len() && valid_second_of_four(b0, s[i + 1]) && is_continuation(s[i + 2])
            && is_continuation(s[i + 3]) {
            4
        } else {
            0
        }
    } else {
        0
    }
}

/// Whether `s` is well-formed UTF-8 from index `i` to its end.
pub open spec fn is_utf8_from(s: Seq<u8>, i: int) -> bool
    recommends
        0 <= i <= s.len(),
    decreases s.len() - i,
{
    if i >= s.len() {
        true
    } else if utf8_seq_len(s, i) == 0 {
        false
    } else {
        is_utf8_from(s, i + utf8_seq_len(s, i))
    }
}

/// The UTF-8 encoding of the replacement character U+FFFD.
pub open spec fn replacement_bytes() -> Seq<u8> {
    seq![0xEFu8, 0xBFu8, 0xBDu8]
}

/// How many bytes the maximal subpart of an ill-formed sequence starting at
/// index `i` spans: the longest prefix of some well-formed sequence. A lead
/// of a three- or four-byte sequence followed by its admissible second (and,
/// for four, third) continuation byte carries those bytes with it; any other
/// ill-formed start spans the single byte.
pub open spec fn ill_formed_advance(s: Seq<u8>, i: int) -> int
    recommends
        0 <= i < s.len(),
        utf8_seq_len(s, i) == 0,
{
    let b0 = s[i];
    if 0xE0 <= b0 <= 0xEF {
        if i + 1 < s.len() && valid_second_of_three(b0, s[i + 1]) {
            2
        } else {
            1
        }
    } else if 0xF0 <= b0 <= 0xF4 {
        if i + 1 < s.len() && valid_second_of_four(b0, s[i + 1]) {
            if i + 2 < s.len() && is_continuation(s[i + 2]) {
                3
            } else {
                2
            }
        } else {
            1
        }
    } else {
        1
    }
}

/// The sanitized form of `s` from index `i` on: well-formed sequences are
/// kept, and each maximal subpart of an ill-formed sequence is replaced by
/// one replacement character.
pub open spec fn lossy_from(s: Seq<u8>, i: int) -> Seq<u8>
    recommends
        0 <= i <= s.len(),
    decreases s.len() - i,
{
    if i >= s.len() {
        Seq::empty()
    } else if utf8_seq_len(s, i) == 0 {
        replacement_bytes() + lossy_from(s, i + ill_formed_advance(s, i))
    } else {
        s.subrange(i, i + utf8_seq_len(s, i)) + lossy_from(s, i + utf8_seq_len(s, i))
    }
}

/// A sequence start is judged by at most its first four bytes, so judging a
/// suffix inside a concatenation equals judging it alone.
proof fn lemma_seq_len_shift(a: Seq<u8>, b: Seq<u8>, j: int)
    requires
        0 <= j < b.len(),
    ensures
        utf8_seq_len(a + b, a.len() + j) == utf8_seq_len(b, j),
{
    assert((a + b)[a.len() + j] == b[j]);
    if j + 1 < b.len() {
        assert((a + b)[a.len() + j + 1] == b[j + 1]);
    }
    if j + 2 < b.len() {
        assert((a + b)[a.len() + j + 2] == b[j + 2]);
    }
    if j + 3 < b.len() {
        assert((a + b)[a.len() + j + 3] == b[j + 3]);
    }
}

/// Well-formedness of a suffix inside a concatenation equals well-formedness
/// of that suffix alone.
proof fn lemma_is_utf8_shift(a: Seq<u8>, b: Seq<u8>, j: int)
    requires
        0 <= j <= b.len(),
    ensures
        is_utf8_from(a + b, a.len() + j) <==> is_utf8_from(b, j),
    decreases b.len() - j,
{
    if j < b.len() {
        lemma_seq_len_shift(a, b, j);
        let n = utf8_seq_len(b, j);
        if n > 0 {
            lemma_is_utf8_shift(a, b, j + n);
        }
    }
}

/// Prepending one whole well-formed sequence preserves well-formedness.
proof fn lemma_prepend_unit(unit: Seq<u8>, rest: Seq<u8>)
    requires
        unit.len() > 0,
        utf8_seq_len(unit, 0) == unit.len(),
        is_utf8_from(rest, 0),
    ensures
        is_utf8_from(unit + rest, 0),
{
    assert((unit + rest)[0] == unit[0]);
    if unit.len() > 1 {
        assert((unit + rest)[1] == unit[1]);
    }
    if unit.len() > 2 {
        assert((unit + rest)[2] == unit[2]);
    }
    if unit.len() > 3 {
        assert((unit + rest)[3] == unit[3]);
    }
    assert(utf8_seq_len(unit + rest, 0) == unit.len());
    lemma_is_utf8_shift(unit, rest, 0);
}

/// Sanitizing always yields well-formed UTF-8: kept sequences are
/// well-formed where they stood, and so is the replacement character.
pub proof fn lemma_lossy_is_utf8(s: Seq<u8>, i: int)
    requires
        0 <= i <= s.len(),
    ensures
        is_utf8_from(lossy_from(s, i), 0),
    decreases s.len() - i,
{
    if i < s.len() {
        let n = utf8_seq_len(s, i);
        if n == 0 {
            let advance = ill_formed_advance(s, i);
            assert(1 <= advance && i + advance <= s.len());
            lemma_lossy_is_utf8(s, i + advance);
            assert(utf8_seq_len(replacement_bytes(), 0) == 3);
            lemma_prepend_unit(replacement_bytes(), lossy_from(s, i + advance));
        } else {
            lemma_lossy_is_utf8(s, i + n);
            let unit = s.subrange(i, i + n);
            assert(unit[0] == s[i]);
            if n > 1 {
                assert(unit[1] == s[i + 1]);
            }
            if n > 2 {
                assert(unit[2] == s[i + 2]);
            }
            if n > 3 {
                assert(unit[3] == s[i + 3]);
            }
            assert(utf8_seq_len(unit, 0) == n);
            lemma_prepend_unit(unit, lossy_from(s, i + n));
        }
    }
}

/// Length of the well-formed UTF-8 sequence starting at index `i` of
/// `input`, or 0 when no well-formed sequence starts there.
fn utf8_seq_len_at(input: &Vec<u8>, i: usize) -> (n: usize)
    requires
        i < input@.len(),
    ensures
        n == utf8_seq_len(input@, i as int),
        i + n <= input@.len(),
        n <= 4,
{
    let remaining = input.len() - i;
    let b0 = input[i];
    if b0 < 0x80 {
        1
    } else if 0xC2 <= b0 && b0 <= 0xDF {
        if remaining >= 2 && 0x80 <= input[i + 1] && input[i + 1] <= 0xBF {
            2
        } else {
            0
        }
    } else if 0xE0 <= b0 && b0 <= 0xEF {
        let second_ok = remaining >= 2 && (if b0 == 0xE0 {
            0xA0 <= input[i + 1] && input[i + 1] <= 0xBF
        } else if b0 == 0xED {
            0x80 <= input[i + 1] && input[i + 1] <= 0x9F
        } else {
            0x80 <= input[i + 1] && input[i + 1] <= 0xBF
        });
        if remaining >= 3 && second_ok && 0x80 <= input[i + 2] && input[i + 2] <= 0xBF {
            3
        } else {
            0
        }
    } else if 0xF0 <= b0 && b0 <= 0xF4 {
        let second_ok = remaining >= 2 && (if b0 == 0xF0 {
            0x90 <= input[i + 1] && input[i + 1] <= 0xBF
        } else if b0 == 0xF4 {
            0x80 <= input[i + 1] && input[i + 1] <= 0x8F
        } else {
            0x80 <= input[i + 1] && input[i + 1] <= 0xBF
        });
        if remaining >= 4 && second_ok && 0x80 <= input[i + 2] && input[i + 2] <= 0xBF && 0x80
            <= input[i + 3] && input[i + 3] <= 0xBF {
            4
        } else {
            0
        }
    } else {
        0
    }
}

/// How many bytes the maximal subpart of the ill-formed sequence starting at
/// index `i` of `input` spans.
fn ill_formed_advance_at(input: &Vec<u8>, i: usize) -> (advance: usize)
    requires
        i < input@.len(),
        utf8_seq_len(input@, i as int) == 0,
    ensures
        advance == ill_formed_advance(input@, i as int),
        1 <= advance,
        i + advance <= input@.len(),
{
    let remaining = input.len() - i;
    let b0 = input[i];
    if 0xE0 <= b0 && b0 <= 0xEF {
        let second_ok = remaining >= 2 && (if b0 == 0xE0 {
            0xA0 <= input[i + 1] && input[i + 1] <= 0xBF
        } else if b0 == 0xED {
            0x80 <= input[i + 1] && input[i + 1] <= 0x9F
        } else {
            0x80 <= input[i + 1] && input[i + 1] <= 0xBF
        });
        if second_ok {
            2
        } else {
            1
        }
    } else if 0xF0 <= b0 && b0 <= 0xF4 {
        let second_ok = remaining >= 2 && (if b0 == 0xF0 {
            0x90 <= input[i + 1] && input[i + 1] <= 0xBF
        } else if b0 == 0xF4 {
            0x80 <= input[i + 1] && input[i + 1] <= 0x8F
        } else {
            0x80 <= input[i + 1] && input[i + 1] <= 0xBF
        });
        if second_ok {
            if remaining >= 3 && 0x80 <= input[i + 2] && input[i + 2] <= 0xBF {
                3
            } else {
                2
            }
        } else {
            1
        }
    } else {
        1
    }
}

/// Sanitizes a byte buffer. Returns `None` exactly when the input is already
/// well-formed UTF-8 — the caller keeps the original — and otherwise the
/// owned replacement buffer in which each maximal ill-formed subpart has
/// been replaced by one replacement character, as the lossy UTF-8 conversion
/// does.
pub fn ddtrace_strip_invalid_utf8(input: &Vec<u8>) -> (r: Option<Vec<u8>>)
    ensures
        r is None <==> is_utf8_from(input@, 0),
        r matches Some(sanitized) ==> sanitized@ == lossy_from(input@, 0) && is_utf8_from(
            sanitized@,
            0,
        ),
{
    proof {
        lemma_lossy_is_utf8(input@, 0);
    }
    let mut out: Vec<u8> = Vec::new();
    let mut changed = false;
    let mut i: usize = 0;
    while i < input.len()
        invariant
            i <= input@.len(),
            is_utf8_from(input@, 0) <==> !changed && is_utf8_from(input@, i as int),
            out@ + lossy_from(input@, i as int) == lossy_from(input@, 0),
        decreases input@.len() - i,
    {
        let n = utf8_seq_len_at(input, i);
        if n == 0 {
            let advance = ill_formed_advance_at(input, i);
            let ghost out_before = out@;
            out.push(0xEF);
            out.push(0xBF);
            out.push(0xBD);
            changed = true;
            proof {
                assert(out@ =~= out_before + replacement_bytes());
                assert(out@ + lossy_from(input@, i as int + advance as int) =~= out_before
                    + lossy_from(input@, i as int));
            }
            i = i + advance;
        } else {
            let ghost out_before = out@;
            let mut k: usize = 0;
            while k < n
                invariant
                    k <= n,
                    i + n <= input@.len(),
                    input@.len() <= usize::MAX,
                    out@ == out_before + input@.subrange(i as int, i as int + k as int),
                decreases n - k,
            {
                out.push(input[i + k]);
                proof {
                    assert(out@ =~= out_before + input@.subrange(
                        i as int,
                        i as int + k as int + 1,
                    ));
                }
                k = k + 1;
            }
            proof {
                assert(out@ + lossy_from(input@, i as int + n as int) =~= out_before + lossy_from(
                    input@,
                    i as int,
                ));
            }
            i = i + n;
        }
    }
    proof {
        assert(lossy_from(input@, i as int) =~= Seq::<u8>::empty());
        assert(out@ =~= lossy_from(input@, 0));
    }
    if changed {
        Some(out)
    } else {
        None
    }
}

} // verus!
