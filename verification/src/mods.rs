//! Decoding of the mods bitmask from foreign text.
//!
//! The caller formats its unsigned 32-bit mod bitmask as a decimal string.
//! The adapter parses that text back; any failure (absent text, a byte that
//! is not part of an unsigned decimal number, a value too large for 32 bits)
//! silently degrades to the neutral bitmask 0.  That leniency is part of the
//! boundary contract and is stated exactly here.

use vstd::prelude::*;

verus! {

/// Byte value of an ASCII decimal digit.
pub open spec fn is_ascii_digit(b: u8) -> bool {
    48 <= b && b <= 57
}

/// Every byte of the sequence is an ASCII decimal digit.
pub open spec fn all_digits(s: Seq<u8>) -> bool {
    forall|i: int| 0 <= i < s.len() ==> is_ascii_digit(#[trigger] s[i])
}

/// Numeric value of a sequence of ASCII digit bytes, most significant first.
pub open spec fn digits_value(s: Seq<u8>) -> nat
    decreases s.len(),
{
    if s.len() == 0 {
        0
    } else {
        digits_value(s.drop_last()) * 10 + (s.last() - 48) as nat
    }
}

/// The digit run of an unsigned decimal literal: the text with one optional
/// leading `+` (byte 43) removed.
pub open spec fn decimal_digits(s: Seq<u8>) -> Seq<u8> {
    if s.len() > 0 && s[0] == 43 {
        s.subrange(1, s.len() as int)
    } else {
        s
    }
}

/// The text is a well-formed unsigned 32-bit decimal literal: an optional
/// leading `+`, then at least one digit, and a value that fits in 32 bits.
pub open spec fn parses_as_u32(s: Seq<u8>) -> bool {
    let d = decimal_digits(s);
    d.len() > 0 && all_digits(d) && digits_value(d) <= u32::MAX
}

/// The value of a well-formed unsigned 32-bit decimal literal.
pub open spec fn parsed_u32(s: Seq<u8>) -> u32 {
    digits_value(decimal_digits(s)) as u32
}

/// The mod bitmask denoted by the foreign mods text: the parsed value where
/// the text is a well-formed unsigned 32-bit decimal literal, and the neutral
/// bitmask 0 everywhere else (text absent, malformed, or out of range).
pub open spec fn mods_of(m: Option<Seq<u8>>) -> u32 {
    match m {
        Option::None => 0,
        Option::Some(s) => if parses_as_u32(s) {
            parsed_u32(s)
        } else {
            0
        },
    }
}

/// The view of an optional byte string.
pub open spec fn opt_bytes_view(m: Option<&[u8]>) -> Option<Seq<u8>> {
    match m {
        Option::None => None,
        Option::Some(s) => Some(s@),
    }
}

/// The value of a digit-run prefix never exceeds the value of the whole run.
proof fn lemma_digits_value_prefix_le(s: Seq<u8>, k: int)
    requires
        0 <= k <= s.len(),
    ensures
        digits_value(s.subrange(0, k)) <= digits_value(s),
    decreases s.len() - k,
{
    if k == s.len() {
        assert(s.subrange(0, k) =~= s);
    } else {
        lemma_digits_value_prefix_le(s, k + 1);
        assert(s.subrange(0, k + 1).drop_last() =~= s.subrange(0, k));
        assert(digits_value(s.subrange(0, k + 1)) == digits_value(s.subrange(0, k)) * 10 + (
        s.subrange(0, k + 1).last() - 48) as nat);
    }
}

/// Parses the byte string as an unsigned 32-bit decimal literal, exactly as
/// `parses_as_u32` and `parsed_u32` describe it: `Some` with the value if and
/// only if the text is well formed and in range.
pub fn parse_u32_decimal(s: &[u8]) -> (r: Option<u32>)
    ensures
        parses_as_u32(s@) ==> r == Some(parsed_u32(s@)),
        !parses_as_u32(s@) ==> r == None::<u32>,
{
    let n = s.len();
    let start: usize = if n > 0 && s[0] == 43 {
        1
    } else {
        0
    };
    proof {
        assert(decimal_digits(s@) =~= s@.subrange(start as int, n as int));
    }
    if start >= n {
        return None;
    }
    let mut acc: u64 = 0;
    let mut i: usize = start;
    while i < n
        invariant
            start <= i <= n,
            n == s@.len(),
            start < n,
            decimal_digits(s@) =~= s@.subrange(start as int, n as int),
            all_digits(s@.subrange(start as int, i as int)),
            acc == digits_value(s@.subrange(start as int, i as int)),
            acc <= u32::MAX,
        decreases n - i,
    {
        let b = s[i];
        if b < 48 || b > 57 {
            proof {
                let d = decimal_digits(s@);
                assert(d[i - start] == s@[i as int]);
                assert(!all_digits(d));
            }
            return None;
        }
        proof {
            assert(s@.subrange(start as int, i as int + 1).drop_last() =~= s@.subrange(
            start as int, i as int));
            assert(s@.subrange(start as int, i as int + 1).last() == s@[i as int]);
        }
        acc = acc * 10 + (b - 48) as u64;
        if acc > 0xFFFF_FFFF {
            proof {
                let d = decimal_digits(s@);
                if all_digits(d) {
                    assert(s@.subrange(start as int, i as int + 1) =~= d.subrange(0, i as int + 1
                    - start as int));
                    lemma_digits_value_prefix_le(d, i as int + 1 - start as int);
                    assert(digits_value(d) > u32::MAX);
                }
            }
            return None;
        }
        i = i + 1;
    }
    proof {
        assert(s@.subrange(start as int, n as int) =~= decimal_digits(s@));
        assert(parses_as_u32(s@));
    }
    Some(acc as u32)
}

/// Decodes the foreign mods text to the bitmask it denotes: the parsed value
/// of a well-formed unsigned 32-bit decimal literal, and the neutral bitmask
/// 0 for absent, malformed, or out-of-range text.
pub fn parse_mods(mods: Option<&[u8]>) -> (r: u32)
    ensures
        r == mods_of(opt_bytes_view(mods)),
{
    match mods {
        None => 0,
        Some(s) => match parse_u32_decimal(s) {
            Some(v) => v,
            None => 0,
        },
    }
}

} // verus!
