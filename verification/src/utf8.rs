//! Validation of untrusted foreign byte strings as UTF-8 text.
//!
//! The beatmap path arrives as a raw NUL-terminated byte string of
//! unspecified encoding.  Before it may be used it must decode as valid
//! text; the validator below decides UTF-8 validity over the shortest-form
//! byte ranges (continuation bytes 0x80..=0xBF, no overlong encodings, no
//! surrogate code points, nothing above U+10FFFF).

use vstd::prelude::*;

verus! {

/// A UTF-8 continuation byte, 0x80 through 0xBF.
pub open spec fn is_cont(b: u8) -> bool {
    0x80 <= b && b <= 0xBF
}

/// The byte sequence is well-formed UTF-8: a concatenation of one- to
/// four-byte encodings in shortest form, excluding the surrogate range
/// (lead byte 0xED limits its second byte to 0x9F) and code points above
/// U+10FFFF (lead byte 0xF4 limits its second byte to 0x8F).
pub open spec fn is_utf8(s: Seq<u8>) -> bool
    decreases s.len(),
{
    if s.len() == 0 {
        true
    } else {
        let b0 = s[0];
        if b0 <= 0x7F {
            is_utf8(s.subrange(1, s.len() as int))
        } else if 0xC2 <= b0 && b0 <= 0xDF {
            s.len() >= 2 && is_cont(s[1]) && is_utf8(s.subrange(2, s.len() as int))
        } else if b0 == 0xE0 {
            s.len() >= 3 && 0xA0 <= s[1] && s[1] <= 0xBF && is_cont(s[2]) && is_utf8(
            s.subrange(3, s.len() as int))
        } else if 0xE1 <= b0 && b0 <= 0xEC {
            s.len() >= 3 && is_cont(s[1]) && is_cont(s[2]) && is_utf8(
            s.subrange(3, s.len() as int))
        } else if b0 == 0xED {
            s.len() >= 3 && 0x80 <= s[1] && s[1] <= 0x9F && is_cont(s[2]) && is_utf8(
            s.subrange(3, s.len() as int))
        } else if 0xEE <= b0 && b0 <= 0xEF {
            s.len() >= 3 && is_cont(s[1]) && is_cont(s[2]) && is_utf8(
            s.subrange(3, s.len() as int))
        } else if b0 == 0xF0 {
            s.len() >= 4 && 0x90 <= s[1] && s[1] <= 0xBF && is_cont(s[2]) && is_cont(s[3])
                && is_utf8(s.subrange(4, s.len() as int))
        } else if 0xF1 <= b0 && b0 <= 0xF3 {
            s.len() >= 4 && is_cont(s[1]) && is_cont(s[2]) && is_cont(s[3]) && is_utf8(
            s.subrange(4, s.len() as int))
        } else if b0 == 0xF4 {
            s.len() >= 4 && 0x80 <= s[1] && s[1] <= 0x8F && is_cont(s[2]) && is_cont(s[3])
                && is_utf8(s.subrange(4, s.len() as int))
        } else {
            false
        }
    }
}

/// Decides whether the byte string is well-formed UTF-8, exactly as
/// `is_utf8` describes it.
pub fn is_valid_utf8(s: &[u8]) -> (r: bool)
    ensures
        r == is_utf8(s@),
{
    let n = s.len();
    let mut i: usize = 0;
    proof {
        assert(s@.subrange(0, n as int) =~= s@);
    }
    while i < n
        invariant
            0 <= i <= n,
            n == s@.len(),
            is_utf8(s@) == is_utf8(s@.subrange(i as int, n as int)),
        decreases n - i,
    {
        let ghost rest = s@.subrange(i as int, n as int);
        let b0 = s[i];
        proof {
            assert(rest[0] == s@[i as int]);
        }
        // Sequence length and the admitted range of the second byte, by lead byte.
        let k: usize;
        let lo: u8;
        let hi: u8;
        if b0 <= 0x7F {
            k = 1;
            lo = 0;
            hi = 0;
        } else if 0xC2 <= b0 && b0 <= 0xDF {
            k = 2;
            lo = 0x80;
            hi = 0xBF;
        } else if b0 == 0xE0 {
            k = 3;
            lo = 0xA0;
            hi = 0xBF;
        } else if 0xE1 <= b0 && b0 <= 0xEC {
            k = 3;
            lo = 0x80;
            hi = 0xBF;
        } else if b0 == 0xED {
            k = 3;
            lo = 0x80;
            hi = 0x9F;
        } else if 0xEE <= b0 && b0 <= 0xEF {
            k = 3;
            lo = 0x80;
            hi = 0xBF;
        } else if b0 == 0xF0 {
            k = 4;
            lo = 0x90;
            hi = 0xBF;
        } else if 0xF1 <= b0 && b0 <= 0xF3 {
            k = 4;
            lo = 0x80;
            hi = 0xBF;
        } else if b0 == 0xF4 {
            k = 4;
            lo = 0x80;
            hi = 0x8F;
        } else {
            return false;
        }
        if n - i < k {
            return false;
        }
        proof {
            assert(rest.len() >= k);
            assert forall|j: int| 1 <= j < k implies rest[j] == s@[i + j] by {}
        }
        if k >= 2 && !(lo <= s[i + 1] && s[i + 1] <= hi) {
            return false;
        }
        if k >= 3 && !(0x80 <= s[i + 2] && s[i + 2] <= 0xBF) {
            return false;
        }
        if k == 4 && !(0x80 <= s[i + 3] && s[i + 3] <= 0xBF) {
            return false;
        }
        proof {
            assert(rest.subrange(k as int, rest.len() as int) =~= s@.subrange(
            i + k, n as int));
            assert(is_utf8(rest) == is_utf8(s@.subrange(i + k, n as int)));
        }
        i = i + k;
    }
    proof {
        assert(s@.subrange(n as int, n as int) =~= Seq::<u8>::empty());
    }
    true
}

} // verus!
