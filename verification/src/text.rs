//! Character classes and verified numeral parsing.
//!
//! The command surface and the backing store both speak in short ASCII
//! strings: decimal item numbers, hexadecimal record identifiers, dashed
//! dates. This module gives those grammars their spec-level meaning and a
//! verified decimal parser that the rest of the library builds on.

use vstd::prelude::*;

verus! {

/// `c` is an ASCII decimal digit.
pub open spec fn spec_is_ascii_digit(c: char) -> bool {
    '0' <= c && c <= '9'
}

/// The numeric value of an ASCII decimal digit.
pub open spec fn spec_digit_value(c: char) -> int {
    c as u32 - '0' as u32
}

/// `c` is an ASCII hexadecimal digit, either case.
pub open spec fn spec_is_hex_digit(c: char) -> bool {
    ||| spec_is_ascii_digit(c)
    ||| ('a' <= c && c <= 'f')
    ||| ('A' <= c && c <= 'F')
}

/// The numeric value of an ASCII hexadecimal digit.
pub open spec fn spec_hex_digit_value(c: char) -> int {
    if spec_is_ascii_digit(c) {
        c as u32 - '0' as u32
    } else if 'a' <= c && c <= 'f' {
        c as u32 - 'a' as u32 + 10
    } else {
        c as u32 - 'A' as u32 + 10
    }
}

/// `s` is one or more ASCII decimal digits and nothing else.
pub open spec fn spec_is_digits(s: Seq<char>) -> bool {
    s.len() >= 1 && forall|i: int| 0 <= i < s.len() ==> spec_is_ascii_digit(#[trigger] s[i])
}

/// The value of a decimal digit string, most significant digit first.
pub open spec fn spec_digits_value(s: Seq<char>) -> int
    decreases s.len(),
{
    if s.len() == 0 {
        0
    } else {
        spec_digits_value(s.drop_last()) * 10 + spec_digit_value(s.last())
    }
}

/// The value of a hexadecimal digit string, most significant digit first.
pub open spec fn spec_hex_value(s: Seq<char>) -> int
    decreases s.len(),
{
    if s.len() == 0 {
        0
    } else {
        spec_hex_value(s.drop_last()) * 16 + spec_hex_digit_value(s.last())
    }
}

/// A digit string's value is never negative.
pub proof fn lemma_digits_value_nonneg(s: Seq<char>)
    requires
        forall|i: int| 0 <= i < s.len() ==> spec_is_ascii_digit(#[trigger] s[i]),
    ensures
        spec_digits_value(s) >= 0,
    decreases s.len(),
{
    if s.len() > 0 {
        lemma_digits_value_nonneg(s.drop_last());
    }
}

/// Extending a digit string on the right can only grow its value.
pub proof fn lemma_digits_value_prefix_le(s: Seq<char>, i: int)
    requires
        forall|k: int| 0 <= k < s.len() ==> spec_is_ascii_digit(#[trigger] s[k]),
        0 <= i <= s.len(),
    ensures
        spec_digits_value(s.subrange(0, i)) <= spec_digits_value(s),
    decreases s.len() - i,
{
    if i == s.len() {
        assert(s.subrange(0, i) =~= s);
    } else {
        let t = s.subrange(0, i + 1);
        assert(t.drop_last() =~= s.subrange(0, i));
        lemma_digits_value_nonneg(s.subrange(0, i));
        lemma_digits_value_prefix_le(s, i + 1);
    }
}

/// Parses a decimal numeral. Returns the numeral's value exactly when the
/// whole string is one or more ASCII digits and the value fits in a `u64`.
pub fn parse_decimal(s: &str) -> (r: Option<u64>)
    ensures
        r is Some <==> spec_is_digits(s@) && spec_digits_value(s@) <= u64::MAX,
        r matches Some(v) ==> v == spec_digits_value(s@),
{
    if !s.is_ascii() {
        // A character outside ASCII is not a digit.
        assert(!spec_is_digits(s@)) by {
            if spec_is_digits(s@) {
                assert forall|j: int| 0 <= j < s@.len() implies '\0' <= #[trigger] s@[j]
                    && s@[j] <= '\u{7f}' by {
                    assert(spec_is_ascii_digit(s@[j]));
                }
                assert(vstd::utf8::is_ascii_chars(s@));
            }
        }
        return None;
    }
    let b = s.as_bytes();
    let n = b.len();
    proof {
        vstd::string::is_ascii_spec_bytes(s);
    }
    assert(n == s@.len());
    if n == 0 {
        return None;
    }
    let mut acc: u64 = 0;
    let mut i: usize = 0;
    while i < n
        invariant
            0 <= i <= n,
            n == s@.len(),
            forall|k: int| 0 <= k < i ==> spec_is_ascii_digit(#[trigger] s@[k]),
            acc == spec_digits_value(s@.subrange(0, i as int)),
        decreases n - i,
    {
        let c = s.get_char(i);
        let code = c as u32;
        if code < 48 || code > 57 {
            assert(!spec_is_ascii_digit(s@[i as int]));
            return None;
        }
        let d = (code - 48) as u64;
        if acc > (u64::MAX - d) / 10 {
            // The numeral already exceeds u64::MAX here, so the whole
            // string's value does too.
            proof {
                let t = s@.subrange(0, i as int + 1);
                assert(t.drop_last() =~= s@.subrange(0, i as int));
                assert(spec_digits_value(t) > u64::MAX);
                if spec_is_digits(s@) {
                    lemma_digits_value_prefix_le(s@, i as int + 1);
                }
            }
            return None;
        }
        proof {
            let t = s@.subrange(0, i as int + 1);
            assert(t.drop_last() =~= s@.subrange(0, i as int));
        }
        acc = acc * 10 + d;
        i += 1;
    }
    assert(s@.subrange(0, n as int) =~= s@);
    Some(acc)
}

} // verus!
