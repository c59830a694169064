//! Byte-level helpers: header-value text, decimal numbers and prefixes.

use vstd::prelude::*;
use vstd::utf8::*;

verus! {

/// A byte that `http::HeaderValue::to_str` accepts: a tab or a visible
/// ASCII character.
pub open spec fn visible_ascii(b: u8) -> bool {
    (32 <= b && b < 127) || b == 9
}

/// Every byte of `s` is visible ASCII.
pub open spec fn all_visible_ascii(s: Seq<u8>) -> bool {
    forall|i: int| 0 <= i < s.len() ==> #[trigger] visible_ascii(s[i])
}

/// The text of a header value, as `http::HeaderValue::to_str` yields it:
/// the value decoded when every byte is visible ASCII, `None` otherwise.
pub open spec fn header_text(s: Seq<u8>) -> Option<Seq<char>> {
    if all_visible_ascii(s) {
        Some(decode_utf8(s))
    } else {
        None
    }
}

/// `std::str::from_utf8`, copied into an owned `String`. The contract
/// states that the call succeeds exactly on well-formed UTF-8 and that the
/// text is the UTF-8 decoding of the bytes.
#[verifier::external_body]
fn utf8_to_string(bytes: &[u8]) -> (r: Option<String>)
    ensures
        r is Some <==> valid_utf8(bytes@),
        r matches Some(s) ==> s@ == decode_utf8(bytes@),
{
    std::str::from_utf8(bytes).ok().map(|s| s.to_string())
}

proof fn lemma_ascii_valid_utf8(s: Seq<u8>)
    requires
        forall|i: int| 0 <= i < s.len() ==> s[i] < 128,
    ensures
        valid_utf8(s),
    decreases s.len(),
{
    if s.len() != 0 {
        let b = s[0];
        assert(b < 128);
        assert((b & 0x7f) as u32 <= 0x7f) by (bit_vector);
        assert(valid_first_scalar(s));
        let rest = pop_first_scalar(s);
        assert(rest =~= s.subrange(1, s.len() as int));
        assert forall|i: int| 0 <= i < rest.len() implies rest[i] < 128 by {
            assert(rest[i] == s[i + 1]);
        }
        lemma_ascii_valid_utf8(rest);
    }
}

/// Converts a header value to text exactly as `http::HeaderValue::to_str`
/// does: it succeeds iff every byte is a tab or visible ASCII.
pub fn header_value_to_str(value: &[u8]) -> (r: Option<String>)
    ensures
        match r {
            Some(s) => header_text(value@) == Some(s@),
            None => header_text(value@) is None,
        },
{
    let n = value.len();
    let mut i: usize = 0;
    while i < n
        invariant
            n == value@.len(),
            i <= n,
            forall|k: int| 0 <= k < i ==> #[trigger] visible_ascii(value@[k]),
        decreases n - i,
    {
        let b = value[i];
        if !((b >= 32 && b < 127) || b == 9) {
            assert(!visible_ascii(value@[i as int]));
            return None;
        }
        i += 1;
    }
    proof {
        assert forall|k: int| 0 <= k < value@.len() implies value@[k] < 128 by {
            assert(visible_ascii(value@[k]));
        }
        lemma_ascii_valid_utf8(value@);
    }
    utf8_to_string(value)
}

/// The byte is an ASCII decimal digit.
pub open spec fn is_digit(b: u8) -> bool {
    48 <= b <= 57
}

/// Every byte of `s` is an ASCII decimal digit.
pub open spec fn all_digits(s: Seq<u8>) -> bool {
    forall|i: int| 0 <= i < s.len() ==> #[trigger] is_digit(s[i])
}

/// The number that the decimal digits `s` denote.
pub open spec fn digits_value(s: Seq<u8>) -> nat
    decreases s.len(),
{
    if s.len() == 0 {
        0
    } else {
        digits_value(s.drop_last()) * 10 + (s.last() - 48) as nat
    }
}

/// An unsigned decimal as `str::parse` reads one for an unsigned integer
/// type whose largest value is `max`: an optional `+`, then one or more
/// ASCII digits whose value is at most `max`.
pub open spec fn parse_unsigned(s: Seq<u8>, max: nat) -> Option<nat> {
    let d = if s.len() > 0 && s[0] == 43u8 {
        s.drop_first()
    } else {
        s
    };
    if d.len() > 0 && all_digits(d) && digits_value(d) <= max {
        Some(digits_value(d))
    } else {
        None
    }
}

proof fn lemma_digits_value_grows(s: Seq<u8>, k: int)
    requires
        0 <= k <= s.len(),
        all_digits(s),
    ensures
        digits_value(s.subrange(0, k)) <= digits_value(s),
    decreases s.len() - k,
{
    if k < s.len() {
        lemma_digits_value_grows(s, k + 1);
        let p = s.subrange(0, k + 1);
        assert(p.drop_last() =~= s.subrange(0, k));
        assert(is_digit(s[k]));
        assert(p.last() == s[k]);
        assert(digits_value(p) == digits_value(s.subrange(0, k)) * 10 + (s[k] - 48) as nat);
        assert(digits_value(s.subrange(0, k)) <= digits_value(s.subrange(0, k)) * 10);
    } else {
        assert(s.subrange(0, k) =~= s);
    }
}

/// Reads an unsigned decimal number no larger than `u64::MAX`, as
/// `str::parse::<u64>` does on the same bytes.
pub fn parse_u64(s: &[u8]) -> (r: Option<u64>)
    ensures
        match r {
            Some(v) => parse_unsigned(s@, u64::MAX as nat) == Some(v as nat),
            None => parse_unsigned(s@, u64::MAX as nat) is None,
        },
{
    let n = s.len();
    let start: usize = if n > 0 && s[0] == 43u8 {
        1
    } else {
        0
    };
    let ghost d = if s@.len() > 0 && s@[0] == 43u8 {
        s@.drop_first()
    } else {
        s@
    };
    assert(d =~= s@.subrange(start as int, n as int));
    if start == n {
        return None;
    }
    let mut acc: u64 = 0;
    let mut i: usize = start;
    assert(d.subrange(0, 0) =~= Seq::<u8>::empty());
    while i < n
        invariant
            n == s@.len(),
            start <= i <= n,
            d =~= s@.subrange(start as int, n as int),
            d == (if s@.len() > 0 && s@[0] == 43u8 {
                s@.drop_first()
            } else {
                s@
            }),
            forall|k: int| 0 <= k < i - start ==> #[trigger] is_digit(d[k]),
            acc as nat == digits_value(d.subrange(0, i - start)),
        decreases n - i,
    {
        let b = s[i];
        if b < 48 || b > 57 {
            assert(!is_digit(d[i - start]));
            assert(!all_digits(d));
            return None;
        }
        let digit: u64 = (b - 48) as u64;
        let ghost prev = d.subrange(0, i - start);
        let ghost next = d.subrange(0, i - start + 1);
        assert(next.drop_last() =~= prev);
        assert(next.last() == b);
        assert(digits_value(next) == digits_value(prev) * 10 + (b - 48) as nat);
        if acc > (u64::MAX - digit) / 10 {
            proof {
                assert(acc * 10 + digit > u64::MAX) by (nonlinear_arith)
                    requires
                        acc > (u64::MAX - digit) / 10,
                        digit <= 9,
                ;
                if all_digits(d) {
                    lemma_digits_value_grows(d, i - start + 1);
                    assert(digits_value(d) > u64::MAX);
                }
            }
            return None;
        }
        assert(acc * 10 + digit <= u64::MAX) by (nonlinear_arith)
            requires
                acc <= (u64::MAX - digit) / 10,
                digit <= 9,
        ;
        acc = acc * 10 + digit;
        i += 1;
    }
    assert(d.subrange(0, n - start) =~= d);
    Some(acc)
}

/// Reads an unsigned decimal number no larger than `u16::MAX`, as
/// `str::parse::<u16>` does on the same bytes.
pub fn parse_u16(s: &[u8]) -> (r: Option<u16>)
    ensures
        match r {
            Some(v) => parse_unsigned(s@, u16::MAX as nat) == Some(v as nat),
            None => parse_unsigned(s@, u16::MAX as nat) is None,
        },
{
    match parse_u64(s) {
        Some(v) => {
            if v <= 65535 {
                Some(v as u16)
            } else {
                None
            }
        },
        None => None,
    }
}

/// Removes the prefix `p` from the bytes `s`; `None` if `p` is not a
/// prefix.
pub fn strip_bytes_prefix(s: &[u8], p: &[u8]) -> (r: Option<Vec<u8>>)
    ensures
        match r {
            Some(t) => crate::text::strip_prefix_spec(s@, p@) == Some(t@),
            None => crate::text::strip_prefix_spec(s@, p@) is None,
        },
{
    let n = s.len();
    let m = p.len();
    if m > n {
        return None;
    }
    let mut j: usize = 0;
    while j < m
        invariant
            n == s@.len(),
            m == p@.len(),
            m <= n,
            j <= m,
            forall|l: int| 0 <= l < j ==> s@[l] == p@[l],
        decreases m - j,
    {
        if s[j] != p[j] {
            assert(s@.subrange(0, m as int)[j as int] != p@[j as int]);
            return None;
        }
        j += 1;
    }
    assert(s@.subrange(0, m as int) =~= p@);
    let mut out: Vec<u8> = Vec::new();
    let mut k: usize = m;
    while k < n
        invariant
            n == s@.len(),
            m <= k <= n,
            out@ =~= s@.subrange(m as int, k as int),
        decreases n - k,
    {
        out.push(s[k]);
        k += 1;
    }
    Some(out)
}

} // verus!
