//! Decimal parameters as the printer receives them: ASCII digits, read the way
//! Rust's `str::parse` reads an unsigned integer.

use vstd::prelude::*;

verus! {

/// Whether `b` is an ASCII decimal digit.
pub open spec fn is_digit(b: u8) -> bool {
    0x30 <= b && b <= 0x39
}

/// Whether every byte of `s` is an ASCII decimal digit.
pub open spec fn all_digits(s: Seq<u8>) -> bool {
    forall|i: int| 0 <= i < s.len() ==> is_digit(#[trigger] s[i])
}

/// The number that the ASCII digits `s` write in decimal.
pub open spec fn decimal_value(s: Seq<u8>) -> nat
    decreases s.len(),
{
    if s.len() == 0 {
        0
    } else {
        decimal_value(s.drop_last()) * 10 + (s.last() - 0x30) as nat
    }
}

/// `s` without one leading `+` sign, which an unsigned parse accepts.
pub open spec fn unsigned_body(s: Seq<u8>) -> Seq<u8> {
    if s.len() > 0 && s[0] == 0x2B {
        s.drop_first()
    } else {
        s
    }
}

/// The value of `s` read as an unsigned decimal integer of at most `max`:
/// an optional `+`, then one or more digits and nothing else, writing a value
/// no larger than `max`.
pub open spec fn parse_decimal(s: Seq<u8>, max: nat) -> Option<nat> {
    let body = unsigned_body(s);
    if body.len() > 0 && all_digits(body) && decimal_value(body) <= max {
        Some(decimal_value(body))
    } else {
        None
    }
}

/// The value of a digit string never falls below that of any of its prefixes.
pub proof fn lemma_decimal_value_prefix(s: Seq<u8>, k: int)
    requires
        all_digits(s),
        0 <= k <= s.len(),
    ensures
        decimal_value(s.take(k)) <= decimal_value(s),
    decreases s.len(),
{
    if k < s.len() {
        let d = s.drop_last();
        assert(d.take(k) =~= s.take(k));
        assert(all_digits(d));
        lemma_decimal_value_prefix(d, k);
    } else {
        assert(s.take(k) =~= s);
    }
}

/// Reads `s` as an unsigned decimal integer no larger than `max`.
pub fn parse_decimal_bytes(s: &[u8], max: u64) -> (r: Option<u64>)
    ensures
        match parse_decimal(s@, max as nat) {
            Some(v) => r == Some(v as u64),
            None => r is None,
        },
{
    let n = s.len();
    let mut start: usize = 0;
    if n > 0 && s[0] == 0x2B {
        start = 1;
    }
    let ghost body = unsigned_body(s@);
    assert(body =~= s@.subrange(start as int, n as int));
    if start >= n {
        return None;
    }
    let mut i: usize = start;
    let mut v: u64 = 0;
    while i < n
        invariant
            start < n,
            n == s@.len(),
            start <= i <= n,
            body =~= s@.subrange(start as int, n as int),
            body == unsigned_body(s@),
            all_digits(body.take(i - start)),
            v as nat == decimal_value(body.take(i - start)),
            v <= max,
        decreases n - i,
    {
        let b = s[i];
        if b < 0x30 || b > 0x39 {
            assert(body[i - start] == b);
            assert(!is_digit(body[i - start]));
            assert(!all_digits(body));
            assert(parse_decimal(s@, max as nat) is None);
            return None;
        }
        let d: u64 = (b - 0x30) as u64;
        let next: u128 = (v as u128) * 10 + (d as u128);
        let ghost pre = body.take(i - start + 1);
        assert(pre.drop_last() =~= body.take(i - start));
        assert(pre.last() == b);
        assert(all_digits(pre)) by {
            assert forall|j: int| 0 <= j < pre.len() implies is_digit(#[trigger] pre[j]) by {
                if j < pre.len() - 1 {
                    assert(pre[j] == body.take(i - start)[j]);
                }
            }
        }
        assert(decimal_value(pre) == v * 10 + d);
        if next > max as u128 {
            proof {
                if all_digits(body) {
                    lemma_decimal_value_prefix(body, i - start + 1);
                    assert(decimal_value(body) > max);
                }
                assert(parse_decimal(s@, max as nat) is None);
            }
            return None;
        }
        v = next as u64;
        i = i + 1;
    }
    assert(body.take(n - start) =~= body);
    Some(v)
}

} // verus!
