//! The device identity: a 32-bit number that the caller gives in base 16.

use vstd::prelude::*;
use vstd::string::*;
use crate::error::Error;

verus! {

/// The value of a base-16 digit, upper or lower case.
pub open spec fn hex_digit(c: char) -> Option<nat> {
    let n = c as int;
    if 48 <= n <= 57 {
        Some((n - 48) as nat)
    } else if 65 <= n <= 70 {
        Some((n - 55) as nat)
    } else if 97 <= n <= 102 {
        Some((n - 87) as nat)
    } else {
        None
    }
}

/// Every character is a base-16 digit.
pub open spec fn is_hex(s: Seq<char>) -> bool {
    forall|i: int| 0 <= i < s.len() ==> (#[trigger] hex_digit(s[i])) is Some
}

/// The number that the digits spell, most significant first.
pub open spec fn hex_value(s: Seq<char>) -> nat
    decreases s.len(),
{
    if s.len() == 0 {
        0
    } else {
        16 * hex_value(s.drop_last()) + hex_digit(s.last()).unwrap_or(0)
    }
}

/// The text without a leading plus sign.
pub open spec fn unsigned_part(s: Seq<char>) -> Seq<char> {
    if s.len() > 0 && s[0] == '+' {
        s.subrange(1, s.len() as int)
    } else {
        s
    }
}

/// The identity that a text denotes: an optional plus sign, then at least one
/// base-16 digit and nothing else, the whole no larger than 32 bits hold.
pub open spec fn parse_identity(s: Seq<char>) -> Option<u32> {
    let d = unsigned_part(s);
    if d.len() > 0 && is_hex(d) && hex_value(d) <= u32::MAX {
        Some(hex_value(d) as u32)
    } else {
        None
    }
}

proof fn lemma_prefix_value(s: Seq<char>, k: int)
    requires
        0 <= k <= s.len(),
    ensures
        hex_value(s.take(k)) <= hex_value(s),
    decreases s.len(),
{
    if k == s.len() {
        assert(s.take(k) =~= s);
    } else {
        assert(s.drop_last().take(k) =~= s.take(k));
        lemma_prefix_value(s.drop_last(), k);
    }
}

fn digit_of(c: char) -> (r: Option<u64>)
    ensures
        match hex_digit(c) {
            Some(v) => r == Some(v as u64) && v < 16,
            None => r.is_none(),
        },
{
    let n: u32 = c as u32;
    if 48 <= n && n <= 57 {
        Some((n - 48) as u64)
    } else if 65 <= n && n <= 70 {
        Some((n - 55) as u64)
    } else if 97 <= n && n <= 102 {
        Some((n - 87) as u64)
    } else {
        None
    }
}

/// Reads a device identity from its base-16 text.
pub fn identity_from_hex(s: &str) -> (r: Result<u32, Error>)
    ensures
        r == match parse_identity(s@) {
            Some(v) => Ok::<u32, Error>(v),
            None => Err::<u32, Error>(Error::InvalidIdentity),
        },
{
    let n = s.unicode_len();
    let start: usize = if n > 0 && s.get_char(0) == '+' {
        1
    } else {
        0
    };
    let ghost d = unsigned_part(s@);
    if start == n {
        return Err(Error::InvalidIdentity);
    }
    let mut acc: u64 = 0;
    let mut i: usize = start;
    while i < n
        invariant
            start <= i <= n,
            n == s@.len(),
            d == unsigned_part(s@),
            d.len() == n - start,
            forall|j: int| 0 <= j < d.len() ==> d[j] == s@[j + start],
            is_hex(d.take(i - start)),
            acc == hex_value(d.take(i - start)),
            acc <= u32::MAX,
        decreases n - i,
    {
        let c = s.get_char(i);
        let ghost k = i - start;
        proof {
            assert(d.take(k + 1).drop_last() =~= d.take(k));
            assert(d.take(k + 1).last() == c);
        }
        match digit_of(c) {
            None => {
                assert(hex_digit(d[k]) is None);
                return Err(Error::InvalidIdentity);
            },
            Some(v) => {
                acc = acc * 16 + v;
                proof {
                    assert(acc == hex_value(d.take(k + 1)));
                    assert forall|j: int| 0 <= j < d.take(k + 1).len() implies (#[trigger] hex_digit(
                        d.take(k + 1)[j],
                    )) is Some by {
                        if j < k {
                            assert(d.take(k + 1)[j] == d.take(k)[j]);
                        }
                    }
                }
                if acc > 0xFFFF_FFFFu64 {
                    proof {
                        lemma_prefix_value(d, k + 1);
                    }
                    return Err(Error::InvalidIdentity);
                }
            },
        }
        i = i + 1;
    }
    proof {
        assert(d.take(i - start) =~= d);
    }
    Ok(acc as u32)
}

} // verus!
