//! Percent-encoding of texts for URLs, and the waits between retried requests.
use vstd::arithmetic::power2::{lemma_pow2_unfold, pow2};
use vstd::prelude::*;
use vstd::utf8::encode_utf8;

verus! {

/// The bytes that percent-encoding leaves as they are: ASCII letters and digits, `-`, `.`,
/// `_` and `~`.
pub open spec fn url_safe_byte(b: u8) -> bool {
    (48 <= b <= 57) || (65 <= b <= 90) || (97 <= b <= 122) || b == 45 || b == 46 || b == 95 || b
        == 126
}

/// The upper-case hexadecimal digit of a value below 16.
pub open spec fn hex_upper(n: int) -> char {
    if n < 10 {
        ((48 + n) as u32) as char
    } else {
        ((55 + n) as u32) as char
    }
}

/// Each unsafe byte written as `%` and two upper-case hexadecimal digits.
pub open spec fn percent_encoded(bytes: Seq<u8>) -> Seq<char>
    decreases bytes.len(),
{
    if bytes.len() == 0 {
        Seq::empty()
    } else {
        let b = bytes[0];
        let head = if url_safe_byte(b) {
            seq![(b as u32) as char]
        } else {
            seq!['%', hex_upper(b as int / 16), hex_upper(b as int % 16)]
        };
        head + percent_encoded(bytes.drop_first())
    }
}

/// A text as `urlencoding::encode` writes it.
pub open spec fn url_encoded(s: Seq<char>) -> Seq<char> {
    percent_encoded(encode_utf8(s))
}

/// Calls `urlencoding::encode`. Trusted: its source percent-encodes each UTF-8 byte of the
/// text except ASCII letters, digits, `-`, `_`, `.` and `~`, with upper-case hexadecimal
/// digits (`to_hex_digit`).
#[verifier::external_body]
pub(crate) fn url_encode(s: &str) -> (r: String)
    ensures
        r@ == url_encoded(s@),
{
    urlencoding::encode(s).into_owned()
}

/// How long to wait before the next try of a request that failed on try `attempt` (counted
/// from 0): `base_ms` doubled at each try, and no wait (give up) after the last one.
pub open spec fn retry_delay_spec(attempt: u32, max_retries: u32, base_ms: u64) -> Option<int> {
    if attempt + 1 < max_retries {
        Some(base_ms * pow2(attempt as nat))
    } else {
        None
    }
}

/// How long to wait before the next try of a failed request, or `None` to give up.
pub fn retry_delay_ms(attempt: u32, max_retries: u32, base_ms: u64) -> (r: Option<u64>)
    requires
        attempt < 32,
        base_ms < 0x1_0000_0000,
    ensures
        match r {
            Some(d) => retry_delay_spec(attempt, max_retries, base_ms) == Some(d as int),
            None => retry_delay_spec(attempt, max_retries, base_ms) is None,
        },
{
    if attempt >= max_retries || attempt + 1 >= max_retries {
        return None;
    }
    let mut d: u64 = base_ms;
    let mut i: u32 = 0;
    proof {
        vstd::arithmetic::power2::lemma2_to64();
        if attempt < 31 {
            vstd::arithmetic::power2::lemma_pow2_strictly_increases(attempt as nat, 31);
        }
    }
    while i < attempt
        invariant
            i <= attempt < 32,
            base_ms < 0x1_0000_0000,
            d == base_ms * pow2(i as nat),
            pow2(attempt as nat) <= 0x8000_0000,
        decreases attempt - i,
    {
        proof {
            lemma_pow2_unfold((i + 1) as nat);
            if i + 1 < attempt {
                vstd::arithmetic::power2::lemma_pow2_strictly_increases((i + 1) as nat, attempt as nat);
            }
            assert(base_ms * pow2((i + 1) as nat) == 2 * (base_ms * pow2(i as nat))) by (nonlinear_arith)
                requires
                    pow2((i + 1) as nat) == 2 * pow2(i as nat),
            ;
            assert(base_ms * pow2((i + 1) as nat) <= 0x1_0000_0000 * 0x8000_0000) by (nonlinear_arith)
                requires
                    pow2((i + 1) as nat) <= 0x8000_0000,
                    base_ms < 0x1_0000_0000,
            ;
        }
        d = d * 2;
        i += 1;
    }
    Some(d)
}

} // verus!
