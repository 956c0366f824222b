//! The service's configuration, and the parsing of the one numeric setting
//! it takes. Reading the environment is the embedding program's job; it
//! hands the raw strings here.

use vstd::prelude::*;

verus! {

/// The port used when none is configured.
pub const DEFAULT_PORT: u16 = 3000;

/// Everything the service needs at start.
#[derive(Clone, Debug)]
pub struct Config {
    pub database_url: String,
    pub server_port: u16,
    pub hmac_secret: String,
}

/// A decimal digit.
pub open spec fn spec_is_digit(c: char) -> bool {
    '0' <= c && c <= '9'
}

/// The number a digit string stands for.
pub open spec fn spec_digits_value(s: Seq<char>) -> int
    decreases s.len(),
{
    if s.len() == 0 {
        0
    } else {
        spec_digits_value(s.drop_last()) * 10 + (s.last() as u8 - 48)
    }
}

proof fn lemma_digits_value_nonneg(s: Seq<char>)
    requires
        forall|j: int| 0 <= j < s.len() ==> spec_is_digit(#[trigger] s[j]),
    ensures
        spec_digits_value(s) >= 0,
    decreases s.len(),
{
    if s.len() > 0 {
        lemma_digits_value_nonneg(s.drop_last());
    }
}

/// The port a setting string names: the value of its digits, if it is all
/// digits, at least one of them, and fits a port number.
pub fn parse_port(s: &str) -> (r: Option<u16>)
    ensures
        r is Some <==> (s@.len() > 0 && (forall|j: int|
            0 <= j < s@.len() ==> spec_is_digit(#[trigger] s@[j])) && spec_digits_value(s@)
            <= 65535),
        r matches Some(p) ==> p == spec_digits_value(s@),
{
    let n = s.unicode_len();
    if n == 0 {
        return None;
    }
    let mut v: u32 = 0;
    let mut too_big = false;
    let mut i: usize = 0;
    while i < n
        invariant
            0 <= i <= n,
            n == s@.len(),
            forall|j: int| 0 <= j < i ==> spec_is_digit(#[trigger] s@[j]),
            too_big == (spec_digits_value(s@.take(i as int)) > 65535),
            !too_big ==> v == spec_digits_value(s@.take(i as int)) && v <= 65535,
        decreases n - i,
    {
        let c = s.get_char(i);
        if !('0' <= c && c <= '9') {
            return None;
        }
        let d = (c as u8) - 48;
        let ghost pre = s@.take(i as int + 1);
        proof {
            assert(pre.last() == s@[i as int]);
            assert(pre.drop_last() =~= s@.take(i as int));
            lemma_digits_value_nonneg(s@.take(i as int));
        }
        if too_big {
            proof {
                assert(spec_digits_value(pre) > 65535);
            }
        } else {
            let w = v * 10 + (d as u32);
            if w > 65535 {
                too_big = true;
            } else {
                v = w;
            }
        }
        i = i + 1;
    }
    proof {
        assert(s@.take(n as int) =~= s@);
    }
    if too_big {
        None
    } else {
        Some(v as u16)
    }
}

} // verus!
