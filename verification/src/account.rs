//! Accounts and the normalization rules applied when one is created: a name
//! of 1 to 128 bytes after trimming, and a currency of exactly three ASCII
//! letters, stored uppercase.

use vstd::prelude::*;
use vstd::string::StringSliceAdditionalSpecFns;
use vstd::utf8::encode_utf8;

use crate::text::{is_alpha, to_upper, trimmed, trim};

verus! {

/// A per-business account. Its balance is mutated only by the ledger engine.
#[derive(Clone, Debug)]
pub struct Account {
    pub id: u128,
    pub business_id: u128,
    pub name: String,
    pub currency: String,
    pub balance: i64,
}

/// An account as a caller asks for it to be created.
#[derive(Clone, Debug)]
pub struct CreateAccountRequest {
    pub name: String,
    pub currency: String,
}

/// An account as it is shown to callers: the currency is trimmed, since the
/// store may pad it.
#[derive(Clone, Debug)]
pub struct AccountResponse {
    pub id: u128,
    pub name: String,
    pub currency: String,
    pub balance: i64,
}

/// The sequence with every lowercase ASCII letter raised to uppercase.
pub open spec fn uppercased(s: Seq<char>) -> Seq<char> {
    s.map_values(|c: char| to_upper(c))
}

/// Whether a trimmed input is acceptable as a currency code: exactly three
/// ASCII letters.
pub open spec fn valid_currency_chars(t: Seq<char>) -> bool {
    t.len() == 3 && (forall|j: int| 0 <= j < 3 ==> is_alpha(#[trigger] t[j]))
}

fn upper_byte(c: char) -> (r: u8)
    requires
        is_alpha(c),
    ensures
        r == to_upper(c) as u8,
        r < 128,
        r as char == to_upper(c),
{
    if 'a' <= c && c <= 'z' {
        (c as u8) - 32
    } else {
        c as u8
    }
}

/// Relies on String::from_utf8: bytes below 0x80 are valid UTF-8 and decode
/// one-to-one to the characters with the same values.
#[verifier::external_body]
fn ascii_to_string(v: Vec<u8>) -> (r: String)
    requires
        forall|i: int| 0 <= i < v@.len() ==> v@[i] < 128,
    ensures
        r@.len() == v@.len(),
        forall|i: int| 0 <= i < v@.len() ==> r@[i] == #[trigger] v@[i] as char,
{
    match String::from_utf8(v) {
        Ok(s) => s,
        Err(_) => String::new(),
    }
}

/// The currency code an input stands for: trimmed and uppercased, if what
/// remains is exactly three ASCII letters; nothing otherwise.
pub fn normalize_currency(input: &str) -> (r: Option<String>)
    ensures
        r is Some <==> valid_currency_chars(trimmed(input@)),
        r matches Some(c) ==> c@ == uppercased(trimmed(input@)),
{
    let t = trim(input);
    let n = t.unicode_len();
    if n != 3 {
        return None;
    }
    let mut v: Vec<u8> = Vec::new();
    let mut i: usize = 0;
    while i < 3
        invariant
            0 <= i <= 3,
            t@.len() == 3,
            t@ == trimmed(input@),
            v@.len() == i,
            forall|j: int| 0 <= j < i ==> is_alpha(#[trigger] t@[j]),
            forall|j: int| 0 <= j < i ==> v@[j] < 128,
            forall|j: int| 0 <= j < i ==> #[trigger] v@[j] as char == to_upper(t@[j]),
        decreases 3 - i,
    {
        let c = t.get_char(i);
        if !(('A' <= c && c <= 'Z') || ('a' <= c && c <= 'z')) {
            return None;
        }
        v.push(upper_byte(c));
        i = i + 1;
    }
    let ghost bytes = v@;
    let s = ascii_to_string(v);
    proof {
        let t_seq = trimmed(input@);
        assert forall|j: int| 0 <= j < 3 implies s@[j] == uppercased(t_seq)[j] by {
            assert(bytes[j] as char == to_upper(t_seq[j]));
            assert(s@[j] == bytes[j] as char);
            assert(uppercased(t_seq)[j] == to_upper(t_seq[j]));
        }
        assert(s@ =~= uppercased(t_seq));
    }
    Some(s)
}

/// The account name an input stands for: the input with surrounding
/// whitespace removed, if between 1 and 128 bytes remain; nothing otherwise.
pub fn normalize_name(input: &str) -> (r: Option<String>)
    ensures
        r is Some <==> (trimmed(input@).len() > 0 && encode_utf8(trimmed(input@)).len() <= 128),
        r matches Some(c) ==> c@ == trimmed(input@),
{
    let t = trim(input);
    proof {
        assert(t.spec_bytes() == encode_utf8(trimmed(input@)));
    }
    if t.is_empty() {
        return None;
    }
    if t.as_bytes().len() > 128 {
        return None;
    }
    Some(t.to_owned())
}

impl Account {
    /// An equal copy, spelled out so it is known, field by field, to equal
    /// the value it was taken from.
    pub fn duplicate(&self) -> (r: Account)
        ensures
            r == *self,
    {
        Account {
            id: self.id,
            business_id: self.business_id,
            name: self.name.clone(),
            currency: self.currency.clone(),
            balance: self.balance,
        }
    }

    /// This account as shown to callers; only the currency changes shape.
    pub fn to_response(&self) -> (r: AccountResponse)
        ensures
            r.id == self.id,
            r.name@ == self.name@,
            r.currency@ == trimmed(self.currency@),
            r.balance == self.balance,
    {
        AccountResponse {
            id: self.id,
            name: self.name.clone(),
            currency: trim(self.currency.as_str()).to_owned(),
            balance: self.balance,
        }
    }
}

} // verus!
