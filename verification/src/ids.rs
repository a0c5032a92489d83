//! Random identifiers for uploaded files and presets, and API keys.
use vstd::prelude::*;
use crate::trusted::{
    random_below, random_alphanumeric, is_alphanumeric_byte, random_key_bytes, base64_encode,
    base64_standard,
};

verus! {

/// The characters that file and preset identifiers are made of.
pub const BASE62: &'static str = "qwertyuiopasdfghjklzxcvbnmQWERTYUIOPASDFGHJKLZXCVBNM1234567890";

/// A random identifier of `l` characters drawn from [`BASE62`].
pub fn id_create(l: u8) -> (id: String)
    ensures
        id@.len() == l,
        forall|i: int| 0 <= i < id@.len() ==> BASE62@.contains(#[trigger] id@[i]),
{
    proof {
        reveal_strlit("qwertyuiopasdfghjklzxcvbnmQWERTYUIOPASDFGHJKLZXCVBNM1234567890");
    }
    let base62_len = BASE62.unicode_len();
    let mut id = String::new();
    let mut k: u8 = 0;
    while k < l
        invariant
            k <= l,
            base62_len == BASE62@.len(),
            base62_len == 62,
            id@.len() == k,
            forall|i: int| 0 <= i < id@.len() ==> BASE62@.contains(#[trigger] id@[i]),
        decreases l - k,
    {
        let j = random_below(base62_len);
        let c = BASE62.get_char(j);
        assert(BASE62@[j as int] == c);
        id.push(c);
        k = k + 1;
    }
    id
}

/// Whether a character is an ASCII letter or digit.
pub open spec fn is_alphanumeric(c: char) -> bool {
    ('A' <= c && c <= 'Z') || ('a' <= c && c <= 'z') || ('0' <= c && c <= '9')
}

/// A random key of `l` ASCII letters and digits.
pub fn key_create(l: usize) -> (key: String)
    ensures
        key@.len() == l,
        forall|i: int| 0 <= i < key@.len() ==> is_alphanumeric(#[trigger] key@[i]),
{
    let mut key = String::new();
    let mut k: usize = 0;
    while k < l
        invariant
            k <= l,
            key@.len() == k,
            forall|i: int| 0 <= i < key@.len() ==> is_alphanumeric(#[trigger] key@[i]),
        decreases l - k,
    {
        let b = random_alphanumeric();
        key.push(b as char);
        k = k + 1;
    }
    key
}

/// A new secret for signing tokens: 32 random bytes, written in standard
/// base64.
pub fn secret_key() -> (r: String)
    ensures
        exists|b: Seq<u8>| b.len() == 32 && r@ == base64_standard(b),
{
    let key = random_key_bytes();
    let r = base64_encode(key.as_slice());
    assert(r@ == base64_standard(key@));
    r
}

} // verus!
