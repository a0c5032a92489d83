//! The calls that the library makes into outside crates, each behind a
//! contract that Verus takes on trust.
use vstd::prelude::*;

verus! {

/// The character for a six-bit value in the standard base64 alphabet
/// (RFC 4648): `A-Z`, `a-z`, `0-9`, `+`, `/`.
pub open spec fn base64_digit(v: int) -> char {
    if v < 26 {
        (65 + v) as char
    } else if v < 52 {
        (97 + v - 26) as char
    } else if v < 62 {
        (48 + v - 52) as char
    } else if v == 62 {
        '+'
    } else {
        '/'
    }
}

/// The standard, padded base64 encoding (RFC 4648) of a byte string: each
/// group of three bytes becomes four characters; a last group of one or two
/// bytes is filled with zero bits and padded with `=` to four characters.
#[verifier::opaque]
pub open spec fn base64_standard(b: Seq<u8>) -> Seq<char>
    decreases b.len(),
{
    if b.len() == 0 {
        Seq::empty()
    } else if b.len() == 1 {
        let n = b[0] as int;
        seq![base64_digit(n / 4), base64_digit(n % 4 * 16), '=', '=']
    } else if b.len() == 2 {
        let n = b[0] as int * 256 + b[1] as int;
        seq![base64_digit(n / 1024), base64_digit(n / 16 % 64), base64_digit(n % 16 * 4), '=']
    } else {
        let n = b[0] as int * 65536 + b[1] as int * 256 + b[2] as int;
        seq![
            base64_digit(n / 262144),
            base64_digit(n / 4096 % 64),
            base64_digit(n / 64 % 64),
            base64_digit(n % 64),
        ] + base64_standard(b.subrange(3, b.len() as int))
    }
}

/// Calls `base64::Engine::encode` on the `STANDARD` engine. Trusted: the
/// result is the standard padded encoding of exactly the given bytes
/// ([`base64_standard`]).
#[verifier::external_body]
pub(crate) fn base64_encode(bytes: &[u8]) -> (r: String)
    ensures
        r@ == base64_standard(bytes@),
{
    base64::Engine::encode(&base64::engine::general_purpose::STANDARD, bytes)
}

/// Calls `rand::Rng::gen_range(0..n)` on `rand::thread_rng()`. Trusted: the
/// result is below `n` (the range is not empty, so the call does not
/// panic); which value comes back is left open.
#[verifier::external_body]
pub(crate) fn random_below(n: usize) -> (r: usize)
    requires
        n > 0,
    ensures
        r < n,
{
    rand::Rng::gen_range(&mut rand::thread_rng(), 0..n)
}

/// Draws 32 bytes with `rand::Rng::gen::<[u8; 32]>()` on
/// `rand::thread_rng()`. Trusted for nothing: the bytes are random.
#[verifier::external_body]
pub(crate) fn random_key_bytes() -> (r: [u8; 32]) {
    rand::Rng::gen::<[u8; 32]>(&mut rand::thread_rng())
}

/// Whether a byte is an ASCII letter or digit.
pub open spec fn is_alphanumeric_byte(b: u8) -> bool {
    (65 <= b <= 90) || (97 <= b <= 122) || (48 <= b <= 57)
}

/// Samples `rand::distributions::Alphanumeric` with `rand::thread_rng()`.
/// Trusted: the byte is one of `A-Z`, `a-z`, `0-9`, as the distribution's
/// documentation and source give; which one is left open.
#[verifier::external_body]
pub(crate) fn random_alphanumeric() -> (r: u8)
    ensures
        is_alphanumeric_byte(r),
{
    rand::Rng::sample(&mut rand::thread_rng(), rand::distributions::Alphanumeric)
}

/// Whether a character is a lower-case hexadecimal digit.
pub open spec fn is_lower_hex(c: char) -> bool {
    ('0' <= c && c <= '9') || ('a' <= c && c <= 'f')
}

/// The shape of a version-4 UUID in hyphenated lower-case form: 36
/// characters, hyphens at 8, 13, 18 and 23, hexadecimal digits elsewhere,
/// the version digit `4` at 14 and the variant digit (`8`, `9`, `a` or `b`)
/// at 19.
pub open spec fn uuid_v4_shape(s: Seq<char>) -> bool {
    &&& s.len() == 36
    &&& forall|i: int|
        0 <= i < 36 ==> if i == 8 || i == 13 || i == 18 || i == 23 {
            #[trigger] s[i] == '-'
        } else {
            is_lower_hex(s[i])
        }
    &&& s[14] == '4'
    &&& (s[19] == '8' || s[19] == '9' || s[19] == 'a' || s[19] == 'b')
}

/// Calls `uuid::Uuid::new_v4()` and writes it with `to_string`. Trusted: the
/// text has the shape of [`uuid_v4_shape`], as `Uuid`'s `Display` writes the
/// hyphenated lower-case form and `new_v4` sets the version and variant
/// bits; the random value itself is left open.
#[verifier::external_body]
pub(crate) fn uuid_v4_string() -> (r: String)
    ensures
        uuid_v4_shape(r@),
{
    uuid::Uuid::new_v4().to_string()
}

/// Whether a password matches a PHC password-hash string under
/// `argon2::Argon2::default()`: `None` when the string is not a valid PHC
/// hash.
pub uninterp spec fn argon2_verdict(password: Seq<char>, phc: Seq<char>) -> Option<bool>;

/// Calls `PasswordHash::new` on the stored hash and, when it parses,
/// `PasswordVerifier::verify_password` of `Argon2::default()` with the
/// password's bytes. Trusted: the result is [`argon2_verdict`] of the two
/// strings (verification is deterministic).
#[verifier::external_body]
pub(crate) fn argon2_check_password(password: &str, phc: &str) -> (r: Option<bool>)
    ensures
        r == argon2_verdict(password@, phc@),
{
    match argon2::password_hash::PasswordHash::new(phc) {
        Ok(hash) => Some(
            argon2::PasswordVerifier::verify_password(
                &argon2::Argon2::default(),
                password.as_bytes(),
                &hash,
            ).is_ok(),
        ),
        Err(_) => None,
    }
}

/// Whether a password's UTF-8 encoding is at most `argon2::MAX_PWD_LEN`
/// bytes long.
pub open spec fn hashable(password: Seq<char>) -> bool {
    vstd::utf8::encode_utf8(password).len() <= 0xFFFF_FFFF
}

/// Calls `PasswordHasher::hash_password` of `Argon2::default()` with a salt
/// from `SaltString::generate(&mut OsRng)` and writes the PHC string.
/// Trusted: the hash verifies the same password (the round trip that the
/// crate documents). The salt is random, so the string itself is left
/// open. Passwords longer than `argon2::MAX_PWD_LEN` bytes are excluded,
/// because the call fails on them.
#[verifier::external_body]
pub(crate) fn argon2_hash_password(password: &str) -> (r: String)
    requires
        hashable(password@),
    ensures
        argon2_verdict(password@, r@) == Some(true),
{
    let salt = argon2::password_hash::SaltString::generate(
        &mut argon2::password_hash::rand_core::OsRng,
    );
    argon2::PasswordHasher::hash_password(&argon2::Argon2::default(), password.as_bytes(), &salt)
        .unwrap()
        .to_string()
}


/// Writes `Cookie::build((name, value))` with `to_string`. Trusted: the
/// text is `name=value`, as `Cookie`'s `Display` writes a cookie without
/// attributes (no percent-encoding).
#[verifier::external_body]
pub(crate) fn cookie_plain(name: &str, value: &str) -> (r: String)
    ensures
        r@ == name@ + "="@ + value@,
{
    cookie::Cookie::build((name, value)).to_string()
}

/// The attributes that `Cookie`'s `Display` writes for an HTTP-only,
/// same-site-strict cookie on path `/`, in its order: `HttpOnly`,
/// `SameSite`, `Secure` when set, then `Path`.
pub open spec fn strict_attributes(secure: bool) -> Seq<char> {
    "; HttpOnly; SameSite=Strict"@ + (if secure { "; Secure"@ } else { Seq::empty() }) + "; Path=/"@
}

/// Writes `Cookie::build((name, value))` with `path("/")`, `secure(secure)`,
/// `http_only(true)` and `same_site(SameSite::Strict)`, with `to_string`.
/// Trusted: the text is `name=value` followed by [`strict_attributes`], as
/// `Cookie`'s `Display` writes them.
#[verifier::external_body]
pub(crate) fn cookie_strict(name: &str, value: &str, secure: bool) -> (r: String)
    ensures
        r@ == name@ + "="@ + value@ + strict_attributes(secure),
{
    cookie::Cookie::build((name, value))
        .path("/")
        .secure(secure)
        .http_only(true)
        .same_site(cookie::SameSite::Strict)
        .to_string()
}

/// Writes the same cookie as [`cookie_strict`] with
/// `max_age(time::Duration::days(days))` added. Trusted: the text is that
/// of `cookie_strict` followed by `; Max-Age=` and the whole seconds in
/// `days` days.
#[verifier::external_body]
pub(crate) fn cookie_strict_max_age(name: &str, value: &str, secure: bool, days: u16) -> (r:
    String)
    ensures
        r@ == name@ + "="@ + value@ + strict_attributes(secure) + "; Max-Age="@
            + crate::text::decimal(days as nat * 86400),
{
    cookie::Cookie::build((name, value))
        .path("/")
        .secure(secure)
        .http_only(true)
        .max_age(cookie::time::Duration::days(days as i64))
        .same_site(cookie::SameSite::Strict)
        .to_string()
}

} // verus!
