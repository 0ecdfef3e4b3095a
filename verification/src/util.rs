//! Identifier, clock and randomness sources.
//!
//! Every function here that draws on the outside world (time, randomness)
//! states only what holds of every possible outcome; the logic that consumes
//! these values is verified for every value they could produce.

use vstd::prelude::*;

verus! {

/// The characters accepted as password "special" characters.
pub open spec fn special_chars() -> Seq<char> {
    seq![
        '!', '@', '#', '$', '%', '^', '&', '*', '(', ')', '_', '+', '-', '=', '[', ']', '{', '}',
        '|', ';', ':', ',', '.', '<', '>', '?',
    ]
}

/// Whether a character is ASCII alphanumeric.
pub open spec fn is_alphanumeric_char(c: char) -> bool {
    ('a' <= c && c <= 'z') || ('A' <= c && c <= 'Z') || ('0' <= c && c <= '9')
}

/// Relies on uuid::Uuid::new_v4 and its Display impl: a fresh random
/// version-4 UUID rendered in the hyphenated form, which is 36 characters.
/// The value is random; nothing is assumed beyond its length.
#[verifier::external_body]
pub fn generate_jti() -> (r: String)
    ensures
        r@.len() == 36,
{
    uuid::Uuid::new_v4().to_string()
}

/// Relies on mongodb::bson::oid::ObjectId::new and ObjectId::to_hex: a fresh
/// 12-byte object id rendered as 24 lower-case hex characters. The value is
/// random; nothing is assumed beyond its length.
#[verifier::external_body]
pub fn new_object_id() -> (r: String)
    ensures
        r@.len() == 24,
{
    mongodb::bson::oid::ObjectId::new().to_hex()
}

/// Relies on chrono::Utc::now: the current Unix timestamp in seconds.
/// Nothing is assumed of the value.
#[verifier::external_body]
fn unix_now() -> i64 {
    chrono::Utc::now().timestamp()
}

/// Current Unix time in seconds, with times before the epoch clamped to zero.
pub fn now_seconds() -> u64 {
    let t = unix_now();
    if t < 0 {
        0
    } else {
        t as u64
    }
}

/// Relies on rand::Rng::sample with rand::distributions::Alphanumeric, which
/// draws uniformly from a-z, A-Z and 0-9: a random string of exactly `len`
/// ASCII alphanumeric characters.
#[verifier::external_body]
fn sample_alphanumeric(len: usize) -> (r: String)
    ensures
        r@.len() == len as int,
        forall|i: int| 0 <= i < r@.len() ==> is_alphanumeric_char(#[trigger] r@[i]),
{
    let mut rng = rand::thread_rng();
    (0..len).map(|_| char::from(rand::Rng::sample(&mut rng, rand::distributions::Alphanumeric))).collect()
}

/// Relies on rand::Rng::gen_range over `0..n`: a uniformly random index below
/// `n`. The range is non-empty, so the call cannot panic.
#[verifier::external_body]
fn random_below(n: usize) -> (r: usize)
    requires
        n >= 1,
    ensures
        r < n,
{
    rand::Rng::gen_range(&mut rand::thread_rng(), 0..n)
}

/// One of the password "special" characters, as a one-character string slice.
fn special_char_str(i: usize) -> (r: &'static str)
    requires
        i < 26,
    ensures
        r@.len() == 1,
        r@[0] == special_chars()[i as int],
{
    let r: &'static str = match i {
        0 => "!",
        1 => "@",
        2 => "#",
        3 => "$",
        4 => "%",
        5 => "^",
        6 => "&",
        7 => "*",
        8 => "(",
        9 => ")",
        10 => "_",
        11 => "+",
        12 => "-",
        13 => "=",
        14 => "[",
        15 => "]",
        16 => "{",
        17 => "}",
        18 => "|",
        19 => ";",
        20 => ":",
        21 => ",",
        22 => ".",
        23 => "<",
        24 => ">",
        _ => "?",
    };
    proof {
        reveal_strlit("!");
        reveal_strlit("@");
        reveal_strlit("#");
        reveal_strlit("$");
        reveal_strlit("%");
        reveal_strlit("^");
        reveal_strlit("&");
        reveal_strlit("*");
        reveal_strlit("(");
        reveal_strlit(")");
        reveal_strlit("_");
        reveal_strlit("+");
        reveal_strlit("-");
        reveal_strlit("=");
        reveal_strlit("[");
        reveal_strlit("]");
        reveal_strlit("{");
        reveal_strlit("}");
        reveal_strlit("|");
        reveal_strlit(";");
        reveal_strlit(":");
        reveal_strlit(",");
        reveal_strlit(".");
        reveal_strlit("<");
        reveal_strlit(">");
        reveal_strlit("?");
    }
    r
}

/// A random password of the requested length: alphanumeric characters with
/// two characters from the "special" set appended to ensure complexity. Used
/// for accounts created through the OAuth bridge, whose password is never
/// transmitted or used.
pub fn generate_password(length: usize) -> (r: String)
    requires
        2 <= length,
    ensures
        r@.len() == length as int,
        special_chars().contains(r@[length - 2]),
        special_chars().contains(r@[length - 1]),
        forall|i: int| 0 <= i < length - 2 ==> is_alphanumeric_char(#[trigger] r@[i]),
{
    let mut password = sample_alphanumeric(length - 2);
    let i = random_below(26);
    let j = random_below(26);
    password.append(special_char_str(i));
    password.append(special_char_str(j));
    proof {
        assert(special_chars().contains(special_chars()[i as int]));
        assert(special_chars().contains(special_chars()[j as int]));
    }
    password
}

/// A random email address under the test domain: a 12-character random local
/// part (ending in two "special" characters) followed by `@test.com`.
pub fn generate_test_email() -> (r: String)
    ensures
        r@.len() == 21,
        r@.subrange(12, 21) == "@test.com"@,
{
    let mut email = generate_password(12);
    email.append("@test.com");
    proof {
        reveal_strlit("@test.com");
        assert(email@.subrange(12, 21) =~= "@test.com"@);
    }
    email
}

} // verus!
