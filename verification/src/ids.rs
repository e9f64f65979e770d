//! Fresh identifiers and the current time: session ids, session tokens and the like.
//! Their values come from chance and the clock; what is stated is their shape.
use vstd::prelude::*;
use vstd::string::*;
use crate::text::{owned, concat2, push_char};

verus! {

broadcast use vstd::string::group_string_axioms;

/// A lowercase hexadecimal digit.
pub open spec fn is_lower_hex(c: char) -> bool {
    ('0' <= c && c <= '9') || ('a' <= c && c <= 'f')
}

/// The text of a random (version 4) UUID: 36 characters, hyphens after the 8th, 12th,
/// 16th and 20th hexadecimal digit, lowercase hexadecimal digits elsewhere, the version
/// digit `4` first in the third group.
pub open spec fn uuid_text(s: Seq<char>) -> bool {
    &&& s.len() == 36
    &&& forall|i: int|
        0 <= i < 36 ==> if i == 8 || i == 13 || i == 18 || i == 23 {
            s[i] == '-'
        } else {
            is_lower_hex(#[trigger] s[i])
        }
    &&& s[14] == '4'
}

/// A seeded random number generator of `rand` (ChaCha based).
#[verifier::external_type_specification]
#[verifier::external_body]
pub struct ExStdRng(rand::rngs::StdRng);

/// An error of `rand`: the operating system's random source could not be read.
#[verifier::external_type_specification]
#[verifier::external_body]
pub struct ExRandError(rand::Error);

/// `rand::SeedableRng::from_rng` on `rand::rngs::OsRng`: a generator seeded from the
/// operating system's random source, or the error when that source cannot be read (the
/// seed is read with `try_fill_bytes`, which returns the error instead of panicking).
/// Which seed it gets is chance, so nothing is stated of the generator.
#[verifier::external_body]
pub(crate) fn seeded_rng() -> (r: Result<rand::rngs::StdRng, rand::Error>) {
    <rand::rngs::StdRng as rand::SeedableRng>::from_rng(rand::rngs::OsRng)
}

/// `rand::Rng::gen` for 16 bytes: random bytes drawn from `rng`. Which ones is chance.
#[verifier::external_body]
pub(crate) fn random_bytes(rng: &mut rand::rngs::StdRng) -> (r: [u8; 16]) {
    rand::Rng::gen(rng)
}

/// The lowercase hexadecimal digit of a value below 16.
pub open spec fn hex_digit(n: int) -> char {
    if n < 10 {
        (48 + n) as char
    } else {
        (87 + n) as char
    }
}

/// Each byte as two lowercase hexadecimal digits, high half first.
pub open spec fn hex_of(bs: Seq<u8>) -> Seq<char> {
    Seq::new(
        2 * bs.len(),
        |k: int|
            if k % 2 == 0 {
                hex_digit(bs[k / 2] as int / 16)
            } else {
                hex_digit(bs[k / 2] as int % 16)
            },
    )
}

/// The bytes of a version 4 UUID made of random bytes: byte 6 gets the version (4) in its
/// high half, byte 8 the variant bits `10` on top.
pub open spec fn v4_bytes(bs: Seq<u8>) -> Seq<u8> {
    bs.update(6, (bs[6] & 0x0fu8) | 0x40u8).update(8, (bs[8] & 0x3fu8) | 0x80u8)
}

/// The text of the version 4 UUID made of 16 random bytes: its bytes in hexadecimal,
/// grouped 4-2-2-2-6 and joined by hyphens.
pub open spec fn uuid_v4_text(bytes: Seq<u8>) -> Seq<char> {
    let v = v4_bytes(bytes);
    hex_of(v.subrange(0, 4)) + seq!['-'] + hex_of(v.subrange(4, 6)) + seq!['-'] + hex_of(
        v.subrange(6, 8),
    ) + seq!['-'] + hex_of(v.subrange(8, 10)) + seq!['-'] + hex_of(v.subrange(10, 16))
}

/// The text of a UUID made of 16 random bytes has the shape of a random UUID.
pub proof fn lemma_uuid_v4_text_shape(bytes: Seq<u8>)
    requires
        bytes.len() == 16,
    ensures
        uuid_text(uuid_v4_text(bytes)),
{
    let v = v4_bytes(bytes);
    let s = uuid_v4_text(bytes);
    assert forall|n: int| 0 <= n < 16 implies is_lower_hex(#[trigger] hex_digit(n)) by {}
    assert forall|bs: Seq<u8>, k: int| 0 <= k < hex_of(bs).len() implies is_lower_hex(
        #[trigger] hex_of(bs)[k],
    ) by {
        assert(0 <= bs[k / 2] as int / 16 < 16);
        assert(0 <= bs[k / 2] as int % 16 < 16);
    }
    let b6 = bytes[6];
    assert(((b6 & 0x0fu8) | 0x40u8) / 16 == 4) by (bit_vector);
    assert(v[6] == (b6 & 0x0fu8) | 0x40u8);
    assert(s.len() == 36);
    assert(s[14] == hex_of(v.subrange(6, 8))[0]);
    assert(hex_digit(4) == '4');
    assert forall|i: int| 0 <= i < 36 implies if i == 8 || i == 13 || i == 18 || i == 23 {
        s[i] == '-'
    } else {
        is_lower_hex(#[trigger] s[i])
    } by {
        if i < 8 {
            assert(s[i] == hex_of(v.subrange(0, 4))[i]);
        } else if i == 8 {
        } else if i < 13 {
            assert(s[i] == hex_of(v.subrange(4, 6))[i - 9]);
        } else if i == 13 {
        } else if i < 18 {
            assert(s[i] == hex_of(v.subrange(6, 8))[i - 14]);
        } else if i == 18 {
        } else if i < 23 {
            assert(s[i] == hex_of(v.subrange(8, 10))[i - 19]);
        } else if i == 23 {
        } else {
            assert(s[i] == hex_of(v.subrange(10, 16))[i - 24]);
        }
    }
}

/// `uuid::Builder::from_random_bytes`, written out with `to_string`: the version 4 UUID
/// made of `bytes` (the builder sets the version and variant bits and keeps the rest),
/// in the hyphenated lowercase form that the crate's `Display` writes.
#[verifier::external_body]
pub fn uuid_from_random_bytes(bytes: [u8; 16]) -> (r: String)
    ensures
        r@ == uuid_v4_text(bytes@),
{
    uuid::Builder::from_random_bytes(bytes).into_uuid().to_string()
}

/// A fresh random UUID, or `None` when the operating system's random source cannot be
/// read.
pub fn new_uuid_string() -> (r: Option<String>)
    ensures
        r matches Some(u) ==> uuid_text(u@),
{
    match seeded_rng() {
        Ok(mut rng) => {
            let bytes = random_bytes(&mut rng);
            proof {
                lemma_uuid_v4_text_shape(bytes@);
            }
            Some(uuid_from_random_bytes(bytes))
        },
        Err(_) => None,
    }
}

/// `std::time::SystemTime::duration_since(UNIX_EPOCH)` of `SystemTime::now()`: the
/// machine's clock as whole seconds and nanoseconds since 1970, or `None` when the clock
/// is set before 1970 (the error case of `duration_since`). The nanoseconds are the
/// fraction of a second (`Duration::subsec_nanos`), so under a billion.
#[verifier::external_body]
pub(crate) fn clock_since_epoch() -> (r: Option<(u64, u32)>)
    ensures
        r matches Some(t) ==> t.1 < 1_000_000_000,
{
    match std::time::SystemTime::now().duration_since(std::time::UNIX_EPOCH) {
        Ok(d) => Some((d.as_secs(), d.subsec_nanos())),
        Err(_) => None,
    }
}

/// A count of seconds since 1970 as a Unix timestamp, or `None` when an `i64` cannot
/// hold it.
pub fn timestamp_from_secs(secs: u64) -> (r: Option<i64>)
    ensures
        secs <= 0x7fff_ffff_ffff_ffff ==> r == Some(secs as i64),
        secs > 0x7fff_ffff_ffff_ffff ==> r is None,
{
    if secs <= 0x7fff_ffff_ffff_ffff {
        Some(secs as i64)
    } else {
        None
    }
}

/// The current time as a Unix timestamp in seconds (`timestamp_from_secs` of the clock's
/// whole seconds), or `None` when the clock is set before 1970 or past what an `i64`
/// holds.
pub fn now_timestamp() -> (r: Option<i64>)
    ensures
        r matches Some(t) ==> t >= 0,
{
    match clock_since_epoch() {
        Some((secs, _)) => timestamp_from_secs(secs),
        None => None,
    }
}

/// An ASCII letter or digit.
pub open spec fn is_alphanumeric_byte(b: u8) -> bool {
    (48 <= b && b <= 57) || (65 <= b && b <= 90) || (97 <= b && b <= 122)
}

/// An ASCII letter or digit.
pub open spec fn is_alphanumeric_char(c: char) -> bool {
    ('0' <= c && c <= '9') || ('A' <= c && c <= 'Z') || ('a' <= c && c <= 'z')
}

/// `rand::Rng::sample` with `rand::distributions::Alphanumeric`: a byte drawn from the
/// table of the 62 ASCII letters and digits in the crate's source. Which one is chance.
#[verifier::external_body]
fn sample_alphanumeric(rng: &mut rand::rngs::StdRng) -> (r: u8)
    ensures
        is_alphanumeric_byte(r),
{
    rand::Rng::sample(rng, rand::distributions::Alphanumeric)
}

/// The character of an ASCII letter or digit.
fn alphanumeric_char(b: u8) -> (c: char)
    requires
        is_alphanumeric_byte(b),
    ensures
        is_alphanumeric_char(c),
        c as u32 == b as u32,
{
    b as char
}

/// The shape of a session token: 64 ASCII letters and digits.
pub open spec fn token_text(s: Seq<char>) -> bool {
    s.len() == 64 && forall|i: int| 0 <= i < 64 ==> is_alphanumeric_char(#[trigger] s[i])
}

/// A session token drawn from `rng`: 64 random ASCII letters and digits.
pub fn session_token_from(rng: &mut rand::rngs::StdRng) -> (r: String)
    ensures
        token_text(r@),
{
    let mut r = String::new();
    let mut i: usize = 0;
    while i < 64
        invariant
            i <= 64,
            r@.len() == i,
            forall|j: int| 0 <= j < i ==> is_alphanumeric_char(#[trigger] r@[j]),
        decreases 64 - i,
    {
        let b = sample_alphanumeric(rng);
        push_char(&mut r, alphanumeric_char(b));
        i = i + 1;
    }
    r
}

/// A fresh session token: 64 random ASCII letters and digits, or `None` when the
/// operating system's random source cannot be read.
pub fn generate_session_token() -> (r: Option<String>)
    ensures
        r matches Some(t) ==> token_text(t@),
{
    match seeded_rng() {
        Ok(mut rng) => Some(session_token_from(&mut rng)),
        Err(_) => None,
    }
}

/// The shape of a session id: `session_` and a random UUID.
pub open spec fn session_id_text(s: Seq<char>) -> bool {
    s.len() == 44 && s.take(8) == "session_"@ && uuid_text(s.skip(8))
}

/// The session id made of a UUID's text: `session_` and the UUID.
pub fn session_id_from(uuid: &str) -> (r: String)
    ensures
        r@ == "session_"@ + uuid@,
        uuid_text(uuid@) ==> session_id_text(r@),
{
    let r = concat2("session_", uuid);
    proof {
        reveal_strlit("session_");
        assert(r@.take(8) =~= "session_"@);
        assert(r@.skip(8) =~= uuid@);
    }
    r
}

/// A fresh session id: `session_` and a random UUID, or `None` when the operating
/// system's random source cannot be read.
pub fn generate_session_id() -> (r: Option<String>)
    ensures
        r matches Some(s) ==> session_id_text(s@),
{
    match new_uuid_string() {
        Some(u) => Some(session_id_from(u.as_str())),
        None => None,
    }
}

} // verus!
