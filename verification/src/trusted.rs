//! The calls into std and into outside crates whose contracts the library
//! trusts; each states no more than the callee's source or documentation.

use vstd::prelude::*;
use base64::Engine;
use sha1::Digest;
use crate::codec::{base64_encode, base64_length_fits, uuid_hyphenated};

verus! {

/// `std::time::SystemTime`, declared so that a clock reading can be carried
/// through verified code; nothing inside it is visible.
#[verifier::external_type_specification]
#[verifier::external_body]
pub struct ClockReading(std::time::SystemTime);

/// `std::time::SystemTime::now()`. The clock is outside the program: nothing
/// is promised of the reading.
#[verifier::external_body]
pub(crate) fn system_time_now() -> std::time::SystemTime {
    std::time::SystemTime::now()
}

/// `SystemTime::duration_since(UNIX_EPOCH)` of `time`, its error (a reading
/// earlier than the epoch) mapped to `None`. Nothing is promised of the
/// duration, which is opaque here.
#[verifier::external_body]
pub(crate) fn duration_since_unix_epoch(time: &std::time::SystemTime) -> Option<std::time::Duration> {
    time.duration_since(std::time::SystemTime::UNIX_EPOCH).ok()
}

/// `Duration::as_secs`: the whole seconds of `duration`. The duration is
/// opaque here, so nothing is promised of the number.
#[verifier::external_body]
pub(crate) fn whole_seconds(duration: &std::time::Duration) -> u64 {
    duration.as_secs()
}

/// Sixteen bytes from `rand::Rng::fill` on `rand::thread_rng()`. The bytes are
/// random: only their number is promised. `fill` panics when the generator
/// fails to reseed from the operating system; nothing here can exclude that.
#[verifier::external_body]
pub(crate) fn random_nonce() -> (nonce: Vec<u8>)
    ensures
        nonce@.len() == 16,
{
    let mut bytes = [0u8; 16];
    rand::Rng::fill(&mut rand::thread_rng(), &mut bytes);
    bytes.to_vec()
}

/// `base64::engine::general_purpose::STANDARD.encode(bytes)`: the standard
/// alphabet with `=` padding. It panics when the encoded length overflows a
/// `usize`, which `requires` rules out.
#[verifier::external_body]
pub(crate) fn base64_standard(bytes: &[u8]) -> (text: String)
    requires
        base64_length_fits(bytes@.len() as int),
    ensures
        text@ == base64_encode(bytes@),
{
    base64::engine::general_purpose::STANDARD.encode(bytes)
}

/// The SHA-1 digest of `bytes`, a function of the bytes alone.
pub uninterp spec fn sha1(bytes: Seq<u8>) -> Seq<u8>;

/// `<sha1::Sha1 as sha1::Digest>::digest(bytes)`, copied out of its 20-byte
/// `GenericArray`: the digest is `sha1(bytes@)`, 20 bytes long (the array
/// type's length). What SHA-1 computes is left to the name.
#[verifier::external_body]
pub(crate) fn sha1_digest(bytes: &[u8]) -> (digest: Vec<u8>)
    ensures
        digest@ == sha1(bytes@),
        digest@.len() == 20,
{
    sha1::Sha1::digest(bytes).to_vec()
}

/// `uuid::Uuid::from_u128(value).to_string()`: the `Display` of a `Uuid` is its
/// lowercase hyphenated form, over the big-endian bytes of `value`.
#[verifier::external_body]
pub(crate) fn uuid_text(value: u128) -> (text: String)
    ensures
        text@ == uuid_hyphenated(value),
{
    uuid::Uuid::from_u128(value).to_string()
}
/// `url::Url`, declared so that a parsed URL can be carried through verified
/// code; nothing inside it is visible.
#[verifier::external_type_specification]
#[verifier::external_body]
pub struct OnvifUrl(url::Url);

/// What `url::Url::parse` gives for `input`, its error taken as `None`; a
/// function of the text alone.
pub uninterp spec fn url_parsed(input: Seq<char>) -> Option<url::Url>;

/// `url::Url::parse(input)`, with its error mapped to `None`: the result is
/// `url_parsed(input@)`. What the URL holds is left to the name; the value is
/// opaque here.
#[verifier::external_body]
pub(crate) fn parse_url(input: &str) -> (url: Option<url::Url>)
    ensures
        url == url_parsed(input@),
{
    url::Url::parse(input).ok()
}

} // verus!
