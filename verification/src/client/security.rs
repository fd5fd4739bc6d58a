//! WS-Security UsernameToken headers with a password digest, as ONVIF
//! requires: `Digest = Base64(SHA1(Nonce + Created + Password))`.

use vstd::prelude::*;
use vstd::string::StringExecFns;
use vstd::utf8::encode_utf8;
use crate::client::calendar::{chrono_countdown, CivilTime};
use crate::codec::{base64_encode, base64_length_fits, lemma_base64_shape};
use crate::trusted::{base64_standard, random_nonce, sha1, sha1_digest};

verus! {

/// The header text up to the user name.
pub open spec fn header_open() -> Seq<char> {
    "<Header>\n        <Security s:mustUnderstand=\"1\" xmlns=\"http://docs.oasis-open.org/wss/2004/01/oasis-200401-wss-wssecurity-secext-1.0.xsd\">\n            <UsernameToken>\n                <Username>"@
}

/// The header text between the user name and the password digest.
pub open spec fn header_before_digest() -> Seq<char> {
    "</Username>\n                <Password Type=\"http://docs.oasis-open.org/wss/2004/01/oasis-200401-wss-username-token-profile-1.0#PasswordDigest\">"@
}

/// The header text between the password digest and the nonce.
pub open spec fn header_before_nonce() -> Seq<char> {
    "</Password>\n                <Nonce EncodingType=\"http://docs.oasis-open.org/wss/2004/01/oasis-200401-wss-soap-message-security-1.0#Base64Binary\">"@
}

/// The header text between the nonce and the creation time.
pub open spec fn header_before_created() -> Seq<char> {
    "</Nonce>\n                <Created xmlns=\"http://docs.oasis-open.org/wss/2004/01/oasis-200401-wss-wssecurity-utility-1.0.xsd\">"@
}

/// The header text after the creation time.
pub open spec fn header_close() -> Seq<char> {
    "</Created>\n            </UsernameToken>\n        </Security>\n    </Header>"@
}

/// The `<Header>` element with a UsernameToken for `username` carrying the
/// given password digest, Base64 nonce and creation time.
pub open spec fn security_header_text(
    username: Seq<char>,
    digest: Seq<char>,
    nonce_b64: Seq<char>,
    created: Seq<char>,
) -> Seq<char> {
    header_open() + username + header_before_digest() + digest + header_before_nonce() + nonce_b64
        + header_before_created() + created + header_close()
}

/// The password digest of the UsernameToken profile:
/// Base64(SHA1(nonce + UTF-8(created) + UTF-8(password))).
pub open spec fn password_digest(nonce: Seq<u8>, created: Seq<char>, password: Seq<char>) -> Seq<
    char,
> {
    base64_encode(sha1(nonce + encode_utf8(created) + encode_utf8(password)))
}

/// The complete header for `username` and `password`, given the nonce bytes
/// and the creation time.
pub open spec fn digest_header_text(
    username: Seq<char>,
    password: Seq<char>,
    nonce: Seq<u8>,
    created: Seq<char>,
) -> Seq<char> {
    security_header_text(
        username,
        password_digest(nonce, created, password),
        base64_encode(nonce),
        created,
    )
}

/// `text` is a header for `username` and `password` built from some 16-byte
/// nonce and the UTC reading of some instant.
pub open spec fn is_security_header(text: Seq<char>, username: Seq<char>, password: Seq<char>) -> bool {
    exists|nonce: Seq<u8>, secs: int, t: CivilTime|
        nonce.len() == 16 && t.reads(secs) && sha1(
            nonce + encode_utf8(t.iso8601()) + encode_utf8(password),
        ).len() == 20 && text == digest_header_text(username, password, nonce, t.iso8601())
}

/// Lays out the `<Header>` element from its four variable parts.
pub fn security_header_xml(username: &str, digest: &str, nonce_b64: &str, created: &str) -> (text:
    String)
    ensures
        text@ == security_header_text(username@, digest@, nonce_b64@, created@),
{
    let mut out = String::new();
    out.append("<Header>\n        <Security s:mustUnderstand=\"1\" xmlns=\"http://docs.oasis-open.org/wss/2004/01/oasis-200401-wss-wssecurity-secext-1.0.xsd\">\n            <UsernameToken>\n                <Username>");
    out.append(username);
    out.append("</Username>\n                <Password Type=\"http://docs.oasis-open.org/wss/2004/01/oasis-200401-wss-username-token-profile-1.0#PasswordDigest\">");
    out.append(digest);
    out.append("</Password>\n                <Nonce EncodingType=\"http://docs.oasis-open.org/wss/2004/01/oasis-200401-wss-soap-message-security-1.0#Base64Binary\">");
    out.append(nonce_b64);
    out.append("</Nonce>\n                <Created xmlns=\"http://docs.oasis-open.org/wss/2004/01/oasis-200401-wss-wssecurity-utility-1.0.xsd\">");
    out.append(created);
    out.append("</Created>\n            </UsernameToken>\n        </Security>\n    </Header>");
    assert(out@ =~= security_header_text(username@, digest@, nonce_b64@, created@));
    out
}

/// Appends `bytes` to `buf`.
fn append_bytes(buf: &mut Vec<u8>, bytes: &[u8])
    ensures
        final(buf)@ == old(buf)@ + bytes@,
{
    let mut i: usize = 0;
    while i < bytes.len()
        invariant
            i <= bytes@.len(),
            buf@ == old(buf)@ + bytes@.subrange(0, i as int),
        decreases bytes@.len() - i,
    {
        buf.push(bytes[i]);
        i = i + 1;
        assert(buf@ =~= old(buf)@ + bytes@.subrange(0, i as int));
    }
    assert(bytes@.subrange(0, i as int) =~= bytes@);
}

/// The UsernameToken header for `username` and `password` with the given
/// nonce bytes and creation time: the password digest is
/// Base64(SHA1(nonce + created + password)) and the nonce is sent in Base64.
pub fn password_digest_header(username: &str, password: &str, nonce: &[u8], created: &str) -> (text:
    String)
    requires
        base64_length_fits(nonce@.len() as int),
    ensures
        text@ == digest_header_text(username@, password@, nonce@, created@),
        sha1(nonce@ + encode_utf8(created@) + encode_utf8(password@)).len() == 20,
{
    let nonce_b64 = base64_standard(nonce);
    let mut digest_input: Vec<u8> = Vec::new();
    append_bytes(&mut digest_input, nonce);
    append_bytes(&mut digest_input, created.as_bytes());
    append_bytes(&mut digest_input, password.as_bytes());
    assert(digest_input@ =~= nonce@ + encode_utf8(created@) + encode_utf8(password@));
    let hash = sha1_digest(digest_input.as_slice());
    let digest = base64_standard(hash.as_slice());
    security_header_xml(username, digest.as_str(), nonce_b64.as_str(), created)
}

/// A fresh UsernameToken header for `username` and `password`: a random
/// 16-byte nonce and the current UTC time as the creation time. Which nonce
/// and which instant were used is left unsaid; they come from chance and the
/// clock.
pub fn ws_security_header(username: &str, password: &str) -> (text: String)
    ensures
        is_security_header(text@, username@, password@),
{
    let nonce = random_nonce();
    let created = chrono_countdown();
    let text = password_digest_header(username, password, nonce.as_slice(), created.as_str());
    proof {
        let (secs, t) = choose|secs: int, t: CivilTime| t.reads(secs) && created@ == t.iso8601();
        assert(nonce@.len() == 16 && t.reads(secs) && sha1(
            nonce@ + encode_utf8(t.iso8601()) + encode_utf8(password@),
        ).len() == 20 && text@ == digest_header_text(username@, password@, nonce@, t.iso8601()));
    }
    text
}

/// In a header with a 16-byte nonce and a 20-byte digest, the Base64 nonce is
/// 24 characters ending in `==` and the password digest 28 characters ending
/// in `=`.
pub proof fn lemma_header_field_lengths(nonce: Seq<u8>, created: Seq<char>, password: Seq<char>)
    requires
        nonce.len() == 16,
        sha1(nonce + encode_utf8(created) + encode_utf8(password)).len() == 20,
    ensures
        base64_encode(nonce).len() == 24,
        base64_encode(nonce).last() == '=',
        base64_encode(nonce)[22] == '=',
        password_digest(nonce, created, password).len() == 28,
        password_digest(nonce, created, password).last() == '=',
{
    lemma_base64_shape(nonce);
    lemma_base64_shape(sha1(nonce + encode_utf8(created) + encode_utf8(password)));
}

} // verus!
