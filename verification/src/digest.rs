//! Checksums and credentials: the MD5 digest of a cached file in hex, and the HTTP basic
//! credentials of the Network Rail data feeds.
use vstd::prelude::*;
use vstd::string::StringSliceAdditionalSpecFns;
use vstd::utf8::encode_utf8;
use base64::Engine;
use crate::text::push_char;

verus! {

/// The MD5 digest of some bytes (RFC 1321), as `md5::compute` gives it.
pub uninterp spec fn md5_digest(data: Seq<u8>) -> Seq<u8>;

/// `md5::compute`: the 16 bytes of the MD5 digest of `data`.
#[verifier::external_body]
fn md5_compute(data: &[u8]) -> (digest: [u8; 16])
    ensures
        digest@ == md5_digest(data@),
{
    md5::compute(data).0
}

/// The lowercase hex digit for a value below 16.
pub open spec fn hex_digit(n: u8) -> char {
    if n < 10 {
        (48 + n) as char
    } else {
        (87 + n) as char
    }
}

/// Bytes written as `{:x}` writes an MD5 digest: two lowercase hex digits per byte.
pub open spec fn hex_of(bytes: Seq<u8>) -> Seq<char>
    decreases bytes.len(),
{
    if bytes.len() == 0 {
        Seq::empty()
    } else {
        let b = bytes.last();
        hex_of(bytes.drop_last()).push(hex_digit(b / 16)).push(hex_digit(b % 16))
    }
}

fn hex_char(n: u8) -> (c: char)
    requires
        n < 16,
    ensures
        c == hex_digit(n),
{
    if n < 10 {
        (48 + n) as char
    } else {
        (87 + n) as char
    }
}

/// Bytes as lowercase hex, two digits each.
pub fn hex_lower(bytes: &[u8]) -> (s: String)
    ensures
        s@ == hex_of(bytes@),
{
    let mut s = String::new();
    let n = bytes.len();
    for i in 0..n
        invariant
            n == bytes@.len(),
            s@ == hex_of(bytes@.take(i as int)),
    {
        let b = bytes[i];
        push_char(&mut s, hex_char(b / 16));
        push_char(&mut s, hex_char(b % 16));
        assert(bytes@.take(i + 1).drop_last() =~= bytes@.take(i as int));
    }
    assert(bytes@.take(n as int) =~= bytes@);
    s
}

/// The MD5 checksum of some bytes in lowercase hex, as the update jobs compare it with the
/// checksum that the remote store reports.
pub fn md5_hex(data: &[u8]) -> (s: String)
    ensures
        s@ == hex_of(md5_digest(data@)),
        s@.len() == 32,
{
    let digest = md5_compute(data);
    let s = hex_lower(&digest);
    proof {
        lemma_hex_len(digest@);
    }
    s
}

/// Hex takes two digits per byte.
pub proof fn lemma_hex_len(bytes: Seq<u8>)
    ensures
        hex_of(bytes).len() == 2 * bytes.len(),
    decreases bytes.len(),
{
    if bytes.len() > 0 {
        lemma_hex_len(bytes.drop_last());
    }
}

/// Standard base64 (RFC 4648 alphabet, with `=` padding) of some bytes, as
/// `base64::engine::general_purpose::STANDARD` encodes them.
pub uninterp spec fn base64_standard(data: Seq<u8>) -> Seq<char>;

/// The length of padded base64 for `n` bytes: four characters per started group of three.
pub open spec fn base64_len(n: nat) -> nat {
    4 * ((n + 2) / 3)
}

/// `Engine::encode` of the standard engine: the padded base64 of `data`, four characters
/// per started group of three bytes. The engine panics where that length overflows `usize`,
/// so such inputs are left out.
#[verifier::external_body]
fn base64_encode(data: &[u8]) -> (s: String)
    requires
        base64_len(data@.len()) <= usize::MAX,
    ensures
        s@ == base64_standard(data@),
        s@.len() == base64_len(data@.len()),
{
    base64::engine::general_purpose::STANDARD.encode(data)
}

/// The user name and password joined as HTTP basic authentication joins them.
pub open spec fn credentials(username: Seq<char>, password: Seq<char>) -> Seq<char> {
    username + seq![':'] + password
}

/// The value of the `Authorization` header that the data feed client sends: `Basic ` and
/// the base64 of `username:password` in UTF-8.
pub open spec fn basic_authorization(username: Seq<char>, password: Seq<char>) -> Seq<char> {
    "Basic "@ + base64_standard(encode_utf8(credentials(username, password)))
}

fn append_str(s: &mut String, t: &str)
    ensures
        final(s)@ == old(s)@ + t@,
{
    let cs = crate::text::chars_of(t);
    let n = cs.len();
    for i in 0..n
        invariant
            n == cs@.len(),
            cs@ == t@,
            s@ == old(s)@ + t@.take(i as int),
    {
        push_char(s, cs[i]);
        assert(t@.take(i + 1) =~= t@.take(i as int).push(t@[i as int]));
    }
    assert(t@.take(n as int) =~= t@);
}

/// The `Authorization` header value for a user of the data feeds.
pub fn authorization_header(username: &str, password: &str) -> (h: String)
    requires
        base64_len(encode_utf8(credentials(username@, password@)).len()) <= usize::MAX,
    ensures
        h@ == basic_authorization(username@, password@),
{
    let mut joined = String::new();
    append_str(&mut joined, username);
    push_char(&mut joined, ':');
    append_str(&mut joined, password);
    assert(joined@ =~= credentials(username@, password@));
    let bytes = joined.as_str().as_bytes();
    let encoded = base64_encode(bytes);
    let mut h = String::new();
    append_str(&mut h, "Basic ");
    append_str(&mut h, encoded.as_str());
    h
}

} // verus!
