//! Digests and their renderings: MD5, HMAC-SHA1, base64, and the
//! `Content-MD5` value that the service expects.

use vstd::prelude::*;
use vstd::utf8::encode_utf8;

verus! {

/// The sixteen bytes of the MD5 digest of `data`.
pub uninterp spec fn md5_digest(data: Seq<u8>) -> Seq<u8>;

/// The twenty bytes of the HMAC-SHA1 code of `message` under `key`, or `None`
/// where the key cannot be used.
pub uninterp spec fn hmac_sha1(key: Seq<u8>, message: Seq<u8>) -> Option<Seq<u8>>;

/// The base64 encoding of `data`, standard alphabet, padded.
pub uninterp spec fn base64_standard(data: Seq<u8>) -> Seq<char>;

/// `InvalidLength` of the digest crate, carried as it comes.
#[verifier::external_type_specification]
#[verifier::external_body]
pub struct ExInvalidLength(hmac::digest::InvalidLength);

/// A character of the standard base64 alphabet, or the padding character.
pub open spec fn base64_char(c: char) -> bool {
    let n = c as int;
    ||| 65 <= n <= 90
    ||| 97 <= n <= 122
    ||| 48 <= n <= 57
    ||| n == 43
    ||| n == 47
    ||| n == 61
}

/// `md5::compute`: the digest is a function of the data alone.
#[verifier::external_body]
fn md5_compute(data: &[u8]) -> (r: [u8; 16])
    ensures
        r@ == md5_digest(data@),
{
    md5::compute(data).0
}

/// `Hmac::<Sha1>`, keyed from a slice, fed the message once and finalized:
/// the code is a function of key and message alone; a key that is refused
/// gives the error.
#[verifier::external_body]
fn hmac_sha1_compute(key: &[u8], message: &[u8]) -> (r: Result<[u8; 20], hmac::digest::InvalidLength>)
    ensures
        match r {
            Ok(code) => hmac_sha1(key@, message@) == Some(code@),
            Err(_) => hmac_sha1(key@, message@) is None,
        },
{
    let mut mac = <hmac::Hmac<sha1::Sha1> as hmac::Mac>::new_from_slice(key)?;
    hmac::Mac::update(&mut mac, message);
    Ok(hmac::Mac::finalize(mac).into_bytes().into())
}

/// `STANDARD.encode` of the base64 crate: the text is a function of the data
/// alone and holds only characters of the alphabet and the padding character.
/// The encoder panics where the encoded length overflows; the bound keeps far
/// from that.
#[verifier::external_body]
fn base64_encode(data: &[u8]) -> (r: String)
    requires
        data@.len() <= 0x1000_0000,
    ensures
        r@ == base64_standard(data@),
        forall|i: int| 0 <= i < r@.len() ==> base64_char(#[trigger] r@[i]),
{
    base64::Engine::encode(&base64::engine::general_purpose::STANDARD, data)
}

/// The ASCII code of the lower-case hexadecimal digit `d`.
pub open spec fn hex_digit(d: int) -> u8 {
    if d < 10 {
        (48 + d) as u8
    } else {
        (87 + d) as u8
    }
}

/// The bytes of the lower-case hexadecimal rendering of `bytes`: two digits
/// for each byte, high digit first.
pub open spec fn hex_digits(bytes: Seq<u8>) -> Seq<u8> {
    Seq::new(
        2 * bytes.len(),
        |i: int|
            if i % 2 == 0 {
                hex_digit(bytes[i / 2] as int / 16)
            } else {
                hex_digit(bytes[i / 2] as int % 16)
            },
    )
}

/// The value of the `Content-MD5` header for a body: the base64 of the
/// hexadecimal rendering of the MD5 digest of the body's UTF-8 bytes, not the
/// base64 of the digest itself.
pub open spec fn content_md5_text(body: Seq<char>) -> Seq<char> {
    base64_standard(hex_digits(md5_digest(encode_utf8(body))))
}

/// The signature of `message` under `secret`, both taken as UTF-8 bytes: the
/// base64 of the HMAC-SHA1 code, or `None` where the key is refused.
pub open spec fn signature_text(secret: Seq<char>, message: Seq<char>) -> Option<Seq<char>> {
    match hmac_sha1(encode_utf8(secret), encode_utf8(message)) {
        Some(code) => Some(base64_standard(code)),
        None => None,
    }
}

fn digit(d: u8) -> (b: u8)
    requires
        d < 16,
    ensures
        b == hex_digit(d as int),
{
    if d < 10 {
        48 + d
    } else {
        87 + d
    }
}

/// Renders bytes in lower-case hexadecimal.
pub fn lower_hex(bytes: &[u8]) -> (r: Vec<u8>)
    ensures
        r@ == hex_digits(bytes@),
{
    let mut out: Vec<u8> = Vec::new();
    let mut i: usize = 0;
    while i < bytes.len()
        invariant
            i <= bytes.len(),
            out@ == hex_digits(bytes@.take(i as int)),
        decreases bytes.len() - i,
    {
        let b = bytes[i];
        out.push(digit(b / 16));
        out.push(digit(b % 16));
        i = i + 1;
    }
    out
}

/// The `Content-MD5` value of a body.
pub fn content_md5(body: &str) -> (r: String)
    ensures
        r@ == content_md5_text(body@),
        forall|i: int| 0 <= i < r@.len() ==> base64_char(#[trigger] r@[i]),
{
    let digest = md5_compute(body.as_bytes());
    let hex = lower_hex(digest.as_slice());
    base64_encode(hex.as_slice())
}

/// Signs `message` with `secret`. `None` means that the key was refused.
pub fn sign(secret: &str, message: &str) -> (r: Option<String>)
    ensures
        match r {
            Some(s) => signature_text(secret@, message@) == Some(s@),
            None => signature_text(secret@, message@) is None,
        },
        r matches Some(s) ==> forall|i: int| 0 <= i < s@.len() ==> base64_char(#[trigger] s@[i]),
{
    match hmac_sha1_compute(secret.as_bytes(), message.as_bytes()) {
        Ok(code) => Some(base64_encode(code.as_slice())),
        Err(_) => None,
    }
}

} // verus!
