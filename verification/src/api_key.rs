use base64::Engine;
use rand::RngExt;
use sha2::Digest;
use vstd::prelude::*;

verus! {

/// Number of random bytes in a freshly generated API key.
pub const API_KEY_SIZE: usize = 32;

#[verifier::external_type_specification]
#[verifier::external_body]
pub struct ExDecodeError(base64::DecodeError);

/// What `base64`'s `URL_SAFE` engine (padded, URL-safe alphabet) encodes
/// a byte string to.
pub uninterp spec fn base64_url_encoding(bytes: Seq<u8>) -> Seq<char>;

/// What `base64`'s `URL_SAFE` engine decodes a text to: `None` where it
/// reports a `DecodeError`.
pub uninterp spec fn base64_url_decoding(text: Seq<char>) -> Option<Seq<u8>>;

/// A character of the URL-safe base64 alphabet: an ASCII letter or digit,
/// `-` or `_`.
pub open spec fn is_url_safe_base64_char(c: char) -> bool {
    ||| ('a' <= c && c <= 'z')
    ||| ('A' <= c && c <= 'Z')
    ||| ('0' <= c && c <= '9')
    ||| c == '-'
    ||| c == '_'
}

/// How many `=` pad the padded base64 encoding of `n` bytes.
pub open spec fn base64_padding(n: nat) -> nat {
    if n % 3 == 0 {
        0
    } else {
        (3 - n % 3) as nat
    }
}

/// The shape of a padded URL-safe base64 text of `n` bytes: four
/// characters for every three bytes or part of them, alphabet characters
/// followed by the padding.
pub open spec fn is_padded_base64_of_len(text: Seq<char>, n: nat) -> bool {
    &&& text.len() == 4 * ((n + 2) / 3)
    &&& forall|i: int|
        0 <= i < text.len() - base64_padding(n) ==> is_url_safe_base64_char(#[trigger] text[i])
    &&& forall|i: int| text.len() - base64_padding(n) <= i < text.len() ==> #[trigger] text[i] == '='
}

/// The SHA-256 digest that `sha2::Sha256` computes for a byte string.
pub uninterp spec fn sha256(data: Seq<u8>) -> Seq<u8>;

/// The lower-case hexadecimal digit for a value below sixteen.
pub open spec fn hex_digit(n: u8) -> char {
    seq!['0', '1', '2', '3', '4', '5', '6', '7', '8', '9', 'a', 'b', 'c', 'd', 'e', 'f'][n as int]
}

/// A lower-case hexadecimal digit.
pub open spec fn is_lower_hex_char(c: char) -> bool {
    ('0' <= c && c <= '9') || ('a' <= c && c <= 'f')
}

/// Lower-case hexadecimal text of a byte string, two digits per byte, high
/// nibble first.
pub open spec fn hex_lower(data: Seq<u8>) -> Seq<char>
    decreases data.len(),
{
    if data.len() == 0 {
        seq![]
    } else {
        seq![hex_digit(data[0] / 16), hex_digit(data[0] % 16)] + hex_lower(data.drop_first())
    }
}

/// The stored form of an API key: the hex text of the SHA-256 digest of
/// its base64 decoding, or `None` when the key is not valid base64.
pub open spec fn api_key_hash(key: Seq<char>) -> Option<Seq<char>> {
    match base64_url_decoding(key) {
        Some(bytes) => Some(hex_lower(sha256(bytes))),
        None => None,
    }
}

/// Hex text is twice as long as its input and made of hex digits only.
pub proof fn lemma_hex_lower_shape(data: Seq<u8>)
    ensures
        hex_lower(data).len() == 2 * data.len(),
        forall|i: int| 0 <= i < hex_lower(data).len() ==> is_lower_hex_char(#[trigger] hex_lower(data)[i]),
    decreases data.len(),
{
    if data.len() > 0 {
        lemma_hex_lower_shape(data.drop_first());
        let hi = data[0] / 16;
        let lo = data[0] % 16;
        let digits = seq!['0', '1', '2', '3', '4', '5', '6', '7', '8', '9', 'a', 'b', 'c', 'd', 'e', 'f'];
        assert(is_lower_hex_char(digits[hi as int]));
        assert(is_lower_hex_char(digits[lo as int]));
        let rest = hex_lower(data.drop_first());
        let whole = seq![hex_digit(hi), hex_digit(lo)] + rest;
        assert forall|i: int| 0 <= i < whole.len() implies is_lower_hex_char(#[trigger] whole[i]) by {
            if i >= 2 {
                assert(whole[i] == rest[i - 2]);
            }
        }
    }
}

/// Calls `rand::rng().fill` on a fresh byte array. Claimed: nothing beyond
/// the array's length, which its type fixes; the bytes are random.
#[verifier::external_body]
fn random_key_bytes() -> (res: [u8; API_KEY_SIZE]) {
    let mut bytes = [0_u8; API_KEY_SIZE];
    rand::rng().fill(&mut bytes);
    bytes
}

/// Calls `base64::engine::general_purpose::URL_SAFE.encode`. Claimed: the
/// result is the named encoding of the input, four characters of the
/// URL-safe alphabet for every three bytes or part of them, with `=`
/// padding at the end (the engine's `PAD` configuration); decoding it with
/// the same engine gives the input back. The engine panics when the
/// encoded length overflows `usize`, which `requires` rules out.
#[verifier::external_body]
fn base64_url_encode(bytes: &[u8]) -> (res: String)
    requires
        bytes@.len() <= usize::MAX / 2,
    ensures
        res@ == base64_url_encoding(bytes@),
        is_padded_base64_of_len(res@, bytes@.len()),
        base64_url_decoding(res@) == Some(bytes@),
{
    base64::engine::general_purpose::URL_SAFE.encode(bytes)
}

/// Calls `base64::engine::general_purpose::URL_SAFE.decode` on the text's
/// UTF-8 bytes. Claimed: `Ok` exactly when the named decoding is `Some`,
/// holding those bytes. Which `DecodeError` comes back is not stated.
#[verifier::external_body]
fn base64_url_decode(text: &str) -> (res: Result<Vec<u8>, base64::DecodeError>)
    ensures
        match res {
            Ok(bytes) => base64_url_decoding(text@) == Some(bytes@),
            Err(_) => base64_url_decoding(text@) is None,
        },
{
    base64::engine::general_purpose::URL_SAFE.decode(text)
}

/// Calls `<sha2::Sha256 as Digest>::digest`. Claimed: the result is the
/// named digest of the input and is 32 bytes long (`Sha256`'s output size).
#[verifier::external_body]
fn sha256_digest(data: &[u8]) -> (res: Vec<u8>)
    ensures
        res@ == sha256(data@),
        res@.len() == 32,
{
    sha2::Sha256::digest(data).to_vec()
}

/// Calls `hex::encode`. Claimed: the result is the lower-case hex text of
/// the input, two digits per byte, as the crate's documentation shows.
#[verifier::external_body]
fn hex_encode(data: &[u8]) -> (res: String)
    ensures
        res@ == hex_lower(data@),
{
    hex::encode(data)
}

/// Generates a new API key: 32 random bytes, base64-encoded with the
/// URL-safe alphabet.
pub fn generate_api_key() -> (res: String)
    ensures
        exists|bytes: Seq<u8>|
            bytes.len() == API_KEY_SIZE && res@ == #[trigger] base64_url_encoding(bytes)
                && base64_url_decoding(res@) == Some(bytes),
        api_key_hash(res@) is Some,
        res@.len() == 44,
        forall|i: int| 0 <= i < 43 ==> is_url_safe_base64_char(#[trigger] res@[i]),
        res@[43] == '=',
{
    let bytes = random_key_bytes();
    let key = base64_url_encode(&bytes);
    assert(base64_url_decoding(key@) == Some(bytes@));
    key
}

/// Hashes an API key: base64-decodes it and returns the hex text of the
/// SHA-256 digest of the bytes.
pub fn hash_api_key(key: &str) -> (res: Result<String, base64::DecodeError>)
    ensures
        match res {
            Ok(hash) => api_key_hash(key@) == Some(hash@),
            Err(_) => api_key_hash(key@) is None,
        },
        res matches Ok(hash) ==> hash@.len() == 64 && forall|i: int|
            0 <= i < hash@.len() ==> is_lower_hex_char(#[trigger] hash@[i]),
{
    let bytes = match base64_url_decode(key) {
        Ok(bytes) => bytes,
        Err(error) => return Err(error),
    };
    let hash = sha256_digest(bytes.as_slice());
    proof {
        lemma_hex_lower_shape(hash@);
    }
    Ok(hex_encode(hash.as_slice()))
}

} // verus!
