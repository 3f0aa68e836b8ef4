use sha2::Digest;
use vstd::prelude::*;

verus! {

/// The lowercase hexadecimal digit for a value below 16.
pub open spec fn hex_digit(v: int) -> char {
    if v < 10 {
        ((v + 48) as u8) as char
    } else {
        ((v - 10 + 97) as u8) as char
    }
}

/// Lowercase hexadecimal text of a byte sequence, two digits per byte,
/// most significant nibble first.
pub open spec fn hex_encode_spec(bytes: Seq<u8>) -> Seq<char> {
    Seq::new(2 * bytes.len(), |i: int| if i % 2 == 0 {
        hex_digit(bytes[i / 2] as int / 16)
    } else {
        hex_digit(bytes[i / 2] as int % 16)
    })
}

/// Whether a character is a hexadecimal digit (either case).
pub open spec fn is_hex_char(c: char) -> bool {
    ('0' <= c && c <= '9') || ('a' <= c && c <= 'f') || ('A' <= c && c <= 'F')
}

/// The value of a hexadecimal digit.
pub open spec fn hex_char_value(c: char) -> int {
    if '0' <= c && c <= '9' {
        c as int - 48
    } else if 'a' <= c && c <= 'f' {
        c as int - 97 + 10
    } else {
        c as int - 65 + 10
    }
}

/// Whether a text is a well-formed hexadecimal byte string.
pub open spec fn is_hex_text(s: Seq<char>) -> bool {
    s.len() % 2 == 0 && forall|i: int| 0 <= i < s.len() ==> is_hex_char(#[trigger] s[i])
}

/// The bytes that a well-formed hexadecimal text denotes.
pub open spec fn hex_decode_spec(s: Seq<char>) -> Seq<u8> {
    Seq::new(s.len() / 2, |i: int| (hex_char_value(s[2 * i]) * 16 + hex_char_value(s[2 * i + 1])) as u8)
}

/// Name for the SHA-256 digest of a byte sequence.
pub uninterp spec fn sha256_digest(data: Seq<u8>) -> Seq<u8>;

/// The stored form of an opaque token: the hex text of its SHA-256 digest.
pub open spec fn token_hash_spec(raw: Seq<u8>) -> Seq<char> {
    hex_encode_spec(sha256_digest(raw))
}

/// Each digit that `hex_encode_spec` writes is a hexadecimal digit of the value
/// it stands for.
pub proof fn lemma_hex_digit(v: int)
    requires
        0 <= v < 16,
    ensures
        is_hex_char(hex_digit(v)),
        hex_char_value(hex_digit(v)) == v,
{
}

/// The digit for a value is the character at that position of
/// `0123456789abcdef`, and the text of bytes holds two such digits per byte,
/// high nibble first.
pub proof fn lemma_hex_encode_meaning(bytes: Seq<u8>)
    ensures
        forall|v: int| 0 <= v < 16 ==> #[trigger] hex_digit(v) == "0123456789abcdef"@[v],
        hex_encode_spec(bytes).len() == 2 * bytes.len(),
        forall|k: int|
            0 <= k < bytes.len() ==> hex_encode_spec(bytes)[2 * k] == "0123456789abcdef"@[#[trigger] bytes[k] as int
                / 16] && hex_encode_spec(bytes)[2 * k + 1] == "0123456789abcdef"@[bytes[k] as int % 16],
{
    reveal_strlit("0123456789abcdef");
    assert forall|k: int| 0 <= k < bytes.len() implies hex_encode_spec(bytes)[2 * k] == "0123456789abcdef"@[
        #[trigger] bytes[k] as int / 16] && hex_encode_spec(bytes)[2 * k + 1] == "0123456789abcdef"@[bytes[k] as int
        % 16] by {
        assert((2 * k) / 2 == k);
        assert((2 * k + 1) / 2 == k);
        assert((2 * k) % 2 == 0);
        assert((2 * k + 1) % 2 == 1);
    }
}

/// Decoding the hexadecimal text of bytes gives the bytes back.
pub proof fn lemma_hex_roundtrip(bytes: Seq<u8>)
    ensures
        is_hex_text(hex_encode_spec(bytes)),
        hex_decode_spec(hex_encode_spec(bytes)) == bytes,
{
    let text = hex_encode_spec(bytes);
    assert forall|i: int| 0 <= i < text.len() implies is_hex_char(#[trigger] text[i]) by {
        lemma_hex_digit(bytes[i / 2] as int / 16);
        lemma_hex_digit(bytes[i / 2] as int % 16);
    }
    assert forall|k: int| 0 <= k < bytes.len() implies #[trigger] hex_decode_spec(text)[k]
        == bytes[k] by {
        assert((2 * k) / 2 == k);
        assert((2 * k + 1) / 2 == k);
        assert((2 * k) % 2 == 0);
        assert((2 * k + 1) % 2 == 1);
        lemma_hex_digit(bytes[k] as int / 16);
        lemma_hex_digit(bytes[k] as int % 16);
    }
    assert(hex_decode_spec(text) =~= bytes);
}

/// `sha2::Sha256::digest`: the 32-byte SHA-256 digest of `data`.
/// Trusted: the result is the named digest of the input and has 32 bytes, as the
/// type of the output (`Array<u8, U32>`) shows.
#[verifier::external_body]
fn sha256(data: &[u8]) -> (res: Vec<u8>)
    ensures
        res@ == sha256_digest(data@),
        res@.len() == 32,
{
    sha2::Sha256::digest(data).to_vec()
}

/// `hex::encode`: lowercase hexadecimal text of the bytes.
/// Trusted: hex 0.4 writes each byte as two digits from `0123456789abcdef`,
/// high nibble first, which `hex_encode_spec` states.
#[verifier::external_body]
pub(crate) fn hex_encode(data: &[u8]) -> (res: String)
    ensures
        res@ == hex_encode_spec(data@),
{
    hex::encode(data)
}

/// `hex::decode`: the bytes denoted by a hexadecimal text.
/// Trusted: hex 0.4 fails on odd length or on any byte outside `0-9a-fA-F`, and
/// otherwise combines each pair of digits high nibble first.
#[verifier::external_body]
pub(crate) fn hex_decode(text: &str) -> (res: Option<Vec<u8>>)
    ensures
        res is Some <==> is_hex_text(text@),
        res matches Some(bytes) ==> bytes@ == hex_decode_spec(text@),
{
    hex::decode(text).ok()
}

/// `rand::random::<[u8; 32]>()`: 32 bytes from the thread-local generator.
/// Trusted: nothing is claimed of the bytes beyond their number.
#[verifier::external_body]
fn random_bytes() -> (res: [u8; 32]) {
    rand::random()
}

/// Generate a random 32-byte token and return (`raw_bytes`, `hex_hash`).
pub fn generate() -> (res: ([u8; 32], String))
    ensures
        res.1@ == token_hash_spec(res.0@),
        res.1@.len() == 64,
{
    let raw = random_bytes();
    let hash = hash(&raw);
    (raw, hash)
}

/// Hash raw token bytes with SHA-256 and return the hex-encoded hash.
pub fn hash(raw: &[u8]) -> (res: String)
    ensures
        res@ == token_hash_spec(raw@),
        res@.len() == 64,
{
    let digest = sha256(raw);
    hex_encode(digest.as_slice())
}

} // verus!
