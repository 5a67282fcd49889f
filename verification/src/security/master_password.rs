//! Derivation of the master secret from a password.
//!
//! The secret is the BLAKE3 digest of the password. Its lowercase
//! hexadecimal form is the authentication token, and its 32 raw bytes are
//! the encryption key: whoever holds the one holds the other.

use vstd::prelude::*;
use vstd::utf8::*;

verus! {

/// Number of bytes in a master secret.
pub const SECRET_LEN: usize = 32;

/// Number of characters in an authentication token.
pub const TOKEN_LEN: usize = 64;

/// The 32-byte BLAKE3 digest of `input`.
pub uninterp spec fn blake3_digest(input: Seq<u8>) -> Seq<u8>;

/// The lowercase hexadecimal digit that stands for `nibble`.
pub open spec fn hex_digit(nibble: int) -> char {
    if nibble == 0 {
        '0'
    } else if nibble == 1 {
        '1'
    } else if nibble == 2 {
        '2'
    } else if nibble == 3 {
        '3'
    } else if nibble == 4 {
        '4'
    } else if nibble == 5 {
        '5'
    } else if nibble == 6 {
        '6'
    } else if nibble == 7 {
        '7'
    } else if nibble == 8 {
        '8'
    } else if nibble == 9 {
        '9'
    } else if nibble == 10 {
        'a'
    } else if nibble == 11 {
        'b'
    } else if nibble == 12 {
        'c'
    } else if nibble == 13 {
        'd'
    } else if nibble == 14 {
        'e'
    } else {
        'f'
    }
}

/// Whether `c` is one of `0`..`9` or `a`..`f`.
pub open spec fn is_lower_hex_char(c: char) -> bool {
    ('0' <= c <= '9') || ('a' <= c <= 'f')
}

/// Lowercase hexadecimal text of `bytes`: two digits per byte, the high
/// nibble first.
pub open spec fn hex_lower(bytes: Seq<u8>) -> Seq<char> {
    Seq::new(
        2 * bytes.len(),
        |i: int|
            if i % 2 == 0 {
                hex_digit(bytes[i / 2] as int / 16)
            } else {
                hex_digit(bytes[i / 2] as int % 16)
            },
    )
}

/// The value of the hexadecimal digit whose ASCII code is `c`, in either
/// case.
pub open spec fn hex_value(c: u8) -> Option<int> {
    if 0x30 <= c <= 0x39 {
        Some(c - 0x30)
    } else if 0x61 <= c <= 0x66 {
        Some(c - 0x61 + 10)
    } else if 0x41 <= c <= 0x46 {
        Some(c - 0x41 + 10)
    } else {
        None
    }
}

/// Whether every byte of `text` is the ASCII code of a hexadecimal digit.
pub open spec fn is_hex(text: Seq<u8>) -> bool {
    forall|i: int| 0 <= i < text.len() ==> (#[trigger] hex_value(text[i])) is Some
}

/// The bytes that the hexadecimal text `text` stands for, two digits per
/// byte. Meaningful where `is_hex(text)` and the length is even.
pub open spec fn hex_decoded(text: Seq<u8>) -> Seq<u8> {
    Seq::new(
        text.len() / 2,
        |i: int| (16 * hex_value(text[2 * i])->0 + hex_value(text[2 * i + 1])->0) as u8,
    )
}

/// The key that an authentication token carries: the token must be exactly
/// 64 hexadecimal digits, in either case.
pub open spec fn token_key(token: Seq<char>) -> Option<Seq<u8>> {
    let text = encode_utf8(token);
    if text.len() == TOKEN_LEN && is_hex(text) {
        Some(hex_decoded(text))
    } else {
        None
    }
}

/// The authentication token that `password` yields.
pub open spec fn password_token(password: Seq<char>) -> Seq<char> {
    hex_lower(blake3_digest(encode_utf8(password)))
}

/// Calls `blake3::hash` and copies the digest out of the `Hash`.
///
/// Trusted: the result is the BLAKE3 digest of `input`, a function of the
/// input bytes alone.
#[verifier::external_body]
fn blake3_hash(input: &[u8]) -> (digest: [u8; 32])
    ensures
        digest@ == blake3_digest(input@),
{
    *blake3::hash(input).as_bytes()
}

/// Calls `blake3::Hash::to_hex` on the digest.
///
/// Trusted: the text holds, for each byte in order, the digit of its high
/// nibble and then of its low nibble, taken from `0123456789abcdef`.
#[verifier::external_body]
fn blake3_hex(digest: &[u8; 32]) -> (text: String)
    ensures
        text@ == hex_lower(digest@),
{
    blake3::Hash::from_bytes(*digest).to_hex().to_string()
}

/// Calls `hex::decode_to_slice` with a 32-byte buffer.
///
/// Trusted: decoding succeeds exactly when `text` has 64 bytes, each an
/// ASCII hexadecimal digit in either case; byte `i` of the result is then
/// sixteen times the value of digit `2 i` plus the value of digit
/// `2 i + 1`.
#[verifier::external_body]
fn hex_decode_32(text: &[u8]) -> (r: Option<[u8; 32]>)
    ensures
        r is Some <==> (text@.len() == TOKEN_LEN && is_hex(text@)),
        r matches Some(bytes) ==> bytes@ == hex_decoded(text@),
{
    let mut bytes: [u8; 32] = [0u8; 32];
    match hex::decode_to_slice(text, &mut bytes) {
        Ok(()) => Some(bytes),
        Err(_) => None,
    }
}

/// A master secret in both its forms.
pub struct MasterSecret {
    /// The authentication token, sent to the host with every request.
    pub token: String,
    /// The encryption key.
    pub key: [u8; 32],
}

impl MasterSecret {
    /// The token and the key are the same 32 bytes.
    pub open spec fn wf(&self) -> bool {
        token_key(self.token@) == Some(self.key@)
    }

    /// The secret whose key is `key`: its token is the key in lowercase
    /// hexadecimal.
    pub fn from_key(key: [u8; 32]) -> (secret: MasterSecret)
        ensures
            secret.wf(),
            secret.key == key,
            secret.token@ == hex_lower(key@),
    {
        let token = blake3_hex(&key);
        proof {
            lemma_token_carries_key(key@);
        }
        MasterSecret { token, key }
    }

    /// Derives the secret from a password: the key is the digest of the
    /// password's UTF-8 bytes.
    pub fn derive(password: &str) -> (secret: MasterSecret)
        ensures
            secret.wf(),
            secret.key@ == blake3_digest(encode_utf8(password@)),
            secret.token@ == password_token(password@),
    {
        MasterSecret::from_key(blake3_hash(password.as_bytes()))
    }

    /// Rebuilds the secret from a token. `None` unless the token is exactly
    /// 64 hexadecimal digits.
    pub fn from_token(token: &str) -> (r: Option<MasterSecret>)
        ensures
            r is Some <==> token_key(token@) is Some,
            r matches Some(secret) ==> secret.token@ == token@ && token_key(token@) == Some(
                secret.key@,
            ),
    {
        match hex_decode_32(token.as_bytes()) {
            Some(key) => Some(MasterSecret { token: token.to_owned(), key }),
            None => None,
        }
    }
}

/// The authentication token of a password: 64 lowercase hexadecimal digits.
pub fn hash_password(password: &str) -> (token: String)
    ensures
        token@ == password_token(password@),
{
    let secret = MasterSecret::derive(password);
    secret.token
}

/// A digit written for a nibble is a lowercase hexadecimal digit, and is
/// read back as that nibble.
pub proof fn lemma_hex_digit(nibble: int)
    requires
        0 <= nibble < 16,
    ensures
        is_lower_hex_char(hex_digit(nibble)),
        '\0' <= hex_digit(nibble) <= '\u{7f}',
        hex_value(hex_digit(nibble) as u8) == Some(nibble),
{
}

/// The token of a 32-byte key is 64 lowercase hexadecimal digits, and
/// reading it back as a token gives the same key.
pub proof fn lemma_token_carries_key(key: Seq<u8>)
    requires
        key.len() == SECRET_LEN,
    ensures
        hex_lower(key).len() == TOKEN_LEN,
        forall|i: int| 0 <= i < TOKEN_LEN ==> is_lower_hex_char(#[trigger] hex_lower(key)[i]),
        token_key(hex_lower(key)) == Some(key),
{
    let token = hex_lower(key);
    assert forall|i: int| 0 <= i < token.len() implies is_lower_hex_char(#[trigger] token[i])
        && '\0' <= token[i] <= '\u{7f}' && hex_value(token[i] as u8) == Some(
        if i % 2 == 0 {
            key[i / 2] as int / 16
        } else {
            key[i / 2] as int % 16
        },
    ) by {
        if i % 2 == 0 {
            lemma_hex_digit(key[i / 2] as int / 16);
        } else {
            lemma_hex_digit(key[i / 2] as int % 16);
        }
    }
    assert(is_ascii_chars(token));
    is_ascii_chars_encode_utf8(token);
    let text = encode_utf8(token);
    assert forall|i: int| 0 <= i < text.len() implies (#[trigger] hex_value(text[i])) is Some by {
        assert(text[i] == token[i] as u8);
    }
    assert forall|i: int| 0 <= i < key.len() implies #[trigger] hex_decoded(text)[i] == key[i] by {
        assert(text[2 * i] == token[2 * i] as u8);
        assert(text[2 * i + 1] == token[2 * i + 1] as u8);
        assert((2 * i) / 2 == i && (2 * i + 1) / 2 == i);
        assert((2 * i) % 2 == 0 && (2 * i + 1) % 2 == 1);
    }
    assert(hex_decoded(text) =~= key);
}

} // verus!
