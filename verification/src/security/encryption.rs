//! Authenticated encryption of one payload under the master key.
//!
//! A sealed payload is the base64 text of `nonce ‖ ciphertext ‖ tag`:
//! a fresh 96-bit nonce, then the AES-256-GCM ciphertext with its 128-bit
//! tag. Opening fails closed: nothing is returned unless every step
//! succeeds.

use vstd::prelude::*;
use vstd::string::StringExecFns;
use vstd::utf8::*;

verus! {

/// Number of bytes in a nonce.
pub const NONCE_LEN: usize = 12;

/// Number of bytes in an authentication tag.
pub const TAG_LEN: usize = 16;

/// Largest plaintext, in bytes, that AES-GCM accepts.
pub const MAX_PLAINTEXT_LEN: u64 = 0x10_0000_0000;

/// What AES-256-GCM makes of `plaintext` under `key` and `nonce`: the
/// ciphertext followed by the tag.
pub uninterp spec fn aes_gcm_sealed(key: Seq<u8>, nonce: Seq<u8>, plaintext: Seq<u8>) -> Seq<u8>;

/// The plaintext that AES-256-GCM recovers from `sealed` under `key` and
/// `nonce`, or `None` where it rejects the input.
pub uninterp spec fn aes_gcm_opened(key: Seq<u8>, nonce: Seq<u8>, sealed: Seq<u8>) -> Option<
    Seq<u8>,
>;

/// The standard padded base64 text of `bytes`.
pub uninterp spec fn base64_text(bytes: Seq<u8>) -> Seq<char>;

/// The bytes that the standard base64 text `text` stands for, or `None`
/// where the text is not canonical padded base64.
pub uninterp spec fn base64_bytes(text: Seq<char>) -> Option<Seq<u8>>;

/// Why a sealed payload could not be made.
#[derive(Clone, Copy, Debug, PartialEq, Eq, Structural)]
pub enum EncodeError {
    /// The plaintext is longer than the cipher or the text encoding can
    /// take.
    TooLong,
}

/// Why a stored value could not be opened.
#[derive(Clone, Copy, Debug, PartialEq, Eq, Structural)]
pub enum DecodeError {
    /// The envelope is not a JSON object with a `data` text and a
    /// `created_at` number.
    Envelope,
    /// The payload is not base64 text.
    Base64,
    /// The decoded payload is shorter than a nonce.
    Truncated,
    /// The authentication tag does not verify.
    Authentication,
    /// The decrypted bytes are not UTF-8 text.
    Text,
    /// The decrypted text is not a record.
    Record,
}

/// The text that describes an encode error.
pub open spec fn encode_error_text(e: EncodeError) -> Seq<char> {
    "Encode error: the record is too long to seal"@
}

/// The text that describes a decode error.
pub open spec fn decode_error_text(e: DecodeError) -> Seq<char> {
    match e {
        DecodeError::Envelope => "Decode error: the stored value is not an envelope"@,
        DecodeError::Base64 => "Decode error: the payload is not base64 text"@,
        DecodeError::Truncated => "Decode error: the payload is shorter than a nonce"@,
        DecodeError::Authentication => "Decode error: the payload does not authenticate"@,
        DecodeError::Text => "Decode error: the plaintext is not UTF-8 text"@,
        DecodeError::Record => "Decode error: the plaintext is not a record"@,
    }
}

impl EncodeError {
    /// The text that describes the error.
    pub fn message(&self) -> (text: String)
        ensures
            text@ == encode_error_text(*self),
    {
        String::from_str("Encode error: the record is too long to seal")
    }
}

impl DecodeError {
    /// The text that describes the error.
    pub fn message(&self) -> (text: String)
        ensures
            text@ == decode_error_text(*self),
    {
        match self {
            DecodeError::Envelope => String::from_str(
                "Decode error: the stored value is not an envelope",
            ),
            DecodeError::Base64 => String::from_str("Decode error: the payload is not base64 text"),
            DecodeError::Truncated => String::from_str(
                "Decode error: the payload is shorter than a nonce",
            ),
            DecodeError::Authentication => String::from_str(
                "Decode error: the payload does not authenticate",
            ),
            DecodeError::Text => String::from_str("Decode error: the plaintext is not UTF-8 text"),
            DecodeError::Record => String::from_str("Decode error: the plaintext is not a record"),
        }
    }
}

/// Whether a plaintext of `len` bytes can be sealed: the cipher takes it,
/// the ciphertext with its tag can be allocated, and the sealed bytes have
/// a base64 length that fits in `usize`.
pub open spec fn sealable(len: nat) -> bool {
    &&& len <= MAX_PLAINTEXT_LEN
    &&& len + TAG_LEN <= isize::MAX
    &&& (len + NONCE_LEN + TAG_LEN) / 3 * 4 + 4 <= usize::MAX
}

/// The sealed payload of `plaintext` under `key` with the given nonce.
pub open spec fn sealed_text(key: Seq<u8>, nonce: Seq<u8>, plaintext: Seq<char>) -> Seq<char> {
    base64_text(nonce + aes_gcm_sealed(key, nonce, encode_utf8(plaintext)))
}

/// What opening the payload `text` under `key` gives.
pub open spec fn opened_text(key: Seq<u8>, text: Seq<char>) -> Result<Seq<char>, DecodeError> {
    match base64_bytes(text) {
        None => Err(DecodeError::Base64),
        Some(blob) => if blob.len() < NONCE_LEN {
            Err(DecodeError::Truncated)
        } else {
            match aes_gcm_opened(
                key,
                blob.subrange(0, NONCE_LEN as int),
                blob.subrange(NONCE_LEN as int, blob.len() as int),
            ) {
                None => Err(DecodeError::Authentication),
                Some(plain) => if valid_utf8(plain) {
                    Ok(decode_utf8(plain))
                } else {
                    Err(DecodeError::Text)
                },
            }
        },
    }
}

/// Calls `rand::thread_rng` and `Rng::fill` on a 12-byte buffer.
///
/// Trusted: nothing is claimed of the bytes.
#[verifier::external_body]
fn random_nonce() -> [u8; 12] {
    let mut nonce: [u8; 12] = [0u8; 12];
    rand::Rng::fill(&mut rand::thread_rng(), &mut nonce);
    nonce
}

/// Calls `Aes256Gcm::new` on the key and `Aead::encrypt` on the result.
///
/// Trusted: encryption succeeds exactly when the plaintext has at most
/// 2^36 bytes; the result is then a function of key, nonce and plaintext,
/// is 16 bytes longer than the plaintext, and decrypts under the same key
/// and nonce to the plaintext. The call reserves room for plaintext and
/// tag before it looks at the length and panics where that is more than a
/// vector can hold, which `requires` leaves out.
#[verifier::external_body]
fn aes_gcm_encrypt(key: &[u8; 32], nonce: &[u8; 12], plaintext: &[u8]) -> (r: Option<Vec<u8>>)
    requires
        plaintext@.len() + TAG_LEN <= isize::MAX,
    ensures
        r is Some <==> plaintext@.len() <= MAX_PLAINTEXT_LEN,
        r matches Some(sealed) ==> sealed@ == aes_gcm_sealed(key@, nonce@, plaintext@),
        r matches Some(sealed) ==> sealed@.len() == plaintext@.len() + TAG_LEN,
        r matches Some(sealed) ==> aes_gcm_opened(key@, nonce@, sealed@) == Some(plaintext@),
{
    let cipher = <aes_gcm::Aes256Gcm as aes_gcm::KeyInit>::new(
        aes_gcm::Key::<aes_gcm::Aes256Gcm>::from_slice(key),
    );
    aes_gcm::aead::Aead::encrypt(&cipher, aes_gcm::Nonce::from_slice(nonce), plaintext).ok()
}

/// Calls `Aes256Gcm::new` on the key and `Aead::decrypt` on the result.
///
/// Trusted: the outcome is a function of key, nonce and input; a plaintext
/// that comes back is 16 bytes shorter than the input.
#[verifier::external_body]
fn aes_gcm_decrypt(key: &[u8; 32], nonce: &[u8; 12], sealed: &[u8]) -> (r: Option<Vec<u8>>)
    ensures
        r is Some <==> aes_gcm_opened(key@, nonce@, sealed@) is Some,
        r matches Some(plain) ==> aes_gcm_opened(key@, nonce@, sealed@) == Some(plain@),
        r matches Some(plain) ==> plain@.len() + TAG_LEN == sealed@.len(),
{
    let cipher = <aes_gcm::Aes256Gcm as aes_gcm::KeyInit>::new(
        aes_gcm::Key::<aes_gcm::Aes256Gcm>::from_slice(key),
    );
    aes_gcm::aead::Aead::decrypt(&cipher, aes_gcm::Nonce::from_slice(nonce), sealed).ok()
}

/// Calls `Engine::encode` of `base64::engine::general_purpose::STANDARD`.
///
/// Trusted: the text is a function of the bytes, and decoding it gives the
/// bytes back. The call panics where the encoded length overflows `usize`,
/// which `requires` leaves out.
#[verifier::external_body]
fn base64_encode(bytes: &[u8]) -> (text: String)
    requires
        bytes@.len() / 3 * 4 + 4 <= usize::MAX,
    ensures
        text@ == base64_text(bytes@),
        base64_bytes(text@) == Some(bytes@),
{
    base64::Engine::encode(&base64::engine::general_purpose::STANDARD, bytes)
}

/// Calls `Engine::decode` of `base64::engine::general_purpose::STANDARD`.
///
/// Trusted: the outcome is a function of the text.
#[verifier::external_body]
fn base64_decode(text: &str) -> (r: Option<Vec<u8>>)
    ensures
        r is Some <==> base64_bytes(text@) is Some,
        r matches Some(bytes) ==> base64_bytes(text@) == Some(bytes@),
{
    base64::Engine::decode(&base64::engine::general_purpose::STANDARD, text).ok()
}

/// Calls `String::from_utf8`.
///
/// Trusted: conversion succeeds exactly on valid UTF-8, and the string then
/// holds the characters that the bytes encode.
#[verifier::external_body]
fn string_from_utf8(bytes: Vec<u8>) -> (r: Option<String>)
    ensures
        r is Some <==> valid_utf8(bytes@),
        r matches Some(text) ==> text@ == decode_utf8(bytes@),
{
    String::from_utf8(bytes).ok()
}

/// The bytes of a sealed payload: the nonce, then the ciphertext with its
/// tag.
pub fn frame_sealed(nonce: &[u8; 12], sealed: &[u8]) -> (blob: Vec<u8>)
    ensures
        blob@ == nonce@ + sealed@,
{
    let mut blob: Vec<u8> = Vec::new();
    blob.extend_from_slice(nonce.as_slice());
    blob.extend_from_slice(sealed);
    blob
}

/// Splits the bytes of a sealed payload into the nonce and the rest.
/// `None` exactly when there are fewer bytes than a nonce has.
pub fn split_sealed(blob: &[u8]) -> (r: Option<([u8; 12], &[u8])>)
    ensures
        r is Some <==> blob@.len() >= NONCE_LEN,
        r matches Some((nonce, sealed)) ==> nonce@ == blob@.subrange(0, NONCE_LEN as int)
            && sealed@ == blob@.subrange(NONCE_LEN as int, blob@.len() as int),
{
    if blob.len() < NONCE_LEN {
        return None;
    }
    let mut nonce: [u8; 12] = [0u8; 12];
    let mut i: usize = 0;
    while i < NONCE_LEN
        invariant
            i <= NONCE_LEN,
            blob@.len() >= NONCE_LEN,
            forall|j: int| 0 <= j < i ==> nonce@[j] == blob@[j],
        decreases NONCE_LEN - i,
    {
        nonce[i] = blob[i];
        i = i + 1;
    }
    assert(nonce@ == blob@.subrange(0, NONCE_LEN as int));
    Some((nonce, &blob[NONCE_LEN..blob.len()]))
}

/// Whether a plaintext of `len` bytes can be sealed.
pub fn can_seal(len: usize) -> (r: bool)
    ensures
        r == sealable(len as nat),
{
    len as u64 <= MAX_PLAINTEXT_LEN && len <= isize::MAX as usize - TAG_LEN && (len + NONCE_LEN
        + TAG_LEN) / 3 <= (usize::MAX - 4) / 4
}

/// Seals `plaintext` under `key` with the nonce given.
///
/// Fails exactly when the plaintext is too long to seal.
pub fn encrypt_with_nonce(key: &[u8; 32], nonce: &[u8; 12], plaintext: &str) -> (r: Result<
    String,
    EncodeError,
>)
    ensures
        r is Ok <==> sealable(encode_utf8(plaintext@).len()),
        r matches Ok(text) ==> text@ == sealed_text(key@, nonce@, plaintext@),
        r matches Ok(text) ==> opened_text(key@, text@) == Ok::<Seq<char>, DecodeError>(
            plaintext@,
        ),
{
    let bytes = plaintext.as_bytes();
    if !can_seal(bytes.len()) {
        return Err(EncodeError::TooLong);
    }
    match aes_gcm_encrypt(key, nonce, bytes) {
        None => Err(EncodeError::TooLong),
        Some(sealed) => {
            let blob = frame_sealed(nonce, sealed.as_slice());
            let text = base64_encode(blob.as_slice());
            proof {
                assert(blob@.subrange(0, NONCE_LEN as int) == nonce@);
                assert(blob@.subrange(NONCE_LEN as int, blob@.len() as int) == sealed@);
                encode_utf8_valid_utf8(plaintext@);
                encode_utf8_decode_utf8(plaintext@);
            }
            Ok(text)
        },
    }
}

/// Seals `plaintext` under `key` with a fresh random nonce.
///
/// Fails exactly when the plaintext is too long to seal. Whatever nonce was
/// drawn, the result opens under `key` to the plaintext.
pub fn encrypt_data(key: &[u8; 32], plaintext: &str) -> (r: Result<String, EncodeError>)
    ensures
        r is Ok <==> sealable(encode_utf8(plaintext@).len()),
        r matches Ok(text) ==> exists|nonce: Seq<u8>|
            nonce.len() == NONCE_LEN && text@ == #[trigger] sealed_text(key@, nonce, plaintext@),
        r matches Ok(text) ==> opened_text(key@, text@) == Ok::<Seq<char>, DecodeError>(
            plaintext@,
        ),
{
    let nonce = random_nonce();
    let r = encrypt_with_nonce(key, &nonce, plaintext);
    proof {
        if r is Ok {
            assert(r->Ok_0@ == sealed_text(key@, nonce@, plaintext@));
        }
    }
    r
}

/// Opens a sealed payload under `key`.
///
/// Each failure has its own error: text that is not base64, a payload
/// shorter than a nonce, a tag that does not verify, and plaintext that is
/// not UTF-8.
pub fn decrypt_data(key: &[u8; 32], ciphertext: &str) -> (r: Result<String, DecodeError>)
    ensures
        r matches Ok(text) ==> opened_text(key@, ciphertext@) == Ok::<Seq<char>, DecodeError>(
            text@,
        ),
        r matches Err(e) ==> opened_text(key@, ciphertext@) == Err::<Seq<char>, DecodeError>(e),
{
    let blob = match base64_decode(ciphertext) {
        Some(blob) => blob,
        None => {
            return Err(DecodeError::Base64);
        },
    };
    let (nonce, sealed) = match split_sealed(blob.as_slice()) {
        Some(parts) => parts,
        None => {
            return Err(DecodeError::Truncated);
        },
    };
    let plain = match aes_gcm_decrypt(key, &nonce, sealed) {
        Some(plain) => plain,
        None => {
            return Err(DecodeError::Authentication);
        },
    };
    match string_from_utf8(plain) {
        Some(text) => Ok(text),
        None => Err(DecodeError::Text),
    }
}

} // verus!
