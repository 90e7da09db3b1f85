//! WireGuard keys given as base64 text.
use base64::Engine;
use boringtun::x25519::{PublicKey, StaticSecret};
use vstd::prelude::*;
use vstd::string::StringSliceAdditionalSpecFns;

verus! {

/// The length in bytes of a WireGuard (Curve25519) key.
pub const KEY_LEN: usize = 32;

/// Why a base64 text did not decode, as the base64 engine reports it.
#[derive(Debug, Clone, Copy, PartialEq, Eq)]
pub enum Base64Error {
    /// A byte outside the alphabet, or a misplaced padding byte, at `offset`.
    InvalidByte { offset: usize, byte: u8 },
    /// The number of base64 symbols cannot encode whole bytes.
    InvalidLength { length: usize },
    /// The last symbol carries bits that no byte holds.
    InvalidLastSymbol { offset: usize, symbol: u8, symbol_value: u8 },
    /// The padding is absent or not canonical.
    InvalidPadding,
}

/// Why a key could not be read.
#[derive(Debug, Clone, PartialEq, Eq)]
pub enum KeyError {
    /// The text is not standard, padded base64.
    Base64(Base64Error),
    /// The text decodes, but not to exactly [`KEY_LEN`] bytes; `key` names the key.
    WrongLength { key: String, decoded_len: usize },
}

/// What the standard, padded base64 engine makes of `input`.
pub uninterp spec fn base64_standard_decoding(input: Seq<u8>) -> Result<Seq<u8>, Base64Error>;

/// The abstract value of a decoding result.
pub open spec fn decoding_view(r: Result<Vec<u8>, Base64Error>) -> Result<Seq<u8>, Base64Error> {
    match r {
        Ok(bytes) => Ok(bytes@),
        Err(e) => Err(e),
    }
}

/// Decodes `input` with `base64::engine::general_purpose::STANDARD`
/// (`Engine::decode`). Trusted: its result is the named decoding of the input
/// bytes, and each `DecodeError` variant is carried over with its fields.
#[verifier::external_body]
fn decode_standard(input: &[u8]) -> (decoded: Result<Vec<u8>, Base64Error>)
    ensures
        decoding_view(decoded) == base64_standard_decoding(input@),
{
    match base64::engine::general_purpose::STANDARD.decode(input) {
        Ok(bytes) => Ok(bytes),
        Err(base64::DecodeError::InvalidByte(offset, byte)) => Err(Base64Error::InvalidByte { offset, byte }),
        Err(base64::DecodeError::InvalidLength(length)) => Err(Base64Error::InvalidLength { length }),
        Err(base64::DecodeError::InvalidLastSymbol { offset, symbol, symbol_value }) => {
            Err(Base64Error::InvalidLastSymbol { offset, symbol, symbol_value })
        },
        Err(base64::DecodeError::InvalidPadding) => Err(Base64Error::InvalidPadding),
    }
}

/// The key that decoded bytes make: exactly [`KEY_LEN`] of them, or an error
/// that names the key and the length found.
pub open spec fn key_of_decoded(key: Seq<char>, decoded: Seq<u8>) -> Result<Seq<u8>, (Seq<char>, nat)> {
    if decoded.len() == KEY_LEN {
        Ok(decoded)
    } else {
        Err((key, decoded.len()))
    }
}

/// The key that base64 `text` holds, named `key` in errors.
pub open spec fn key_of_text(key: Seq<char>, text: Seq<u8>) -> Result<Seq<u8>, KeyErrorView> {
    match base64_standard_decoding(text) {
        Err(e) => Err(KeyErrorView::Base64(e)),
        Ok(decoded) => match key_of_decoded(key, decoded) {
            Ok(bytes) => Ok(bytes),
            Err((k, n)) => Err(KeyErrorView::WrongLength { key: k, decoded_len: n }),
        },
    }
}

/// A key is read exactly when its text is standard base64 of exactly
/// [`KEY_LEN`] bytes, and the key is those bytes in order; otherwise the
/// base64 error, or the key's name with the length found, is reported.
pub proof fn lemma_key_read_iff_thirty_two_bytes(key: Seq<char>, text: Seq<u8>)
    ensures
        key_of_text(key, text) is Ok <==> (base64_standard_decoding(text) matches Ok(d) && d.len() == KEY_LEN),
        base64_standard_decoding(text) matches Ok(d) ==> key_of_text(key, text)
            == (if d.len() == KEY_LEN {
                Ok::<Seq<u8>, KeyErrorView>(d)
            } else {
                Err(KeyErrorView::WrongLength { key, decoded_len: d.len() })
            }),
        base64_standard_decoding(text) matches Err(e) ==> key_of_text(key, text) == Err::<Seq<u8>, KeyErrorView>(KeyErrorView::Base64(e)),
{
}

/// The abstract value of a [`KeyError`].
pub enum KeyErrorView {
    Base64(Base64Error),
    WrongLength { key: Seq<char>, decoded_len: nat },
}

impl KeyError {
    pub open spec fn view(&self) -> KeyErrorView {
        match self {
            KeyError::Base64(e) => KeyErrorView::Base64(*e),
            KeyError::WrongLength { key, decoded_len } => KeyErrorView::WrongLength { key: key@, decoded_len: *decoded_len as nat },
        }
    }
}

/// The display text of a base64 decoding error.
pub uninterp spec fn base64_error_message(e: Base64Error) -> Seq<char>;

/// The display text of base64's `DecodeError` (its `Display` impl), for the
/// error these fields came from. Trusted: the text is the named one of the
/// error.
#[verifier::external_body]
fn base64_error_text(e: Base64Error) -> (text: String)
    ensures
        text@ == base64_error_message(e),
{
    match e {
        Base64Error::InvalidByte { offset, byte } => base64::DecodeError::InvalidByte(offset, byte),
        Base64Error::InvalidLength { length } => base64::DecodeError::InvalidLength(length),
        Base64Error::InvalidLastSymbol { offset, symbol, symbol_value } => {
            base64::DecodeError::InvalidLastSymbol { offset, symbol, symbol_value }
        },
        Base64Error::InvalidPadding => base64::DecodeError::InvalidPadding,
    }.to_string()
}

/// The text that says a key decoded to the wrong length.
pub open spec fn wrong_length_message(key: Seq<char>) -> Seq<char> {
    key + " must decode to exactly 32 bytes"@
}

impl KeyError {
    /// The error's text: base64's own for a decoding error, and
    /// "`key` must decode to exactly 32 bytes" for a wrong length.
    pub fn message(&self) -> (m: String)
        ensures
            match self.view() {
                KeyErrorView::Base64(e) => m@ == base64_error_message(e),
                KeyErrorView::WrongLength { key, .. } => m@ == wrong_length_message(key),
            },
    {
        match self {
            KeyError::Base64(e) => base64_error_text(*e),
            KeyError::WrongLength { key, .. } => {
                let head = String::from_str(key.as_str());
                head.concat(" must decode to exactly 32 bytes")
            },
        }
    }
}

/// The abstract value of a key result.
pub open spec fn key_result_view(r: Result<[u8; 32], KeyError>) -> Result<Seq<u8>, KeyErrorView> {
    match r {
        Ok(bytes) => Ok(bytes@),
        Err(e) => Err(e.view()),
    }
}

/// Turns decoded bytes into a key: exactly [`KEY_LEN`] bytes, kept in order.
pub fn key_from_decoded(key: &str, decoded: Vec<u8>) -> (res: Result<[u8; 32], KeyError>)
    ensures
        key_result_view(res) == (match key_of_decoded(key@, decoded@) {
            Ok(bytes) => Ok(bytes),
            Err((k, n)) => Err(KeyErrorView::WrongLength { key: k, decoded_len: n }),
        }),
{
    if decoded.len() != KEY_LEN {
        return Err(KeyError::WrongLength { key: key.to_string(), decoded_len: decoded.len() });
    }
    let mut out = [0u8; 32];
    let mut i: usize = 0;
    while i < KEY_LEN
        invariant
            decoded@.len() == KEY_LEN,
            i <= KEY_LEN,
            forall|j: int| 0 <= j < i ==> out@[j] == decoded@[j],
        decreases KEY_LEN - i,
    {
        out[i] = decoded[i];
        i = i + 1;
    }
    assert(out@ =~= decoded@);
    Ok(out)
}

/// Reads the key `key` from its base64 text `encoded`: the standard, padded
/// alphabet, decoding to exactly [`KEY_LEN`] bytes.
pub fn read_key(key: &str, encoded: &str) -> (res: Result<[u8; 32], KeyError>)
    ensures
        key_result_view(res) == key_of_text(key@, encoded.spec_bytes()),
{
    match decode_standard(encoded.as_bytes()) {
        Ok(decoded) => key_from_decoded(key, decoded),
        Err(e) => Err(KeyError::Base64(e)),
    }
}

#[verifier::external_type_specification]
#[verifier::external_body]
pub struct ExStaticSecret(StaticSecret);

#[verifier::external_type_specification]
#[verifier::external_body]
pub struct ExPublicKey(PublicKey);

/// The static secret that x25519-dalek makes of 32 bytes.
pub uninterp spec fn static_secret_of(bytes: Seq<u8>) -> StaticSecret;

/// The public key that x25519-dalek makes of 32 bytes.
pub uninterp spec fn public_key_of(bytes: Seq<u8>) -> PublicKey;

/// `StaticSecret::from([u8; 32])` of x25519-dalek, which stores the bytes
/// as they are (clamping happens at use). Trusted: the result is the named
/// secret of these bytes.
#[verifier::external_body]
pub(crate) fn static_secret_from(bytes: [u8; 32]) -> (secret: StaticSecret)
    ensures
        secret == static_secret_of(bytes@),
{
    StaticSecret::from(bytes)
}

/// `PublicKey::from([u8; 32])` of x25519-dalek, which takes the bytes as the
/// Montgomery point itself (nothing is derived from them). Trusted: the
/// result is the named public key of these bytes.
#[verifier::external_body]
pub(crate) fn public_key_from(bytes: [u8; 32]) -> (public: PublicKey)
    ensures
        public == public_key_of(bytes@),
{
    PublicKey::from(bytes)
}

/// Reads the private key `key` from its base64 text `encoded`, as
/// [`read_key`] does, and makes it a static secret.
pub fn read_private_key(key: &str, encoded: &str) -> (res: Result<StaticSecret, KeyError>)
    ensures
        res is Ok <==> key_of_text(key@, encoded.spec_bytes()) is Ok,
        res matches Err(e) ==> key_of_text(key@, encoded.spec_bytes()) == Err::<Seq<u8>, KeyErrorView>(e.view()),
        res matches Ok(secret) ==> key_of_text(key@, encoded.spec_bytes()) matches Ok(b) && secret == static_secret_of(b),
{
    match read_key(key, encoded) {
        Ok(bytes) => Ok(static_secret_from(bytes)),
        Err(e) => Err(e),
    }
}

/// Reads the public key `key` from its base64 text `encoded`, as
/// [`read_key`] does, and makes it a public key.
pub fn read_pub_key(key: &str, encoded: &str) -> (res: Result<PublicKey, KeyError>)
    ensures
        res is Ok <==> key_of_text(key@, encoded.spec_bytes()) is Ok,
        res matches Err(e) ==> key_of_text(key@, encoded.spec_bytes()) == Err::<Seq<u8>, KeyErrorView>(e.view()),
        res matches Ok(public) ==> key_of_text(key@, encoded.spec_bytes()) matches Ok(b) && public == public_key_of(b),
{
    match read_key(key, encoded) {
        Ok(bytes) => Ok(public_key_from(bytes)),
        Err(e) => Err(e),
    }
}

} // verus!
