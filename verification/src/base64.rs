//! Byte strings that travel as standard base64 text.
use vstd::prelude::*;

verus! {

/// The standard (padded) base64 text of `bytes`, as
/// `base64::prelude::BASE64_STANDARD.encode` gives it.
pub uninterp spec fn base64_standard_encode(bytes: Seq<u8>) -> Seq<char>;

/// The bytes that `BASE64_STANDARD.decode` gives for `text`, or `None` when
/// it reports an error.
pub uninterp spec fn base64_standard_decode(text: Seq<char>) -> Option<Seq<u8>>;

/// Calls `BASE64_STANDARD.encode`; the contract names its result and states
/// that `BASE64_STANDARD.decode` gives the bytes back from it (the engine
/// writes canonical, padded text, which is what its decoder requires).
#[verifier::external_body]
fn encode_standard(bytes: &[u8]) -> (r: String)
    ensures
        r@ == base64_standard_encode(bytes@),
        base64_standard_decode(r@) == Some(bytes@),
{
    base64::Engine::encode(&base64::prelude::BASE64_STANDARD, bytes)
}

/// Calls `BASE64_STANDARD.decode`; the contract names its result, errors
/// becoming `None`.
#[verifier::external_body]
fn decode_standard(text: &str) -> (r: Option<Vec<u8>>)
    ensures
        match (r, base64_standard_decode(text@)) {
            (Some(v), Some(s)) => v@ == s,
            (None, None) => true,
            _ => false,
        },
{
    base64::Engine::decode(&base64::prelude::BASE64_STANDARD, text).ok()
}

/// Why a text is not a byte string in base64.
#[derive(Debug, Clone, Copy, PartialEq, Eq)]
pub enum Base64Error {
    /// The text is not valid standard base64.
    InvalidValue,
}

/// A byte string that is serialized as standard base64 text.
#[derive(Debug, Clone, PartialEq, Eq)]
pub struct Base64(pub Vec<u8>);

impl Base64 {
    /// Wraps `bytes`.
    pub fn from_bytes(bytes: Vec<u8>) -> (r: Self)
        ensures
            r.0@ == bytes@,
    {
        Base64(bytes)
    }

    /// The text that this byte string is serialized as; decoding it gives
    /// the byte string back.
    pub fn encode(&self) -> (r: String)
        ensures
            r@ == base64_standard_encode(self.0@),
            base64_standard_decode(r@) == Some(self.0@),
    {
        encode_standard(self.0.as_slice())
    }

    /// The byte string that `text` encodes; `Err(InvalidValue)` when `text`
    /// is not valid standard base64.
    pub fn decode(text: &str) -> (r: Result<Self, Base64Error>)
        ensures
            match base64_standard_decode(text@) {
                Some(b) => r matches Ok(v) && v.0@ == b,
                None => r == Err::<Self, Base64Error>(Base64Error::InvalidValue),
            },
    {
        match decode_standard(text) {
            Some(bytes) => Ok(Base64(bytes)),
            None => Err(Base64Error::InvalidValue),
        }
    }
}

} // verus!
