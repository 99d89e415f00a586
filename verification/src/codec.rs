//! Reversible text encodings of byte strings, and base64 in its four common
//! variants.

use base64::engine::general_purpose::STANDARD;
use base64::engine::general_purpose::STANDARD_NO_PAD;
use base64::engine::general_purpose::URL_SAFE;
use base64::engine::general_purpose::URL_SAFE_NO_PAD;
use base64::DecodeError;
use base64::Engine;
use crate::text::decimal;
use crate::text::push_decimal;
use std::marker::PhantomData;
use vstd::prelude::*;
use vstd::string::StringExecFns;
use vstd::utf8::decode_utf8;
use vstd::utf8::decode_utf8_encode_utf8;
use vstd::utf8::encode_utf8;
use vstd::utf8::encode_utf8_decode_utf8;
use vstd::utf8::encode_utf8_valid_utf8;
use vstd::utf8::valid_utf8;

verus! {

/// A reversible encoding. Both directions are pure; an error reports
/// malformed input and is for the caller to recover from.
pub trait Encoding {
    /// The encoding's name, for diagnostics.
    const NAME: &'static str;

    type Success;

    type Error;

    fn encode(&self, input: &[u8]) -> Result<Self::Success, Self::Error>;

    fn decode(&self, input: &[u8]) -> Result<Self::Success, Self::Error>;
}

/// Encodes `input` with `enc`.
pub fn encode<T: Encoding>(enc: &T, input: &[u8]) -> (r: Result<T::Success, T::Error>)
    ensures
        call_ensures(T::encode, (enc, input), r),
{
    enc.encode(input)
}

/// Decodes `input` with `dec`.
pub fn decode<T: Encoding>(dec: &T, input: &[u8]) -> (r: Result<T::Success, T::Error>)
    ensures
        call_ensures(T::decode, (dec, input), r),
{
    dec.decode(input)
}

/// Why a text is not the base64 encoding of anything, with the place where
/// decoding stopped.
#[derive(Clone, Copy, Debug, PartialEq, Eq, Structural)]
pub enum DecodeFailure {
    /// The byte at the given offset is not a symbol of the alphabet, or is
    /// padding in the wrong place.
    InvalidByte(usize, u8),
    /// The number of symbols cannot be that of an encoding.
    InvalidLength(usize),
    /// The last symbol, at the given offset, has bits set that nothing would
    /// decode from.
    InvalidLastSymbol(usize, u8),
    /// Padding is missing where it is required, or present where it is not.
    InvalidPadding,
}

/// A decoding error, as a message.
#[derive(Debug)]
pub struct Error(pub String);

impl View for Error {
    type V = Seq<char>;

    open spec fn view(&self) -> Seq<char> {
        self.0@
    }
}

impl DecodeFailure {
    /// The message that reports this failure.
    pub open spec fn message(self) -> Seq<char> {
        match self {
            DecodeFailure::InvalidByte(offset, byte) => "Invalid token byte at offset: "@ + decimal(
                offset as nat,
            ) + " bytes = "@ + decimal(byte as nat),
            DecodeFailure::InvalidLength(length) => "The length of the token is invalid length: "@
                + decimal(length as nat),
            DecodeFailure::InvalidLastSymbol(offset, byte) =>
                "This token failed encoding due to invalid last symbols offset: "@ + decimal(
                offset as nat,
            ) + " bytes = "@ + decimal(byte as nat),
            DecodeFailure::InvalidPadding => "This token failed encoding to due to invalid padding"@,
        }
    }
}

impl Error {
    /// The message of a decoding that gave bytes which are no UTF-8 text.
    pub open spec fn not_text() -> Seq<char> {
        "Failed to convert from bytes to string!"@
    }

    /// The message of an input too long for its encoding to be addressed.
    pub open spec fn too_long() -> Seq<char> {
        "The input is too long to encode"@
    }

    /// The message, as it is shown to a reader.
    pub fn to_string(&self) -> (r: String)
        ensures
            r@ == self@,
    {
        self.0.clone()
    }
}

impl From<DecodeFailure> for Error {
    fn from(value: DecodeFailure) -> (r: Error)
        ensures
            r@ == value.message(),
    {
        match value {
            DecodeFailure::InvalidByte(offset, byte) => {
                let mut text = String::from_str("Invalid token byte at offset: ");
                push_decimal(&mut text, offset);
                text.append(" bytes = ");
                push_decimal(&mut text, byte as usize);
                Error(text)
            },
            DecodeFailure::InvalidLength(length) => {
                let mut text = String::from_str("The length of the token is invalid length: ");
                push_decimal(&mut text, length);
                Error(text)
            },
            DecodeFailure::InvalidLastSymbol(offset, byte) => {
                let mut text = String::from_str(
                    "This token failed encoding due to invalid last symbols offset: ",
                );
                push_decimal(&mut text, offset);
                text.append(" bytes = ");
                push_decimal(&mut text, byte as usize);
                Error(text)
            },
            DecodeFailure::InvalidPadding => Error(
                String::from_str("This token failed encoding to due to invalid padding"),
            ),
        }
    }
}

impl vstd::std_specs::convert::FromSpecImpl<DecodeFailure> for Error {
    /// The conversion is described by the contract of `from` itself.
    open spec fn obeys_from_spec() -> bool {
        false
    }

    open spec fn from_spec(value: DecodeFailure) -> Error {
        arbitrary()
    }
}

/// The base64 text of `input`, in the standard or the URL-safe alphabet, with
/// or without padding.
pub uninterp spec fn base64_text(url_safe: bool, padded: bool, input: Seq<u8>) -> Seq<char>;

/// What decoding `input` as base64 gives, in the standard or the URL-safe
/// alphabet, with padding required or refused.
pub uninterp spec fn base64_bytes(url_safe: bool, padded: bool, input: Seq<u8>) -> Result<
    Seq<u8>,
    DecodeFailure,
>;

/// Whether the base64 text of an input of `len` bytes has a length that fits
/// the machine's addresses, padding included.
pub open spec fn encodable(len: nat) -> bool {
    len / 3 < usize::MAX / 4
}

/// `Engine::encode` of the `base64` crate, on the engine for the given
/// alphabet and padding. It returns the base64 text of the input. The crate
/// panics where the text's length overflows; those inputs are left out.
#[verifier::external_body]
fn engine_encode(url_safe: bool, padded: bool, input: &[u8]) -> (text: String)
    requires
        encodable(input@.len()),
    ensures
        text@ == base64_text(url_safe, padded, input@),
{
    match (url_safe, padded) {
        (false, true) => STANDARD.encode(input),
        (false, false) => STANDARD_NO_PAD.encode(input),
        (true, true) => URL_SAFE.encode(input),
        (true, false) => URL_SAFE_NO_PAD.encode(input),
    }
}

/// The outcome of a decoding, as plain values.
pub open spec fn outcome_view(outcome: Result<Vec<u8>, DecodeFailure>) -> Result<
    Seq<u8>,
    DecodeFailure,
> {
    match outcome {
        Ok(bytes) => Ok(bytes@),
        Err(failure) => Err(failure),
    }
}

/// `Engine::decode` of the `base64` crate, on the engine for the given
/// alphabet and padding. It returns the decoded bytes, or the crate's error
/// with its offset and byte.
#[verifier::external_body]
fn engine_decode(url_safe: bool, padded: bool, input: &[u8]) -> (outcome: Result<
    Vec<u8>,
    DecodeFailure,
>)
    ensures
        outcome_view(outcome) == base64_bytes(url_safe, padded, input@),
{
    let decoded = match (url_safe, padded) {
        (false, true) => STANDARD.decode(input),
        (false, false) => STANDARD_NO_PAD.decode(input),
        (true, true) => URL_SAFE.decode(input),
        (true, false) => URL_SAFE_NO_PAD.decode(input),
    };
    match decoded {
        Ok(bytes) => Ok(bytes),
        Err(DecodeError::InvalidByte(at, byte)) => Err(DecodeFailure::InvalidByte(at, byte)),
        Err(DecodeError::InvalidLength(length)) => Err(DecodeFailure::InvalidLength(length)),
        Err(DecodeError::InvalidLastSymbol(at, byte)) => Err(DecodeFailure::InvalidLastSymbol(at, byte)),
        Err(DecodeError::InvalidPadding) => Err(DecodeFailure::InvalidPadding),
    }
}

/// `String::from_utf8`: the text that the bytes encode in UTF-8, or nothing
/// where they are no valid UTF-8.
#[verifier::external_body]
fn text_of(bytes: Vec<u8>) -> (text: Option<String>)
    ensures
        match text {
            Some(s) => valid_utf8(bytes@) && s@ == decode_utf8(bytes@),
            None => !valid_utf8(bytes@),
        },
{
    String::from_utf8(bytes).ok()
}

/// What an encoder returns for `input`: its base64 text, or an error where
/// the text would be too long to address.
pub open spec fn encoded(url_safe: bool, padded: bool, input: Seq<u8>) -> Result<
    Seq<char>,
    Seq<char>,
> {
    if encodable(input.len()) {
        Ok(base64_text(url_safe, padded, input))
    } else {
        Err(Error::too_long())
    }
}

/// What a decoder returns once base64 decoding has given `outcome`: the text
/// that the decoded bytes spell, or the message of what went wrong.
pub open spec fn decoded(outcome: Result<Seq<u8>, DecodeFailure>) -> Result<Seq<char>, Seq<char>> {
    match outcome {
        Ok(bytes) => if valid_utf8(bytes) {
            Ok(decode_utf8(bytes))
        } else {
            Err(Error::not_text())
        },
        Err(failure) => Err(failure.message()),
    }
}

/// The result of an encoder or decoder, as plain values.
pub open spec fn result_view(r: Result<String, Error>) -> Result<Seq<char>, Seq<char>> {
    match r {
        Ok(text) => Ok(text@),
        Err(error) => Err(error@),
    }
}

/// Encodes `input` in the given variant.
pub fn encode_variant(url_safe: bool, padded: bool, input: &[u8]) -> (r: Result<String, Error>)
    ensures
        result_view(r) == encoded(url_safe, padded, input@),
{
    if input.len() / 3 < usize::MAX / 4 {
        Ok(engine_encode(url_safe, padded, input))
    } else {
        Err(Error(String::from_str("The input is too long to encode")))
    }
}

/// Turns the outcome of base64 decoding into the decoder's result: decoded
/// bytes must spell a text, and a failure becomes its message.
pub fn finish_decode(outcome: Result<Vec<u8>, DecodeFailure>) -> (r: Result<String, Error>)
    ensures
        result_view(r) == decoded(outcome_view(outcome)),
{
    match outcome {
        Ok(bytes) => match text_of(bytes) {
            Some(text) => Ok(text),
            None => Err(Error(String::from_str("Failed to convert from bytes to string!"))),
        },
        Err(failure) => Err(Error::from(failure)),
    }
}

/// Decodes `input` in the given variant.
pub fn decode_variant(url_safe: bool, padded: bool, input: &[u8]) -> (r: Result<String, Error>)
    ensures
        result_view(r) == decoded(base64_bytes(url_safe, padded, input@)),
{
    finish_decode(engine_decode(url_safe, padded, input))
}

/// The URL-safe alphabet, padded.
#[derive(Clone, Copy)]
pub struct UrlSafe;

/// The standard alphabet, padded.
#[derive(Clone, Copy)]
pub struct Standard;

/// The URL-safe alphabet, unpadded.
#[derive(Clone, Copy)]
pub struct UrlSafeNopad;

/// The standard alphabet, unpadded.
#[derive(Clone, Copy)]
pub struct StandardNopad;

/// Base64 in the variant `T`.
pub struct B64<T = UrlSafe>(pub PhantomData<T>);

impl<T> B64<T> {
    pub fn new() -> (r: Self)
        ensures
            r == B64::<T>(PhantomData),
    {
        B64(PhantomData)
    }
}

impl<T> Clone for B64<T> {
    fn clone(&self) -> (r: Self)
        ensures
            r == *self,
    {
        B64(PhantomData)
    }
}

impl Encoding for B64<UrlSafe> {
    const NAME: &'static str = "URLSAFE";

    type Success = String;

    type Error = Error;

    fn encode(&self, input: &[u8]) -> (r: Result<String, Error>)
        ensures
            result_view(r) == encoded(true, true, input@),
    {
        encode_variant(true, true, input)
    }

    fn decode(&self, input: &[u8]) -> (r: Result<String, Error>)
        ensures
            result_view(r) == decoded(base64_bytes(true, true, input@)),
    {
        decode_variant(true, true, input)
    }
}

impl Encoding for B64<Standard> {
    const NAME: &'static str = "STANDARD";

    type Success = String;

    type Error = Error;

    fn encode(&self, input: &[u8]) -> (r: Result<String, Error>)
        ensures
            result_view(r) == encoded(false, true, input@),
    {
        encode_variant(false, true, input)
    }

    fn decode(&self, input: &[u8]) -> (r: Result<String, Error>)
        ensures
            result_view(r) == decoded(base64_bytes(false, true, input@)),
    {
        decode_variant(false, true, input)
    }
}

impl Encoding for B64<UrlSafeNopad> {
    const NAME: &'static str = "URLSAFE NOPAD";

    type Success = String;

    type Error = Error;

    fn encode(&self, input: &[u8]) -> (r: Result<String, Error>)
        ensures
            result_view(r) == encoded(true, false, input@),
    {
        encode_variant(true, false, input)
    }

    fn decode(&self, input: &[u8]) -> (r: Result<String, Error>)
        ensures
            result_view(r) == decoded(base64_bytes(true, false, input@)),
    {
        decode_variant(true, false, input)
    }
}

impl Encoding for B64<StandardNopad> {
    const NAME: &'static str = "STANDARD NOPAD";

    type Success = String;

    type Error = Error;

    fn encode(&self, input: &[u8]) -> (r: Result<String, Error>)
        ensures
            result_view(r) == encoded(false, false, input@),
    {
        encode_variant(false, false, input)
    }

    fn decode(&self, input: &[u8]) -> (r: Result<String, Error>)
        ensures
            result_view(r) == decoded(base64_bytes(false, false, input@)),
    {
        decode_variant(false, false, input)
    }
}

/// A decoder fails exactly where base64 decoding failed or gave bytes that
/// are no UTF-8 text; every failure carries its message.
pub proof fn lemma_decoded_errors(outcome: Result<Seq<u8>, DecodeFailure>)
    ensures
        decoded(outcome) is Err <==> (outcome is Err || !valid_utf8(outcome->Ok_0)),
        outcome matches Err(failure) ==> decoded(outcome) == Err::<Seq<char>, Seq<char>>(
            failure.message(),
        ),
        outcome matches Ok(bytes) && !valid_utf8(bytes) ==> decoded(outcome) == Err::<
            Seq<char>,
            Seq<char>,
        >(Error::not_text()),
{
}

/// The text that a decoder returns loses nothing of the decoded bytes: its
/// UTF-8 encoding is those bytes again.
pub proof fn lemma_decoded_text_is_lossless(bytes: Seq<u8>)
    requires
        valid_utf8(bytes),
    ensures
        decoded(Ok(bytes)) == Ok::<Seq<char>, Seq<char>>(decode_utf8(bytes)),
        encode_utf8(decode_utf8(bytes)) == bytes,
{
    decode_utf8_encode_utf8(bytes);
}

/// Text goes through a decoder unchanged once base64 decoding has given its
/// UTF-8 bytes.
pub proof fn lemma_decoded_of_text(text: Seq<char>)
    ensures
        decoded(Ok(encode_utf8(text))) == Ok::<Seq<char>, Seq<char>>(text),
{
    encode_utf8_valid_utf8(text);
    encode_utf8_decode_utf8(text);
}

} // verus!
