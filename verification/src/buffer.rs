//! Ownership-transfer buffers and their textual encodings.
//!
//! A byte sequence that crosses the host boundary is moved into an
//! opaque handle, travels as a unit, and is moved back out exactly once.
//! The model of a handle is the byte sequence it carries. Hex encoding
//! of byte payloads is done by the `hex` crate behind trusted wrappers
//! whose contracts state the encoding exactly.

use vstd::prelude::*;
use vstd::string::StringSliceAdditionalSpecFns;

verus! {

/// A vector broken into one transferable unit for the host boundary.
/// Ownership of the elements moves with the value.
#[derive(Debug)]
pub struct CVec<T> {
    pub items: Vec<T>,
}

/// The model of a wrapped vector: the sequence of its elements.
pub open spec fn wrap_model<T>(s: Seq<T>) -> Seq<T> {
    s
}

/// The model of unwrapping: the sequence carried by the handle.
pub open spec fn unwrap_model<T>(s: Seq<T>) -> Seq<T> {
    s
}

impl<T> CVec<T> {
    /// Moves a vector into a handle without copying its elements.
    pub fn wrap(items: Vec<T>) -> (r: CVec<T>)
        ensures
            r.items@ == wrap_model(items@),
    {
        CVec { items }
    }

    /// Moves the carried vector back out; the only way to dispose of a
    /// handle without leaking it.
    pub fn unwrap(self) -> (r: Vec<T>)
        ensures
            r@ == unwrap_model(self.items@),
    {
        self.items
    }

    /// The number of carried elements.
    pub fn len(&self) -> (r: usize)
        ensures
            r == self.items@.len(),
    {
        self.items.len()
    }
}

/// A wrapped sequence round-trips unchanged: unwrapping what was
/// wrapped yields the original sequence, element for element.
pub proof fn lemma_wrap_unwrap_identity<T>(s: Seq<T>)
    ensures
        unwrap_model(wrap_model(s)) == s,
{
}

/// A byte buffer in transferable form. Textual payloads are carried as
/// their UTF-8 bytes.
#[derive(Debug)]
pub struct ThickBytePtr(pub CVec<u8>);

impl ThickBytePtr {
    /// The empty handle, used where no payload accompanies a result.
    pub fn null() -> (r: ThickBytePtr)
        ensures
            r.0.items@ == Seq::<u8>::empty(),
    {
        ThickBytePtr(CVec { items: Vec::new() })
    }

    /// Moves a string into a handle carrying its UTF-8 bytes.
    pub fn from_str(str: String) -> (r: ThickBytePtr)
        ensures
            r.0.items@ == vstd::utf8::encode_utf8(str@),
    {
        let bytes = str.as_str().as_bytes_vec();
        ThickBytePtr(CVec { items: bytes })
    }

    /// Moves the carried bytes back out as text. Yields `None` exactly
    /// when the bytes are not valid UTF-8.
    pub fn to_str(self) -> (r: Option<String>)
        ensures
            r is Some <==> vstd::utf8::valid_utf8(self.0.items@),
            r matches Some(s) ==> s@ == vstd::utf8::decode_utf8(self.0.items@),
    {
        bytes_into_string(self.0.items)
    }

    /// Disposes of a handle whose payload is no longer needed.
    pub fn release(self) {
    }
}

/// Relies on `String::from_utf8`: succeeds exactly on valid UTF-8 input
/// and returns the string those bytes encode.
#[verifier::external_body]
pub(crate) fn bytes_into_string(bytes: Vec<u8>) -> (r: Option<String>)
    ensures
        r is Some <==> vstd::utf8::valid_utf8(bytes@),
        r matches Some(s) ==> s@ == vstd::utf8::decode_utf8(bytes@),
{
    String::from_utf8(bytes).ok()
}

/// Appends a byte vector's contents.
pub(crate) fn append_bytes(out: &mut Vec<u8>, data: &Vec<u8>)
    ensures
        final(out)@ == old(out)@ + data@,
{
    out.extend_from_slice(data.as_slice());
    proof {
        assert forall|i: int| 0 <= i < final(out)@.len() implies final(out)@[i] == (old(out)@
            + data@)[i] by {
            if i >= old(out)@.len() {
                assert(cloned::<u8>(data@[i - old(out)@.len()], final(out)@[i]));
            }
        }
        assert(final(out)@ =~= old(out)@ + data@);
    }
}

/// The lowercase hex digit for a value below sixteen.
pub open spec fn hex_digit(n: u8) -> char
    recommends
        n < 16,
{
    if n < 10 {
        ((n + 48) as u8) as char
    } else {
        ((n + 87) as u8) as char
    }
}

/// The lowercase hex encoding of a byte sequence: two digits per byte,
/// high nibble first.
pub open spec fn hex_of(bytes: Seq<u8>) -> Seq<char> {
    Seq::new(
        bytes.len() * 2,
        |i: int| if i % 2 == 0 {
            hex_digit(bytes[i / 2] / 16)
        } else {
            hex_digit(bytes[i / 2] % 16)
        },
    )
}

/// Whether a byte is the code of a hex digit, in either case.
pub open spec fn is_hex_byte(b: u8) -> bool {
    (48 <= b && b <= 57) || (97 <= b && b <= 102) || (65 <= b && b <= 70)
}

/// The value of a hex digit byte, in either case.
pub open spec fn hex_val(b: u8) -> u8
    recommends
        is_hex_byte(b),
{
    if 48 <= b && b <= 57 {
        (b - 48) as u8
    } else if 97 <= b && b <= 102 {
        (b - 87) as u8
    } else {
        (b - 55) as u8
    }
}

/// Whether a byte sequence is a well-formed hex payload: even length,
/// hex digits throughout. The decoder reads a string's UTF-8 bytes.
pub open spec fn is_hex_string(b: Seq<u8>) -> bool {
    b.len() % 2 == 0 && forall|i: int| 0 <= i < b.len() ==> is_hex_byte(#[trigger] b[i])
}

/// The bytes denoted by a well-formed hex payload.
pub open spec fn hex_bytes(b: Seq<u8>) -> Seq<u8>
    recommends
        is_hex_string(b),
{
    Seq::new(b.len() / 2, |i: int| (hex_val(b[2 * i]) * 16 + hex_val(b[2 * i + 1])) as u8)
}

/// The ways a hex payload can be rejected.
#[derive(Debug, Clone, Copy, PartialEq, Eq, Structural)]
pub enum HexDecodeError {
    /// The character at `index` is not a hex digit.
    InvalidHexCharacter { c: char, index: usize },
    /// The input holds an odd number of digits.
    OddLength,
}

/// Relies on `hex::encode`: lowercase encoding, two digits per byte,
/// high nibble first.
#[verifier::external_body]
fn hex_encode(data: &Vec<u8>) -> (r: String)
    ensures
        r@ == hex_of(data@),
{
    hex::encode(data)
}

/// Relies on `hex::decode`, which reads the string's UTF-8 bytes:
/// accepts exactly the even-length sequences of hex digit bytes
/// (either case) and returns the bytes they denote; an odd byte count
/// is reported before any digit is checked, and a bad digit with its
/// byte position and its byte read as a character.
#[verifier::external_body]
fn hex_decode(data: &str) -> (r: Result<Vec<u8>, HexDecodeError>)
    ensures
        r is Ok <==> is_hex_string(data.spec_bytes()),
        r matches Ok(v) ==> v@ == hex_bytes(data.spec_bytes()),
        r matches Err(e) ==> match e {
            HexDecodeError::OddLength => data.spec_bytes().len() % 2 != 0,
            HexDecodeError::InvalidHexCharacter { c, index } => {
                &&& data.spec_bytes().len() % 2 == 0
                &&& 0 <= index < data.spec_bytes().len()
                &&& data.spec_bytes()[index as int] as char == c
                &&& !is_hex_byte(data.spec_bytes()[index as int])
            },
        },
{
    match hex::decode(data) {
        Ok(v) => Ok(v),
        Err(hex::FromHexError::InvalidHexCharacter { c, index }) => {
            Err(HexDecodeError::InvalidHexCharacter { c, index })
        },
        Err(_) => Err(HexDecodeError::OddLength),
    }
}

/// A byte payload whose boundary form is a hex string.
#[derive(Debug)]
pub struct Base16ByteArray(pub Vec<u8>);

impl Base16ByteArray {
    /// The hex string form sent across the boundary.
    pub fn to_hex(&self) -> (r: String)
        ensures
            r@ == hex_of(self.0@),
    {
        hex_encode(&self.0)
    }

    /// Reads a payload back from its hex string form; rejects exactly
    /// the strings whose UTF-8 bytes are not well-formed hex.
    pub fn from_hex(data: &str) -> (r: Result<Base16ByteArray, HexDecodeError>)
        ensures
            r is Ok <==> is_hex_string(data.spec_bytes()),
            r matches Ok(v) ==> v.0@ == hex_bytes(data.spec_bytes()),
    {
        match hex_decode(data) {
            Ok(v) => Ok(Base16ByteArray(v)),
            Err(e) => Err(e),
        }
    }
}

} // verus!
