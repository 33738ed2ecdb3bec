//! How a file's contents are interpreted: the format adapter contract, and
//! the plain byte and plain text formats.
use vstd::prelude::*;
use vstd::utf8::{decode_utf8, encode_utf8, valid_utf8};
use crate::error::{IoError, IoErrorKind};

verus! {

broadcast use vstd::utf8::encode_utf8_valid_utf8, vstd::utf8::encode_utf8_decode_utf8;

/// Describes how a value of type `T` is written to bytes and read back.
///
/// The model of a format is three spec functions: the bytes that encode a
/// value (`None` where the format cannot encode it), the bytes that a
/// streaming encoder emits for a value before it returns, and which values a
/// byte sequence decodes to. The model has closed defaults so that formats
/// written outside verified code, which cannot state one, still implement the
/// trait; nothing is concluded from those defaults.
pub trait FileFormat<T> {
    /// The error reported when encoding or decoding fails.
    type FormatError;

    /// The encoding of `value`, or `None` where the format fails on it.
    closed spec fn encoding(&self, value: T) -> Option<Seq<u8>> {
        None
    }

    /// What `to_writer` emits for `value` before it returns: the whole
    /// encoding on success, a partial output on failure.
    closed spec fn emitted(&self, value: T) -> Seq<u8> {
        Seq::empty()
    }

    /// Whether `bytes` decode at all.
    closed spec fn decodable(&self, bytes: Seq<u8>) -> bool {
        false
    }

    /// Whether `value` is what `bytes` decode to.
    closed spec fn decodes(&self, bytes: Seq<u8>, value: T) -> bool {
        false
    }

    /// Decodes a value from a byte buffer.
    fn from_buffer(&self, buf: &[u8]) -> (r: Result<T, Self::FormatError>)
        ensures
            r is Ok <==> self.decodable(buf@),
            r is Ok ==> self.decodes(buf@, r->Ok_0),
    ;

    /// Encodes a value into a fresh byte buffer.
    fn to_buffer(&self, value: &T) -> (r: Result<Vec<u8>, Self::FormatError>)
        ensures
            r is Ok <==> self.encoding(*value) is Some,
            r is Ok ==> self.encoding(*value) == Some(r->Ok_0@),
    ;

    /// Streams the encoding of a value onto the end of `out`. A failure may
    /// leave part of the encoding behind.
    fn to_writer(&self, out: &mut Vec<u8>, value: &T) -> (r: Result<(), Self::FormatError>)
        ensures
            final(out)@ == old(out)@ + self.emitted(*value),
            r is Ok <==> self.encoding(*value) is Some,
            r is Ok ==> self.encoding(*value) == Some(self.emitted(*value)),
    ;
}

/// A format whose encodings are always valid UTF-8 text.
pub trait FileFormatUtf8<T>: FileFormat<T> {
    /// Decodes a value from text.
    fn from_string_buffer(&self, buf: &str) -> (r: Result<T, Self::FormatError>)
        ensures
            r is Ok <==> self.decodable(encode_utf8(buf@)),
            r is Ok ==> self.decodes(encode_utf8(buf@), r->Ok_0),
    ;

    /// Encodes a value as text.
    fn to_string_buffer(&self, value: &T) -> (r: Result<String, Self::FormatError>)
        ensures
            r is Ok <==> self.encoding(*value) is Some,
            r is Ok ==> self.encoding(*value) == Some(encode_utf8(r->Ok_0@)),
    ;
}

/// Copies a byte slice into a new vector.
pub fn copy_bytes(b: &[u8]) -> (r: Vec<u8>)
    ensures
        r@ == b@,
{
    let mut r: Vec<u8> = Vec::new();
    let mut i: usize = 0;
    while i < b.len()
        invariant
            i <= b@.len(),
            r@ == b@.subrange(0, i as int),
        decreases b@.len() - i,
    {
        r.push(b[i]);
        i = i + 1;
    }
    assert(r@ =~= b@);
    r
}

/// Appends a byte slice to the end of a vector.
pub fn append_bytes(out: &mut Vec<u8>, b: &[u8])
    ensures
        final(out)@ == old(out)@ + b@,
{
    let ghost start = out@;
    let mut i: usize = 0;
    while i < b.len()
        invariant
            i <= b@.len(),
            out@ == start + b@.subrange(0, i as int),
        decreases b@.len() - i,
    {
        out.push(b[i]);
        i = i + 1;
    }
    assert(b@.subrange(0, b@.len() as int) =~= b@);
}

/// A format that treats a file as plain bytes.
#[derive(Clone, Copy, Debug, PartialEq, Eq, Structural)]
pub struct PlainBytes;

impl FileFormat<Vec<u8>> for PlainBytes {
    type FormatError = IoError;

    open spec fn encoding(&self, value: Vec<u8>) -> Option<Seq<u8>> {
        Some(value@)
    }

    open spec fn emitted(&self, value: Vec<u8>) -> Seq<u8> {
        value@
    }

    open spec fn decodable(&self, bytes: Seq<u8>) -> bool {
        true
    }

    open spec fn decodes(&self, bytes: Seq<u8>, value: Vec<u8>) -> bool {
        value@ == bytes
    }

    fn from_buffer(&self, buf: &[u8]) -> (r: Result<Vec<u8>, IoError>) {
        Ok(copy_bytes(buf))
    }

    fn to_buffer(&self, value: &Vec<u8>) -> (r: Result<Vec<u8>, IoError>) {
        Ok(copy_bytes(value.as_slice()))
    }

    fn to_writer(&self, out: &mut Vec<u8>, value: &Vec<u8>) -> (r: Result<(), IoError>) {
        append_bytes(out, value.as_slice());
        Ok(())
    }
}

/// Relies on `String::from_utf8`: it accepts exactly the valid UTF-8 byte
/// sequences, and the string it returns holds the characters they encode.
#[verifier::external_body]
fn string_from_utf8(bytes: Vec<u8>) -> (r: Option<String>)
    ensures
        r is Some <==> valid_utf8(bytes@),
        r is Some ==> r->0@ == decode_utf8(bytes@),
{
    String::from_utf8(bytes).ok()
}

/// A format that treats a file as plain UTF-8 text.
#[derive(Clone, Copy, Debug, PartialEq, Eq, Structural)]
pub struct PlainUtf8;

impl FileFormat<String> for PlainUtf8 {
    type FormatError = IoError;

    open spec fn encoding(&self, value: String) -> Option<Seq<u8>> {
        Some(encode_utf8(value@))
    }

    open spec fn emitted(&self, value: String) -> Seq<u8> {
        encode_utf8(value@)
    }

    open spec fn decodable(&self, bytes: Seq<u8>) -> bool {
        valid_utf8(bytes)
    }

    open spec fn decodes(&self, bytes: Seq<u8>, value: String) -> bool {
        valid_utf8(bytes) && value@ == decode_utf8(bytes)
    }

    fn from_buffer(&self, buf: &[u8]) -> (r: Result<String, IoError>) {
        match string_from_utf8(copy_bytes(buf)) {
            Some(s) => Ok(s),
            None => Err(IoError::new(IoErrorKind::InvalidData, "stream did not contain valid UTF-8".to_string())),
        }
    }

    fn to_buffer(&self, value: &String) -> (r: Result<Vec<u8>, IoError>) {
        Ok(copy_bytes(value.as_str().as_bytes()))
    }

    fn to_writer(&self, out: &mut Vec<u8>, value: &String) -> (r: Result<(), IoError>) {
        append_bytes(out, value.as_str().as_bytes());
        Ok(())
    }
}

impl FileFormatUtf8<String> for PlainUtf8 {
    fn from_string_buffer(&self, buf: &str) -> (r: Result<String, IoError>) {
        let s = buf.to_owned();
        proof {
            assert(decode_utf8(encode_utf8(buf@)) == buf@);
        }
        Ok(s)
    }

    fn to_string_buffer(&self, value: &String) -> (r: Result<String, IoError>) {
        Ok(value.as_str().to_owned())
    }
}

/// Decoding the plain bytes of a buffer gives back exactly that buffer.
pub proof fn lemma_plain_bytes_round_trip(value: Vec<u8>)
    ensures
        PlainBytes.decodable(PlainBytes.encoding(value)->0),
        forall|w: Vec<u8>| #[trigger] PlainBytes.decodes(PlainBytes.encoding(value)->0, w) ==> w@ == value@,
{
}

/// Decoding the UTF-8 encoding of a string gives back its characters.
pub proof fn lemma_plain_utf8_round_trip(value: String)
    ensures
        PlainUtf8.decodable(PlainUtf8.encoding(value)->0),
        forall|w: String| #[trigger] PlainUtf8.decodes(PlainUtf8.encoding(value)->0, w) ==> w@ == value@,
{
}

} // verus!
