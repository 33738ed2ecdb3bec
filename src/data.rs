//! Data formats: a Base64 wrapper around another format, and the
//! configuration of the Bincode binary formats.
use vstd::prelude::*;
use base64::engine::general_purpose::{STANDARD, STANDARD_NO_PAD, URL_SAFE, URL_SAFE_NO_PAD};
use base64::engine::Engine;
use vstd::utf8::encode_utf8;
use crate::format::{append_bytes, copy_bytes, FileFormat, FileFormatUtf8};

verus! {

/// One of the general-purpose Base64 engines: an alphabet, and whether
/// padding is written (and then required when decoding) or left out (and
/// then refused).
#[derive(Clone, Copy, Debug, PartialEq, Eq, Structural)]
pub enum Base64Engine {
    /// The standard alphabet, padded.
    Standard,
    /// The standard alphabet, unpadded.
    StandardNoPad,
    /// The URL-safe alphabet, padded.
    UrlSafe,
    /// The URL-safe alphabet, unpadded.
    UrlSafeNoPad,
}

impl Base64Engine {
    /// Whether the engine uses the URL-safe alphabet.
    pub open spec fn url_safe(self) -> bool {
        self is UrlSafe || self is UrlSafeNoPad
    }

    /// Whether the engine pads its output.
    pub open spec fn padded(self) -> bool {
        self is Standard || self is UrlSafe
    }
}

/// The Base64 text of `data`, in bytes, under the given alphabet and padding.
pub uninterp spec fn base64_encoded(url_safe: bool, padded: bool, data: Seq<u8>) -> Seq<u8>;

/// The bytes that Base64 text `data` stands for, under the given alphabet and
/// padding, or `None` where it is not valid.
pub uninterp spec fn base64_decoded(url_safe: bool, padded: bool, data: Seq<u8>) -> Option<Seq<u8>>;

/// Relies on base64's `Engine::encode` with the general-purpose engines: the
/// text depends on the engine and the input alone.
#[verifier::external_body]
fn base64_encode(engine: Base64Engine, data: &[u8]) -> (r: String)
    ensures
        encode_utf8(r@) == base64_encoded(engine.url_safe(), engine.padded(), data@),
{
    let e = match engine {
        Base64Engine::Standard => STANDARD,
        Base64Engine::StandardNoPad => STANDARD_NO_PAD,
        Base64Engine::UrlSafe => URL_SAFE,
        Base64Engine::UrlSafeNoPad => URL_SAFE_NO_PAD,
    };
    e.encode(data)
}

/// Relies on base64's `Engine::decode` with the general-purpose engines: the
/// outcome depends on the engine and the input alone.
#[verifier::external_body]
fn base64_decode(engine: Base64Engine, data: &[u8]) -> (r: Option<Vec<u8>>)
    ensures
        r is Some <==> base64_decoded(engine.url_safe(), engine.padded(), data@) is Some,
        r is Some ==> r->0@ == base64_decoded(engine.url_safe(), engine.padded(), data@)->0,
{
    let e = match engine {
        Base64Engine::Standard => STANDARD,
        Base64Engine::StandardNoPad => STANDARD_NO_PAD,
        Base64Engine::UrlSafe => URL_SAFE,
        Base64Engine::UrlSafeNoPad => URL_SAFE_NO_PAD,
    };
    e.decode(data).ok()
}

/// A format whose output is written to the file as Base64 text.
#[derive(Clone, Copy, Debug, PartialEq, Eq, Structural)]
pub struct Base64<F> {
    /// The format whose output is encoded.
    pub format: F,
    /// The engine that encodes and decodes.
    pub engine: Base64Engine,
}

impl<F> Base64<F> {
    /// Creates a Base64 format with the given engine.
    pub fn new(format: F, engine: Base64Engine) -> (r: Self)
        ensures
            r == (Base64 { format, engine }),
    {
        Base64 { format, engine }
    }

    /// Creates a Base64 format with the standard, padded engine.
    pub fn with_standard(format: F) -> (r: Self)
        ensures
            r == (Base64 { format, engine: Base64Engine::Standard }),
    {
        Self::new(format, Base64Engine::Standard)
    }

    /// Creates a Base64 format with the standard, unpadded engine.
    pub fn with_standard_no_pad(format: F) -> (r: Self)
        ensures
            r == (Base64 { format, engine: Base64Engine::StandardNoPad }),
    {
        Self::new(format, Base64Engine::StandardNoPad)
    }

    /// Creates a Base64 format with the URL-safe, padded engine.
    pub fn with_url_safe(format: F) -> (r: Self)
        ensures
            r == (Base64 { format, engine: Base64Engine::UrlSafe }),
    {
        Self::new(format, Base64Engine::UrlSafe)
    }

    /// Creates a Base64 format with the URL-safe, unpadded engine.
    pub fn with_url_safe_no_pad(format: F) -> (r: Self)
        ensures
            r == (Base64 { format, engine: Base64Engine::UrlSafeNoPad }),
    {
        Self::new(format, Base64Engine::UrlSafeNoPad)
    }
}

/// An error of a Base64 format.
#[derive(Debug)]
pub enum Base64Error<FE> {
    /// The inner format failed.
    Format(FE),
    /// The file's contents are not valid Base64 text for the engine.
    Decode,
}

impl<T, F: FileFormat<T>> FileFormat<T> for Base64<F> {
    type FormatError = Base64Error<F::FormatError>;

    open spec fn encoding(&self, value: T) -> Option<Seq<u8>> {
        match self.format.encoding(value) {
            Some(b) => Some(base64_encoded(self.engine.url_safe(), self.engine.padded(), b)),
            None => None,
        }
    }

    open spec fn emitted(&self, value: T) -> Seq<u8> {
        match self.encoding(value) {
            Some(b) => b,
            None => Seq::empty(),
        }
    }

    open spec fn decodable(&self, bytes: Seq<u8>) -> bool {
        match base64_decoded(self.engine.url_safe(), self.engine.padded(), bytes) {
            Some(d) => self.format.decodable(d),
            None => false,
        }
    }

    open spec fn decodes(&self, bytes: Seq<u8>, value: T) -> bool {
        match base64_decoded(self.engine.url_safe(), self.engine.padded(), bytes) {
            Some(d) => self.format.decodes(d, value),
            None => false,
        }
    }

    fn from_buffer(&self, buf: &[u8]) -> (r: Result<T, Base64Error<F::FormatError>>) {
        match base64_decode(self.engine, buf) {
            Some(d) => match self.format.from_buffer(d.as_slice()) {
                Ok(v) => Ok(v),
                Err(e) => Err(Base64Error::Format(e)),
            },
            None => Err(Base64Error::Decode),
        }
    }

    fn to_buffer(&self, value: &T) -> (r: Result<Vec<u8>, Base64Error<F::FormatError>>) {
        match self.format.to_buffer(value) {
            Ok(b) => {
                let text = base64_encode(self.engine, b.as_slice());
                Ok(copy_bytes(text.as_str().as_bytes()))
            },
            Err(e) => Err(Base64Error::Format(e)),
        }
    }

    fn to_writer(&self, out: &mut Vec<u8>, value: &T) -> (r: Result<(), Base64Error<F::FormatError>>) {
        match self.to_buffer(value) {
            Ok(b) => {
                append_bytes(out, b.as_slice());
                Ok(())
            },
            Err(e) => {
                assert(out@ =~= old(out)@ + self.emitted(*value));
                Err(e)
            },
        }
    }
}

impl<T, F: FileFormat<T>> FileFormatUtf8<T> for Base64<F> {
    fn from_string_buffer(&self, buf: &str) -> (r: Result<T, Base64Error<F::FormatError>>) {
        self.from_buffer(buf.as_bytes())
    }

    fn to_string_buffer(&self, value: &T) -> (r: Result<String, Base64Error<F::FormatError>>) {
        match self.format.to_buffer(value) {
            Ok(b) => Ok(base64_encode(self.engine, b.as_slice())),
            Err(e) => Err(Base64Error::Format(e)),
        }
    }
}

/// Base64 keeps the round trip of the format inside it: where the engine
/// decodes its own text back to the bytes it encoded, the values that the
/// Base64 text of `value`'s encoding decodes to are those its encoding
/// decodes to.
pub proof fn lemma_base64_round_trip<T, F: FileFormat<T>>(format: Base64<F>, value: T)
    requires
        format.format.encoding(value) is Some,
        base64_decoded(
            format.engine.url_safe(),
            format.engine.padded(),
            base64_encoded(format.engine.url_safe(), format.engine.padded(), format.format.encoding(value)->0),
        ) == Some(format.format.encoding(value)->0),
    ensures
        format.encoding(value) is Some,
        format.decodable(format.encoding(value)->0) == format.format.decodable(format.format.encoding(value)->0),
        forall|w: T| #[trigger] format.decodes(format.encoding(value)->0, w)
            <==> format.format.decodes(format.format.encoding(value)->0, w),
{
}

/// The byte order in which Bincode writes integers.
#[derive(Clone, Copy, Debug, PartialEq, Eq, Structural)]
pub enum Endian {
    Little,
    Big,
}

/// How Bincode writes integers: in as few bytes as the value needs, or in the
/// type's full width.
#[derive(Clone, Copy, Debug, PartialEq, Eq, Structural)]
pub enum IntEncoding {
    Variable,
    Fixed,
}

/// The options of the Bincode encoding.
#[derive(Clone, Copy, Debug, PartialEq, Eq, Structural)]
pub struct Configuration {
    /// The byte order of integers.
    pub endian: Endian,
    /// How integers are written.
    pub int_encoding: IntEncoding,
    /// The most bytes a decoder accepts, if bounded.
    pub limit: Option<usize>,
}

impl Configuration {
    /// Bincode's standard options: little endian, variable-width integers,
    /// no limit.
    pub fn standard() -> (r: Configuration)
        ensures
            r == (Configuration { endian: Endian::Little, int_encoding: IntEncoding::Variable, limit: None }),
    {
        Configuration { endian: Endian::Little, int_encoding: IntEncoding::Variable, limit: None }
    }
}

/// The Bincode binary format, for types with Bincode's own encoding.
#[derive(Clone, Copy, Debug, PartialEq, Eq, Structural)]
pub struct Bincode {
    /// The options of the encoding.
    pub configuration: Configuration,
}

/// The Bincode binary format, for types with a serde encoding.
#[derive(Clone, Copy, Debug, PartialEq, Eq, Structural)]
pub struct BincodeSerde {
    /// The options of the encoding.
    pub configuration: Configuration,
}

impl Bincode {
    /// Creates the format with the given options.
    pub fn new(configuration: Configuration) -> (r: Self)
        ensures
            r.configuration == configuration,
    {
        Bincode { configuration }
    }

    /// Writes integers in big endian.
    pub fn with_big_endian(self) -> (r: Self)
        ensures
            r.configuration == (Configuration { endian: Endian::Big, ..self.configuration }),
    {
        Bincode { configuration: Configuration { endian: Endian::Big, ..self.configuration } }
    }

    /// Writes integers in little endian.
    pub fn with_little_endian(self) -> (r: Self)
        ensures
            r.configuration == (Configuration { endian: Endian::Little, ..self.configuration }),
    {
        Bincode { configuration: Configuration { endian: Endian::Little, ..self.configuration } }
    }

    /// Writes integers in as few bytes as their values need.
    pub fn with_variable_int_encoding(self) -> (r: Self)
        ensures
            r.configuration == (Configuration { int_encoding: IntEncoding::Variable, ..self.configuration }),
    {
        Bincode { configuration: Configuration { int_encoding: IntEncoding::Variable, ..self.configuration } }
    }

    /// Writes integers in their type's full width.
    pub fn with_fixed_int_encoding(self) -> (r: Self)
        ensures
            r.configuration == (Configuration { int_encoding: IntEncoding::Fixed, ..self.configuration }),
    {
        Bincode { configuration: Configuration { int_encoding: IntEncoding::Fixed, ..self.configuration } }
    }

    /// Bounds the bytes a decoder accepts by `N`.
    pub fn with_limit<const N: usize>(self) -> (r: Self)
        ensures
            r.configuration == (Configuration { limit: Some(N), ..self.configuration }),
    {
        Bincode { configuration: Configuration { limit: Some(N), ..self.configuration } }
    }

    /// Removes any bound on the bytes a decoder accepts.
    pub fn with_no_limit(self) -> (r: Self)
        ensures
            r.configuration == (Configuration { limit: None, ..self.configuration }),
    {
        Bincode { configuration: Configuration { limit: None, ..self.configuration } }
    }
}

impl Default for Bincode {
    fn default() -> (r: Self)
        ensures
            r.configuration == (Configuration { endian: Endian::Little, int_encoding: IntEncoding::Variable, limit: None }),
    {
        Bincode { configuration: Configuration::standard() }
    }
}

impl BincodeSerde {
    /// Creates the format with the given options.
    pub fn new(configuration: Configuration) -> (r: Self)
        ensures
            r.configuration == configuration,
    {
        BincodeSerde { configuration }
    }

    /// Writes integers in big endian.
    pub fn with_big_endian(self) -> (r: Self)
        ensures
            r.configuration == (Configuration { endian: Endian::Big, ..self.configuration }),
    {
        BincodeSerde { configuration: Configuration { endian: Endian::Big, ..self.configuration } }
    }

    /// Writes integers in little endian.
    pub fn with_little_endian(self) -> (r: Self)
        ensures
            r.configuration == (Configuration { endian: Endian::Little, ..self.configuration }),
    {
        BincodeSerde { configuration: Configuration { endian: Endian::Little, ..self.configuration } }
    }

    /// Writes integers in as few bytes as their values need.
    pub fn with_variable_int_encoding(self) -> (r: Self)
        ensures
            r.configuration == (Configuration { int_encoding: IntEncoding::Variable, ..self.configuration }),
    {
        BincodeSerde { configuration: Configuration { int_encoding: IntEncoding::Variable, ..self.configuration } }
    }

    /// Writes integers in their type's full width.
    pub fn with_fixed_int_encoding(self) -> (r: Self)
        ensures
            r.configuration == (Configuration { int_encoding: IntEncoding::Fixed, ..self.configuration }),
    {
        BincodeSerde { configuration: Configuration { int_encoding: IntEncoding::Fixed, ..self.configuration } }
    }

    /// Bounds the bytes a decoder accepts by `N`.
    pub fn with_limit<const N: usize>(self) -> (r: Self)
        ensures
            r.configuration == (Configuration { limit: Some(N), ..self.configuration }),
    {
        BincodeSerde { configuration: Configuration { limit: Some(N), ..self.configuration } }
    }

    /// Removes any bound on the bytes a decoder accepts.
    pub fn with_no_limit(self) -> (r: Self)
        ensures
            r.configuration == (Configuration { limit: None, ..self.configuration }),
    {
        BincodeSerde { configuration: Configuration { limit: None, ..self.configuration } }
    }
}

impl Default for BincodeSerde {
    fn default() -> (r: Self)
        ensures
            r.configuration == (Configuration { endian: Endian::Little, int_encoding: IntEncoding::Variable, limit: None }),
    {
        BincodeSerde { configuration: Configuration::standard() }
    }
}

} // verus!
