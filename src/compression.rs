//! Compression: a format that compresses what another format emits before it
//! reaches the file, and decompresses the file before the other format reads
//! it.
use vstd::prelude::*;
use std::io::{Read, Write};
use crate::format::{append_bytes, FileFormat};

verus! {

/// A lossless compression algorithm over byte buffers.
///
/// Its model is which levels it accepts, what it makes of bytes at a level
/// (`None` where it fails), and what it makes of compressed bytes.
pub trait CompressionFormat {
    /// Whether the algorithm accepts `level`.
    spec fn valid_level(&self, level: u32) -> bool;

    /// The compression of `data` at `level`.
    spec fn compressed(&self, level: u32, data: Seq<u8>) -> Option<Seq<u8>>;

    /// The decompression of `data`, or `None` where it is no valid stream.
    spec fn decompressed(&self, data: Seq<u8>) -> Option<Seq<u8>>;

    /// Returns whether the algorithm accepts `level`.
    fn accepts_level(&self, level: u32) -> (r: bool)
        ensures
            r == self.valid_level(level),
    ;

    /// Compresses `data` at `level`.
    fn compress(&self, level: u32, data: &[u8]) -> (r: Option<Vec<u8>>)
        requires
            self.valid_level(level),
        ensures
            r is Some <==> self.compressed(level, data@) is Some,
            r is Some ==> r->0@ == self.compressed(level, data@)->0,
    ;

    /// Decompresses `data`.
    fn decompress(&self, data: &[u8]) -> (r: Option<Vec<u8>>)
        ensures
            r is Some <==> self.decompressed(data@) is Some,
            r is Some ==> r->0@ == self.decompressed(data@)->0,
    ;
}

/// The preset levels of a compression algorithm.
pub trait CompressionFormatLevels: CompressionFormat {
    /// The level for no compression.
    spec fn spec_level_none() -> u32;

    /// The level for fast compression.
    spec fn spec_level_fast() -> u32;

    /// The level for the best compression.
    spec fn spec_level_best() -> u32;

    /// The default level.
    spec fn spec_level_default() -> u32;

    /// Returns the level for no compression.
    fn level_none() -> (r: u32)
        ensures
            r == Self::spec_level_none(),
    ;

    /// Returns the level for fast compression.
    fn level_fast() -> (r: u32)
        ensures
            r == Self::spec_level_fast(),
    ;

    /// Returns the level for the best compression.
    fn level_best() -> (r: u32)
        ensures
            r == Self::spec_level_best(),
    ;

    /// Returns the default level.
    fn level_default() -> (r: u32)
        ensures
            r == Self::spec_level_default(),
    ;
}

/// The DEFLATE compression of `data` at `level`.
pub uninterp spec fn deflate_compressed(level: u32, data: Seq<u8>) -> Option<Seq<u8>>;

/// The DEFLATE decompression of `data`.
pub uninterp spec fn deflate_decompressed(data: Seq<u8>) -> Option<Seq<u8>>;

/// Relies on flate2's `write::DeflateEncoder`: what it emits depends on the level
/// and the input alone.
#[verifier::external_body]
fn deflate_compress(level: u32, data: &[u8]) -> (r: Option<Vec<u8>>)
    requires
        level <= 9,
    ensures
        r is Some <==> deflate_compressed(level, data@) is Some,
        r is Some ==> r->0@ == deflate_compressed(level, data@)->0,
{
    let mut encoder = flate2::write::DeflateEncoder::new(Vec::new(), flate2::Compression::new(level));
    match encoder.write_all(data) {
        Ok(()) => encoder.finish().ok(),
        Err(_) => None,
    }
}

/// Relies on `read::DeflateDecoder`: what it reads out depends on the
/// input alone.
#[verifier::external_body]
fn deflate_decompress(data: &[u8]) -> (r: Option<Vec<u8>>)
    ensures
        r is Some <==> deflate_decompressed(data@) is Some,
        r is Some ==> r->0@ == deflate_decompressed(data@)->0,
{
    let mut decoder = flate2::read::DeflateDecoder::new(data);
    let mut out: Vec<u8> = Vec::new();
    match decoder.read_to_end(&mut out) {
        Ok(_) => Some(out),
        Err(_) => None,
    }
}

/// The DEFLATE compression algorithm.
#[derive(Clone, Copy, Debug, Default, PartialEq, Eq, Structural)]
pub struct Deflate;

impl CompressionFormat for Deflate {
    open spec fn valid_level(&self, level: u32) -> bool {
        level <= 9
    }

    open spec fn compressed(&self, level: u32, data: Seq<u8>) -> Option<Seq<u8>> {
        deflate_compressed(level, data)
    }

    open spec fn decompressed(&self, data: Seq<u8>) -> Option<Seq<u8>> {
        deflate_decompressed(data)
    }

    fn accepts_level(&self, level: u32) -> (r: bool) {
        level <= 9
    }

    fn compress(&self, level: u32, data: &[u8]) -> (r: Option<Vec<u8>>) {
        deflate_compress(level, data)
    }

    fn decompress(&self, data: &[u8]) -> (r: Option<Vec<u8>>) {
        deflate_decompress(data)
    }
}

impl CompressionFormatLevels for Deflate {
    open spec fn spec_level_none() -> u32 {
        0
    }

    open spec fn spec_level_fast() -> u32 {
        1
    }

    open spec fn spec_level_best() -> u32 {
        9
    }

    open spec fn spec_level_default() -> u32 {
        6
    }

    fn level_none() -> (r: u32) {
        0
    }

    fn level_fast() -> (r: u32) {
        1
    }

    fn level_best() -> (r: u32) {
        9
    }

    fn level_default() -> (r: u32) {
        6
    }
}

/// The gzip compression of `data` at `level`.
pub uninterp spec fn gzip_compressed(level: u32, data: Seq<u8>) -> Option<Seq<u8>>;

/// The gzip decompression of `data`.
pub uninterp spec fn gzip_decompressed(data: Seq<u8>) -> Option<Seq<u8>>;

/// Relies on flate2's `write::GzEncoder`: what it emits depends on the level
/// and the input alone.
#[verifier::external_body]
fn gzip_compress(level: u32, data: &[u8]) -> (r: Option<Vec<u8>>)
    requires
        level <= 9,
    ensures
        r is Some <==> gzip_compressed(level, data@) is Some,
        r is Some ==> r->0@ == gzip_compressed(level, data@)->0,
{
    let mut encoder = flate2::write::GzEncoder::new(Vec::new(), flate2::Compression::new(level));
    match encoder.write_all(data) {
        Ok(()) => encoder.finish().ok(),
        Err(_) => None,
    }
}

/// Relies on `read::GzDecoder`: what it reads out depends on the
/// input alone.
#[verifier::external_body]
fn gzip_decompress(data: &[u8]) -> (r: Option<Vec<u8>>)
    ensures
        r is Some <==> gzip_decompressed(data@) is Some,
        r is Some ==> r->0@ == gzip_decompressed(data@)->0,
{
    let mut decoder = flate2::read::GzDecoder::new(data);
    let mut out: Vec<u8> = Vec::new();
    match decoder.read_to_end(&mut out) {
        Ok(_) => Some(out),
        Err(_) => None,
    }
}

/// The gzip compression algorithm.
#[derive(Clone, Copy, Debug, Default, PartialEq, Eq, Structural)]
pub struct Gz;

impl CompressionFormat for Gz {
    open spec fn valid_level(&self, level: u32) -> bool {
        level <= 9
    }

    open spec fn compressed(&self, level: u32, data: Seq<u8>) -> Option<Seq<u8>> {
        gzip_compressed(level, data)
    }

    open spec fn decompressed(&self, data: Seq<u8>) -> Option<Seq<u8>> {
        gzip_decompressed(data)
    }

    fn accepts_level(&self, level: u32) -> (r: bool) {
        level <= 9
    }

    fn compress(&self, level: u32, data: &[u8]) -> (r: Option<Vec<u8>>) {
        gzip_compress(level, data)
    }

    fn decompress(&self, data: &[u8]) -> (r: Option<Vec<u8>>) {
        gzip_decompress(data)
    }
}

impl CompressionFormatLevels for Gz {
    open spec fn spec_level_none() -> u32 {
        0
    }

    open spec fn spec_level_fast() -> u32 {
        1
    }

    open spec fn spec_level_best() -> u32 {
        9
    }

    open spec fn spec_level_default() -> u32 {
        6
    }

    fn level_none() -> (r: u32) {
        0
    }

    fn level_fast() -> (r: u32) {
        1
    }

    fn level_best() -> (r: u32) {
        9
    }

    fn level_default() -> (r: u32) {
        6
    }
}

/// The zlib compression of `data` at `level`.
pub uninterp spec fn zlib_compressed(level: u32, data: Seq<u8>) -> Option<Seq<u8>>;

/// The zlib decompression of `data`.
pub uninterp spec fn zlib_decompressed(data: Seq<u8>) -> Option<Seq<u8>>;

/// Relies on flate2's `write::ZlibEncoder`: what it emits depends on the level
/// and the input alone.
#[verifier::external_body]
fn zlib_compress(level: u32, data: &[u8]) -> (r: Option<Vec<u8>>)
    requires
        level <= 9,
    ensures
        r is Some <==> zlib_compressed(level, data@) is Some,
        r is Some ==> r->0@ == zlib_compressed(level, data@)->0,
{
    let mut encoder = flate2::write::ZlibEncoder::new(Vec::new(), flate2::Compression::new(level));
    match encoder.write_all(data) {
        Ok(()) => encoder.finish().ok(),
        Err(_) => None,
    }
}

/// Relies on `read::ZlibDecoder`: what it reads out depends on the
/// input alone.
#[verifier::external_body]
fn zlib_decompress(data: &[u8]) -> (r: Option<Vec<u8>>)
    ensures
        r is Some <==> zlib_decompressed(data@) is Some,
        r is Some ==> r->0@ == zlib_decompressed(data@)->0,
{
    let mut decoder = flate2::read::ZlibDecoder::new(data);
    let mut out: Vec<u8> = Vec::new();
    match decoder.read_to_end(&mut out) {
        Ok(_) => Some(out),
        Err(_) => None,
    }
}

/// The zlib compression algorithm.
#[derive(Clone, Copy, Debug, Default, PartialEq, Eq, Structural)]
pub struct ZLib;

impl CompressionFormat for ZLib {
    open spec fn valid_level(&self, level: u32) -> bool {
        level <= 9
    }

    open spec fn compressed(&self, level: u32, data: Seq<u8>) -> Option<Seq<u8>> {
        zlib_compressed(level, data)
    }

    open spec fn decompressed(&self, data: Seq<u8>) -> Option<Seq<u8>> {
        zlib_decompressed(data)
    }

    fn accepts_level(&self, level: u32) -> (r: bool) {
        level <= 9
    }

    fn compress(&self, level: u32, data: &[u8]) -> (r: Option<Vec<u8>>) {
        zlib_compress(level, data)
    }

    fn decompress(&self, data: &[u8]) -> (r: Option<Vec<u8>>) {
        zlib_decompress(data)
    }
}

impl CompressionFormatLevels for ZLib {
    open spec fn spec_level_none() -> u32 {
        0
    }

    open spec fn spec_level_fast() -> u32 {
        1
    }

    open spec fn spec_level_best() -> u32 {
        9
    }

    open spec fn spec_level_default() -> u32 {
        6
    }

    fn level_none() -> (r: u32) {
        0
    }

    fn level_fast() -> (r: u32) {
        1
    }

    fn level_best() -> (r: u32) {
        9
    }

    fn level_default() -> (r: u32) {
        6
    }
}

/// The bzip2 compression of `data` at `level`.
pub uninterp spec fn bzip2_compressed(level: u32, data: Seq<u8>) -> Option<Seq<u8>>;

/// The bzip2 decompression of `data`.
pub uninterp spec fn bzip2_decompressed(data: Seq<u8>) -> Option<Seq<u8>>;

/// Relies on bzip2's `write::BzEncoder`: what it emits depends on the level
/// and the input alone.
#[verifier::external_body]
fn bzip2_compress(level: u32, data: &[u8]) -> (r: Option<Vec<u8>>)
    requires
        1 <= level && level <= 9,
    ensures
        r is Some <==> bzip2_compressed(level, data@) is Some,
        r is Some ==> r->0@ == bzip2_compressed(level, data@)->0,
{
    let mut encoder = bzip2::write::BzEncoder::new(Vec::new(), bzip2::Compression::new(level));
    match encoder.write_all(data) {
        Ok(()) => encoder.finish().ok(),
        Err(_) => None,
    }
}

/// Relies on `read::BzDecoder`: what it reads out depends on the
/// input alone.
#[verifier::external_body]
fn bzip2_decompress(data: &[u8]) -> (r: Option<Vec<u8>>)
    ensures
        r is Some <==> bzip2_decompressed(data@) is Some,
        r is Some ==> r->0@ == bzip2_decompressed(data@)->0,
{
    let mut decoder = bzip2::read::BzDecoder::new(data);
    let mut out: Vec<u8> = Vec::new();
    match decoder.read_to_end(&mut out) {
        Ok(_) => Some(out),
        Err(_) => None,
    }
}

/// The bzip2 compression algorithm.
#[derive(Clone, Copy, Debug, Default, PartialEq, Eq, Structural)]
pub struct BZip2;

impl CompressionFormat for BZip2 {
    open spec fn valid_level(&self, level: u32) -> bool {
        1 <= level && level <= 9
    }

    open spec fn compressed(&self, level: u32, data: Seq<u8>) -> Option<Seq<u8>> {
        bzip2_compressed(level, data)
    }

    open spec fn decompressed(&self, data: Seq<u8>) -> Option<Seq<u8>> {
        bzip2_decompressed(data)
    }

    fn accepts_level(&self, level: u32) -> (r: bool) {
        1 <= level && level <= 9
    }

    fn compress(&self, level: u32, data: &[u8]) -> (r: Option<Vec<u8>>) {
        bzip2_compress(level, data)
    }

    fn decompress(&self, data: &[u8]) -> (r: Option<Vec<u8>>) {
        bzip2_decompress(data)
    }
}

impl CompressionFormatLevels for BZip2 {
    open spec fn spec_level_none() -> u32 {
        0
    }

    open spec fn spec_level_fast() -> u32 {
        1
    }

    open spec fn spec_level_best() -> u32 {
        9
    }

    open spec fn spec_level_default() -> u32 {
        6
    }

    fn level_none() -> (r: u32) {
        0
    }

    fn level_fast() -> (r: u32) {
        1
    }

    fn level_best() -> (r: u32) {
        9
    }

    fn level_default() -> (r: u32) {
        6
    }
}

/// The LZMA/XZ compression of `data` at `level`.
pub uninterp spec fn xz_compressed(level: u32, data: Seq<u8>) -> Option<Seq<u8>>;

/// The LZMA/XZ decompression of `data`.
pub uninterp spec fn xz_decompressed(data: Seq<u8>) -> Option<Seq<u8>>;

/// Relies on xz2's `write::XzEncoder`: what it emits depends on the level
/// and the input alone.
#[verifier::external_body]
fn xz_compress(level: u32, data: &[u8]) -> (r: Option<Vec<u8>>)
    requires
        level <= 9,
    ensures
        r is Some <==> xz_compressed(level, data@) is Some,
        r is Some ==> r->0@ == xz_compressed(level, data@)->0,
{
    let mut encoder = xz2::write::XzEncoder::new(Vec::new(), level);
    match encoder.write_all(data) {
        Ok(()) => encoder.finish().ok(),
        Err(_) => None,
    }
}

/// Relies on `read::XzDecoder`: what it reads out depends on the
/// input alone.
#[verifier::external_body]
fn xz_decompress(data: &[u8]) -> (r: Option<Vec<u8>>)
    ensures
        r is Some <==> xz_decompressed(data@) is Some,
        r is Some ==> r->0@ == xz_decompressed(data@)->0,
{
    let mut decoder = xz2::read::XzDecoder::new(data);
    let mut out: Vec<u8> = Vec::new();
    match decoder.read_to_end(&mut out) {
        Ok(_) => Some(out),
        Err(_) => None,
    }
}

/// The LZMA/XZ compression algorithm.
#[derive(Clone, Copy, Debug, Default, PartialEq, Eq, Structural)]
pub struct Xz;

impl CompressionFormat for Xz {
    open spec fn valid_level(&self, level: u32) -> bool {
        level <= 9
    }

    open spec fn compressed(&self, level: u32, data: Seq<u8>) -> Option<Seq<u8>> {
        xz_compressed(level, data)
    }

    open spec fn decompressed(&self, data: Seq<u8>) -> Option<Seq<u8>> {
        xz_decompressed(data)
    }

    fn accepts_level(&self, level: u32) -> (r: bool) {
        level <= 9
    }

    fn compress(&self, level: u32, data: &[u8]) -> (r: Option<Vec<u8>>) {
        xz_compress(level, data)
    }

    fn decompress(&self, data: &[u8]) -> (r: Option<Vec<u8>>) {
        xz_decompress(data)
    }
}

impl CompressionFormatLevels for Xz {
    open spec fn spec_level_none() -> u32 {
        0
    }

    open spec fn spec_level_fast() -> u32 {
        1
    }

    open spec fn spec_level_best() -> u32 {
        9
    }

    open spec fn spec_level_default() -> u32 {
        6
    }

    fn level_none() -> (r: u32) {
        0
    }

    fn level_fast() -> (r: u32) {
        1
    }

    fn level_best() -> (r: u32) {
        9
    }

    fn level_default() -> (r: u32) {
        6
    }
}

/// A format whose output is compressed before it reaches the file.
#[derive(Clone, Copy, Debug, PartialEq, Eq, Structural)]
pub struct Compressed<C, F> {
    /// The format whose output is compressed.
    pub format: F,
    /// The compression algorithm.
    pub compression: C,
    /// The compression level; its meaning depends on the algorithm.
    pub level: u32,
}

impl<C, F> Compressed<C, F> {
    /// Creates a compressed format at the given level.
    pub fn with_level(format: F, compression: C, level: u32) -> (r: Self)
        ensures
            r == (Compressed { format, compression, level }),
    {
        Compressed { format, compression, level }
    }
}

impl<C: CompressionFormatLevels, F> Compressed<C, F> {
    /// Creates a compressed format at the algorithm's default level.
    pub fn new(format: F, compression: C) -> (r: Self)
        ensures
            r == (Compressed { format, compression, level: C::spec_level_default() }),
    {
        Compressed::with_level(format, compression, C::level_default())
    }

    /// Creates a compressed format at the algorithm's fast level.
    pub fn new_fast_compression(format: F, compression: C) -> (r: Self)
        ensures
            r == (Compressed { format, compression, level: C::spec_level_fast() }),
    {
        Compressed::with_level(format, compression, C::level_fast())
    }

    /// Creates a compressed format at the algorithm's best level.
    pub fn new_best_compression(format: F, compression: C) -> (r: Self)
        ensures
            r == (Compressed { format, compression, level: C::spec_level_best() }),
    {
        Compressed::with_level(format, compression, C::level_best())
    }
}

/// An error of a compressed format.
#[derive(Debug)]
pub enum CompressedError<FE> {
    /// The inner format failed.
    Format(FE),
    /// The algorithm does not accept the configured level.
    InvalidLevel(u32),
    /// The algorithm failed to compress.
    Compression,
    /// The file's contents are no valid compressed stream.
    Decompression,
}

impl<T, C: CompressionFormat, F: FileFormat<T>> FileFormat<T> for Compressed<C, F> {
    type FormatError = CompressedError<F::FormatError>;

    open spec fn encoding(&self, value: T) -> Option<Seq<u8>> {
        if !self.compression.valid_level(self.level) {
            None
        } else {
            match self.format.encoding(value) {
                Some(b) => self.compression.compressed(self.level, b),
                None => None,
            }
        }
    }

    open spec fn emitted(&self, value: T) -> Seq<u8> {
        match self.encoding(value) {
            Some(b) => b,
            None => Seq::empty(),
        }
    }

    open spec fn decodable(&self, bytes: Seq<u8>) -> bool {
        match self.compression.decompressed(bytes) {
            Some(d) => self.format.decodable(d),
            None => false,
        }
    }

    open spec fn decodes(&self, bytes: Seq<u8>, value: T) -> bool {
        match self.compression.decompressed(bytes) {
            Some(d) => self.format.decodes(d, value),
            None => false,
        }
    }

    fn from_buffer(&self, buf: &[u8]) -> (r: Result<T, CompressedError<F::FormatError>>) {
        match self.compression.decompress(buf) {
            Some(d) => match self.format.from_buffer(d.as_slice()) {
                Ok(v) => Ok(v),
                Err(e) => Err(CompressedError::Format(e)),
            },
            None => Err(CompressedError::Decompression),
        }
    }

    fn to_buffer(&self, value: &T) -> (r: Result<Vec<u8>, CompressedError<F::FormatError>>) {
        if !self.compression.accepts_level(self.level) {
            return Err(CompressedError::InvalidLevel(self.level));
        }
        match self.format.to_buffer(value) {
            Ok(b) => match self.compression.compress(self.level, b.as_slice()) {
                Some(c) => Ok(c),
                None => Err(CompressedError::Compression),
            },
            Err(e) => Err(CompressedError::Format(e)),
        }
    }

    fn to_writer(&self, out: &mut Vec<u8>, value: &T) -> (r: Result<(), CompressedError<F::FormatError>>) {
        match self.to_buffer(value) {
            Ok(b) => {
                append_bytes(out, b.as_slice());
                Ok(())
            },
            Err(e) => {
                assert(out@ =~= old(out)@ + self.emitted(*value));
                Err(e)
            },
        }
    }
}

/// Compression keeps the round trip of the format inside it: where the
/// algorithm decompresses its own output back to its input, the values that
/// the compressed encoding of `value` decodes to are those the inner
/// encoding decodes to.
pub proof fn lemma_compressed_round_trip<T, C: CompressionFormat, F: FileFormat<T>>(format: Compressed<C, F>, value: T)
    requires
        format.compression.valid_level(format.level),
        format.format.encoding(value) is Some,
        format.compression.compressed(format.level, format.format.encoding(value)->0) is Some,
        format.compression.decompressed(format.compression.compressed(format.level, format.format.encoding(value)->0)->0)
            == Some(format.format.encoding(value)->0),
    ensures
        format.encoding(value) is Some,
        format.decodable(format.encoding(value)->0) == format.format.decodable(format.format.encoding(value)->0),
        forall|w: T| #[trigger] format.decodes(format.encoding(value)->0, w)
            <==> format.format.decodes(format.format.encoding(value)->0, w),
{
}

} // verus!
