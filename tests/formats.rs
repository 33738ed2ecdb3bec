use singlefile::compression::{BZip2, Compressed, CompressedError, Deflate, Gz, Xz, ZLib};
use singlefile::data::{Base64, Base64Engine, Base64Error, Bincode, BincodeSerde, Configuration, Endian, IntEncoding};
use singlefile::format::{PlainBytes, PlainUtf8};
use singlefile::{FileFormat, FileFormatUtf8};

#[test]
fn plain_bytes_round_trip() {
    let v: Vec<u8> = vec![0, 1, 2, 255];
    let b = PlainBytes.to_buffer(&v).unwrap();
    assert_eq!(b, v);
    assert_eq!(PlainBytes.from_buffer(&b).unwrap(), v);
    let mut out = vec![9u8];
    PlainBytes.to_writer(&mut out, &v).unwrap();
    assert_eq!(out, vec![9, 0, 1, 2, 255]);
}

#[test]
fn plain_utf8_round_trip() {
    let s = String::from("héllo wörld");
    let b = PlainUtf8.to_buffer(&s).unwrap();
    assert_eq!(b, s.as_bytes().to_vec());
    assert_eq!(PlainUtf8.from_buffer(&b).unwrap(), s);
    assert_eq!(PlainUtf8.to_string_buffer(&s).unwrap(), s);
    assert_eq!(PlainUtf8.from_string_buffer("abc").unwrap(), "abc");
}

#[test]
fn plain_utf8_rejects_invalid_bytes() {
    let r: Result<String, _> = PlainUtf8.from_buffer(&[0xff, 0xfe]);
    let e = r.unwrap_err();
    assert_eq!(e.kind, singlefile::IoErrorKind::InvalidData);
}

fn round_trip_compressed<C: singlefile::compression::CompressionFormat + Copy>(c: C) {
    let data: Vec<u8> = b"aaaaaaaaaaaaaaaaaaaaaaaaaaaaaaaaaaaaaaaaaaaaaaaaaaaaaaaaaaaaaaaaaaaaaaaaaaaaaaaa".to_vec();
    let format = Compressed::with_level(PlainBytes, c, 6);
    let packed = format.to_buffer(&data).unwrap();
    assert_ne!(packed, data);
    let unpacked: Vec<u8> = format.from_buffer(&packed).unwrap();
    assert_eq!(unpacked, data);
}

#[test]
fn deflate_round_trip() {
    round_trip_compressed(Deflate);
}

#[test]
fn gzip_round_trip() {
    round_trip_compressed(Gz);
}

#[test]
fn zlib_round_trip() {
    round_trip_compressed(ZLib);
}

#[test]
fn bzip2_round_trip() {
    round_trip_compressed(BZip2);
}

#[test]
fn xz_round_trip() {
    round_trip_compressed(Xz);
}

#[test]
fn compressed_presets() {
    assert_eq!(Compressed::new(PlainBytes, Deflate).level, 6);
    assert_eq!(Compressed::new_fast_compression(PlainBytes, Gz).level, 1);
    assert_eq!(Compressed::new_best_compression(PlainBytes, Xz).level, 9);
    assert_eq!(Compressed::with_level(PlainBytes, ZLib, 3).level, 3);
}

#[test]
fn compressed_rejects_invalid_level() {
    let format = Compressed::with_level(PlainBytes, BZip2, 0);
    let r = format.to_buffer(&vec![1u8, 2, 3]);
    assert!(matches!(r, Err(CompressedError::InvalidLevel(0))));
    let format = Compressed::with_level(PlainBytes, Deflate, 10);
    assert!(matches!(format.to_buffer(&vec![1u8]), Err(CompressedError::InvalidLevel(10))));
}

#[test]
fn compressed_rejects_garbage() {
    let format = Compressed::new(PlainBytes, Gz);
    let r: Result<Vec<u8>, _> = format.from_buffer(b"not a gzip stream");
    assert!(matches!(r, Err(CompressedError::Decompression)));
}

#[test]
fn base64_engines() {
    let v: Vec<u8> = b"hello".to_vec();
    assert_eq!(Base64::with_standard(PlainBytes).to_buffer(&v).unwrap(), b"aGVsbG8=".to_vec());
    assert_eq!(Base64::with_standard_no_pad(PlainBytes).to_buffer(&v).unwrap(), b"aGVsbG8".to_vec());
    let w: Vec<u8> = vec![0xfb, 0xff];
    assert_eq!(Base64::with_standard(PlainBytes).to_buffer(&w).unwrap(), b"+/8=".to_vec());
    assert_eq!(Base64::with_url_safe(PlainBytes).to_buffer(&w).unwrap(), b"-_8=".to_vec());
    assert_eq!(Base64::with_url_safe_no_pad(PlainBytes).to_buffer(&w).unwrap(), b"-_8".to_vec());
    assert_eq!(Base64::new(PlainBytes, Base64Engine::UrlSafe).engine, Base64Engine::UrlSafe);
}

#[test]
fn base64_round_trip_and_errors() {
    let format = Base64::with_standard(PlainUtf8);
    let s = String::from("some text");
    let b = format.to_buffer(&s).unwrap();
    assert_eq!(format.from_buffer(&b).unwrap(), s);
    let bad: Result<String, _> = format.from_buffer(b"***");
    assert!(matches!(bad, Err(Base64Error::Decode)));
    let padded_in_no_pad: Result<String, _> = Base64::with_standard_no_pad(PlainUtf8).from_buffer(b"aGVsbG8=");
    assert!(padded_in_no_pad.is_err());
    let not_utf8: Result<String, _> = format.from_buffer(b"//8=");
    assert!(matches!(not_utf8, Err(Base64Error::Format(_))));
}

#[test]
fn bincode_builders() {
    let b = Bincode::default();
    assert_eq!(b.configuration, Configuration::standard());
    let b = b.with_big_endian().with_fixed_int_encoding().with_limit::<64>();
    assert_eq!(b.configuration.endian, Endian::Big);
    assert_eq!(b.configuration.int_encoding, IntEncoding::Fixed);
    assert_eq!(b.configuration.limit, Some(64));
    let b = b.with_little_endian().with_variable_int_encoding().with_no_limit();
    assert_eq!(b, Bincode::new(Configuration::standard()));
    let s = BincodeSerde::new(Configuration::standard()).with_limit::<8>();
    assert_eq!(s.configuration.limit, Some(8));
    assert_eq!(s.with_no_limit(), BincodeSerde::default());
    assert_eq!(BincodeSerde::default().with_big_endian().configuration.endian, Endian::Big);
    assert_eq!(BincodeSerde::default().with_fixed_int_encoding().with_variable_int_encoding(), BincodeSerde::default());
    assert_eq!(BincodeSerde::default().with_little_endian(), BincodeSerde::default());
}

#[test]
fn base64_text_interface() {
    let format = Base64::with_url_safe_no_pad(PlainBytes);
    let v: Vec<u8> = vec![0xfb, 0xff, 0x00];
    let text = format.to_string_buffer(&v).unwrap();
    assert_eq!(text, "-_8A");
    let back: Vec<u8> = format.from_string_buffer(&text).unwrap();
    assert_eq!(back, v);
    let bad: Result<Vec<u8>, _> = format.from_string_buffer("-_8A==");
    assert!(matches!(bad, Err(Base64Error::Decode)));
}
