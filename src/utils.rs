//! One-shot reading and writing of a value without a manager.
use vstd::prelude::*;
use crate::error::Error;
use crate::format::FileFormat;

verus! {

/// Reads a value from the whole contents of a file.
pub fn read<T, Format: FileFormat<T>>(contents: &[u8], format: Format) -> (r: Result<T, Error<Format::FormatError>>)
    ensures
        r is Ok <==> format.decodable(contents@),
        r is Ok ==> format.decodes(contents@, r->Ok_0),
        r is Err ==> r->Err_0 is Format,
{
    match format.from_buffer(contents) {
        Ok(v) => Ok(v),
        Err(e) => Err(Error::Format(e)),
    }
}

/// Writes a value to a newly created (or truncated) file: returns the bytes
/// the file is to hold, which on failure is what the encoder emitted before
/// failing, and the outcome.
pub fn write<T, Format: FileFormat<T>>(format: Format, value: &T) -> (r: (Vec<u8>, Result<(), Error<Format::FormatError>>))
    ensures
        r.0@ == format.emitted(*value),
        r.1 is Ok <==> format.encoding(*value) is Some,
        r.1 is Ok ==> format.encoding(*value) == Some(r.0@),
        r.1 is Err ==> r.1->Err_0 is Format,
{
    let mut out: Vec<u8> = Vec::new();
    let res = format.to_writer(&mut out, value);
    assert(out@ =~= format.emitted(*value));
    match res {
        Ok(()) => (out, Ok(())),
        Err(e) => (out, Err(Error::Format(e))),
    }
}

} // verus!
