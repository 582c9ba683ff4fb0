//! From a batch to the body of a request: one JSON array, gzip-compressed.
use crate::json::{fields_of, json_encoding, to_json_bytes, Log};
use vstd::prelude::*;

verus! {

/// `std::io::Error`, opaque to the verifier.
#[verifier::external_type_specification]
#[verifier::external_body]
pub struct ExIoError(std::io::Error);

/// Why a batch has no request body.
#[derive(Clone, Copy, Debug, PartialEq, Eq, Structural)]
pub enum CompressError {
    /// The records could not be written as JSON.
    Serialize,
    /// The JSON could not be compressed. The compressor writes into memory,
    /// where no write fails, so this does not come about.
    Encode,
}

/// The number that four bytes spell, the lowest byte first.
pub open spec fn le_u32(bytes: Seq<u8>) -> int
    recommends
        bytes.len() == 4,
{
    bytes[0] + 0x100 * bytes[1] + 0x1_0000 * bytes[2] + 0x100_0000 * bytes[3]
}

/// Whether `stream` is framed as a gzip member for a plain text of
/// `plain_len` bytes: it opens with the gzip magic number and the code of
/// the deflate method, and ends with the length of the plain text, modulo
/// two to the thirty-second, in its last four bytes.
pub open spec fn is_gzip_frame(stream: Seq<u8>, plain_len: nat) -> bool {
    &&& stream.len() >= 18
    &&& stream[0] == 0x1f
    &&& stream[1] == 0x8b
    &&& stream[2] == 8
    &&& le_u32(stream.subrange(stream.len() - 4, stream.len() as int)) == plain_len
        % 0x1_0000_0000
}

/// `libflate::gzip::Encoder`: `new` over an empty vector, `write_all` of
/// the plain bytes, then `finish`. The encoder fails only where its writer
/// fails, and a vector never does, so there is always a stream. It starts
/// with the header that `Encoder::new` writes and ends with the trailer that
/// `finish` writes, which counts the bytes written. The header holds the
/// time of the call, so the stream is no function of the plain bytes, and
/// nothing is claimed of the bytes in between.
#[verifier::external_body]
pub(crate) fn gzip(plain: &[u8]) -> (packed: Result<Vec<u8>, std::io::Error>)
    ensures
        packed is Ok,
        packed matches Ok(stream) ==> is_gzip_frame(stream@, plain@.len()),
{
    let mut encoder = libflate::gzip::Encoder::new(Vec::new())?;
    std::io::Write::write_all(&mut encoder, plain)?;
    encoder.finish().into_result()
}

/// The request body for records that were written as `written`: their gzip
/// stream, which there always is. Without the JSON there is no body.
pub fn pack(written: Result<Vec<u8>, serde_json::Error>) -> (body: Result<Vec<u8>, CompressError>)
    ensures
        match written {
            Ok(plain) => body matches Ok(stream) && is_gzip_frame(stream@, plain@.len()),
            Err(_) => body == Err::<Vec<u8>, CompressError>(CompressError::Serialize),
        },
{
    match written {
        Ok(plain) => match gzip(plain.as_slice()) {
            Ok(stream) => Ok(stream),
            Err(_) => Err(CompressError::Encode),
        },
        Err(_) => Err(CompressError::Serialize),
    }
}

/// The request body for a batch: the records as one JSON array, compressed.
///
/// There is a body exactly where the records have a JSON encoding, and it
/// frames a plain text as long as that encoding. Where they have none, the
/// error is `Serialize`.
pub fn compress(logs: &Vec<Log>) -> (body: Result<Vec<u8>, CompressError>)
    ensures
        match json_encoding(fields_of(logs@)) {
            Some(plain) => body matches Ok(stream) && is_gzip_frame(stream@, plain.len()),
            None => body == Err::<Vec<u8>, CompressError>(CompressError::Serialize),
        },
{
    pack(to_json_bytes(logs))
}

} // verus!
