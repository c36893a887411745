use vstd::prelude::*;

verus! {

#[verifier::external_type_specification]
#[verifier::external_body]
pub struct ExIoError(std::io::Error);

/// The unsigned 32-bit integer stored big-endian in `data[pos..pos + 4]`.
pub open spec fn be_u32(data: Seq<u8>, pos: int) -> int {
    data[pos] as int * 16777216 + data[pos + 1] as int * 65536 + data[pos + 2] as int * 256
        + data[pos + 3] as int
}

/// What a gzip stream decompresses to, or `None` when it is damaged or cut short.
pub uninterp spec fn gunzip_of(data: Seq<u8>) -> Option<Seq<u8>>;

/// Relies on byteorder's `BigEndian::read_u32`, which reads the first four
/// bytes of the slice most significant first (it panics on fewer than four).
#[verifier::external_body]
pub(crate) fn read_be_u32(buf: &[u8]) -> (r: u32)
    requires
        buf@.len() >= 4,
    ensures
        r as int == be_u32(buf@, 0),
{
    <byteorder::BigEndian as byteorder::ByteOrder>::read_u32(buf)
}

/// Relies on flate2's `read::GzDecoder`, read to its end: the decompressed
/// bytes of the gzip stream in `data`, or the error met on the way. Both depend
/// on the bytes alone.
#[verifier::external_body]
pub(crate) fn gunzip(data: &Vec<u8>) -> (r: Result<Vec<u8>, std::io::Error>)
    ensures
        match r {
            Ok(out) => gunzip_of(data@) == Some(out@),
            Err(_) => gunzip_of(data@) is None,
        },
{
    let mut out: Vec<u8> = Vec::new();
    let mut decoder = flate2::read::GzDecoder::new(data.as_slice());
    match std::io::Read::read_to_end(&mut decoder, &mut out) {
        Ok(_) => Ok(out),
        Err(e) => Err(e),
    }
}

} // verus!
