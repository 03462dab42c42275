//! The compression pipeline: payloads are deflated before they are stored and
//! inflated after they are read back.

use vstd::prelude::*;
use vstd::string::StringExecFns;
use crate::error::{Error, Origin};

verus! {

/// Name for the outcome of flate2's `ZlibEncoder` on `data` at the default
/// compression level: the zlib stream that it produces, or `None` where the
/// encoder reports a failure.
pub uninterp spec fn zlib_packed(data: Seq<u8>) -> Option<Seq<u8>>;

/// Name for what flate2's `ZlibDecoder` restores from the front of `packed`;
/// `None` where the decoder reports a corrupt or incomplete stream.
pub uninterp spec fn zlib_unpacked(packed: Seq<u8>) -> Option<Seq<u8>>;

/// Name for the number of bytes of `packed` that flate2's `ZlibDecoder` has
/// taken in when it has restored a payload from them.
pub uninterp spec fn zlib_consumed(packed: Seq<u8>) -> int;

/// Runs `data` through `flate2::write::ZlibEncoder` (`new` at
/// `Compression::default()`, `write_all`, `finish`) into a fresh vector.
///
/// Trusted: the outcome depends on the bytes alone and is the one named by
/// [`zlib_packed`]; a finished stream is never empty, because it opens with
/// the zlib header and closes with the checksum whatever `data` holds; the
/// codec is lossless, so the decoder restores exactly `data` from it; and the
/// stream ends where the vector ends, so the decoder takes in all of it.
/// Success itself is not promised; a failure comes back as the text it prints.
#[verifier::external_body]
fn deflate(data: &[u8]) -> (r: Result<Vec<u8>, String>)
    ensures
        r matches Ok(packed) ==> {
            &&& zlib_packed(data@) == Some(packed@)
            &&& packed@.len() > 0
            &&& zlib_unpacked(packed@) == Some(data@)
            &&& zlib_consumed(packed@) == packed@.len()
        },
        r is Err ==> zlib_packed(data@) is None,
{
    let sink: Vec<u8> = Vec::with_capacity(data.len());
    let mut encoder = flate2::write::ZlibEncoder::new(sink, flate2::Compression::default());
    match std::io::Write::write_all(&mut encoder, data) {
        Ok(()) => encoder.finish().map_err(|e| e.to_string()),
        Err(e) => Err(e.to_string()),
    }
}

/// Reads `packed` to its end through `flate2::read::ZlibDecoder` (`new`,
/// `read_to_end`) and asks the decoder for `total_in`.
///
/// Trusted: the outcome depends on the bytes alone. A success brings the
/// payload named by [`zlib_unpacked`] and the count named by
/// [`zlib_consumed`]; a failure comes back as the text it prints.
#[verifier::external_body]
fn inflate(packed: &[u8]) -> (r: Result<(Vec<u8>, u64), String>)
    ensures
        r matches Ok((data, used)) ==> zlib_unpacked(packed@) == Some(data@) && used as int
            == zlib_consumed(packed@),
        r is Err ==> zlib_unpacked(packed@) is None,
{
    let mut decoder = flate2::read::ZlibDecoder::new(packed);
    let mut data: Vec<u8> = Vec::new();
    match std::io::Read::read_to_end(&mut decoder, &mut data) {
        Ok(_) => Ok((data, decoder.total_in())),
        Err(e) => Err(e.to_string()),
    }
}

/// The payload that a stored value stands for: what the decoder restores
/// from it, provided that the stream fills the value to its last byte. A
/// value that is corrupt, cut short, or longer than its stream stands for
/// nothing.
pub open spec fn restored(packed: Seq<u8>) -> Option<Seq<u8>> {
    match zlib_unpacked(packed) {
        Some(data) => if zlib_consumed(packed) == packed.len() {
            Some(data)
        } else {
            None
        },
        None => None,
    }
}

/// `packed` is a stored form of `data`.
pub open spec fn is_packing_of(packed: Seq<u8>, data: Seq<u8>) -> bool {
    restored(packed) == Some(data)
}

/// What [`compress`] returns for a payload, up to the text of a failure: the
/// encoder's stream where it produces one, a codec failure where it does not.
pub open spec fn compress_spec(data: Seq<u8>, r: Result<Vec<u8>, Error>) -> bool {
    match zlib_packed(data) {
        Some(packed) => r matches Ok(stream) && stream@ == packed,
        None => r matches Err(e) && e.origin_spec() == Some(Origin::Codec),
    }
}

/// Compresses a payload into the form in which it is stored.
///
/// The result is the encoder's outcome for `data`: its stream, which is
/// never empty and is a stored form of `data`, or the failure that it
/// reports.
pub fn compress(data: &[u8]) -> (r: Result<Vec<u8>, Error>)
    ensures
        compress_spec(data@, r),
        r matches Ok(packed) ==> packed@.len() > 0 && is_packing_of(packed@, data@),
{
    match deflate(data) {
        Ok(packed) => Ok(packed),
        Err(text) => Err(Error::codec_failure(text)),
    }
}

/// What [`expand`] returns for a stored value, up to the text of a failure.
pub open spec fn expand_spec(packed: Seq<u8>, r: Result<Vec<u8>, Error>) -> bool {
    match restored(packed) {
        Some(data) => r matches Ok(payload) && payload@ == data,
        None => r matches Err(e) && e.origin_spec() == Some(Origin::Codec),
    }
}

/// The text of the failure for a stored value that is longer than its stream.
pub open spec fn trailing_bytes_text() -> Seq<char> {
    "bytes behind the end of the stream"@
}

/// Accepts what the decoder restored from a value of `packed_len` bytes only
/// if the decoder took in all of them: `data` where `used` equals
/// `packed_len`, a codec failure otherwise.
pub fn whole_stream(packed_len: usize, data: Vec<u8>, used: u64) -> (r: Result<Vec<u8>, Error>)
    ensures
        used == packed_len ==> r == Ok::<Vec<u8>, Error>(data),
        used != packed_len ==> (r matches Err(Error::InternalError(Origin::Codec, text)) && text@
            == trailing_bytes_text()),
{
    if used == packed_len as u64 {
        Ok(data)
    } else {
        Err(Error::codec_failure(String::from_str("bytes behind the end of the stream")))
    }
}

/// Restores a payload from its stored form.
///
/// Succeeds exactly on the values that stand for a payload. A stream that is
/// corrupt or cut short, and a value with bytes behind its stream, is
/// reported as a codec failure, never passed over.
pub fn expand(packed: &[u8]) -> (r: Result<Vec<u8>, Error>)
    ensures
        expand_spec(packed@, r),
{
    match inflate(packed) {
        Ok((data, used)) => whole_stream(packed.len(), data, used),
        Err(text) => Err(Error::codec_failure(text)),
    }
}

/// What was compressed can be read back: the stored form of a payload always
/// expands to that payload, the empty payload included.
pub proof fn stored_form_expands(packed: Seq<u8>, data: Seq<u8>, r: Result<Vec<u8>, Error>)
    requires
        is_packing_of(packed, data),
        expand_spec(packed, r),
    ensures
        r matches Ok(restored) && restored@ == data,
{
}

} // verus!
