//! Inflation of gzip streams, done by the `flate2` crate.

use std::io::Read;
use vstd::prelude::*;

verus! {

/// What the first member of the gzip stream `stream` inflates to, as
/// `flate2` decodes it; `None` where it reports the stream as malformed.
pub uninterp spec fn gzip_payload(stream: Seq<u8>) -> Option<Seq<u8>>;

/// Calls `flate2::bufread::GzDecoder` on `stream` and reads it to its end.
///
/// The decoder parses the gzip header, inflates the first member and checks
/// its trailer. The contract claims only that the outcome is a function of
/// the input bytes, which `gzip_payload` names: the inflated bytes where the
/// decoder reads to the end without an error, nothing where it reports one.
#[verifier::external_body]
pub(crate) fn inflate(stream: &[u8]) -> (payload: Option<Vec<u8>>)
    ensures
        match payload {
            Some(bytes) => gzip_payload(stream@) == Some(bytes@),
            None => gzip_payload(stream@) is None,
        },
{
    let mut bytes: Vec<u8> = Vec::new();
    match flate2::bufread::GzDecoder::new(stream).read_to_end(&mut bytes) {
        Ok(_) => Some(bytes),
        Err(_) => None,
    }
}

} // verus!
