//! Result marshaler.
//!
//! A successful counting result names an output image on disk; the caller
//! reads that file and this module turns its bytes into a transportable text
//! encoding for the presentation layer. The encoding is derived and
//! ephemeral: it is recomputed per successful request and never persisted.

use vstd::prelude::*;

use crate::error::{ErrorKind, PipelineError};
use crate::dispatch::CountingResult;
use crate::is_sentinel;

verus! {

/// The text that standard padded base64 encoding produces for the given
/// bytes; a function of the bytes alone.
pub uninterp spec fn base64_of(bytes: Seq<u8>) -> Seq<char>;

/// The length of the standard padded encoding: four output characters for
/// every started group of three input bytes.
pub open spec fn spec_base64_len(n: nat) -> nat {
    4 * ((n + 2) / 3)
}

/// A non-empty input never encodes to empty text.
pub proof fn lemma_encoding_nonempty(n: nat)
    ensures
        n > 0 ==> spec_base64_len(n) > 0,
{
}

/// Relies on `base64::encode` (standard alphabet, padded): the returned text
/// is a function of the input bytes alone, of the documented length — four
/// characters for every started group of three bytes.
#[verifier::external_body]
fn b64_encode(bytes: &Vec<u8>) -> (r: String)
    ensures
        r@ == base64_of(bytes@),
        r@.len() == spec_base64_len(bytes@.len()),
{
    base64::encode(bytes)
}

/// Relies on `base64::decode`: it inverts `base64::encode`, so any text that
/// is the encoding of some bytes decodes to exactly those bytes.
#[verifier::external_body]
fn b64_decode(text: &str) -> (r: Option<Vec<u8>>)
    ensures
        r matches Some(v) ==> forall|b: Seq<u8>| text@ == base64_of(b) ==> v@ == b,
        r is None ==> forall|b: Seq<u8>| text@ != base64_of(b),
{
    base64::decode(text).ok()
}

/// The transportable text encoding of one output image.
#[derive(Debug)]
pub struct EncodedImage {
    pub text: String,
}

impl View for EncodedImage {
    type V = Seq<char>;

    open spec fn view(&self) -> Seq<char> {
        self.text@
    }
}

/// Encodes raw image bytes for transport; the encoding of any non-empty
/// input is itself non-empty.
pub fn encode_image_bytes(bytes: &Vec<u8>) -> (r: EncodedImage)
    ensures
        r@ == base64_of(bytes@),
        r@.len() == spec_base64_len(bytes@.len()),
{
    EncodedImage { text: b64_encode(bytes) }
}

/// Turns a counting result and the bytes read back from its output image
/// into a transportable encoding.
///
/// `file_bytes` is what the caller managed to read from the result's output
/// path, `None` when the read failed. A sentinel result or a failed read is a
/// [`ErrorKind::Presentation`] error: the display must show "no image
/// available", never a stale previous result.
pub fn marshal(result: &CountingResult, file_bytes: Option<Vec<u8>>) -> (r: Result<
    EncodedImage,
    PipelineError,
>)
    ensures
        r is Ok <==> !is_sentinel(result@.output_path) && file_bytes is Some,
        r matches Ok(image) ==> image@ == base64_of(file_bytes->Some_0@),
        r matches Ok(image) ==> image@.len() == spec_base64_len(file_bytes->Some_0@.len()),
        r matches Err(e) ==> e.kind == ErrorKind::Presentation,
{
    if crate::output_is_sentinel(&result.output_path) {
        return Err(PipelineError::of_kind(
            ErrorKind::Presentation,
            "result carries the failure sentinel, not an output path".to_owned(),
        ));
    }
    match file_bytes {
        Option::Some(bytes) => Ok(encode_image_bytes(&bytes)),
        Option::None => Err(PipelineError::of_kind(
            ErrorKind::Presentation,
            "output image could not be read back".to_owned(),
        )),
    }
}

/// Recovers the original bytes from a transport encoding.
///
/// This is the round trip the presentation layer depends on: for any bytes,
/// decoding their marshaled encoding yields exactly those bytes again.
pub fn unmarshal(image: &EncodedImage) -> (r: Result<Vec<u8>, PipelineError>)
    ensures
        forall|b: Seq<u8>| image@ == base64_of(b) ==> (r matches Ok(v) && v@ == b),
        r matches Err(e) ==> e.kind == ErrorKind::Presentation,
{
    match b64_decode(image.text.as_str()) {
        Option::Some(bytes) => Ok(bytes),
        Option::None => Err(PipelineError::of_kind(
            ErrorKind::Presentation,
            "text is not a valid image encoding".to_owned(),
        )),
    }
}

} // verus!
