//! Reversal of HTTP content encodings on buffered bodies, for recording.
use vstd::prelude::*;
use crate::text::same_text;
use async_compression::tokio::write::{BrotliDecoder, DeflateDecoder, GzipDecoder};
use futures_util::FutureExt;
use tokio::io::AsyncWriteExt;

verus! {

/// What async_compression's gzip decoder yields for a complete body
/// (`None` where the body is truncated or malformed).
pub uninterp spec fn gzip_decoded(data: Seq<u8>) -> Option<Seq<u8>>;

/// What async_compression's raw DEFLATE decoder yields for a complete body.
pub uninterp spec fn deflate_decoded(data: Seq<u8>) -> Option<Seq<u8>>;

/// What async_compression's brotli decoder yields for a complete body.
pub uninterp spec fn brotli_decoded(data: Seq<u8>) -> Option<Seq<u8>>;

/// The view of an optional byte vector.
pub open spec fn opt_bytes(v: Option<Vec<u8>>) -> Option<Seq<u8>> {
    match v {
        Some(b) => Some(b@),
        None => None,
    }
}

/// The decoded body for a `Content-Encoding` label: `None` for a label that
/// is not recognized, or where the decoder rejects the body.
pub open spec fn decoded(data: Seq<u8>, label: Seq<char>) -> Option<Seq<u8>> {
    if label == "gzip"@ {
        gzip_decoded(data)
    } else if label == "deflate"@ {
        deflate_decoded(data)
    } else if label == "br"@ {
        brotli_decoded(data)
    } else {
        None
    }
}

/// Whether a `Content-Encoding` label is one this library reverses.
pub open spec fn is_recognized(label: Seq<char>) -> bool {
    label == "gzip"@ || label == "deflate"@ || label == "br"@
}

/// The body that is recorded: the decoded bytes where decoding applies and
/// succeeds, the bytes as received otherwise.
pub open spec fn recorded(raw: Seq<u8>, label: Seq<char>) -> Seq<u8> {
    match decoded(raw, label) {
        Some(d) => d,
        None => raw,
    }
}

/// Relies on async_compression's `tokio::write::GzipDecoder` (`write_all`,
/// `shutdown`, `into_inner`), writing the whole body into a `Vec<u8>`, which
/// never blocks, so one poll completes each step: the outcome depends on the
/// bytes alone.
#[verifier::external_body]
fn decode_gzip(data: &[u8]) -> (r: Option<Vec<u8>>)
    ensures
        opt_bytes(r) == gzip_decoded(data@),
{
    let mut decoder = GzipDecoder::new(Vec::new());
    match decoder.write_all(data).now_or_never() {
        Some(Ok(())) => {},
        _ => return None,
    }
    match decoder.shutdown().now_or_never() {
        Some(Ok(())) => Some(decoder.into_inner()),
        _ => None,
    }
}

/// Relies on async_compression's `tokio::write::DeflateDecoder`, as
/// `decode_gzip` does on its decoder.
#[verifier::external_body]
fn decode_deflate(data: &[u8]) -> (r: Option<Vec<u8>>)
    ensures
        opt_bytes(r) == deflate_decoded(data@),
{
    let mut decoder = DeflateDecoder::new(Vec::new());
    match decoder.write_all(data).now_or_never() {
        Some(Ok(())) => {},
        _ => return None,
    }
    match decoder.shutdown().now_or_never() {
        Some(Ok(())) => Some(decoder.into_inner()),
        _ => None,
    }
}

/// Relies on async_compression's `tokio::write::BrotliDecoder`, as
/// `decode_gzip` does on its decoder.
#[verifier::external_body]
fn decode_brotli(data: &[u8]) -> (r: Option<Vec<u8>>)
    ensures
        opt_bytes(r) == brotli_decoded(data@),
{
    let mut decoder = BrotliDecoder::new(Vec::new());
    match decoder.write_all(data).now_or_never() {
        Some(Ok(())) => {},
        _ => return None,
    }
    match decoder.shutdown().now_or_never() {
        Some(Ok(())) => Some(decoder.into_inner()),
        _ => None,
    }
}

/// Decodes `data` according to the `Content-Encoding` label `encoding`.
/// Returns `None` ("not applicable") for an unrecognized label and for a
/// body the decoder rejects.
pub fn decompress(data: &[u8], encoding: &str) -> (r: Option<Vec<u8>>)
    ensures
        opt_bytes(r) == decoded(data@, encoding@),
        !is_recognized(encoding@) ==> r is None,
{
    if same_text(encoding, "gzip") {
        decode_gzip(data)
    } else if same_text(encoding, "deflate") {
        decode_deflate(data)
    } else if same_text(encoding, "br") {
        decode_brotli(data)
    } else {
        None
    }
}

/// Picks the body to record from the bytes as received and the outcome of
/// decoding them: the decoded bytes where there are any, else the original.
pub fn fall_back(raw: &[u8], decoded_body: Option<Vec<u8>>) -> (r: Vec<u8>)
    ensures
        r@ == match opt_bytes(decoded_body) {
            Some(d) => d,
            None => raw@,
        },
{
    match decoded_body {
        Some(d) => d,
        None => vstd::slice::slice_to_vec(raw),
    }
}

/// The body to record for a response received with `Content-Encoding`
/// label `encoding`.
pub fn body_for_record(raw: &[u8], encoding: &str) -> (r: Vec<u8>)
    ensures
        r@ == recorded(raw@, encoding@),
{
    let d = decompress(raw, encoding);
    fall_back(raw, d)
}

/// A body received with an encoding label that is not recognized (the empty
/// label included) is recorded exactly as received.
pub proof fn law_unknown_encoding_kept(raw: Seq<u8>, label: Seq<char>)
    requires
        !is_recognized(label),
    ensures
        recorded(raw, label) == raw,
{
}

} // verus!
