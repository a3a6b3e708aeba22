//! Reading the gzipped files that the update jobs cache.
use vstd::prelude::*;
use std::io::Read;
use crate::text::opt_view;

verus! {

/// The text held by the first member of a gzip stream: `None` where that member does not
/// decompress, or decompresses to bytes that are not UTF-8.
pub uninterp spec fn gunzip_text(data: Seq<u8>) -> Option<Seq<char>>;

/// `flate2::read::GzDecoder` over the bytes, read to a string: the text of the first gzip
/// member, or `None` where reading fails (bad gzip data, or content that is not UTF-8).
#[verifier::external_body]
fn gunzip(data: &[u8]) -> (r: Option<String>)
    ensures
        opt_view(r) == gunzip_text(data@),
{
    let mut text = String::new();
    match flate2::read::GzDecoder::new(data).read_to_string(&mut text) {
        Ok(_) => Some(text),
        Err(_) => None,
    }
}

/// The text of a gzipped file.
pub fn decompress_text(data: &[u8]) -> (r: Option<String>)
    ensures
        opt_view(r) == gunzip_text(data@),
{
    gunzip(data)
}

} // verus!
