//! The stored form of a node's state: its serialized bytes, gzip-compressed.
//!
//! Serialization itself happens where the state is read or written; this
//! module compresses the serialized bytes for storage and decompresses what
//! storage returns.

use vstd::prelude::*;
use std::io::{Read, Write};

verus! {

#[verifier::external_type_specification]
#[verifier::external_body]
pub struct ExIoError(std::io::Error);

/// Why stored state could not be read back.
#[derive(Debug, Clone, Copy, PartialEq, Eq)]
pub enum StorageError {
    /// The stored bytes are not a gzip stream.
    Decompression,
}

/// What `flate2`'s `GzEncoder`, at the default compression level, produces
/// for `data`.
pub uninterp spec fn gzip_compressed(data: Seq<u8>) -> Seq<u8>;

/// What `flate2`'s `GzDecoder` reads out of `data`: the decompressed bytes,
/// or `None` when `data` is not a gzip stream.
pub uninterp spec fn gzip_decompressed(data: Seq<u8>) -> Option<Seq<u8>>;

/// `flate2::write::GzEncoder` with `Compression::default()` over a `Vec`,
/// written with `data` and finished. Claimed: it succeeds (the encoder only
/// reports errors of the writer beneath it, and writing to a `Vec` does not
/// fail), with the bytes `gzip_compressed(data)`, out of which `GzDecoder`
/// reads `data` back.
#[verifier::external_body]
fn gzip_encode(data: &[u8]) -> (result: Result<Vec<u8>, std::io::Error>)
    ensures
        result is Ok,
        result matches Ok(bytes) ==> bytes@ == gzip_compressed(data@) && gzip_decompressed(bytes@)
            == Some(data@),
{
    let mut encoder = flate2::write::GzEncoder::new(Vec::new(), flate2::Compression::default());
    encoder.write_all(data)?;
    encoder.finish()
}

/// `flate2::read::GzDecoder` over `data`, read to its end. Claimed: it
/// succeeds exactly when `gzip_decompressed(data)` is some bytes, and then
/// returns them.
#[verifier::external_body]
fn gzip_decode(data: &[u8]) -> (result: Result<Vec<u8>, std::io::Error>)
    ensures
        match result {
            Ok(bytes) => gzip_decompressed(data@) == Some(bytes@),
            Err(_) => gzip_decompressed(data@) is None,
        },
{
    let mut decoder = flate2::read::GzDecoder::new(data);
    let mut bytes = Vec::new();
    decoder.read_to_end(&mut bytes)?;
    Ok(bytes)
}

/// Whether `stored` is the stored form of `serialized`: its gzip
/// compression, out of which `serialized` decompresses again.
pub open spec fn stored_form(serialized: Seq<u8>, stored: Seq<u8>) -> bool {
    stored == gzip_compressed(serialized) && gzip_decompressed(stored) == Some(serialized)
}

/// Whether `read` is what reading `stored` back gives: the bytes it
/// decompresses to, or `Decompression` when it is not a gzip stream.
pub open spec fn read_back(stored: Seq<u8>, read: Result<Vec<u8>, StorageError>) -> bool {
    match read {
        Ok(bytes) => gzip_decompressed(stored) == Some(bytes@),
        Err(e) => e == StorageError::Decompression && gzip_decompressed(stored) is None,
    }
}

/// Compresses a serialized state for storage: the stored form of
/// `serialized`, whose length is what a write of the state reports.
pub fn compress_state(serialized: &[u8]) -> (stored: Vec<u8>)
    ensures
        stored_form(serialized@, stored@),
{
    match gzip_encode(serialized) {
        Ok(bytes) => bytes,
        Err(_) => Vec::new(),
    }
}

/// Decompresses stored bytes into the serialized state they hold; fails with
/// `Decompression` exactly when they are not a gzip stream.
pub fn decompress_state(stored: &[u8]) -> (serialized: Result<Vec<u8>, StorageError>)
    ensures
        read_back(stored@, serialized),
{
    match gzip_decode(stored) {
        Ok(bytes) => Ok(bytes),
        Err(_) => Err(StorageError::Decompression),
    }
}

/// What is stored is read back unchanged: reading the stored form of a
/// serialized state succeeds and gives that state.
pub proof fn lemma_stored_state_reads_back(
    serialized: Seq<u8>,
    stored: Seq<u8>,
    read: Result<Vec<u8>, StorageError>,
)
    requires
        stored_form(serialized, stored),
        read_back(stored, read),
    ensures
        read matches Ok(bytes) && bytes@ == serialized,
{
}

} // verus!
