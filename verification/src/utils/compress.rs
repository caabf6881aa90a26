use vstd::prelude::*;
use vstd::utf8::{decode_utf8, encode_utf8, valid_utf8, encode_utf8_valid_utf8, encode_utf8_decode_utf8};
use crate::utils::errors::{IcepickError, Result};

verus! {

/// What `zstd::encode_all` produces from `data` at `level`: the frame, or
/// `None` where it fails.
pub uninterp spec fn zstd_encoded(data: Seq<u8>, level: i32) -> Option<Seq<u8>>;

/// What `zstd::decode_all` produces from `frame`: the data, or `None` where
/// it fails.
pub uninterp spec fn zstd_decoded(frame: Seq<u8>) -> Option<Seq<u8>>;

/// The text that `String::from_utf8_lossy` makes of bytes that are not
/// valid UTF-8 (each ill-formed part replaced by U+FFFD).
pub uninterp spec fn utf8_lossy_replaced(bytes: Seq<u8>) -> Seq<char>;

/// The text that `String::from_utf8_lossy` makes of `bytes`: the decoded
/// text where they are valid UTF-8.
pub open spec fn lossy_text(bytes: Seq<u8>) -> Seq<char> {
    if valid_utf8(bytes) {
        decode_utf8(bytes)
    } else {
        utf8_lossy_replaced(bytes)
    }
}

/// Whether `frame` starts with the zstd magic number `0xFD2FB528`, written
/// little-endian.
pub open spec fn starts_with_zstd_magic(frame: Seq<u8>) -> bool {
    frame.len() >= 4 && frame[0] == 40u8 && frame[1] == 181u8 && frame[2] == 47u8 && frame[3] == 253u8
}

/// `zstd::encode_all` on a byte slice: the frame it produces, and `Err`
/// exactly where it fails (over a slice and a `Vec` that is the C
/// library failing, on allocation). The frame starts with the zstd magic
/// number (`ZSTD_MAGICNUMBER` in zstd.h, the frame format). zstd is
/// lossless: `decode_all` gives back the data of any frame that
/// `encode_all` produced.
#[verifier::external_body]
fn zstd_encode_all(data: &[u8], level: i32) -> (r: core::result::Result<Vec<u8>, std::io::Error>)
    ensures
        match r {
            Ok(frame) => zstd_encoded(data@, level) == Some(frame@) && zstd_decoded(frame@) == Some(data@)
                && starts_with_zstd_magic(frame@),
            Err(_) => zstd_encoded(data@, level) is None,
        },
{
    zstd::encode_all(data, level)
}

/// `zstd::decode_all` on a byte slice: the data it produces, and `Err`
/// exactly where it fails.
#[verifier::external_body]
fn zstd_decode_all(frame: &[u8]) -> (r: core::result::Result<Vec<u8>, std::io::Error>)
    ensures
        match r {
            Ok(data) => zstd_decoded(frame@) == Some(data@),
            Err(_) => zstd_decoded(frame@) is None,
        },
{
    zstd::decode_all(frame)
}

/// `String::from_utf8_lossy`, made into an owned `String`.
#[verifier::external_body]
fn string_from_utf8_lossy(bytes: &[u8]) -> (r: String)
    ensures
        valid_utf8(bytes@) ==> r@ == decode_utf8(bytes@),
        !valid_utf8(bytes@) ==> r@ == utf8_lossy_replaced(bytes@),
{
    String::from_utf8_lossy(bytes).into_owned()
}

/// The compression level the crawler stores pages with.
pub const COMPRESSION_LEVEL: i32 = 3;

/// What [`Zstd::compress`] gives for `text`: the frame of its UTF-8 bytes.
pub open spec fn compress_spec(text: Seq<char>) -> Option<Seq<u8>> {
    zstd_encoded(encode_utf8(text), COMPRESSION_LEVEL)
}

/// What [`Zstd::decompress`] gives for `frame`: the text of its data.
pub open spec fn decompress_spec(frame: Seq<u8>) -> Option<Seq<char>> {
    match zstd_decoded(frame) {
        Some(data) => Some(lossy_text(data)),
        None => None,
    }
}

/// Compression of page text with zstd.
pub struct Zstd;

impl Zstd {
    /// Compresses the UTF-8 bytes of `input` at level 3.
    pub fn compress(input: &str) -> (r: Result<Vec<u8>>)
        ensures
            match r {
                Ok(frame) => compress_spec(input@) == Some(frame@) && zstd_decoded(frame@) == Some(
                    encode_utf8(input@),
                ) && starts_with_zstd_magic(frame@),
                Err(e) => compress_spec(input@) is None && e is IoError,
            },
    {
        match zstd_encode_all(input.as_bytes(), COMPRESSION_LEVEL) {
            Ok(compressed) => Ok(compressed),
            Err(e) => Err(IcepickError::IoError(e)),
        }
    }

    /// Decompresses a zstd frame and reads its data as UTF-8, replacing
    /// ill-formed parts.
    pub fn decompress(input: &[u8]) -> (r: Result<String>)
        ensures
            match r {
                Ok(text) => decompress_spec(input@) == Some(text@),
                Err(e) => decompress_spec(input@) is None && e is IoError,
            },
    {
        match zstd_decode_all(input) {
            Ok(decompressed) => Ok(string_from_utf8_lossy(decompressed.as_slice())),
            Err(e) => Err(IcepickError::IoError(e)),
        }
    }
}

/// Decompressing what was compressed gives back the text: for every text
/// and every frame that [`Zstd::compress`] returns for it (its `ensures`
/// states that the frame decodes to the text's UTF-8 bytes),
/// [`Zstd::decompress`] returns that text.
pub proof fn lemma_decompress_undoes_compress(text: Seq<char>, frame: Seq<u8>)
    requires
        zstd_decoded(frame) == Some(encode_utf8(text)),
    ensures
        decompress_spec(frame) == Some(text),
{
    encode_utf8_valid_utf8(text);
    encode_utf8_decode_utf8(text);
}

/// Compressing a value.
pub trait Compress {
    fn compress(&self) -> Result<Vec<u8>>;
}

impl Compress for str {
    /// [`Zstd::compress`] of the text.
    fn compress(&self) -> (r: Result<Vec<u8>>)
        ensures
            match r {
                Ok(frame) => compress_spec(self@) == Some(frame@) && zstd_decoded(frame@) == Some(
                    encode_utf8(self@),
                ) && starts_with_zstd_magic(frame@),
                Err(e) => compress_spec(self@) is None && e is IoError,
            },
    {
        Zstd::compress(self)
    }
}

impl Compress for String {
    /// [`Zstd::compress`] of the text.
    fn compress(&self) -> (r: Result<Vec<u8>>)
        ensures
            match r {
                Ok(frame) => compress_spec(self@) == Some(frame@) && zstd_decoded(frame@) == Some(
                    encode_utf8(self@),
                ) && starts_with_zstd_magic(frame@),
                Err(e) => compress_spec(self@) is None && e is IoError,
            },
    {
        Zstd::compress(self.as_str())
    }
}

/// Decompressing a value into a `T`.
pub trait Decompress<T> {
    fn decompress(&self) -> Result<T>;
}

impl Decompress<String> for [u8] {
    /// [`Zstd::decompress`] of the bytes.
    fn decompress(&self) -> (r: Result<String>)
        ensures
            match r {
                Ok(text) => decompress_spec(self@) == Some(text@),
                Err(e) => decompress_spec(self@) is None && e is IoError,
            },
    {
        Zstd::decompress(self)
    }
}

impl Decompress<String> for Vec<u8> {
    /// [`Zstd::decompress`] of the bytes.
    fn decompress(&self) -> (r: Result<String>)
        ensures
            match r {
                Ok(text) => decompress_spec(self@) == Some(text@),
                Err(e) => decompress_spec(self@) is None && e is IoError,
            },
    {
        Zstd::decompress(self.as_slice())
    }
}

} // verus!
