use vstd::prelude::*;

use crate::error::UdpError;

verus! {

#[verifier::external_type_specification]
#[verifier::external_body]
pub struct ExCompressor(zstd::block::Compressor);

#[verifier::external_type_specification]
#[verifier::external_body]
pub struct ExDecompressor(zstd::block::Decompressor);

#[verifier::external_type_specification]
#[verifier::external_body]
pub struct ExIoError(std::io::Error);

/// What zstd block compression makes of `data` at `level`, with no
/// dictionary: a pure function of the two, fixed by the linked zstd library.
pub uninterp spec fn compress_of(data: Seq<u8>, level: int) -> Seq<u8>;

/// What zstd block decompression makes of `data` with an output buffer of
/// `cap` bytes and no dictionary: the decoded content, or `None` where `data`
/// is not one whole compressed block whose content fits. A pure function of
/// the two, fixed by the linked zstd library.
pub uninterp spec fn decompress_of(data: Seq<u8>, cap: nat) -> Option<Seq<u8>>;

/// The compression level used for every frame this transport sends.
pub const ZSTD_LEVEL: i32 = 7;

/// Owns one compressor and one decompressor context, both built without a
/// dictionary; contexts are expensive to construct and cheap to reuse, so one
/// pair serves every send and receive of a transport. Exclusive access — the
/// concurrency discipline the codec needs — is exactly a `&mut` borrow of the
/// holder, so no two compress or decompress calls can ever interleave on it.
pub struct ZstdHolder {
    compressor: zstd::block::Compressor,
    decompressor: zstd::block::Decompressor,
}

/// Relies on zstd::block::Compressor::new: a fresh context with an empty
/// dictionary.
#[verifier::external_body]
fn new_compressor() -> zstd::block::Compressor {
    zstd::block::Compressor::new()
}

/// Relies on zstd::block::Decompressor::new: a fresh context with an empty
/// dictionary.
#[verifier::external_body]
fn new_decompressor() -> zstd::block::Decompressor {
    zstd::block::Decompressor::new()
}

impl ZstdHolder {
    pub fn new() -> ZstdHolder {
        ZstdHolder { compressor: new_compressor(), decompressor: new_decompressor() }
    }

    /// Relies on zstd::block::Compressor::compress: single-block compression
    /// of `data` at `level`; with the holder's empty dictionary the output is
    /// a function of `data` and `level` alone. The call writes into a buffer
    /// of zstd's own worst-case bound for `data`'s length and clamps the
    /// level into its valid range, so on every input a real process can hold
    /// — the bound on the length is far above any allocation and far below
    /// zstd's input limit — it succeeds; allocation failure aborts rather
    /// than returns.
    #[verifier::external_body]
    fn raw_compress(&mut self, data: &Vec<u8>, level: i32) -> (r: Result<Vec<u8>, std::io::Error>)
        requires
            data@.len() < 0x100_0000_0000,
        ensures
            r is Ok,
            r matches Ok(out) ==> out@ == compress_of(data@, level as int),
    {
        self.compressor.compress(data.as_slice(), level)
    }

    /// Relies on zstd::block::Decompressor::decompress: what it returns is a
    /// function of `data` and `cap` alone (the holder's dictionary is empty),
    /// and decompressing a block that compression produced gives back the
    /// original, provided the original fits in `cap` bytes (the buffer the
    /// call allocates).
    #[verifier::external_body]
    fn raw_decompress(&mut self, data: &Vec<u8>, cap: usize) -> (r: Result<Vec<u8>, std::io::Error>)
        ensures
            r matches Ok(out) ==> decompress_of(data@, cap as nat) == Some(out@),
            r is Err ==> decompress_of(data@, cap as nat) is None,
            r is Err ==> forall|orig: Seq<u8>, level: int|
                #![trigger compress_of(orig, level)]
                data@ == compress_of(orig, level) ==> orig.len() > cap,
            r matches Ok(out) ==> forall|orig: Seq<u8>, level: int|
                #![trigger compress_of(orig, level)]
                data@ == compress_of(orig, level) && orig.len() <= cap ==> out@ == orig,
    {
        self.decompressor.decompress(data.as_slice(), cap)
    }

    /// Compress one block of bytes at the given level: succeeds on every
    /// input a real process can hold, and the output is exactly the named
    /// compression of the input.
    pub fn compress(&mut self, data: &Vec<u8>, level: i32) -> (r: Result<Vec<u8>, UdpError>)
        requires
            data@.len() < 0x100_0000_0000,
        ensures
            r is Ok,
            r matches Ok(out) ==> out@ == compress_of(data@, level as int),
    {
        match self.raw_compress(data, level) {
            Ok(out) => Ok(out),
            Err(_) => Err(UdpError::Codec),
        }
    }

    /// Decompress one block of bytes, expecting at most `capacity` bytes out:
    /// the result is exactly the named decompression of the input, so every
    /// block that `compress` made from an original that fits is decoded back
    /// to that original; corrupt or oversized input is a codec error.
    pub fn decompress(&mut self, data: &Vec<u8>, capacity: usize) -> (r: Result<Vec<u8>, UdpError>)
        ensures
            r matches Ok(out) ==> decompress_of(data@, capacity as nat) == Some(out@),
            r is Err ==> decompress_of(data@, capacity as nat) is None,
            r is Err ==> forall|orig: Seq<u8>, level: int|
                #![trigger compress_of(orig, level)]
                data@ == compress_of(orig, level) ==> orig.len() > capacity,
            r matches Ok(out) ==> forall|orig: Seq<u8>, level: int|
                #![trigger compress_of(orig, level)]
                data@ == compress_of(orig, level) && orig.len() <= capacity ==> out@ == orig,
            r matches Err(e) ==> e == UdpError::Codec,
    {
        match self.raw_decompress(data, capacity) {
            Ok(out) => Ok(out),
            Err(_) => Err(UdpError::Codec),
        }
    }
}

} // verus!
