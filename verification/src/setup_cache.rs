//! The on-disk setup cache format.
//!
//! A cache file is a fixed-size header followed by the LZ4-compressed setup.
//! The header holds the magic bytes `DORY`, a format version, the SHA-256
//! hash of the setup parameters, and the compressed and uncompressed sizes,
//! all little-endian. This module builds and checks such files; reading and
//! writing them is left to the caller.
use vstd::prelude::*;
use vstd::bytes::{
    spec_u32_to_le_bytes, spec_u32_from_le_bytes, spec_u64_to_le_bytes, spec_u64_from_le_bytes,
    u32_to_le_bytes, u64_to_le_bytes, u32_from_le_bytes, u64_from_le_bytes,
    lemma_auto_spec_u32_to_from_le_bytes, lemma_auto_spec_u64_to_from_le_bytes,
};
use vstd::slice::slice_subrange;
use sha2::Digest;

verus! {

/// Current version of the cache format.
pub const CACHE_VERSION: u32 = 1;

/// Size in bytes of the encoded header.
pub const HEADER_SIZE: usize = 56;

/// The magic bytes `DORY`.
pub open spec fn cache_magic_seq() -> Seq<u8> {
    seq![68u8, 79u8, 82u8, 89u8]
}

/// The magic bytes `DORY` that open every cache file.
pub fn cache_magic() -> (r: [u8; 4])
    ensures
        r@ == cache_magic_seq(),
{
    let mut m = [0u8; 4];
    m[0] = 68u8;
    m[1] = 79u8;
    m[2] = 82u8;
    m[3] = 89u8;
    assert(m@ =~= cache_magic_seq());
    m
}

/// A cache file header.
pub struct CacheHeader {
    pub magic: [u8; 4],
    pub version: u32,
    pub params_hash: [u8; 32],
    pub compressed_size: u64,
    pub decompressed_size: u64,
    pub reserved: [u8; 4],
}

/// The encoding of a header: magic, version, parameter hash, compressed
/// size, uncompressed size (the reserved bytes are not written).
pub open spec fn header_bytes(h: CacheHeader) -> Seq<u8> {
    h.magic@ + spec_u32_to_le_bytes(h.version) + h.params_hash@ + spec_u64_to_le_bytes(h.compressed_size)
        + spec_u64_to_le_bytes(h.decompressed_size)
}

/// The version field of an encoded header.
pub open spec fn decoded_version(b: Seq<u8>) -> u32 {
    spec_u32_from_le_bytes(b.subrange(4, 8))
}

/// The parameter hash field of an encoded header.
pub open spec fn decoded_hash(b: Seq<u8>) -> Seq<u8> {
    b.subrange(8, 40)
}

/// The compressed size field of an encoded header.
pub open spec fn decoded_compressed_size(b: Seq<u8>) -> u64 {
    spec_u64_from_le_bytes(b.subrange(40, 48))
}

/// The uncompressed size field of an encoded header.
pub open spec fn decoded_decompressed_size(b: Seq<u8>) -> u64 {
    spec_u64_from_le_bytes(b.subrange(48, 56))
}

/// `b` starts with a header this version can read: long enough, the magic
/// bytes, and a version no newer than the current one.
pub open spec fn header_accepts(b: Seq<u8>) -> bool {
    &&& b.len() >= HEADER_SIZE
    &&& b.subrange(0, 4) == cache_magic_seq()
    &&& decoded_version(b) <= CACHE_VERSION
}

/// `h` holds the fields encoded at the start of `b`, with the current magic
/// bytes and zero reserved bytes.
pub open spec fn header_decodes(h: CacheHeader, b: Seq<u8>) -> bool {
    &&& h.magic@ == cache_magic_seq()
    &&& h.version == decoded_version(b)
    &&& h.params_hash@ == decoded_hash(b)
    &&& h.compressed_size == decoded_compressed_size(b)
    &&& h.decompressed_size == decoded_decompressed_size(b)
    &&& h.reserved@ == seq![0u8, 0u8, 0u8, 0u8]
}

impl CacheHeader {
    /// A header of the current version for the given hash and sizes.
    pub fn new(params_hash: [u8; 32], compressed_size: u64, decompressed_size: u64) -> (r: Self)
        ensures
            r.magic@ == cache_magic_seq(),
            r.version == CACHE_VERSION,
            r.params_hash == params_hash,
            r.compressed_size == compressed_size,
            r.decompressed_size == decompressed_size,
            r.reserved@ == seq![0u8, 0u8, 0u8, 0u8],
    {
        let reserved = [0u8; 4];
        assert(reserved@ =~= seq![0u8, 0u8, 0u8, 0u8]);
        Self { magic: cache_magic(), version: CACHE_VERSION, params_hash, compressed_size, decompressed_size, reserved }
    }

    /// The encoded header, `HEADER_SIZE` bytes.
    pub fn to_bytes(&self) -> (r: Vec<u8>)
        ensures
            r@ == header_bytes(*self),
            r@.len() == HEADER_SIZE,
    {
        let mut out: Vec<u8> = Vec::new();
        let mut i: usize = 0;
        while i < 4
            invariant
                i <= 4,
                out@ == self.magic@.subrange(0, i as int),
            decreases 4 - i,
        {
            out.push(self.magic[i]);
            i = i + 1;
            assert(out@ =~= self.magic@.subrange(0, i as int));
        }
        assert(out@ =~= self.magic@);
        let mut v = u32_to_le_bytes(self.version);
        out.append(&mut v);
        let ghost before_hash = out@;
        let mut i: usize = 0;
        while i < 32
            invariant
                i <= 32,
                out@ == before_hash + self.params_hash@.subrange(0, i as int),
            decreases 32 - i,
        {
            out.push(self.params_hash[i]);
            i = i + 1;
            assert(out@ =~= before_hash + self.params_hash@.subrange(0, i as int));
        }
        assert(self.params_hash@.subrange(0, 32) =~= self.params_hash@);
        let mut c = u64_to_le_bytes(self.compressed_size);
        out.append(&mut c);
        let mut d = u64_to_le_bytes(self.decompressed_size);
        out.append(&mut d);
        out
    }

    /// Reads a header from the start of `bytes`: `None` when there are fewer
    /// than `HEADER_SIZE` bytes, the magic bytes differ, or the version is
    /// newer than the current one.
    pub fn from_bytes(bytes: &[u8]) -> (r: Option<Self>)
        ensures
            r is Some <==> header_accepts(bytes@),
            r matches Some(h) ==> header_decodes(h, bytes@),
    {
        if bytes.len() < HEADER_SIZE {
            return None;
        }
        if bytes[0] != 68u8 || bytes[1] != 79u8 || bytes[2] != 82u8 || bytes[3] != 89u8 {
            proof {
                let m = bytes@.subrange(0, 4);
                assert(m[0] == bytes@[0] && m[1] == bytes@[1] && m[2] == bytes@[2] && m[3] == bytes@[3]);
            }
            return None;
        }
        assert(bytes@.subrange(0, 4) =~= cache_magic_seq());
        let version = u32_from_le_bytes(slice_subrange(bytes, 4, 8));
        if version > CACHE_VERSION {
            return None;
        }
        let mut params_hash = [0u8; 32];
        let mut i: usize = 0;
        while i < 32
            invariant
                i <= 32,
                bytes@.len() >= HEADER_SIZE,
                forall|j: int| 0 <= j < i ==> params_hash@[j] == bytes@[8 + j],
            decreases 32 - i,
        {
            params_hash[i] = bytes[8 + i];
            i = i + 1;
        }
        assert(params_hash@ =~= bytes@.subrange(8, 40));
        let compressed_size = u64_from_le_bytes(slice_subrange(bytes, 40, 48));
        let decompressed_size = u64_from_le_bytes(slice_subrange(bytes, 48, 56));
        let reserved = [0u8; 4];
        assert(reserved@ =~= seq![0u8, 0u8, 0u8, 0u8]);
        Some(Self { magic: cache_magic(), version, params_hash, compressed_size, decompressed_size, reserved })
    }

    /// Whether the magic bytes are right and the version is readable.
    pub fn validate(&self) -> (b: bool)
        ensures
            b == (self.magic@ == cache_magic_seq() && self.version <= CACHE_VERSION),
    {
        let ok = self.magic[0] == 68u8 && self.magic[1] == 79u8 && self.magic[2] == 82u8 && self.magic[3] == 89u8;
        proof {
            if ok {
                assert(self.magic@ =~= cache_magic_seq());
            }
        }
        ok && self.version <= CACHE_VERSION
    }
}

/// Encoding a header and reading it back gives every field back: a header
/// with the current magic bytes and a readable version is accepted, and the
/// header read has its version, hash and sizes.
pub proof fn lemma_header_roundtrip(h: CacheHeader)
    requires
        h.magic@ == cache_magic_seq(),
        h.version <= CACHE_VERSION,
    ensures
        header_accepts(header_bytes(h)),
        decoded_version(header_bytes(h)) == h.version,
        decoded_hash(header_bytes(h)) == h.params_hash@,
        decoded_compressed_size(header_bytes(h)) == h.compressed_size,
        decoded_decompressed_size(header_bytes(h)) == h.decompressed_size,
{
    lemma_auto_spec_u32_to_from_le_bytes();
    lemma_auto_spec_u64_to_from_le_bytes();
    let b = header_bytes(h);
    let v = spec_u32_to_le_bytes(h.version);
    let c = spec_u64_to_le_bytes(h.compressed_size);
    let d = spec_u64_to_le_bytes(h.decompressed_size);
    assert(b.len() == 56);
    assert(b.subrange(0, 4) =~= h.magic@);
    assert(b.subrange(4, 8) =~= v);
    assert(b.subrange(8, 40) =~= h.params_hash@);
    assert(b.subrange(40, 48) =~= c);
    assert(b.subrange(48, 56) =~= d);
}

/// The SHA-256 digest of `data`.
pub uninterp spec fn sha256(data: Seq<u8>) -> Seq<u8>;

/// The LZ4 block compression of `data`, prefixed with its length as a
/// little-endian `u32`.
pub uninterp spec fn lz4_compress_prepend_size(data: Seq<u8>) -> Seq<u8>;

/// Trusted: the SHA-256 digest of `data` by `sha2::Sha256` (`new`, `update`,
/// `finalize`). The contract names the result; nothing about its value is
/// stated beyond its being a function of `data`.
#[verifier::external_body]
fn sha256_digest(data: &[u8]) -> (r: [u8; 32])
    ensures
        r@ == sha256(data@),
{
    let mut hasher = sha2::Sha256::new();
    hasher.update(data);
    hasher.finalize().into()
}

/// Trusted: `lz4_flex::compress_prepend_size`. Its result is named; as its
/// source shows, it starts with the input length cast to `u32`, little-endian.
/// Inputs with `110 · length > usize::MAX` are left out: the bound on the
/// output size it computes first, `length * 110 / 100`, would overflow. That its output buffer can be allocated
/// is not stated.
#[verifier::external_body]
fn lz4_compress(data: &[u8]) -> (r: Vec<u8>)
    requires
        data@.len() * 110 <= usize::MAX,
    ensures
        r@ == lz4_compress_prepend_size(data@),
        r@.len() >= 4,
        r@.subrange(0, 4) == spec_u32_to_le_bytes(data@.len() as u32),
{
    lz4_flex::compress_prepend_size(data)
}

/// On 64-bit targets, runs of `0xFF` bytes shorter than this keep every
/// length that LZ4's decoder adds up from such a run within a `u32`.
pub const FF_RUN_LIMIT: usize = 16843009;

/// On 32-bit targets, runs of `0xFF` bytes shorter than this keep every
/// literal or match length the decoder builds from such a run, added to a
/// position in an output of at most `i32::MAX` bytes, within a `usize`.
pub const FF_RUN_LIMIT_32: usize = 8421503;

/// The run limit of this target: `FF_RUN_LIMIT` where `usize` has 64 bits,
/// `FF_RUN_LIMIT_32` where it has 32.
pub open spec fn run_limit() -> nat {
    if usize::BITS == 64 { FF_RUN_LIMIT as nat } else { FF_RUN_LIMIT_32 as nat }
}

/// The run limit of this target.
pub fn run_limit_here() -> (r: usize)
    ensures
        r == run_limit(),
{
    if usize::BITS == 64 { FF_RUN_LIMIT } else { FF_RUN_LIMIT_32 }
}

/// The length of the run of `0xFF` bytes that ends just before index `i`.
pub open spec fn ff_run_before(s: Seq<u8>, i: int) -> nat
    decreases i,
{
    if i <= 0 {
        0
    } else if s[i - 1] == 0xFFu8 {
        ff_run_before(s, i - 1) + 1
    } else {
        0
    }
}

/// Every run of `0xFF` bytes in `s` is shorter than the run limit.
pub open spec fn short_ff_runs(s: Seq<u8>) -> bool {
    forall|i: int| 0 <= i <= s.len() ==> #[trigger] ff_run_before(s, i) < run_limit()
}

/// Whether every run of `0xFF` bytes in `data` is shorter than the run limit.
pub fn has_short_ff_runs(data: &[u8]) -> (b: bool)
    ensures
        b == short_ff_runs(data@),
{
    let limit = run_limit_here();
    let mut run: usize = 0;
    let mut i: usize = 0;
    while i < data.len()
        invariant
            i <= data@.len(),
            limit == run_limit(),
            run == ff_run_before(data@, i as int),
            forall|j: int| 0 <= j <= i ==> #[trigger] ff_run_before(data@, j) < run_limit(),
        decreases data@.len() - i,
    {
        if data[i] == 0xFFu8 {
            run = run + 1;
            if run >= limit {
                assert(ff_run_before(data@, i + 1) == run);
                return false;
            }
        } else {
            run = 0;
        }
        i = i + 1;
    }
    true
}

/// LZ4's decoder can take `input` on this target without panicking: its
/// runs of `0xFF` bytes are short, and on a 32-bit target the size prefix
/// (the output it allocates) is at most `i32::MAX`.
pub open spec fn decodable_here(input: Seq<u8>) -> bool {
    &&& short_ff_runs(input)
    &&& (usize::BITS == 32 && input.len() >= 4 ==> spec_u32_from_le_bytes(input.subrange(0, 4)) <= 0x7FFF_FFFF)
}

/// Whether LZ4's decoder can take `input` on this target (see
/// `decodable_here`).
pub fn is_decodable_here(input: &[u8]) -> (b: bool)
    ensures
        b == decodable_here(input@),
{
    if !has_short_ff_runs(input) {
        return false;
    }
    if usize::BITS == 32 && input.len() >= 4 {
        let size = u32_from_le_bytes(slice_subrange(input, 0, 4));
        return size <= 0x7FFF_FFFF;
    }
    true
}

/// What LZ4 block decompression with a four-byte size prefix gives back
/// for `input`: the decompressed bytes, or `None` where `input` is not a
/// valid block of that form.
pub uninterp spec fn lz4_decompress_size_prepended(input: Seq<u8>) -> Option<Seq<u8>>;

/// The bytes of an optional vector.
pub open spec fn opt_bytes(v: Option<Vec<u8>>) -> Option<Seq<u8>> {
    match v {
        Some(x) => Some(x@),
        None => None,
    }
}

/// Trusted: `lz4_flex::decompress_size_prepended`, with its error mapped to
/// `None`; its result is named `lz4_decompress_size_prepended`. Its length
/// decoder adds up runs of `0xFF` bytes in a `u32`, then adds that sum to a
/// `usize` length and to the output position; these overflow (and panic
/// where overflow is checked) on long enough runs, and on a 32-bit target it
/// cannot allocate an output larger than `i32::MAX`, so inputs that are not
/// `decodable_here` are left out. As its source and documentation show, it
/// fails on inputs shorter than the four-byte size prefix, and it gives
/// back `d` from the output of `compress_prepend_size(d)` when the length of
/// `d` fits the `u32` prefix. That the output buffer of the size the prefix
/// gives can be allocated on this machine is not stated.
#[verifier::external_body]
fn lz4_decompress(input: &[u8]) -> (r: Option<Vec<u8>>)
    requires
        decodable_here(input@),
    ensures
        opt_bytes(r) == lz4_decompress_size_prepended(input@),
        r is Some ==> input@.len() >= 4,
        forall|d: Seq<u8>| #[trigger] lz4_compress_prepend_size(d) == input@ && d.len() <= u32::MAX ==> r is Some && r.unwrap()@ == d,
{
    lz4_flex::decompress_size_prepended(input).ok()
}

/// The bytes hashed to identify the parameters `max_log_n`:
/// `"DORY-v1:"`, `max_log_n` as a little-endian `u64`, then `":setup"`.
pub open spec fn params_message(max_log_n: u64) -> Seq<u8> {
    seq![68u8, 79u8, 82u8, 89u8, 45u8, 118u8, 49u8, 58u8] + spec_u64_to_le_bytes(max_log_n)
        + seq![58u8, 115u8, 101u8, 116u8, 117u8, 112u8]
}

/// Appends the bytes of `tail` to `out`.
fn push_bytes(out: &mut Vec<u8>, tail: &[u8])
    ensures
        final(out)@ == old(out)@ + tail@,
{
    let ghost start = out@;
    let mut i: usize = 0;
    while i < tail.len()
        invariant
            i <= tail@.len(),
            out@ == start + tail@.subrange(0, i as int),
        decreases tail@.len() - i,
    {
        out.push(tail[i]);
        i = i + 1;
        assert(out@ =~= start + tail@.subrange(0, i as int));
    }
    assert(tail@.subrange(0, tail@.len() as int) =~= tail@);
}

/// SHA-256 of the parameter description of `max_log_n`.
pub fn compute_params_hash(max_log_n: usize) -> (r: [u8; 32])
    ensures
        r@ == sha256(params_message(max_log_n as u64)),
{
    let mut msg: Vec<u8> = Vec::new();
    let prefix = [68u8, 79u8, 82u8, 89u8, 45u8, 118u8, 49u8, 58u8];
    let suffix = [58u8, 115u8, 101u8, 116u8, 117u8, 112u8];
    assert(prefix@ =~= seq![68u8, 79u8, 82u8, 89u8, 45u8, 118u8, 49u8, 58u8]);
    assert(suffix@ =~= seq![58u8, 115u8, 101u8, 116u8, 117u8, 112u8]);
    push_bytes(&mut msg, &prefix);
    let le = u64_to_le_bytes(max_log_n as u64);
    push_bytes(&mut msg, le.as_slice());
    push_bytes(&mut msg, &suffix);
    assert(msg@ =~= params_message(max_log_n as u64));
    sha256_digest(msg.as_slice())
}

/// LZ4 compression with the uncompressed size prepended.
pub fn compress(data: &[u8]) -> (r: Vec<u8>)
    requires
        data@.len() * 110 <= usize::MAX,
    ensures
        r@ == lz4_compress_prepend_size(data@),
        r@.len() >= 4,
        r@.subrange(0, 4) == spec_u32_to_le_bytes(data@.len() as u32),
{
    lz4_compress(data)
}

/// The decompressed bytes `decompressed` if they are `expected_size` long,
/// else `None`.
pub fn accept_decompressed(decompressed: Option<Vec<u8>>, expected_size: usize) -> (r: Option<Vec<u8>>)
    ensures
        opt_bytes(r) == (match opt_bytes(decompressed) {
            Some(d) => if d.len() == expected_size { Some(d) } else { None },
            None => None,
        }),
{
    match decompressed {
        Some(d) => {
            if d.len() == expected_size {
                Some(d)
            } else {
                None
            }
        },
        None => None,
    }
}

/// Decompresses the output of `compress`: the LZ4 decompression of
/// `compressed` when it is `expected_size` bytes long; `None` when the
/// decoder cannot take the input on this target (`decodable_here`: a long
/// run of `0xFF` bytes, on which its length sums would overflow, or on a
/// 32-bit target a size prefix above `i32::MAX`), when decompression fails,
/// or when the result has another length.
pub fn decompress(compressed: &[u8], expected_size: usize) -> (r: Option<Vec<u8>>)
    ensures
        !decodable_here(compressed@) ==> r is None,
        decodable_here(compressed@) ==> opt_bytes(r) == (match lz4_decompress_size_prepended(compressed@) {
            Some(d) => if d.len() == expected_size { Some(d) } else { None },
            None => None,
        }),
        r matches Some(v) ==> v@.len() == expected_size,
        compressed@.len() < 4 ==> r is None,
        forall|d: Seq<u8>| #[trigger] lz4_compress_prepend_size(d) == compressed@ && d.len() <= u32::MAX
            && decodable_here(compressed@)
            ==> (if d.len() == expected_size { r matches Some(v) && v@ == d } else { r is None }),
{
    if !is_decodable_here(compressed) {
        return None;
    }
    let d = lz4_decompress(compressed);
    accept_decompressed(d, expected_size)
}

/// A whole cache file for `max_log_n` and `data`: the header of the current
/// version with the parameter hash and both sizes, then the compressed data.
pub open spec fn cache_file_bytes(max_log_n: u64, data: Seq<u8>) -> Seq<u8> {
    let comp = lz4_compress_prepend_size(data);
    cache_magic_seq() + spec_u32_to_le_bytes(CACHE_VERSION) + sha256(params_message(max_log_n))
        + spec_u64_to_le_bytes(comp.len() as u64) + spec_u64_to_le_bytes(data.len() as u64) + comp
}

/// The cache file holding `data` for the parameters `max_log_n`.
pub fn encode_cache_file(max_log_n: usize, data: &[u8]) -> (r: Vec<u8>)
    requires
        data@.len() * 110 <= usize::MAX,
    ensures
        r@ == cache_file_bytes(max_log_n as u64, data@),
{
    let params_hash = compute_params_hash(max_log_n);
    let compressed = compress(data);
    let header = CacheHeader::new(params_hash, compressed.len() as u64, data.len() as u64);
    let mut out = header.to_bytes();
    push_bytes(&mut out, compressed.as_slice());
    proof {
        assert(header.magic@ == cache_magic_seq());
    }
    out
}

/// The fields of a cache file built by `encode_cache_file` are where the
/// header reader looks for them.
proof fn lemma_cache_file_fields(max_log_n: u64, data: Seq<u8>)
    requires
        sha256(params_message(max_log_n)).len() == 32,
    ensures
        ({
            let b = cache_file_bytes(max_log_n, data);
            let comp = lz4_compress_prepend_size(data);
            &&& b.len() == HEADER_SIZE + comp.len()
            &&& b.subrange(0, 4) == cache_magic_seq()
            &&& decoded_version(b) == CACHE_VERSION
            &&& decoded_hash(b) == sha256(params_message(max_log_n))
            &&& decoded_compressed_size(b) == comp.len() as u64
            &&& decoded_decompressed_size(b) == data.len() as u64
            &&& b.subrange(HEADER_SIZE as int, HEADER_SIZE + comp.len()) == comp
        }),
{
    lemma_auto_spec_u32_to_from_le_bytes();
    lemma_auto_spec_u64_to_from_le_bytes();
    let b = cache_file_bytes(max_log_n, data);
    let comp = lz4_compress_prepend_size(data);
    let hash = sha256(params_message(max_log_n));
    let v = spec_u32_to_le_bytes(CACHE_VERSION);
    let c = spec_u64_to_le_bytes(comp.len() as u64);
    let d = spec_u64_to_le_bytes(data.len() as u64);
    assert(b.subrange(0, 4) =~= cache_magic_seq());
    assert(b.subrange(4, 8) =~= v);
    assert(b.subrange(8, 40) =~= hash);
    assert(b.subrange(40, 48) =~= c);
    assert(b.subrange(48, 56) =~= d);
    assert(b.subrange(HEADER_SIZE as int, HEADER_SIZE + comp.len()) =~= comp);
}

/// Reads the data back from a cache file for `max_log_n`: `None` when the
/// header is missing or unreadable, the parameter hash differs, the file is
/// shorter than the compressed size says, or the data does not decompress to
/// the recorded size. A file built by `encode_cache_file` for the same
/// parameters gives back the data it was built from.
pub fn decode_cache_file(max_log_n: usize, contents: &[u8]) -> (r: Option<Vec<u8>>)
    ensures
        r is Some ==> {
            &&& header_accepts(contents@)
            &&& decoded_hash(contents@) == sha256(params_message(max_log_n as u64))
            &&& decoded_compressed_size(contents@) as usize <= contents@.len() - HEADER_SIZE
            &&& r.unwrap()@.len() == decoded_decompressed_size(contents@) as usize
        },
        forall|d: Seq<u8>| #[trigger] cache_file_bytes(max_log_n as u64, d) == contents@ && d.len() <= u32::MAX
            && decodable_here(lz4_compress_prepend_size(d))
            ==> r is Some && r.unwrap()@ == d,
{
    let params_hash = compute_params_hash(max_log_n);
    let header = match CacheHeader::from_bytes(contents) {
        Some(h) => h,
        None => {
            proof {
                assert forall|d: Seq<u8>| #[trigger] cache_file_bytes(max_log_n as u64, d) == contents@ implies false by {
                    lemma_cache_file_fields(max_log_n as u64, d);
                }
            }
            return None;
        },
    };
    if !header.validate() {
        return None;
    }
    let mut i: usize = 0;
    while i < 32
        invariant
            i <= 32,
            params_hash@ == sha256(params_message(max_log_n as u64)),
            params_hash@.len() == 32,
            header.params_hash@.len() == 32,
            header_decodes(header, contents@),
            forall|j: int| 0 <= j < i ==> header.params_hash@[j] == params_hash@[j],
        decreases 32 - i,
    {
        if header.params_hash[i] != params_hash[i] {
            proof {
                assert(header.params_hash@ != params_hash@);
                assert forall|d: Seq<u8>| #[trigger] cache_file_bytes(max_log_n as u64, d) == contents@ implies false by {
                    lemma_cache_file_fields(max_log_n as u64, d);
                }
            }
            return None;
        }
        i = i + 1;
    }
    assert(header.params_hash@ =~= params_hash@);
    let cs = header.compressed_size as usize;
    let rest = contents.len() - HEADER_SIZE;
    if cs > rest {
        proof {
            assert forall|d: Seq<u8>| #[trigger] cache_file_bytes(max_log_n as u64, d) == contents@ implies false by {
                lemma_cache_file_fields(max_log_n as u64, d);
            }
        }
        return None;
    }
    let compressed = slice_subrange(contents, HEADER_SIZE, HEADER_SIZE + cs);
    let r = decompress(compressed, header.decompressed_size as usize);
    proof {
        assert forall|d: Seq<u8>| #[trigger] cache_file_bytes(max_log_n as u64, d) == contents@ && d.len() <= u32::MAX
            && decodable_here(lz4_compress_prepend_size(d))
            implies r is Some && r.unwrap()@ == d by {
            lemma_cache_file_fields(max_log_n as u64, d);
            let comp = lz4_compress_prepend_size(d);
            assert(compressed@ =~= comp);
        }
    }
    r
}

/// Where `len` bytes of the setup body from `offset` lie in a cache file
/// whose setup holds `size` bytes: `(start, end)` with
/// `start = HEADER_SIZE + offset` and `end = start + len`, or `None` when
/// the range runs past `size` (or past the largest address).
pub fn setup_body_range(offset: usize, len: usize, size: usize) -> (r: Option<(usize, usize)>)
    ensures
        r == (if offset + len <= size && HEADER_SIZE + offset + len <= usize::MAX {
            Some(((HEADER_SIZE + offset) as usize, (HEADER_SIZE + offset + len) as usize))
        } else {
            None::<(usize, usize)>
        }),
{
    if offset > size || len > size - offset {
        return None;
    }
    if offset > usize::MAX - HEADER_SIZE || len > usize::MAX - HEADER_SIZE - offset {
        return None;
    }
    let start = HEADER_SIZE + offset;
    Some((start, start + len))
}

/// The decimal digits of `n`, most significant first.
pub open spec fn decimal_digits(n: nat) -> Seq<char>
    decreases n,
{
    if n < 10 {
        seq![digit_char(n)]
    } else {
        decimal_digits(n / 10).push(digit_char(n % 10))
    }
}

/// The character of the digit `d` (`0`..`9`), or of the lowercase hex digit
/// `d` (`a`..`f`) for `10 <= d < 16`.
pub open spec fn digit_char(d: nat) -> char {
    if d < 10 {
        (48 + d) as char
    } else {
        (87 + d) as char
    }
}

/// Lowercase hexadecimal of `data`, two digits per byte, high nibble first.
pub open spec fn hex_lower(data: Seq<u8>) -> Seq<char>
    decreases data.len(),
{
    if data.len() == 0 {
        Seq::empty()
    } else {
        hex_lower(data.drop_last()) + seq![digit_char((data.last() / 16) as nat), digit_char((data.last() % 16) as nat)]
    }
}

/// The name of the cache file for `max_log_n` and its parameter hash:
/// `dory_<max_log_n>_<hash in hex>.cache`.
pub open spec fn cache_file_name_spec(max_log_n: nat, params_hash: Seq<u8>) -> Seq<char> {
    seq!['d', 'o', 'r', 'y', '_'] + decimal_digits(max_log_n) + seq!['_'] + hex_lower(params_hash)
        + seq!['.', 'c', 'a', 'c', 'h', 'e']
}

/// Trusted: `hex::encode`, which its documentation says writes each byte as
/// two lowercase hexadecimal digits.
#[verifier::external_body]
fn hex_encode(data: &[u8]) -> (r: String)
    ensures
        r@ == hex_lower(data@),
{
    hex::encode(data)
}

/// Trusted: `String::push`, which appends one character.
#[verifier::external_body]
fn push_char(s: &mut String, c: char)
    ensures
        final(s)@ == old(s)@.push(c),
{
    s.push(c)
}

/// Appends the decimal digits of `n`.
fn push_decimal(s: &mut String, n: usize)
    ensures
        final(s)@ == old(s)@ + decimal_digits(n as nat),
    decreases n,
{
    if n >= 10 {
        push_decimal(s, n / 10);
    }
    let d = (n % 10) as u8;
    let c = (48u8 + d) as char;
    assert(c == digit_char((n % 10) as nat));
    push_char(s, c);
    proof {
        if n < 10 {
            assert(final(s)@ =~= old(s)@ + decimal_digits(n as nat));
        } else {
            assert(final(s)@ =~= old(s)@ + decimal_digits(n as nat));
        }
    }
}

/// The cache file name `dory_<max_log_n>_<hex of params_hash>.cache`.
pub fn cache_file_name(max_log_n: usize, params_hash: [u8; 32]) -> (r: String)
    ensures
        r@ == cache_file_name_spec(max_log_n as nat, params_hash@),
{
    let mut s = String::new();
    proof {
        reveal_strlit("dory_");
        reveal_strlit(".cache");
    }
    s.append("dory_");
    push_decimal(&mut s, max_log_n);
    push_char(&mut s, '_');
    let h = hex_encode(&params_hash);
    s.append(h.as_str());
    s.append(".cache");
    assert(s@ =~= cache_file_name_spec(max_log_n as nat, params_hash@));
    s
}

} // verus!
