use dory_pcs::setup_cache::{
    cache_file_name, cache_magic, compress, compute_params_hash, decode_cache_file, decompress,
    encode_cache_file, has_short_ff_runs, setup_body_range, accept_decompressed, CacheHeader, CACHE_VERSION, FF_RUN_LIMIT, HEADER_SIZE,
};

#[test]
fn test_header_roundtrip() {
    let params_hash = compute_params_hash(20);
    let header = CacheHeader::new(params_hash, 1000, 5000);
    let bytes = header.to_bytes();
    let recovered = CacheHeader::from_bytes(&bytes).unwrap();

    assert_eq!(recovered.magic, cache_magic());
    assert_eq!(recovered.version, CACHE_VERSION);
    assert_eq!(recovered.params_hash, params_hash);
    assert_eq!(recovered.compressed_size, 1000);
    assert_eq!(recovered.decompressed_size, 5000);
}

#[test]
fn test_compression() {
    let original: Vec<u8> = (0..10000).map(|i| i as u8).collect();
    let compressed = compress(&original);
    let decompressed = decompress(&compressed, original.len()).unwrap();
    assert_eq!(original, decompressed);
}

#[test]
fn test_params_hash() {
    let h1 = compute_params_hash(20);
    let h2 = compute_params_hash(20);
    let h3 = compute_params_hash(21);

    assert_eq!(h1, h2);
    assert_ne!(h1, h3);
}

#[test]
fn header_layout_and_rejections() {
    let header = CacheHeader::new([7u8; 32], 0x0102, 0x0304);
    let bytes = header.to_bytes();
    assert_eq!(bytes.len(), HEADER_SIZE);
    assert_eq!(&bytes[0..4], b"DORY");
    assert_eq!(&bytes[4..8], &[1, 0, 0, 0]);
    assert_eq!(&bytes[40..42], &[2, 1]);
    assert_eq!(&bytes[48..50], &[4, 3]);
    assert!(header.validate());

    assert!(CacheHeader::from_bytes(&bytes[..HEADER_SIZE - 1]).is_none());
    let mut bad_magic = bytes.clone();
    bad_magic[0] = b'X';
    assert!(CacheHeader::from_bytes(&bad_magic).is_none());
    let mut future = bytes.clone();
    future[4] = 2;
    assert!(CacheHeader::from_bytes(&future).is_none());
}

#[test]
fn compress_prepends_the_length() {
    let data = vec![9u8; 300];
    let c = compress(&data);
    assert_eq!(&c[0..4], &300u32.to_le_bytes());
    assert!(decompress(&c, 299).is_none());
    assert!(decompress(&c[..2], 300).is_none());
}

#[test]
fn cache_file_roundtrip_and_checks() {
    let data: Vec<u8> = (0..5000u32).map(|i| (i * 7 % 251) as u8).collect();
    let file = encode_cache_file(12, &data);
    assert_eq!(decode_cache_file(12, &file), Some(data.clone()));
    // Another parameter set does not accept the file.
    assert_eq!(decode_cache_file(13, &file), None);
    // A truncated file is refused.
    assert_eq!(decode_cache_file(12, &file[..file.len() - 1]), None);
    assert_eq!(decode_cache_file(12, &file[..10]), None);
}

#[test]
fn cache_file_name_format() {
    let mut hash = [0u8; 32];
    hash[0] = 0xab;
    hash[31] = 0x01;
    let name = cache_file_name(20, hash);
    let expected = format!("dory_20_ab{}01.cache", "00".repeat(30));
    assert_eq!(name, expected);
    assert_eq!(cache_file_name(0, [0u8; 32]), format!("dory_0_{}.cache", "00".repeat(32)));
}

#[test]
fn ff_runs_are_measured() {
    assert!(has_short_ff_runs(&[]));
    assert!(has_short_ff_runs(&[0xFF, 0xFF, 0x00, 0xFF]));
    let mut long = vec![0xFFu8; FF_RUN_LIMIT - 1];
    assert!(has_short_ff_runs(&long));
    long.push(0xFF);
    assert!(!has_short_ff_runs(&long));
}

#[test]
fn long_ff_run_is_refused_before_decoding() {
    // A size prefix, a token whose literal length continues, then a run of
    // 0xFF length bytes long enough to overflow the decoder's length sum.
    let mut data = vec![0x10u8, 0, 0, 0, 0xF0];
    data.extend(std::iter::repeat(0xFFu8).take(FF_RUN_LIMIT));
    assert_eq!(decompress(&data, 16), None);
    let data = vec![0u8; 3];
    assert_eq!(decompress(&data, 0), None);
}

#[test]
fn body_ranges_stay_within_the_setup() {
    assert_eq!(setup_body_range(0, 10, 10), Some((HEADER_SIZE, HEADER_SIZE + 10)));
    assert_eq!(setup_body_range(4, 6, 10), Some((HEADER_SIZE + 4, HEADER_SIZE + 10)));
    assert_eq!(setup_body_range(4, 7, 10), None);
    assert_eq!(setup_body_range(usize::MAX, 1, usize::MAX), None);
}

#[test]
fn decompressed_bytes_of_the_wrong_length_are_refused() {
    assert_eq!(accept_decompressed(Some(vec![1u8, 2]), 2), Some(vec![1u8, 2]));
    assert_eq!(accept_decompressed(Some(vec![1u8]), 2), None);
    assert_eq!(accept_decompressed(None, 0), None);
    let data = b"abcabcabcabcabcabc".to_vec();
    let c = compress(&data);
    assert_eq!(decompress(&c, data.len()), Some(data.clone()));
    assert_eq!(decompress(&c, data.len() + 1), None);
}
