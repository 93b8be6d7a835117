use std::io::Write;

use di_migration::compression::{decompress, detect, finish_decoding, Error, Format};

fn gzip(payload: &[u8]) -> Vec<u8> {
    let mut encoder = flate2::write::GzEncoder::new(Vec::new(), flate2::Compression::default());
    encoder.write_all(payload).expect("should encode");
    encoder.finish().expect("should finish")
}

#[test]
fn gzip_is_detected_and_round_trips() {
    let payload = b"a perfectly ordinary pcp".to_vec();
    let compressed = gzip(&payload);

    assert_eq!(detect(&compressed), Some(Format::Gzip));
    assert_eq!(decompress(&compressed, 1024).expect("should decode"), payload);
}

#[test]
fn a_payload_in_no_known_format_is_rejected() {
    let error = decompress(b"not compressed at all", 1024).expect_err("should reject");

    assert!(matches!(error, Error::UnknownFormat));
}

/// The property that matters: a bomb stops at the limit instead of being allocated.
#[test]
fn a_compression_bomb_stops_at_the_limit() {
    let compressed = gzip(&vec![0u8; 8 * 1024 * 1024]);
    assert!(compressed.len() < 64 * 1024, "the bomb should be small");

    let error = decompress(&compressed, 1024).expect_err("should reject");

    assert!(matches!(error, Error::TooLarge { limit: 1024 }));
}

#[test]
fn a_payload_exactly_at_the_limit_is_accepted() {
    let payload = vec![3u8; 1024];
    let compressed = gzip(&payload);

    assert_eq!(decompress(&compressed, 1024).expect("should decode"), payload);
}

#[test]
fn a_truncated_stream_is_rejected() {
    let compressed = gzip(b"a perfectly ordinary pcp");
    let truncated = &compressed[..compressed.len() / 2];

    let error = decompress(truncated, 1024).expect_err("should reject");

    assert!(matches!(error, Error::Corrupt("gzip", _)));
}

#[test]
fn zstd_magic_is_detected() {
    assert_eq!(detect(&[0x28, 0xb5, 0x2f, 0xfd, 0x00]), Some(Format::Zstd));
    assert_eq!(detect(&[0x1f, 0x8b]), Some(Format::Gzip));
    assert_eq!(detect(&[0x1f]), None);
    assert_eq!(detect(&[]), None);
    assert_eq!(detect(&[0x28, 0xb5, 0x2f]), None);
}

#[test]
fn a_corrupt_zstd_frame_is_named_after_its_format() {
    let error = decompress(&[0x28, 0xb5, 0x2f, 0xfd, 0xff, 0xff], 1024).expect_err("should reject");

    assert!(matches!(error, Error::Corrupt("zstd", _)), "{error:?}");
}

#[test]
fn one_byte_past_the_limit_is_too_large() {
    let compressed = gzip(&vec![5u8; 1025]);

    let error = decompress(&compressed, 1024).expect_err("should reject");

    assert!(matches!(error, Error::TooLarge { limit: 1024 }));
}

#[test]
fn a_decoder_outcome_is_finished_by_the_limit() {
    assert_eq!(finish_decoding(Format::Gzip, Ok(vec![1, 2, 3]), 3).expect("fits"), vec![1, 2, 3]);
    assert!(matches!(
        finish_decoding(Format::Gzip, Ok(vec![1, 2, 3, 4]), 3),
        Err(Error::TooLarge { limit: 3 })
    ));
    match finish_decoding(Format::Zstd, Err("bad block".to_owned()), 3) {
        Err(Error::Corrupt(name, detail)) => {
            assert_eq!(name, "zstd");
            assert_eq!(detail, "bad block");
        }
        other => panic!("expected a corrupt stream, got {other:?}"),
    }
}

fn zstd(payload: &[u8]) -> Vec<u8> {
    ruzstd::encoding::compress_to_vec(payload, ruzstd::encoding::CompressionLevel::Fastest)
}

#[test]
fn zstd_is_detected_and_round_trips() {
    let payload = b"a perfectly ordinary pcp, in zstandard".to_vec();
    let compressed = zstd(&payload);

    assert_eq!(detect(&compressed), Some(Format::Zstd));
    assert_eq!(decompress(&compressed, 1024).expect("should decode"), payload);
}

#[test]
fn a_zstd_bomb_stops_at_the_limit() {
    let compressed = zstd(&vec![0u8; 1024 * 1024]);

    let error = decompress(&compressed, 1024).expect_err("should reject");

    assert!(matches!(error, Error::TooLarge { limit: 1024 }));
}
