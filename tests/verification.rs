use inscribe::digest::{check_digest, digest_hex, digest_matches_lowered, sha256_hex};
use inscribe::operation::OpError;
use inscribe::sampling::{sample_offsets, sampled_compare};

fn image() -> Vec<u8> {
    (0..1_000_000u32).map(|i| (i * 7 % 251) as u8).collect()
}

#[test]
fn identical_buffers_compare_equal() {
    let a = image();
    let b = a.clone();
    assert!(matches!(sampled_compare(&a, &b, 10, 4096), Ok(true)));
}

#[test]
fn flipped_byte_in_a_window_is_found() {
    let a = image();
    for off in sample_offsets(a.len() as u64, 10, 4096) {
        for pos in [off, off + 4095] {
            let mut b = a.clone();
            b[pos as usize] ^= 0xff;
            assert!(matches!(sampled_compare(&a, &b, 10, 4096), Ok(false)));
        }
    }
}

#[test]
fn byte_outside_windows_is_not_read() {
    let a = image();
    let mut b = a.clone();
    b[4096 + 10] ^= 1;
    assert!(matches!(sampled_compare(&a, &b, 10, 4096), Ok(true)));
}

#[test]
fn no_samples_always_pass() {
    let a = image();
    let other = vec![0u8; 3];
    assert!(matches!(sampled_compare(&a, &other, 0, 4096), Ok(true)));
    assert!(matches!(sampled_compare(&a, &other, 10, 0), Ok(true)));
}

#[test]
fn short_target_is_a_read_failure() {
    let a = image();
    let short = a[..500_000].to_vec();
    assert!(matches!(sampled_compare(&a, &short, 10, 4096), Err(OpError::IoFailure)));
    let tiny = vec![1u8; 10];
    assert!(matches!(sampled_compare(&tiny, &tiny, 3, 4096), Err(OpError::IoFailure)));
}

#[test]
fn offsets_are_spaced_and_clamped() {
    assert_eq!(sample_offsets(1_000_000, 10, 4096)[..3], [0, 100_000, 200_000]);
    assert_eq!(sample_offsets(1_000_000, 10, 4096)[9], 900_000);
    assert_eq!(sample_offsets(10_000, 4, 4096), vec![0, 2500, 5000, 5904]);
    assert!(sample_offsets(10_000, 0, 4096).is_empty());
}

#[test]
fn sha256_of_known_input() {
    assert_eq!(sha256_hex(b"abc"), "ba7816bf8f01cfea414140de5dae2223b00361a396177a9cb410ff61f20015ad");
    assert_eq!(sha256_hex(b""), "e3b0c44298fc1c149afbf4c8996fb92427ae41e4649b934ca495991b7852b855");
    assert_eq!(sha256_hex(&[7u8; 100_000]).len(), 64);
}

#[test]
fn expected_digest_in_any_case() {
    let actual = sha256_hex(b"abc");
    assert!(check_digest(None, &actual).is_ok());
    assert!(check_digest(Some("BA7816BF8F01CFEA414140DE5DAE2223B00361A396177A9CB410FF61F20015AD"), &actual).is_ok());
    assert!(matches!(check_digest(Some("00"), &actual), Err(OpError::VerificationMismatch)));
    assert!(digest_matches_lowered("ab", "ab"));
    assert!(!digest_matches_lowered("AB", "ab"));
}

#[test]
fn hex_of_bytes() {
    assert_eq!(digest_hex(&[0x00, 0x0f, 0xa0, 0xff]), "000fa0ff");
    assert_eq!(digest_hex(&[]), "");
}
