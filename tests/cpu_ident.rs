use cureos::cpu::{save_id_string, IdCopy};

#[test]
fn vendor_string_fits() {
    let mut out = vec![0xFFu8; 16];
    assert_eq!(save_id_string(Some(b"GenuineIntel"), &mut out, 13), IdCopy::Copied(12));
    assert_eq!(&out[..13], b"GenuineIntel\0");
    assert_eq!(&out[13..], &[0xFF, 0xFF, 0xFF]);
}

#[test]
fn long_string_is_truncated() {
    let mut out = vec![0xFFu8; 13];
    assert_eq!(save_id_string(Some(b"AuthenticAMD-extra"), &mut out, 13), IdCopy::Copied(12));
    assert_eq!(&out[..], b"AuthenticAMD\0");
}

#[test]
fn buffer_too_small_is_untouched() {
    let mut out = vec![7u8; 48];
    assert_eq!(save_id_string(Some(b"brand"), &mut out, 49), IdCopy::BufferTooSmall);
    assert!(out.iter().all(|&b| b == 7));
}

#[test]
fn missing_string_marked_unknown() {
    let mut out = vec![7u8; 13];
    assert_eq!(save_id_string(None, &mut out, 13), IdCopy::Unavailable);
    assert_eq!(&out[..3], &[b'?', 0, 7]);
}
