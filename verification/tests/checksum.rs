//! The internet checksum against published reference vectors, and its
//! standard validation identity.

use e1000_ping::net::checksum;

/// A well-known IPv4 header example: with the checksum field zeroed, the
/// computed checksum is 0xB861.
#[test]
fn checksum_reference_header() {
    let header: Vec<u8> = vec![
        0x45, 0x00, 0x00, 0x73, 0x00, 0x00, 0x40, 0x00, 0x40, 0x11, 0x00, 0x00, 0xC0, 0xA8, 0x00,
        0x01, 0xC0, 0xA8, 0x00, 0xC7,
    ];
    assert_eq!(checksum(&header), 0xB861);
}

/// Re-running the checksum over the header with the computed checksum
/// inserted complements an all-ones sum: the result is zero.
#[test]
fn checksum_validation_identity() {
    let header: Vec<u8> = vec![
        0x45, 0x00, 0x00, 0x73, 0x00, 0x00, 0x40, 0x00, 0x40, 0x11, 0xB8, 0x61, 0xC0, 0xA8, 0x00,
        0x01, 0xC0, 0xA8, 0x00, 0xC7,
    ];
    assert_eq!(checksum(&header), 0x0000);
}

#[test]
fn checksum_empty_input() {
    let empty: Vec<u8> = Vec::new();
    assert_eq!(checksum(&empty), 0xFFFF);
}

/// An odd final byte counts as the high byte of a last 16-bit word.
#[test]
fn checksum_odd_length() {
    let data: Vec<u8> = vec![0x01, 0x02, 0x03];
    // Words 0x0102 and 0x0300 sum to 0x0402.
    assert_eq!(checksum(&data), !0x0402u16);
}

/// A sum that overflows 16 bits folds the carry back in.
#[test]
fn checksum_carry_folds() {
    let data: Vec<u8> = vec![0xFF, 0xFF, 0x00, 0x02];
    // 0xFFFF + 0x0002 wraps to 0x0002 with the end-around carry.
    assert_eq!(checksum(&data), !0x0002u16);
}

/// A single zero byte checksums like a zero word.
#[test]
fn checksum_single_zero_byte() {
    let data: Vec<u8> = vec![0x00];
    assert_eq!(checksum(&data), 0xFFFF);
}
