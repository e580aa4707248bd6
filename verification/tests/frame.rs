//! The wire format of the transmitted frame: fixed header bytes, sequence
//! number placement, payload fill, and both embedded checksums.

use e1000_ping::net::{build_echo_frame, checksum};

const MAC: [u8; 6] = [0x52, 0x54, 0x00, 0x12, 0x34, 0x56];

/// Frame layout for sequence value 0x0001: every byte the wire format fixes.
#[test]
fn frame_layout_for_sequence_one() {
    let f = build_echo_frame(&MAC, 0x0001);
    assert_eq!(f.len(), 98);
    // Ethernet: broadcast destination, source MAC, IPv4 ethertype.
    assert_eq!(&f[0..6], &[0xFF, 0xFF, 0xFF, 0xFF, 0xFF, 0xFF]);
    assert_eq!(&f[6..12], &MAC);
    assert_eq!(f[12], 0x08);
    assert_eq!(f[13], 0x00);
    // IPv4: total length 84 big-endian, protocol ICMP.
    assert_eq!(f[16], 0x00);
    assert_eq!(f[17], 0x54);
    assert_eq!(f[23], 0x01);
    // ICMP: echo request, sequence 0x0001 big-endian, first payload byte.
    assert_eq!(f[34], 0x08);
    assert_eq!(f[40], 0x00);
    assert_eq!(f[41], 0x01);
    assert_eq!(f[42], 0x20);
}

/// The remaining fixed fields: version/IHL, identification, TTL, addresses,
/// ICMP identifier, and the whole payload ramp.
#[test]
fn frame_fixed_fields() {
    let f = build_echo_frame(&MAC, 0xABCD);
    assert_eq!(f[14], 0x45);
    assert_eq!(f[15], 0x00);
    // Identification 1, no flags or fragment offset.
    assert_eq!(&f[18..22], &[0x00, 0x01, 0x00, 0x00]);
    assert_eq!(f[22], 0x40);
    // Source 10.0.2.15, destination 10.0.2.2.
    assert_eq!(&f[26..30], &[0x0A, 0x00, 0x02, 0x0F]);
    assert_eq!(&f[30..34], &[0x0A, 0x00, 0x02, 0x02]);
    // ICMP code 0, identifier 1.
    assert_eq!(f[35], 0x00);
    assert_eq!(&f[38..40], &[0x00, 0x01]);
    // Sequence 0xABCD big-endian.
    assert_eq!(f[40], 0xAB);
    assert_eq!(f[41], 0xCD);
    // Payload byte i is 0x20 + i.
    for i in 0..56 {
        assert_eq!(f[42 + i], 0x20 + i as u8);
    }
}

/// The embedded IPv4 header checksum has its exact reference value, and
/// validates to zero when summed over the header that contains it.
#[test]
fn frame_ip_checksum() {
    let f = build_echo_frame(&MAC, 0x0001);
    assert_eq!(f[24], 0x62);
    assert_eq!(f[25], 0x98);
    assert_eq!(checksum(&f[14..34]), 0x0000);
}

/// The embedded ICMP checksum has its exact reference value, and validates
/// to zero over the full ICMP region.
#[test]
fn frame_icmp_checksum() {
    let f = build_echo_frame(&MAC, 0x0001);
    assert_eq!(f[36], 0x7D);
    assert_eq!(f[37], 0x67);
    assert_eq!(checksum(&f[34..98]), 0x0000);
}

/// The sequence number is the only thing that moves between frames.
#[test]
fn frame_sequence_is_only_variable() {
    let a = build_echo_frame(&MAC, 0x0102);
    let b = build_echo_frame(&MAC, 0x0304);
    for i in 0..98 {
        if i == 40 || i == 41 || i == 36 || i == 37 {
            continue;
        }
        assert_eq!(a[i], b[i]);
    }
    assert_eq!(a[40], 0x01);
    assert_eq!(a[41], 0x02);
    assert_eq!(b[40], 0x03);
    assert_eq!(b[41], 0x04);
}
