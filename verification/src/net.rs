//! The internet checksum (RFC 1071) and the Ethernet/IPv4/ICMP echo-request
//! frame that the driver transmits.

use vstd::prelude::*;

verus! {

/// One's-complement 16-bit addition: the carry out of the high bit is added
/// back into the low bits ("end-around carry").
pub open spec fn oc_add(a: u16, b: u16) -> u16 {
    if a + b > 0xFFFF {
        (a + b - 0xFFFF) as u16
    } else {
        (a + b) as u16
    }
}

/// The big-endian 16-bit word formed by a high and a low byte.
pub open spec fn be_word(hi: u8, lo: u8) -> u16 {
    (hi as int * 256 + lo as int) as u16
}

/// One's-complement sum of the big-endian 16-bit words of `data`.
/// An odd final byte is the high byte of a last word whose low byte is zero.
pub open spec fn oc_sum(data: Seq<u8>) -> u16
    decreases data.len(),
{
    if data.len() == 0 {
        0u16
    } else if data.len() % 2 == 1 {
        oc_add(oc_sum(data.take(data.len() - 1)), be_word(data[data.len() - 1], 0))
    } else {
        oc_add(
            oc_sum(data.take(data.len() - 2)),
            be_word(data[data.len() - 2], data[data.len() - 1]),
        )
    }
}

/// The internet checksum: the bitwise complement of the folded one's-complement
/// sum of `data`.
pub open spec fn checksum_spec(data: Seq<u8>) -> u16 {
    !oc_sum(data)
}

/// One's-complement 16-bit addition, folding the carry back in at every step;
/// this computes the same 16-bit value as summing into a wide accumulator and
/// folding the accumulated carries at the end.
fn oc_add16(a: u16, b: u16) -> (r: u16)
    ensures
        r == oc_add(a, b),
{
    let s: u32 = a as u32 + b as u32;
    if s > 0xFFFF {
        (s - 0xFFFF) as u16
    } else {
        s as u16
    }
}

/// The internet checksum of `data`, bit-exact per RFC 1071 so that frames
/// carrying it interoperate with real IP stacks.
pub fn checksum(data: &[u8]) -> (r: u16)
    ensures
        r == checksum_spec(data@),
{
    let n = data.len();
    let mut sum: u16 = 0;
    let mut i: usize = 0;
    while n - i >= 2
        invariant
            i % 2 == 0,
            i <= n,
            n == data@.len(),
            sum == oc_sum(data@.take(i as int)),
        decreases n - i,
    {
        let word = (data[i] as u16) * 256 + (data[i + 1] as u16);
        assert(word == be_word(data@[i as int], data@[i as int + 1]));
        sum = oc_add16(sum, word);
        proof {
            let t = data@.take(i as int + 2);
            assert(t.take(i as int) =~= data@.take(i as int));
            assert(t[i as int] == data@[i as int]);
            assert(t[i as int + 1] == data@[i as int + 1]);
        }
        i = i + 2;
    }
    if i < n {
        let word = (data[n - 1] as u16) * 256;
        sum = oc_add16(sum, word);
        proof {
            let t = data@;
            assert(t.take(n - 1) =~= data@.take(i as int));
            assert(t.len() % 2 == 1);
        }
    }
    proof {
        assert(data@.take(n as int) =~= data@);
    }
    !sum
}

/// High byte of a 16-bit value.
pub open spec fn hi8(x: u16) -> u8 {
    (x / 256) as u8
}

/// Low byte of a 16-bit value.
pub open spec fn lo8(x: u16) -> u8 {
    (x % 256) as u8
}

/// Total frame length: 14 Ethernet + 20 IPv4 + 8 ICMP header + 56 payload.
pub const FRAME_LEN: usize = 98;

/// Ethernet header: broadcast destination, the driver's source MAC, and the
/// IPv4 ethertype `0x0800`.
pub open spec fn eth_header(mac: Seq<u8>) -> Seq<u8> {
    seq![0xFFu8, 0xFF, 0xFF, 0xFF, 0xFF, 0xFF] + mac + seq![0x08u8, 0x00]
}

/// IPv4 header with the checksum field still zero: version 4 / IHL 5, total
/// length 84, identification 1, TTL 64, protocol ICMP, source 10.0.2.15,
/// destination 10.0.2.2 (the gateway).
pub open spec fn ip_header_unsummed() -> Seq<u8> {
    seq![
        0x45u8, 0x00, 0x00, 0x54, 0x00, 0x01, 0x00, 0x00, 0x40, 0x01, 0x00, 0x00, 0x0A, 0x00,
        0x02, 0x0F, 0x0A, 0x00, 0x02, 0x02,
    ]
}

/// The 56 payload bytes: byte `i` is `0x20 + i`.
pub open spec fn icmp_payload() -> Seq<u8> {
    Seq::new(56, |i: int| (0x20 + i) as u8)
}

/// ICMP echo request (type 8, code 0) with identifier 1, the caller's
/// sequence number in big-endian, the checksum field still zero, and the
/// fixed payload.
pub open spec fn icmp_unsummed(seq_no: u16) -> Seq<u8> {
    seq![0x08u8, 0x00, 0x00, 0x00, 0x00, 0x01, hi8(seq_no), lo8(seq_no)] + icmp_payload()
}

/// The whole 98-byte frame before either checksum is filled in.
pub open spec fn frame_unsummed(mac: Seq<u8>, seq_no: u16) -> Seq<u8> {
    eth_header(mac) + ip_header_unsummed() + icmp_unsummed(seq_no)
}

/// The transmitted frame: the unsummed frame with the IPv4 header checksum
/// (over bytes 14..34) written at bytes 24..26 and the ICMP checksum (over
/// bytes 34..98) written at bytes 36..38, both big-endian.
pub open spec fn echo_frame(mac: Seq<u8>, seq_no: u16) -> Seq<u8> {
    let pre = frame_unsummed(mac, seq_no);
    let ipc = checksum_spec(pre.subrange(14, 34));
    let icc = checksum_spec(pre.subrange(34, 98));
    pre.update(24, hi8(ipc)).update(25, lo8(ipc)).update(36, hi8(icc)).update(37, lo8(icc))
}

/// One's-complement addition tolerates reordering: adding `b` then `w`
/// reaches the same fold as adding `w` then `b`.
proof fn lemma_oc_add_swap(a: u16, b: u16, w: u16)
    ensures
        oc_add(oc_add(a, w), b) == oc_add(oc_add(a, b), w),
{
}

/// Writing a big-endian word over an aligned zero word adds that word, in
/// the one's-complement sense, to the sum of the region.
proof fn lemma_insert_word(data: Seq<u8>, p: int, hi: u8, lo: u8)
    requires
        data.len() % 2 == 0,
        0 <= p,
        p + 2 <= data.len(),
        p % 2 == 0,
        data[p] == 0,
        data[p + 1] == 0,
    ensures
        oc_sum(data.update(p, hi).update(p + 1, lo)) == oc_add(oc_sum(data), be_word(hi, lo)),
    decreases data.len(),
{
    let up = data.update(p, hi).update(p + 1, lo);
    let last = data.len() - 2;
    if p == last {
        assert(up.take(last) =~= data.take(last));
        assert(be_word(data[last], data[last + 1]) == 0);
    } else {
        assert(up.take(last) =~= data.take(last).update(p, hi).update(p + 1, lo));
        lemma_insert_word(data.take(last), p, hi, lo);
        lemma_oc_add_swap(
            oc_sum(data.take(last)),
            be_word(data[last], data[last + 1]),
            be_word(hi, lo),
        );
    }
}

/// The standard validation identity: writing the checksum computed over a
/// region whose checksum field is zero back into that field makes the whole
/// region sum to all-ones.
pub proof fn lemma_checksum_validates(data: Seq<u8>, p: int)
    requires
        data.len() % 2 == 0,
        0 <= p,
        p + 2 <= data.len(),
        p % 2 == 0,
        data[p] == 0,
        data[p + 1] == 0,
    ensures
        oc_sum(
            data.update(p, hi8(checksum_spec(data))).update(p + 1, lo8(checksum_spec(data))),
        ) == 0xFFFF,
{
    let s = oc_sum(data);
    let c = checksum_spec(data);
    assert(c == 0xFFFFu16 - s) by {
        assert(!s == (0xFFFFu16 - s) as u16) by (bit_vector);
    }
    lemma_insert_word(data, p, hi8(c), lo8(c));
    assert(be_word(hi8(c), lo8(c)) == c);
}

/// Both checksums embedded in the transmitted frame validate: summed over
/// the region that contains it, each yields all-ones, so any standard IP
/// stack accepts the headers.
pub proof fn lemma_frame_checksums_validate(mac: Seq<u8>, seq_no: u16)
    requires
        mac.len() == 6,
    ensures
        oc_sum(echo_frame(mac, seq_no).subrange(14, 34)) == 0xFFFF,
        oc_sum(echo_frame(mac, seq_no).subrange(34, 98)) == 0xFFFF,
{
    let pre = frame_unsummed(mac, seq_no);
    let f = echo_frame(mac, seq_no);
    let iph = pre.subrange(14, 34);
    let ipc = checksum_spec(iph);
    assert(f.subrange(14, 34) =~= iph.update(10, hi8(ipc)).update(11, lo8(ipc)));
    lemma_checksum_validates(iph, 10);

    let ich = pre.subrange(34, 98);
    let icc = checksum_spec(ich);
    assert(f.subrange(34, 98) =~= ich.update(2, hi8(icc)).update(3, lo8(icc)));
    lemma_checksum_validates(ich, 2);
}

/// Builds the Ethernet/IPv4/ICMP echo-request frame for the given source MAC
/// and sequence number, byte for byte as it goes on the wire.
pub fn build_echo_frame(mac: &[u8; 6], seq_no: u16) -> (f: Vec<u8>)
    ensures
        f@.len() == FRAME_LEN,
        f@ == echo_frame(mac@, seq_no),
{
    let mut f: Vec<u8> = Vec::new();
    // Ethernet: broadcast destination, source MAC, IPv4 ethertype.
    f.push(0xFF);
    f.push(0xFF);
    f.push(0xFF);
    f.push(0xFF);
    f.push(0xFF);
    f.push(0xFF);
    f.push(mac[0]);
    f.push(mac[1]);
    f.push(mac[2]);
    f.push(mac[3]);
    f.push(mac[4]);
    f.push(mac[5]);
    f.push(0x08);
    f.push(0x00);
    assert(f@ =~= eth_header(mac@));
    // IPv4 header with a zero checksum placeholder.
    f.push(0x45);
    f.push(0x00);
    f.push(0x00);
    f.push(0x54);
    f.push(0x00);
    f.push(0x01);
    f.push(0x00);
    f.push(0x00);
    f.push(0x40);
    f.push(0x01);
    f.push(0x00);
    f.push(0x00);
    f.push(0x0A);
    f.push(0x00);
    f.push(0x02);
    f.push(0x0F);
    f.push(0x0A);
    f.push(0x00);
    f.push(0x02);
    f.push(0x02);
    assert(f@ =~= frame_unsummed(mac@, seq_no).take(34));
    // The IPv4 header checksum, recomputed over the 20 header bytes.
    let ipc = checksum(vstd::slice::slice_subrange(f.as_slice(), 14, 34));
    proof {
        assert(f@.subrange(14, 34) =~= frame_unsummed(mac@, seq_no).subrange(14, 34));
    }
    let iph: u8 = (ipc / 256) as u8;
    let ipl: u8 = (ipc % 256) as u8;
    f[24] = iph;
    f[25] = ipl;
    // ICMP echo request header with a zero checksum placeholder.
    f.push(0x08);
    f.push(0x00);
    f.push(0x00);
    f.push(0x00);
    f.push(0x00);
    f.push(0x01);
    f.push((seq_no / 256) as u8);
    f.push((seq_no % 256) as u8);
    // The payload: byte i is 0x20 + i.
    let ghost head = f@;
    let mut k: usize = 0;
    while k < 56
        invariant
            k <= 56,
            f@ =~= head + icmp_payload().take(k as int),
        decreases 56 - k,
    {
        f.push((0x20 + k) as u8);
        proof {
            assert(icmp_payload().take(k + 1) =~= icmp_payload().take(k as int).push(
                (0x20 + k) as u8,
            ));
        }
        k = k + 1;
    }
    proof {
        let pre = frame_unsummed(mac@, seq_no);
        assert(f@ =~= pre.update(24, hi8(ipc)).update(25, lo8(ipc)));
        assert(f@.subrange(34, 98) =~= pre.subrange(34, 98));
    }
    // The ICMP checksum, recomputed over all 64 ICMP bytes.
    let icc = checksum(vstd::slice::slice_subrange(f.as_slice(), 34, 98));
    f[36] = (icc / 256) as u8;
    f[37] = (icc % 256) as u8;
    proof {
        assert(f@ =~= echo_frame(mac@, seq_no));
    }
    f
}

} // verus!
