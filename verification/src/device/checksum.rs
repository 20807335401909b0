//! The TCP checksum of an IPv4 datagram, recomputed in place.

use vstd::prelude::*;
use crate::device::packet::ipv4_header_len;
use crate::wire::{be_bytes2, be_value, lemma_be_value2, read_u16_be};

verus! {

/// The sum of the 16-bit big-endian words of `s`; an odd last byte counts as
/// the upper half of a word.
pub open spec fn word_sum(s: Seq<u8>) -> nat
    decreases s.len(),
{
    if s.len() == 0 {
        0
    } else if s.len() == 1 {
        s[0] as nat * 256
    } else {
        s[0] as nat * 256 + s[1] as nat + word_sum(s.subrange(2, s.len() as int))
    }
}

/// `n` with every carry above sixteen bits added back in.
pub open spec fn fold16(n: nat) -> nat
    decreases n,
{
    if n < 65536 {
        n
    } else {
        fold16(n % 65536 + n / 65536)
    }
}

/// The total length that an IPv4 header announces.
pub open spec fn ipv4_total_len(p: Seq<u8>) -> nat {
    be_value(p.subrange(2, 4))
}

/// Why a packet's checksum cannot be recomputed, if it cannot.
pub open spec fn refusal(p: Seq<u8>) -> Option<Seq<char>> {
    if p.len() < 20 {
        Some("packet too short for IPv4"@)
    } else if ipv4_header_len(p) < 20 || p.len() < ipv4_header_len(p) {
        Some("invalid IP header length"@)
    } else if ipv4_total_len(p) < ipv4_header_len(p) || p.len() < ipv4_total_len(p) {
        Some("invalid total length"@)
    } else if ipv4_total_len(p) - ipv4_header_len(p) < 20 {
        Some("TCP segment too short"@)
    } else {
        None
    }
}

/// The sum over the pseudo header (addresses, protocol, segment length) and
/// the segment without its checksum field.
pub open spec fn pseudo_sum(p: Seq<u8>) -> nat {
    let segment = p.subrange(ipv4_header_len(p) as int, ipv4_total_len(p) as int);
    word_sum(p.subrange(12, 16)) + word_sum(p.subrange(16, 20)) + p[9] as nat + segment.len()
        + word_sum(segment.subrange(0, 16)) + word_sum(
        segment.subrange(18, segment.len() as int),
    )
}

/// The checksum that belongs in the segment: the one's complement of the
/// folded sum.
pub open spec fn tcp_checksum(p: Seq<u8>) -> nat {
    (65535 - fold16(pseudo_sum(p))) as nat
}

/// The packet with the checksum written into bytes 16 and 17 of its segment.
pub open spec fn corrected(p: Seq<u8>) -> Seq<u8> {
    p.update(ipv4_header_len(p) as int + 16, be_bytes2(tcp_checksum(p))[0]).update(
        ipv4_header_len(p) as int + 17,
        be_bytes2(tcp_checksum(p))[1],
    )
}

/// Each word is at most 65535, so the sum is at most that for every two
/// bytes.
pub proof fn lemma_word_sum_bound(s: Seq<u8>)
    ensures
        word_sum(s) <= 65535 * ((s.len() + 1) / 2),
    decreases s.len(),
{
    if s.len() >= 2 {
        lemma_word_sum_bound(s.subrange(2, s.len() as int));
    }
}

/// Folding leaves a number below 65536.
pub proof fn lemma_fold16_bound(n: nat)
    ensures
        fold16(n) < 65536,
    decreases n,
{
    if n >= 65536 {
        lemma_fold16_bound(n % 65536 + n / 65536);
    }
}

/// Sums the 16-bit words of `data[from..to]`.
pub fn sum_words(data: &[u8], from: usize, to: usize) -> (s: u32)
    requires
        from <= to <= data@.len(),
        to - from <= 65536,
    ensures
        s == word_sum(data@.subrange(from as int, to as int)),
{
    let mut s: u32 = 0;
    let mut i: usize = from;
    proof {
        lemma_word_sum_bound(data@.subrange(from as int, to as int));
    }
    while to - i >= 2
        invariant
            from <= i <= to <= data@.len(),
            to - from <= 65536,
            s + word_sum(data@.subrange(i as int, to as int)) == word_sum(
                data@.subrange(from as int, to as int),
            ),
            word_sum(data@.subrange(from as int, to as int)) <= 65535 * 32768,
        decreases to - i,
    {
        let ghost rest = data@.subrange(i as int, to as int);
        assert(rest.subrange(2, rest.len() as int) =~= data@.subrange(i + 2, to as int));
        let hi: u32 = data[i] as u32;
        let lo: u32 = data[i + 1] as u32;
        s = s + (hi * 256 + lo);
        i = i + 2;
    }
    if to - i == 1 {
        let hi: u32 = data[i] as u32;
        s = s + hi * 256;
    }
    s
}

/// Recomputes the TCP checksum of the IPv4 datagram in `packet` and writes
/// it into the segment. A packet that is too short, or whose header length
/// or total length does not fit, is refused and left as it is.
pub fn correct(packet: &mut [u8]) -> (r: Result<(), &'static str>)
    ensures
        final(packet)@.len() == old(packet)@.len(),
        match refusal(old(packet)@) {
            Some(why) => r is Err && r->Err_0@ == why && final(packet)@ == old(packet)@,
            None => r is Ok && final(packet)@ == corrected(old(packet)@),
        },
{
    if packet.len() < 20 {
        return Err("packet too short for IPv4");
    }
    let ihl: usize = (packet[0] % 16) as usize;
    let ip_header_len: usize = ihl * 4;
    if ip_header_len < 20 || packet.len() < ip_header_len {
        return Err("invalid IP header length");
    }
    let total_len: usize = read_u16_be(packet, 2) as usize;
    if total_len < ip_header_len || packet.len() < total_len {
        return Err("invalid total length");
    }
    let proto = packet[9];
    let tcp_offset = ip_header_len;
    let tcp_len = total_len - ip_header_len;
    if tcp_len < 20 {
        return Err("TCP segment too short");
    }
    proof {
        lemma_be_value2(packet@.subrange(2, 4));
    }
    let ghost segment = packet@.subrange(tcp_offset as int, total_len as int);
    assert(segment.subrange(0, 16) =~= packet@.subrange(tcp_offset as int, tcp_offset + 16));
    assert(segment.subrange(18, segment.len() as int) =~= packet@.subrange(
        tcp_offset + 18,
        total_len as int,
    ));
    proof {
        lemma_word_sum_bound(packet@.subrange(12, 16));
        lemma_word_sum_bound(packet@.subrange(16, 20));
        lemma_word_sum_bound(segment.subrange(0, 16));
        lemma_word_sum_bound(segment.subrange(18, segment.len() as int));
    }
    let mut sum: u32 = 0;
    sum = sum + sum_words(packet, 12, 16);
    sum = sum + sum_words(packet, 16, 20);
    sum = sum + proto as u32;
    sum = sum + tcp_len as u32;
    sum = sum + sum_words(packet, tcp_offset, tcp_offset + 16);
    sum = sum + sum_words(packet, tcp_offset + 18, total_len);
    assert(sum == pseudo_sum(packet@));
    while sum / 65536 != 0
        invariant
            fold16(sum as nat) == fold16(pseudo_sum(packet@)),
        decreases sum,
    {
        sum = sum % 65536 + sum / 65536;
    }
    proof {
        lemma_fold16_bound(pseudo_sum(packet@));
    }
    let csum: u16 = (65535 - sum) as u16;
    let off = tcp_offset + 16;
    packet[off] = (csum / 256) as u8;
    packet[off + 1] = (csum % 256) as u8;
    assert(final(packet)@ =~= corrected(old(packet)@));
    Ok(())
}

} // verus!
