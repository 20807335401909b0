//! Big-endian numbers as they lie in packet bytes.

use vstd::prelude::*;

verus! {

/// The number that the bytes of `s` spell, most significant byte first.
pub open spec fn be_value(s: Seq<u8>) -> nat
    decreases s.len(),
{
    if s.len() == 0 {
        0
    } else {
        be_value(s.drop_last()) * 256 + s.last() as nat
    }
}

/// The two bytes that spell `n`, most significant first.
pub open spec fn be_bytes2(n: nat) -> Seq<u8> {
    seq![((n / 256) % 256) as u8, (n % 256) as u8]
}

/// The four bytes that spell `n`, most significant first.
pub open spec fn be_bytes4(n: nat) -> Seq<u8> {
    seq![
        ((n / 16777216) % 256) as u8,
        ((n / 65536) % 256) as u8,
        ((n / 256) % 256) as u8,
        (n % 256) as u8,
    ]
}

/// Two bytes spell `256 * first + second`.
pub proof fn lemma_be_value2(s: Seq<u8>)
    requires
        s.len() == 2,
    ensures
        be_value(s) == s[0] as nat * 256 + s[1] as nat,
        be_value(s) < 65536,
{
    let s1 = s.drop_last();
    assert(s1.len() == 1);
    assert(s1.drop_last().len() == 0);
    assert(be_value(s1.drop_last()) == 0);
    assert(be_value(s1) == s1.last() as nat);
    assert(s1.last() == s[0]);
    assert(s.last() == s[1]);
}

/// Four bytes spell the base-256 number of their digits.
pub proof fn lemma_be_value4(s: Seq<u8>)
    requires
        s.len() == 4,
    ensures
        be_value(s) == s[0] as nat * 16777216 + s[1] as nat * 65536 + s[2] as nat * 256
            + s[3] as nat,
        be_value(s) < 4294967296,
{
    let s3 = s.drop_last();
    let s2 = s3.drop_last();
    assert(s2.len() == 2);
    lemma_be_value2(s2);
    assert(s2[0] == s[0] && s2[1] == s[1]);
    assert(s3.last() == s[2]);
    assert(be_value(s3) == be_value(s2) * 256 + s[2] as nat);
    assert(s.last() == s[3]);
    assert(be_value(s) == be_value(s3) * 256 + s[3] as nat);
}

/// Writing a number below 65536 as two bytes and reading them gives it back.
pub proof fn lemma_be_roundtrip2(n: nat)
    requires
        n < 65536,
    ensures
        be_value(be_bytes2(n)) == n,
{
    lemma_be_value2(be_bytes2(n));
}

/// Writing a number below 2^32 as four bytes and reading them gives it back.
pub proof fn lemma_be_roundtrip4(n: nat)
    requires
        n < 4294967296,
    ensures
        be_value(be_bytes4(n)) == n,
{
    lemma_be_value4(be_bytes4(n));
}

/// Reads the 16-bit big-endian number at `at`.
pub fn read_u16_be(buf: &[u8], at: usize) -> (n: u16)
    requires
        at + 2 <= buf@.len(),
    ensures
        n as nat == be_value(buf@.subrange(at as int, at + 2)),
{
    proof {
        lemma_be_value2(buf@.subrange(at as int, at + 2));
    }
    let hi: u16 = buf[at] as u16;
    let lo: u16 = buf[at + 1] as u16;
    hi * 256 + lo
}

/// Reads the 32-bit big-endian number at `at`.
pub fn read_u32_be(buf: &[u8], at: usize) -> (n: u32)
    requires
        at + 4 <= buf@.len(),
    ensures
        n as nat == be_value(buf@.subrange(at as int, at + 4)),
{
    proof {
        lemma_be_value4(buf@.subrange(at as int, at + 4));
    }
    let b0: u32 = buf[at] as u32;
    let b1: u32 = buf[at + 1] as u32;
    let b2: u32 = buf[at + 2] as u32;
    let b3: u32 = buf[at + 3] as u32;
    b0 * 16777216 + b1 * 65536 + b2 * 256 + b3
}

} // verus!
