//! RLP encoding (per the Ethereum wire format) of the values that appear in
//! an execution block header: byte strings, unsigned scalars and lists.

use crate::types::U256;
use vstd::prelude::*;

verus! {

/// The big-endian bytes of `n` without leading zeroes (empty for zero).
pub open spec fn be_bytes(n: nat) -> Seq<u8>
    decreases n,
{
    if n == 0 {
        Seq::empty()
    } else {
        be_bytes(n / 256).push((n % 256) as u8)
    }
}

/// `b` with leading zero bytes removed.
pub open spec fn strip_zeros(b: Seq<u8>) -> Seq<u8>
    decreases b.len(),
{
    if b.len() == 0 {
        b
    } else if b[0] == 0 {
        strip_zeros(b.skip(1))
    } else {
        b
    }
}

/// RLP encoding of the byte string `b`: a single byte below 0x80 stands for
/// itself, short strings get a one-byte length prefix, long strings get a
/// length-of-length prefix.
pub open spec fn rlp_bytes(b: Seq<u8>) -> Seq<u8> {
    if b.len() == 1 && b[0] < 0x80 {
        b
    } else if b.len() <= 55 {
        seq![(0x80 + b.len()) as u8] + b
    } else {
        seq![(0xb7 + be_bytes(b.len() as nat).len()) as u8] + be_bytes(b.len() as nat) + b
    }
}

/// RLP encoding of the unsigned scalar `n`: its minimal big-endian bytes as a
/// string.
pub open spec fn rlp_uint(n: nat) -> Seq<u8> {
    rlp_bytes(be_bytes(n))
}

/// RLP list framing around the already-encoded payload `p`.
pub open spec fn rlp_list(p: Seq<u8>) -> Seq<u8> {
    if p.len() <= 55 {
        seq![(0xc0 + p.len()) as u8] + p
    } else {
        seq![(0xf7 + be_bytes(p.len() as nat).len()) as u8] + be_bytes(p.len() as nat) + p
    }
}

/// The eight big-endian bytes of a 64-bit word.
pub open spec fn u64_be8(x: u64) -> Seq<u8> {
    seq![
        (x >> 56) as u8,
        (x >> 48) as u8,
        (x >> 40) as u8,
        (x >> 32) as u8,
        (x >> 24) as u8,
        (x >> 16) as u8,
        (x >> 8) as u8,
        x as u8,
    ]
}

/// The 32 big-endian bytes of a 256-bit value, most significant limb first.
pub open spec fn u256_be32(v: U256) -> Seq<u8> {
    u64_be8(v.0@[3]) + u64_be8(v.0@[2]) + u64_be8(v.0@[1]) + u64_be8(v.0@[0])
}

/// RLP encoding of a 256-bit scalar: its big-endian bytes without leading
/// zeroes, as a string.
pub open spec fn rlp_u256(v: U256) -> Seq<u8> {
    rlp_bytes(strip_zeros(u256_be32(v)))
}

/// The minimal big-endian bytes of `n`.
fn u64_be_bytes(n: u64) -> (r: Vec<u8>)
    ensures
        r@ == be_bytes(n as nat),
    decreases n,
{
    if n == 0 {
        Vec::new()
    } else {
        let mut r = u64_be_bytes(n / 256);
        r.push((n % 256) as u8);
        r
    }
}

/// Appends the RLP encoding of the byte string `b` to `out`.
pub fn append_rlp_bytes(out: &mut Vec<u8>, b: &[u8])
    requires
        b@.len() <= usize::MAX - 9,
        old(out)@.len() + b@.len() <= usize::MAX - 9,
    ensures
        final(out)@ == old(out)@ + rlp_bytes(b@),
{
    if b.len() == 1 && b[0] < 0x80 {
        out.push(b[0]);
        assert(out@ =~= old(out)@ + rlp_bytes(b@));
        return ;
    }
    if b.len() <= 55 {
        out.push(0x80 + (b.len() as u8));
        extend_bytes(out, b);
        assert(out@ =~= old(out)@ + rlp_bytes(b@));
        return ;
    }
    let len_bytes = u64_be_bytes(b.len() as u64);
    proof {
        lemma_be_bytes_len(b@.len() as nat);
    }
    out.push(0xb7 + (len_bytes.len() as u8));
    extend_bytes(out, len_bytes.as_slice());
    extend_bytes(out, b);
    assert(out@ =~= old(out)@ + rlp_bytes(b@));
}

/// Appends the RLP encoding of the scalar `n` to `out`.
pub fn append_rlp_u64(out: &mut Vec<u8>, n: u64)
    requires
        old(out)@.len() <= usize::MAX - 18,
    ensures
        final(out)@ == old(out)@ + rlp_uint(n as nat),
{
    let bytes = u64_be_bytes(n);
    proof {
        lemma_be_bytes_len(n as nat);
    }
    append_rlp_bytes(out, bytes.as_slice());
}

/// Appends the RLP encoding of the 256-bit scalar `v` to `out`.
pub fn append_rlp_u256(out: &mut Vec<u8>, v: &U256)
    requires
        old(out)@.len() <= usize::MAX - 42,
    ensures
        final(out)@ == old(out)@ + rlp_u256(*v),
{
    let mut be: Vec<u8> = Vec::new();
    push_be8(&mut be, v.0[3]);
    push_be8(&mut be, v.0[2]);
    push_be8(&mut be, v.0[1]);
    push_be8(&mut be, v.0[0]);
    assert(be@ =~= u256_be32(*v));
    assert(be@.skip(0) =~= be@);
    let mut start: usize = 0;
    while start < be.len() && be[start] == 0
        invariant
            start <= be@.len(),
            be@ == u256_be32(*v),
            strip_zeros(be@) == strip_zeros(be@.skip(start as int)),
            forall|t: int| 0 <= t < start ==> be@[t] == 0,
        decreases be@.len() - start,
    {
        proof {
            assert(be@.skip(start as int)[0] == be@[start as int]);
            assert(be@.skip(start as int).skip(1) =~= be@.skip(start as int + 1));
        }
        start += 1;
    }
    proof {
        if start < be.len() {
            assert(be@.skip(start as int)[0] == be@[start as int]);
        } else {
            assert(be@.skip(start as int) =~= Seq::<u8>::empty());
        }
        assert(strip_zeros(be@) == be@.skip(start as int));
    }
    let mut minimal: Vec<u8> = Vec::new();
    let mut k: usize = start;
    while k < be.len()
        invariant
            start <= k <= be@.len(),
            be@ == u256_be32(*v),
            minimal@ =~= be@.subrange(start as int, k as int),
        decreases be@.len() - k,
    {
        minimal.push(be[k]);
        k += 1;
    }
    assert(minimal@ =~= be@.skip(start as int));
    append_rlp_bytes(out, minimal.as_slice());
}

/// Appends the RLP list framing for a payload of `payload.len()` bytes,
/// followed by the payload itself.
pub fn append_rlp_list(out: &mut Vec<u8>, payload: &Vec<u8>)
    requires
        payload@.len() <= usize::MAX - 9,
        old(out)@.len() + payload@.len() <= usize::MAX - 9,
    ensures
        final(out)@ == old(out)@ + rlp_list(payload@),
{
    if payload.len() <= 55 {
        out.push(0xc0 + (payload.len() as u8));
        extend_bytes(out, payload.as_slice());
        assert(out@ =~= old(out)@ + rlp_list(payload@));
        return ;
    }
    let len_bytes = u64_be_bytes(payload.len() as u64);
    proof {
        lemma_be_bytes_len(payload@.len() as nat);
    }
    out.push(0xf7 + (len_bytes.len() as u8));
    extend_bytes(out, len_bytes.as_slice());
    extend_bytes(out, payload.as_slice());
    assert(out@ =~= old(out)@ + rlp_list(payload@));
}

/// Appends the eight big-endian bytes of `x`.
fn push_be8(out: &mut Vec<u8>, x: u64)
    requires
        old(out)@.len() + 8 <= usize::MAX,
    ensures
        final(out)@ == old(out)@ + u64_be8(x),
{
    out.push(#[verifier::truncate] ((x >> 56) as u8));
    out.push(#[verifier::truncate] ((x >> 48) as u8));
    out.push(#[verifier::truncate] ((x >> 40) as u8));
    out.push(#[verifier::truncate] ((x >> 32) as u8));
    out.push(#[verifier::truncate] ((x >> 24) as u8));
    out.push(#[verifier::truncate] ((x >> 16) as u8));
    out.push(#[verifier::truncate] ((x >> 8) as u8));
    out.push(#[verifier::truncate] (x as u8));
    assert(out@ =~= old(out)@ + u64_be8(x));
}

/// Appends all of `b` to `out`.
fn extend_bytes(out: &mut Vec<u8>, b: &[u8])
    requires
        old(out)@.len() + b@.len() <= usize::MAX,
    ensures
        final(out)@ == old(out)@ + b@,
{
    let mut k: usize = 0;
    while k < b.len()
        invariant
            k <= b@.len(),
            old(out)@.len() + b@.len() <= usize::MAX,
            out@ =~= old(out)@ + b@.subrange(0, k as int),
        decreases b@.len() - k,
    {
        out.push(b[k]);
        k += 1;
    }
    assert(out@ =~= old(out)@ + b@);
}

/// Stripping leading zeroes never lengthens a byte string.
pub proof fn lemma_strip_zeros_len(b: Seq<u8>)
    ensures
        strip_zeros(b).len() <= b.len(),
    decreases b.len(),
{
    if b.len() != 0 && b[0] == 0 {
        lemma_strip_zeros_len(b.skip(1));
    }
}

/// The RLP encoding of a byte string adds at most nine bytes.
pub proof fn lemma_rlp_bytes_len(b: Seq<u8>)
    requires
        b.len() <= u64::MAX,
    ensures
        rlp_bytes(b).len() <= b.len() + 9,
{
    lemma_be_bytes_len(b.len());
}

/// The RLP encoding of a 64-bit scalar takes at most nine bytes.
pub proof fn lemma_rlp_uint_len(n: nat)
    requires
        n <= u64::MAX,
    ensures
        rlp_uint(n).len() <= 9,
{
    lemma_be_bytes_len(n);
}

/// The RLP encoding of a 256-bit scalar takes at most 33 bytes.
pub proof fn lemma_rlp_u256_len(v: U256)
    ensures
        rlp_u256(v).len() <= 33,
{
    lemma_strip_zeros_len(u256_be32(v));
}

/// 256 to the power `k`.
spec fn pow256(k: nat) -> nat
    decreases k,
{
    if k == 0 {
        1
    } else {
        256 * pow256((k - 1) as nat)
    }
}

/// A number below 2^64 has at most eight big-endian bytes.
proof fn lemma_be_bytes_len(n: nat)
    requires
        n <= u64::MAX,
    ensures
        be_bytes(n).len() <= 8,
{
    assert(pow256(8) == 0x1_0000_0000_0000_0000) by {
        reveal_with_fuel(pow256, 9);
    }
    lemma_be_bytes_len_rec(n, 8);
}

/// A number below 256^k has at most k big-endian bytes.
proof fn lemma_be_bytes_len_rec(n: nat, k: nat)
    requires
        n < pow256(k),
    ensures
        be_bytes(n).len() <= k,
    decreases k,
{
    if n == 0 {
    } else {
        assert(k > 0);
        assert(pow256(k) == 256 * pow256((k - 1) as nat));
        assert(n / 256 < pow256((k - 1) as nat)) by {
            vstd::arithmetic::div_mod::lemma_multiply_divide_lt(
                n as int,
                256,
                pow256((k - 1) as nat) as int,
            );
        }
        lemma_be_bytes_len_rec(n / 256, (k - 1) as nat);
    }
}

} // verus!
