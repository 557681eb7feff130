//! Byte sequences: padding, sums and pieces.
use vstd::prelude::*;

verus! {

/// `n` zero bytes.
pub open spec fn zeros(n: nat) -> Seq<u8> {
    Seq::new(n, |i: int| 0u8)
}

/// `front`, with zero bytes behind it up to `len` bytes.
pub open spec fn filled(front: Seq<u8>, len: nat) -> Seq<u8> {
    front + zeros((len - front.len()) as nat)
}

/// The byte at `i`, where there is one.
pub open spec fn at(bytes: Seq<u8>, i: int) -> Option<u8> {
    if 0 <= i < bytes.len() {
        Some(bytes[i])
    } else {
        None
    }
}

/// The byte at `i`, where there is one.
pub fn byte_at(bytes: &[u8], i: usize) -> (r: Option<u8>)
    ensures
        r == at(bytes@, i as int),
{
    if i < bytes.len() {
        Some(bytes[i])
    } else {
        None
    }
}

/// The bytes from `from` up to, but without, `to`.
pub fn copy_bytes(bytes: &[u8], from: usize, to: usize) -> (r: Vec<u8>)
    requires
        from <= to <= bytes@.len(),
    ensures
        r@ == bytes@.subrange(from as int, to as int),
{
    let mut r: Vec<u8> = Vec::with_capacity(to - from);
    for i in from..to
        invariant
            from <= to <= bytes@.len(),
            r@ == bytes@.subrange(from as int, i as int),
    {
        r.push(bytes[i]);
        assert(r@ =~= bytes@.subrange(from as int, i + 1));
    }
    r
}

/// All the bytes.
pub fn all_bytes(bytes: &[u8]) -> (r: Vec<u8>)
    ensures
        r@ == bytes@,
{
    assert(bytes@.subrange(0, bytes@.len() as int) =~= bytes@);
    copy_bytes(bytes, 0, bytes.len())
}

/// The sum of the bytes.
pub open spec fn byte_sum(bytes: Seq<u8>) -> nat
    decreases bytes.len(),
{
    if bytes.len() == 0 {
        0
    } else {
        byte_sum(bytes.drop_last()) + bytes.last() as nat
    }
}

/// The last eight bits of the sum of the bytes from `from` up to, but without,
/// `to`.
pub fn sum_bytes(bytes: &[u8], from: usize, to: usize) -> (sum: u8)
    requires
        from <= to <= bytes@.len(),
    ensures
        sum == byte_sum(bytes@.subrange(from as int, to as int)) % 256,
{
    let mut sum: u8 = 0;
    for i in from..to
        invariant
            from <= to <= bytes@.len(),
            sum == byte_sum(bytes@.subrange(from as int, i as int)) % 256,
    {
        proof {
            let next = bytes@.subrange(from as int, i + 1);
            assert(next.drop_last() =~= bytes@.subrange(from as int, i as int));
        }
        sum = sum.wrapping_add(bytes[i]);
    }
    sum
}

/// The exclusive or of the bytes.
pub open spec fn byte_xor(bytes: Seq<u8>) -> u8
    decreases bytes.len(),
{
    if bytes.len() == 0 {
        0
    } else {
        byte_xor(bytes.drop_last()) ^ bytes.last()
    }
}

/// The exclusive or of the bytes from `from` up to, but without, `to`.
pub fn xor_bytes(bytes: &[u8], from: usize, to: usize) -> (x: u8)
    requires
        from <= to <= bytes@.len(),
    ensures
        x == byte_xor(bytes@.subrange(from as int, to as int)),
{
    let mut x: u8 = 0;
    for i in from..to
        invariant
            from <= to <= bytes@.len(),
            x == byte_xor(bytes@.subrange(from as int, i as int)),
    {
        proof {
            let next = bytes@.subrange(from as int, i + 1);
            assert(next.drop_last() =~= bytes@.subrange(from as int, i as int));
        }
        x = x ^ bytes[i];
    }
    x
}

} // verus!
