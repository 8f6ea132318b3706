//! Numbers as byte sequences, least significant byte first.

use vstd::prelude::*;

verus! {

/// 256 to the power of `n`: how many numbers fit in `n` bytes.
pub open spec fn pow256(n: nat) -> nat
    decreases n,
{
    if n == 0 {
        1
    } else {
        256 * pow256((n - 1) as nat)
    }
}

/// The lowest `len` bytes of `n`, least significant byte first.
pub open spec fn le_bytes(n: nat, len: nat) -> Seq<u8>
    decreases len,
{
    if len == 0 {
        seq![]
    } else {
        seq![(n % 256) as u8] + le_bytes(n / 256, (len - 1) as nat)
    }
}

/// The number whose bytes are `bytes`, least significant byte first.
pub open spec fn le_value(bytes: Seq<u8>) -> nat
    decreases bytes.len(),
{
    if bytes.len() == 0 {
        0
    } else {
        bytes[0] as nat + 256 * le_value(bytes.drop_first())
    }
}

/// `le_bytes` writes as many bytes as it is asked for.
pub proof fn le_bytes_len(n: nat, len: nat)
    ensures
        le_bytes(n, len).len() == len,
    decreases len,
{
    if len > 0 {
        le_bytes_len(n / 256, (len - 1) as nat);
    }
}

/// Reading back the bytes of a number that fits gives that number.
pub proof fn le_value_of_le_bytes(n: nat, len: nat)
    requires
        n < pow256(len),
    ensures
        le_value(le_bytes(n, len)) == n,
    decreases len,
{
    if len > 0 {
        le_value_of_le_bytes(n / 256, (len - 1) as nat);
        assert(le_bytes(n, len).drop_first() =~= le_bytes(n / 256, (len - 1) as nat));
    }
}

/// Writing the number that bytes stand for gives those bytes.
pub proof fn le_bytes_of_le_value(bytes: Seq<u8>)
    ensures
        le_bytes(le_value(bytes), bytes.len()) == bytes,
        le_value(bytes) < pow256(bytes.len()),
    decreases bytes.len(),
{
    if bytes.len() > 0 {
        le_bytes_of_le_value(bytes.drop_first());
        let rest = le_value(bytes.drop_first());
        assert((bytes[0] as nat + 256 * rest) / 256 == rest);
        assert((bytes[0] as nat + 256 * rest) % 256 == bytes[0] as nat);
        assert(le_bytes(le_value(bytes), bytes.len()) =~= bytes);
    } else {
        assert(le_bytes(le_value(bytes), bytes.len()) =~= bytes);
    }
}

/// The sizes of the integers that instructions hold.
pub proof fn pow256_values()
    ensures
        pow256(0) == 1,
        pow256(1) == 0x100,
        pow256(2) == 0x1_0000,
        pow256(4) == 0x1_0000_0000,
        pow256(8) == 0x1_0000_0000_0000_0000,
{
    reveal_with_fuel(pow256, 9);
}

proof fn pow256_monotonic(a: nat, b: nat)
    requires
        a <= b,
    ensures
        pow256(a) <= pow256(b),
    decreases b,
{
    if a < b {
        pow256_monotonic(a, (b - 1) as nat);
    }
}

/// Appends the lowest `len` bytes of `n`.
pub fn write_le(bytes: &mut Vec<u8>, n: u64, len: usize)
    ensures
        final(bytes)@ == old(bytes)@ + le_bytes(n as nat, len as nat),
{
    let mut rest: u64 = n;
    let mut left: usize = len;
    assert(bytes@ + le_bytes(n as nat, len as nat) =~= old(bytes)@ + le_bytes(
        n as nat,
        len as nat,
    ));
    while left > 0
        invariant
            bytes@ + le_bytes(rest as nat, left as nat) == old(bytes)@ + le_bytes(
                n as nat,
                len as nat,
            ),
        decreases left,
    {
        let ghost before = bytes@;
        let byte: u8 = (rest % 256) as u8;
        bytes.push(byte);
        assert(before + le_bytes(rest as nat, left as nat) =~= bytes@ + le_bytes(
            (rest / 256) as nat,
            (left - 1) as nat,
        ));
        rest = rest / 256;
        left = left - 1;
    }
    assert(bytes@ + le_bytes(rest as nat, 0) =~= bytes@);
}

/// Returns the number that the `len` bytes at `start` stand for.
pub fn read_le(bytes: &Vec<u8>, start: usize, len: usize) -> (value: u64)
    requires
        start + len <= bytes@.len(),
        len <= 8,
    ensures
        value as nat == le_value(bytes@.subrange(start as int, start + len)),
        value < pow256(len as nat),
{
    let mut value: u64 = 0;
    let mut left: usize = len;
    let size: usize = bytes.len();
    while left > 0
        invariant
            left <= len <= 8,
            start + len <= size == bytes@.len(),
            value as nat == le_value(bytes@.subrange(start + left, start + len)),
        decreases left,
    {
        let ghost tail = bytes@.subrange(start + left, start + len);
        let ghost longer = bytes@.subrange(start + left - 1, start + len);
        proof {
            assert(longer.drop_first() =~= tail);
            le_bytes_of_le_value(longer);
            pow256_monotonic(longer.len(), 8);
            pow256_values();
        }
        left = left - 1;
        value = value * 256 + bytes[start + left] as u64;
    }
    proof {
        le_bytes_of_le_value(bytes@.subrange(start as int, start + len));
    }
    value
}

/// Each byte counts 256 times as much as the one before it: byte number `i` is the digit of
/// the number with this weight.
pub proof fn bytes_are_digits(n: nat, len: nat, i: nat)
    requires
        i < len,
    ensures
        le_bytes(n, len)[i as int] as nat == n / pow256(i) % 256,
    decreases len,
{
    le_bytes_len(n, len);
    assert(pow256(0) == 1 && n / 1 == n);
    if i > 0 {
        bytes_are_digits(n / 256, (len - 1) as nat, (i - 1) as nat);
        assert(le_bytes(n, len)[i as int] == le_bytes(n / 256, (len - 1) as nat)[i - 1]);
        pow256_monotonic(0, (i - 1) as nat);
        vstd::arithmetic::div_mod::lemma_div_denominator(
            n as int,
            256,
            pow256((i - 1) as nat) as int,
        );
    }
}

} // verus!
