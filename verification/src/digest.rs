//! A fixed hash of bytes, and its rendering in hexadecimal.
//!
//! The hash is FNV-1a with 64 bits. It depends on the bytes alone, so a value once stored
//! is found again by every later run.

use vstd::prelude::*;

verus! {

/// The value that the hash starts from.
pub const FNV_OFFSET: u64 = 0xcbf2_9ce4_8422_2325;

/// The factor that the hash is multiplied by after each byte.
pub const FNV_PRIME: u64 = 0x0000_0100_0000_01b3;

/// One step of the hash: the byte is mixed into the low bits, and the product with the
/// prime is taken modulo 2^64.
pub open spec fn fnv1a_step(hash: u64, byte: u8) -> u64 {
    (((hash ^ (byte as u64)) as nat * FNV_PRIME as nat) % 0x1_0000_0000_0000_0000) as u64
}

/// The FNV-1a hash of `bytes`.
pub open spec fn fnv1a(bytes: Seq<u8>) -> u64
    decreases bytes.len(),
{
    if bytes.len() == 0 {
        FNV_OFFSET
    } else {
        fnv1a_step(fnv1a(bytes.drop_last()), bytes.last())
    }
}

/// Computes the FNV-1a hash of `bytes`.
pub fn hash_bytes(bytes: &[u8]) -> (hash: u64)
    ensures
        hash == fnv1a(bytes@),
{
    let mut hash: u64 = FNV_OFFSET;
    let mut i: usize = 0;
    assert(bytes@.take(0) =~= Seq::<u8>::empty());
    while i < bytes.len()
        invariant
            i <= bytes.len(),
            hash == fnv1a(bytes@.take(i as int)),
        decreases bytes.len() - i,
    {
        proof {
            let upto = bytes@.take(i + 1);
            assert(upto.drop_last() == bytes@.take(i as int));
            assert(upto.last() == bytes@[i as int]);
        }
        hash = (hash ^ (bytes[i] as u64)).wrapping_mul(FNV_PRIME);
        i = i + 1;
    }
    assert(bytes@.take(bytes.len() as int) == bytes@);
    hash
}

/// The digit for a value below sixteen: `0` to `9`, then `a` to `f`.
pub open spec fn hex_digit(n: int) -> char {
    if n < 10 {
        ((48 + n) as u8) as char
    } else {
        ((87 + n) as u8) as char
    }
}

/// The last `width` hexadecimal digits of `value`, the most significant first.
pub open spec fn hex(value: nat, width: nat) -> Seq<char>
    decreases width,
{
    if width == 0 {
        Seq::empty()
    } else {
        hex(value / 16, (width - 1) as nat).push(hex_digit((value % 16) as int))
    }
}

/// The digits asked for are the digits given.
pub proof fn lemma_hex_len(value: nat, width: nat)
    ensures
        hex(value, width).len() == width,
    decreases width,
{
    if width > 0 {
        lemma_hex_len(value / 16, (width - 1) as nat);
    }
}

/// Computes the digit for a value below sixteen.
pub(crate) fn digit_of(n: u8) -> (c: char)
    requires
        n < 16,
    ensures
        c == hex_digit(n as int),
{
    if n < 10 {
        (48 + n) as char
    } else {
        (87 + n) as char
    }
}

/// Renders `value` as sixteen hexadecimal digits in lower case.
pub fn hex16(value: u64) -> (out: Vec<char>)
    ensures
        out@ == hex(value as nat, 16),
{
    let mut out: Vec<char> = Vec::new();
    let mut k: usize = 0;
    while k < 16
        invariant
            k <= 16,
            out@.len() == k,
        decreases 16 - k,
    {
        out.push('0');
        k = k + 1;
    }
    let mut rest: u64 = value;
    let mut i: usize = 0;
    assert(out@.skip(16) =~= Seq::<char>::empty());
    while i < 16
        invariant
            i <= 16,
            out@.len() == 16,
            hex(value as nat, 16) == hex(rest as nat, (16 - i) as nat) + out@.skip(16 - i),
        decreases 16 - i,
    {
        let ghost before = out@;
        let digit = digit_of((rest % 16) as u8);
        out.set(15 - i, digit);
        proof {
            assert(out@.skip(15 - i) == seq![digit] + before.skip(16 - i));
            assert(hex(rest as nat, (16 - i) as nat) == hex(
                rest as nat / 16,
                (15 - i) as nat,
            ).push(digit));
            assert(hex(rest as nat / 16, (15 - i) as nat).push(digit) + before.skip(16 - i)
                == hex(rest as nat / 16, (15 - i) as nat) + (seq![digit] + before.skip(16 - i)));
        }
        rest = rest / 16;
        i = i + 1;
    }
    assert(out@.skip(0) == out@);
    out
}

} // verus!
