//! Names of the block files under a root path.
use vstd::prelude::*;

verus! {

/// Digits in a block file's index suffix.
pub const INDEX_DIGITS: u64 = 22;

/// The last `width` decimal digits of `n`, as ASCII, most significant first,
/// with leading zeros.
pub open spec fn decimal_padded(n: nat, width: nat) -> Seq<u8>
    decreases width,
{
    if width == 0 {
        Seq::empty()
    } else {
        decimal_padded(n / 10, (width - 1) as nat).push((48 + n % 10) as u8)
    }
}

/// What follows the root path in the name of block `index`: a dot and the
/// index in 22 zero-padded decimal digits.
pub open spec fn block_suffix_spec(index: u64) -> Seq<u8> {
    seq![46u8] + decimal_padded(index as nat, INDEX_DIGITS as nat)
}

fn push_decimal(out: &mut Vec<u8>, n: u64, width: u64)
    ensures
        final(out)@ == old(out)@ + decimal_padded(n as nat, width as nat),
    decreases width,
{
    if width == 0 {
        assert(old(out)@ + decimal_padded(n as nat, 0) == old(out)@);
        return;
    }
    push_decimal(out, n / 10, width - 1);
    out.push(48u8 + (n % 10) as u8);
    assert(old(out)@ + decimal_padded(n as nat, width as nat) == old(out)@ + decimal_padded(
        (n / 10) as nat,
        (width - 1) as nat,
    ) + seq![(48 + n % 10) as u8]);
}

/// The bytes appended to the root path to name block `index`.
pub fn block_suffix(index: u64) -> (r: Vec<u8>)
    ensures
        r@ == block_suffix_spec(index),
        r@.len() == INDEX_DIGITS + 1,
{
    let mut r: Vec<u8> = vec![46u8];
    push_decimal(&mut r, index, INDEX_DIGITS);
    proof {
        lemma_decimal_len(index as nat, INDEX_DIGITS as nat);
    }
    r
}

proof fn lemma_decimal_len(n: nat, width: nat)
    ensures
        decimal_padded(n, width).len() == width,
    decreases width,
{
    if width > 0 {
        lemma_decimal_len(n / 10, (width - 1) as nat);
    }
}

} // verus!
