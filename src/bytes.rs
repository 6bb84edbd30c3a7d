use vstd::prelude::*;

use crate::error::UnpackError;

verus! {

/// The value of `s` read as an unsigned big-endian number.
pub open spec fn be_value(s: Seq<u8>) -> nat
    decreases s.len(),
{
    if s.len() == 0 {
        0
    } else {
        be_value(s.drop_last()) * 256 + s.last() as nat
    }
}

/// The `n` bytes that write `x` in big-endian order (the low `n` bytes of `x`).
pub open spec fn be_bytes(x: nat, n: nat) -> Seq<u8>
    decreases n,
{
    if n == 0 {
        Seq::empty()
    } else {
        be_bytes(x / 256, (n - 1) as nat).push((x % 256) as u8)
    }
}

/// A big-endian number of `s.len()` bytes is below `256^len`.
pub proof fn lemma_be_value_bound(s: Seq<u8>)
    ensures
        be_value(s) < pow256(s.len()),
    decreases s.len(),
{
    if s.len() > 0 {
        let init = s.drop_last();
        lemma_be_value_bound(init);
        let a = be_value(init);
        let p = pow256(init.len());
        let b = s.last() as nat;
        assert(a * 256 + b < p * 256) by (nonlinear_arith)
            requires
                a < p,
                b < 256,
        ;
    }
}

/// `256^n`.
pub open spec fn pow256(n: nat) -> nat
    decreases n,
{
    if n == 0 {
        1
    } else {
        pow256((n - 1) as nat) * 256
    }
}

/// Writing a number below `256^n` in `n` big-endian bytes and reading it back
/// gives the number.
pub proof fn lemma_be_round_trip(x: nat, n: nat)
    requires
        x < pow256(n),
    ensures
        be_bytes(x, n).len() == n,
        be_value(be_bytes(x, n)) == x,
    decreases n,
{
    if n > 0 {
        let p = pow256((n - 1) as nat);
        assert(x / 256 < p) by (nonlinear_arith)
            requires
                x < p * 256,
        ;
        lemma_be_round_trip(x / 256, (n - 1) as nat);
        let s = be_bytes(x / 256, (n - 1) as nat);
        let t = s.push((x % 256) as u8);
        assert(t.drop_last() =~= s);
        assert(x == (x / 256) * 256 + x % 256) by (nonlinear_arith);
    }
}

/// Reads an eight-byte big-endian unsigned number.
pub fn u64_from_bytes(arr: &[u8]) -> (r: Result<u64, UnpackError>)
    ensures
        arr@.len() == 8 ==> r == Ok::<u64, UnpackError>(be_value(arr@) as u64),
        arr@.len() != 8 ==> r == Err::<u64, UnpackError>(UnpackError::FieldLength),
{
    if arr.len() != 8 {
        return Err(UnpackError::FieldLength);
    }
    let mut value: u64 = 0;
    let mut i: usize = 0;
    while i < 8
        invariant
            arr@.len() == 8,
            i <= 8,
            value as nat == be_value(arr@.subrange(0, i as int)),
        decreases 8 - i,
    {
        let ghost prefix = arr@.subrange(0, i as int);
        let ghost next = arr@.subrange(0, i + 1);
        proof {
            assert(next.drop_last() =~= prefix);
            lemma_be_value_bound(next);
            assert(pow256(next.len()) <= pow256(8)) by {
                lemma_pow256_monotone(next.len(), 8);
            }
            reveal_with_fuel(pow256, 9);
            assert(pow256(8) == 0x1_0000_0000_0000_0000);
        }
        value = value * 256 + arr[i] as u64;
        i = i + 1;
    }
    assert(arr@.subrange(0, 8) =~= arr@);
    Ok(value)
}

/// `256^n` grows with `n`.
pub proof fn lemma_pow256_monotone(m: nat, n: nat)
    requires
        m <= n,
    ensures
        pow256(m) <= pow256(n),
    decreases n,
{
    if m < n {
        lemma_pow256_monotone(m, (n - 1) as nat);
    }
}

} // verus!
