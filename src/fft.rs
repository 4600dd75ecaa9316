use vstd::prelude::*;

use vstd::arithmetic::power2::{lemma2_to64, lemma_pow2_pos, lemma_pow2_strictly_increases, lemma_pow2_unfold, pow2};

verus! {

/// `i` with its low `bits` bits written in reverse order.
pub open spec fn bit_rev(i: nat, bits: nat) -> nat
    decreases bits,
{
    if bits == 0 {
        0
    } else {
        (i % 2) * pow2((bits - 1) as nat) + bit_rev(i / 2, (bits - 1) as nat)
    }
}

/// A reversed index of `bits` bits is below `2^bits`.
pub proof fn lemma_bit_rev_bound(i: nat, bits: nat)
    ensures
        bit_rev(i, bits) < pow2(bits),
    decreases bits,
{
    lemma_pow2_pos(bits);
    if bits > 0 {
        let b1 = (bits - 1) as nat;
        lemma_bit_rev_bound(i / 2, b1);
        lemma_pow2_unfold(bits);
        assert((i % 2) * pow2(b1) <= pow2(b1)) by (nonlinear_arith)
            requires
                i % 2 <= 1,
        ;
    }
}

/// `i` with its low `bits` bits reversed.
fn reverse_bits(i: usize, bits: usize) -> (r: usize)
    requires
        pow2(bits as nat) <= usize::MAX,
    ensures
        r == bit_rev(i as nat, bits as nat),
{
    let mut r: usize = 0;
    let mut x: usize = i;
    let mut b: usize = 0;
    proof {
        lemma_pow2_pos(0);
    }
    while b < bits
        invariant
            b <= bits,
            pow2(bits as nat) <= usize::MAX,
            r < pow2(b as nat),
            r * pow2((bits - b) as nat) + bit_rev(x as nat, (bits - b) as nat) == bit_rev(
                i as nat,
                bits as nat,
            ),
        decreases bits - b,
    {
        let ghost n = (bits - b) as nat;
        let ghost p = pow2((n - 1) as nat);
        proof {
            lemma_pow2_unfold(n);
            lemma_pow2_unfold((b + 1) as nat);
            if b + 1 < bits {
                lemma_pow2_strictly_increases((b + 1) as nat, bits as nat);
            }
            assert((2 * r + x % 2) * p + bit_rev((x / 2) as nat, (n - 1) as nat) == r * (2 * p)
                + ((x % 2) * p + bit_rev((x / 2) as nat, (n - 1) as nat))) by (nonlinear_arith);
        }
        r = r * 2 + x % 2;
        x = x / 2;
        b = b + 1;
    }
    proof {
        lemma2_to64();
        assert(b == bits);
        assert(bit_rev(x as nat, 0) == 0);
        assert(r * pow2(0) == r);
    }
    r
}

/// `buf` in bit-reversed index order: element `i` of the result is element
/// `bit_rev(i, bits)` of `buf`. This is the reordering that comes before the
/// butterfly passes of an in-place radix-2 FFT of `2^bits` points.
pub fn bit_reversed<T: Copy>(buf: &[T], bits: usize) -> (r: Vec<T>)
    requires
        buf@.len() == pow2(bits as nat),
    ensures
        r@.len() == buf@.len(),
        forall|i: int|
            0 <= i < r@.len() ==> #[trigger] r@[i] == buf@[bit_rev(i as nat, bits as nat) as int],
{
    let n = buf.len();
    let mut out: Vec<T> = Vec::new();
    let mut i: usize = 0;
    while i < n
        invariant
            n == buf@.len() == pow2(bits as nat),
            i <= n,
            out@.len() == i,
            forall|j: int|
                0 <= j < i ==> #[trigger] out@[j] == buf@[bit_rev(j as nat, bits as nat) as int],
        decreases n - i,
    {
        let j = reverse_bits(i, bits);
        proof {
            lemma_bit_rev_bound(i as nat, bits as nat);
        }
        out.push(buf[j]);
        i = i + 1;
    }
    out
}

} // verus!
