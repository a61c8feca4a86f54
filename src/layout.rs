//! Splitting one byte into bit fields, most significant bits first.
use vstd::arithmetic::power2::{lemma_pow2_pos, pow2};
use vstd::arithmetic::div_mod::{lemma_div_is_ordered_by_denominator, lemma_mod_decreases};
use vstd::bits::{lemma_u32_pow2_no_overflow, lemma_u32_shl_is_mul, lemma_u32_shr_is_div};
use vstd::prelude::*;

verus! {

/// Sum of a list of bit widths.
pub open spec fn total_width(widths: Seq<u8>) -> nat
    decreases widths.len(),
{
    if widths.len() == 0 {
        0
    } else {
        total_width(widths.drop_last()) + widths.last() as nat
    }
}

/// The `i`-th field of `b` under `widths`: the first field is the top
/// `widths[0]` bits, the next one the bits right below it, and so on.
pub open spec fn field(b: u8, widths: Seq<u8>, i: int) -> nat
    recommends
        0 <= i < widths.len(),
        total_width(widths) == 8,
{
    (b as nat / pow2((8 - total_width(widths.take(i + 1))) as nat)) % pow2(widths[i] as nat)
}

/// A prefix of the widths sums to no more than all of them.
proof fn lemma_total_width_prefix(widths: Seq<u8>, i: int)
    requires
        0 <= i <= widths.len(),
    ensures
        total_width(widths.take(i)) <= total_width(widths),
    decreases widths.len() - i,
{
    if i < widths.len() {
        lemma_total_width_prefix(widths, i + 1);
        assert(widths.take(i + 1).drop_last() =~= widths.take(i));
    } else {
        assert(widths.take(i) =~= widths);
    }
}

/// Splits `b` into fields of the given widths, most significant bits first.
pub fn split_byte(b: u8, widths: &[u8]) -> (r: Vec<u8>)
    requires
        total_width(widths@) == 8,
    ensures
        r@.len() == widths@.len(),
        forall|i: int| 0 <= i < widths@.len() ==> r@[i] as nat == #[trigger] field(b, widths@, i),
        forall|i: int| 0 <= i < widths@.len() ==> #[trigger] r@[i] < pow2(widths@[i] as nat),
{
    let mut r: Vec<u8> = Vec::new();
    let mut used: u32 = 0;
    let mut i: usize = 0;
    while i < widths.len()
        invariant
            i <= widths@.len(),
            total_width(widths@) == 8,
            used as nat == total_width(widths@.take(i as int)),
            r@.len() == i,
            forall|k: int| 0 <= k < i ==> r@[k] as nat == #[trigger] field(b, widths@, k),
            forall|k: int| 0 <= k < i ==> #[trigger] r@[k] < pow2(widths@[k] as nat),
        decreases widths@.len() - i,
    {
        let w: u8 = widths[i];
        proof {
            assert(widths@.take(i + 1).drop_last() =~= widths@.take(i as int));
            lemma_total_width_prefix(widths@, i + 1);
        }
        used = used + w as u32;
        let shift: u32 = 8 - used;
        let whole: u32 = (b as u32) >> shift;
        let modulus: u32 = 1u32 << (w as u32);
        proof {
            lemma_u32_shr_is_div(b as u32, shift);
            lemma_u32_pow2_no_overflow(w as nat);
            lemma_u32_shl_is_mul(1, w as u32);
            lemma_pow2_pos(w as nat);
            lemma_pow2_pos(shift as nat);
            lemma_div_is_ordered_by_denominator(
                b as int,
                1,
                pow2(shift as nat) as int,
            );
        }
        let v: u32 = whole % modulus;
        proof {
            lemma_mod_decreases(whole as nat, modulus as nat);
        }
        r.push(v as u8);
        i = i + 1;
    }
    r
}

} // verus!
