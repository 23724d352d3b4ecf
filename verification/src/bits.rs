use core::ops::Range;
use vstd::arithmetic::div_mod::{
    lemma_div_denominator, lemma_div_pos_is_pos, lemma_mod_bound, lemma_mod_breakdown,
    lemma_mod_multiples_basic, lemma_small_mod,
};
use vstd::arithmetic::mul::lemma_mul_is_commutative;
use vstd::arithmetic::power2::{
    lemma2_to64, lemma_pow2_adds, lemma_pow2_pos, lemma_pow2_strictly_increases, pow2,
};
use vstd::bits::{
    lemma_u8_low_bits_mask_is_mod, lemma_u8_pow2_no_overflow, lemma_u8_shl_is_mul,
    lemma_u8_shr_is_div, low_bits_mask,
};
use vstd::prelude::*;

verus! {

/// The bits of `b` in the half-open position range `start..end`, packed to
/// the low end of the result, most-significant extracted bit first.
///
/// Bit positions count from the most significant end of the byte: position 0
/// is the top bit. This one convention is used by every decoder in the crate.
pub open spec fn extract(b: u8, start: int, end: int) -> u8
    recommends
        0 <= start <= end <= 8,
{
    (b as int / pow2((8 - end) as nat) as int % pow2((end - start) as nat) as int) as u8
}

/// An extracted field fits the width of its range, and equals its defining
/// quotient-and-remainder expression as a plain integer.
pub proof fn lemma_extract_bound(b: u8, start: int, end: int)
    requires
        0 <= start <= end <= 8,
    ensures
        extract(b, start, end) < pow2((end - start) as nat),
        extract(b, start, end) == b as int / pow2((8 - end) as nat) as int % pow2(
            (end - start) as nat,
        ) as int,
{
    lemma_pow2_pos((8 - end) as nat);
    lemma_pow2_pos((end - start) as nat);
    lemma_mod_bound(
        b as int / pow2((8 - end) as nat) as int,
        pow2((end - start) as nat) as int,
    );
    if end - start < 8 {
        lemma_pow2_strictly_increases((end - start) as nat, 8);
    }
    lemma2_to64();
}

/// Extracting the full position range 0..8 returns the byte unchanged.
pub proof fn lemma_extract_full(b: u8)
    ensures
        extract(b, 0, 8) == b,
{
    lemma2_to64();
    assert(pow2(0) == 1 && pow2(8) == 256);
    assert(b as int / 1int == b as int);
    lemma_small_mod(b as nat, 256);
    assert(b as int % 256int == b as int);
}

/// Splitting a range at `mid` loses nothing: the whole field is the high
/// part scaled by the low part's width, plus the low part.
pub proof fn lemma_extract_split(b: u8, start: int, mid: int, end: int)
    requires
        0 <= start <= mid <= end <= 8,
    ensures
        extract(b, start, end) == extract(b, start, mid) * pow2((end - mid) as nat) + extract(
            b,
            mid,
            end,
        ),
{
    let p_drop = pow2((8 - end) as nat) as int;
    let p_low = pow2((end - mid) as nat) as int;
    let p_high = pow2((mid - start) as nat) as int;
    lemma_pow2_pos((8 - end) as nat);
    lemma_pow2_pos((end - mid) as nat);
    lemma_pow2_pos((mid - start) as nat);
    let q = b as int / p_drop;
    lemma_div_pos_is_pos(b as int, p_drop);
    lemma_pow2_adds((8 - end) as nat, (end - mid) as nat);
    lemma_div_denominator(b as int, p_drop, p_low);
    lemma_pow2_adds((end - mid) as nat, (mid - start) as nat);
    lemma_mod_breakdown(q, p_low, p_high);
    lemma_mul_is_commutative(p_low, (q / p_low) % p_high);
    lemma_extract_bound(b, start, end);
    lemma_extract_bound(b, start, mid);
    lemma_extract_bound(b, mid, end);
}

/// A byte is exactly its decoder fields put back in place: the 2-bit
/// prefix, then either the two 3-bit fields or the 2-bit pair field with
/// the 4-bit discriminant. So field values determine the byte, and the
/// exact-match opcodes coincide with their bit-field decompositions.
pub proof fn lemma_extract_decomposes(b: u8)
    ensures
        b == extract(b, 0, 2) * 64 + extract(b, 2, 5) * 8 + extract(b, 5, 8),
        b == extract(b, 0, 2) * 64 + extract(b, 2, 4) * 16 + extract(b, 4, 8),
{
    lemma_extract_full(b);
    lemma_extract_split(b, 0, 2, 8);
    lemma_extract_split(b, 2, 5, 8);
    lemma_extract_split(b, 2, 4, 8);
    lemma2_to64();
}

/// A byte treated as an ordered sequence of 8 bit positions, position 0
/// being the most significant.
#[derive(Debug, Clone, Copy, PartialEq, Eq)]
pub struct Bits(u8);

impl View for Bits {
    type V = u8;

    closed spec fn view(&self) -> u8 {
        self.0
    }
}

impl Bits {
    /// Wraps a byte for bit-field queries.
    pub fn new(n: u8) -> (b: Bits)
        ensures
            b@ == n,
    {
        Bits(n)
    }

    /// The single bit at position `offset`, counting from the most
    /// significant end: 0 or 1.
    pub fn bit(&self, offset: u8) -> (r: u8)
        requires
            offset < 8,
        ensures
            r == extract(self@, offset as int, offset as int + 1),
    {
        let shift: u8 = 7 - offset;
        let shifted: u8 = self.0 >> shift;
        let r: u8 = shifted & 1;
        proof {
            lemma_u8_shr_is_div(self.0, shift);
            lemma_u8_low_bits_mask_is_mod(shifted, 1);
            lemma2_to64();
            assert(r == shifted % 2);
            lemma_extract_bound(self.0, offset as int, offset as int + 1);
        }
        r
    }

    /// The bits in the half-open position range `range`, right-justified
    /// into a fresh value.
    pub fn bit_range(&self, range: Range<u8>) -> (r: u8)
        requires
            range.start < range.end,
            range.end <= 8,
        ensures
            r == extract(self@, range.start as int, range.end as int),
    {
        let start: u8 = range.start;
        let end: u8 = range.end;
        let shift: u8 = 8 - end;
        let width: u8 = end - start;
        let shifted: u8 = self.0 >> shift;
        proof {
            lemma_u8_shr_is_div(self.0, shift);
            lemma_extract_bound(self.0, start as int, end as int);
        }
        if width == 8 {
            proof {
                lemma2_to64();
                lemma_small_mod(shifted as nat, 256);
            }
            shifted
        } else {
            proof {
                lemma_u8_pow2_no_overflow(width as nat);
                lemma_u8_shl_is_mul(1, width);
            }
            let mask: u8 = (1u8 << width) - 1;
            proof {
                assert(mask == low_bits_mask(width as nat));
                lemma_u8_low_bits_mask_is_mod(shifted, width as nat);
            }
            shifted & mask
        }
    }
}

/// Cut points that partition the bit positions 0..8 into adjacent ranges:
/// they begin at 0, end at 8, and strictly increase.
pub open spec fn is_partition(cuts: Seq<int>) -> bool {
    &&& cuts.len() >= 2
    &&& cuts[0] == 0
    &&& cuts.last() == 8
    &&& forall|i: int| 0 <= i < cuts.len() ==> 0 <= #[trigger] cuts[i] <= 8
    &&& forall|i: int| 0 <= i < cuts.len() - 1 ==> #[trigger] cuts[i] < cuts[i + 1]
}

/// Every range of `cuts` extracted from `b`, shifted back to its original
/// position, and or-ed onto the ranges before it.
pub open spec fn recombine(b: u8, cuts: Seq<int>) -> u8
    recommends
        forall|i: int| 0 <= i < cuts.len() ==> 0 <= #[trigger] cuts[i] <= 8,
    decreases cuts.len(),
{
    if cuts.len() < 2 {
        0
    } else {
        recombine(b, cuts.drop_last()) | (extract(b, cuts[cuts.len() - 2], cuts.last()) << (
        (8 - cuts.last()) as u8))
    }
}

/// A byte whose low positions (below the power `pow2(k)`) are clear or-ed
/// with one that fits inside them adds without interference.
proof fn lemma_or_of_disjoint(x: u8, y: u8, k: u8)
    requires
        k < 8,
        x as int % pow2(k as nat) as int == 0,
        y < pow2(k as nat),
    ensures
        x | y == x + y,
{
    lemma_u8_pow2_no_overflow(k as nat);
    let p: u8 = 1u8 << k;
    lemma_u8_shl_is_mul(1, k);
    assert((p == 1u8 << k && k < 8 && x % p == 0 && y < p) ==> ((x | y) == x + y && x + y
        < 256)) by (bit_vector);
}

/// The recombined prefix of a partition is the field over the whole prefix,
/// parked at its original position.
proof fn lemma_recombine_value(b: u8, cuts: Seq<int>)
    requires
        cuts.len() >= 2,
        cuts[0] == 0,
        cuts.last() <= 8,
        forall|i: int| 0 <= i < cuts.len() ==> 0 <= #[trigger] cuts[i] <= 8,
        forall|i: int| 0 <= i < cuts.len() - 1 ==> #[trigger] cuts[i] < cuts[i + 1],
    ensures
        recombine(b, cuts) == extract(b, 0, cuts.last()) * pow2((8 - cuts.last()) as nat),
    decreases cuts.len(),
{
    let e = cuts.last();
    let m = cuts[cuts.len() - 2];
    let x = extract(b, m, e);
    let sh: u8 = (8 - e) as u8;
    let pe = pow2((8 - e) as nat) as int;
    let pem = pow2((e - m) as nat) as int;
    lemma_pow2_pos((8 - e) as nat);
    lemma_pow2_pos((e - m) as nat);
    lemma_extract_bound(b, m, e);
    lemma_pow2_adds((e - m) as nat, (8 - e) as nat);
    lemma2_to64();
    if m > 0 {
        lemma_pow2_strictly_increases((8 - m) as nat, 8);
    }
    assert(x * pe < pem * pe) by (nonlinear_arith)
        requires
            x < pem,
            pe > 0,
    ;
    lemma_u8_shl_is_mul(x, sh);
    if cuts.len() == 2 {
        let y: u8 = x << sh;
        assert(recombine(b, cuts.drop_last()) == 0);
        assert(0u8 | y == y) by (bit_vector);
        assert(recombine(b, cuts) == y);
        assert(m == 0);
        assert(y == x * pe);
    } else {
        let prefix = cuts.drop_last();
        assert(cuts[cuts.len() - 3] < m);
        assert(prefix.last() == m);
        assert forall|i: int| 0 <= i < prefix.len() implies 0 <= #[trigger] prefix[i] <= 8 by {
            assert(prefix[i] == cuts[i]);
        };
        assert forall|i: int| 0 <= i < prefix.len() - 1 implies #[trigger] prefix[i] < prefix[i
            + 1] by {
            assert(prefix[i] == cuts[i]);
            assert(prefix[i + 1] == cuts[i + 1]);
        };
        lemma_recombine_value(b, prefix);
        let hi = extract(b, 0, m) as int;
        let pm = pow2((8 - m) as nat) as int;
        lemma_extract_split(b, 0, m, e);
        assert((hi * pem + x) * pe == hi * (pem * pe) + x * pe) by (nonlinear_arith);
        let left: u8 = recombine(b, prefix);
        let y: u8 = x << sh;
        lemma_mod_multiples_basic(hi, pm);
        assert(left == hi * pm);
        assert(y == x * pe);
        lemma_or_of_disjoint(left, y, (8 - m) as u8);
        assert(recombine(b, cuts) == left + y);
        assert(pem * pe == pm);
        assert(extract(b, 0, e) * pe == hi * pm + x * pe);
    }
}

/// Bit-range partition law: extract every range of any partition of the bit
/// positions 0..8, shift each back to its original position, or the pieces
/// together, and the original byte comes back exactly.
pub proof fn lemma_bit_range_partition(b: u8, cuts: Seq<int>)
    requires
        is_partition(cuts),
    ensures
        recombine(b, cuts) == b,
{
    lemma_recombine_value(b, cuts);
    lemma2_to64();
    lemma_extract_full(b);
}

} // verus!
