use vstd::prelude::*;

verus! {

/// The integer type that backs a [`BitSet`]: 32 flags of headroom.
pub type Flag = u32;

/// Number of distinct flags a [`BitSet`] can hold.
pub const FLAG_WIDTH: u32 = 32;

/// Whether bit `i` is set in `bits`.
pub open spec fn has_bit(bits: u32, i: u32) -> bool {
    (bits >> i) & 1u32 == 1u32
}

/// A single-bit flag: the flag of component number `i`.
pub open spec fn single_flag(i: u32) -> u32 {
    1u32 << i
}

/// A fixed-width set of component flags.
#[derive(Clone, Copy)]
pub struct BitSet {
    bits: Flag,
}

impl BitSet {
    /// The raw bits of the set.
    pub closed spec fn view(&self) -> u32 {
        self.bits
    }

    pub fn new(bits: Flag) -> (r: Self)
        ensures
            r@ == bits,
    {
        Self { bits }
    }

    /// A new set with the bits of `flag` added; `self` is unchanged.
    pub fn with(&self, flag: Flag) -> (r: Self)
        ensures
            r@ == self@ | flag,
    {
        Self { bits: self.bits | flag }
    }

    /// The empty set, as a value.
    pub closed spec fn empty_spec() -> Self {
        Self { bits: 0 }
    }

    pub fn empty() -> (r: Self)
        ensures
            r == Self::empty_spec(),
            r@ == 0,
    {
        Self { bits: 0 }
    }

    pub fn include_flag(&mut self, flag: Flag)
        ensures
            final(self)@ == old(self)@ | flag,
    {
        self.bits = self.bits | flag;
    }

    pub fn exclude_flag(&mut self, flag: Flag)
        ensures
            final(self)@ == old(self)@ & !flag,
    {
        self.bits = self.bits & !flag;
    }

    /// Whether every bit of `flag` is set in `self`.
    pub fn contains(&self, flag: Flag) -> (r: bool)
        ensures
            r == (self@ & flag == flag),
    {
        (self.bits & flag) == flag
    }

    /// Whether every bit set in `self` is also set in `other`.
    pub fn is_subset_of(&self, other: &Self) -> (r: bool)
        ensures
            r == (other@ & self@ == self@),
    {
        (other.bits & self.bits) == self.bits
    }
}

proof fn lemma_bit_and(x: u32, y: u32, i: u32)
    by (bit_vector)
    requires
        i < 32,
    ensures
        has_bit(x & y, i) == (has_bit(x, i) && has_bit(y, i)),
{
}

proof fn lemma_single_flag(x: u32, i: u32)
    by (bit_vector)
    requires
        i < 32,
    ensures
        (x & single_flag(i) == single_flag(i)) == has_bit(x, i),
{
}

/// Flags on the empty set and on `with`: the empty set holds no non-zero
/// flag, a set built `with(f)` holds `f`, and adding flags with `with` is
/// commutative and associative, as bitwise or is.
pub proof fn lemma_with_laws(a: BitSet, f: Flag, g: Flag)
    ensures
        f != 0 ==> (BitSet::empty_spec()@ & f != f),
        (BitSet::empty_spec()@ | f) & f == f,
        (a@ | f) | g == (a@ | g) | f,
        (a@ | f) | g == a@ | (f | g),
{
    let x = a@;
    assert(f != 0 ==> (0u32 & f != f)) by (bit_vector);
    assert((0u32 | f) & f == f) by (bit_vector);
    assert((x | f) | g == (x | g) | f) by (bit_vector);
    assert((x | f) | g == x | (f | g)) by (bit_vector);
}

/// `a` is a subset of `b` exactly when every single flag that `a` contains
/// is contained in `b`; every set is a subset of itself, and the empty set
/// is a subset of every set.
pub proof fn lemma_subset_laws(a: BitSet, b: BitSet)
    ensures
        (b@ & a@ == a@) <==> (forall|i: u32|
            i < FLAG_WIDTH && #[trigger] (a@ & single_flag(i)) == single_flag(i) ==> b@ & single_flag(i)
                == single_flag(i)),
        a@ & a@ == a@,
        b@ & BitSet::empty_spec()@ == BitSet::empty_spec()@,
{
    let x = a@;
    let y = b@;
    assert(x & x == x) by (bit_vector);
    assert(y & 0u32 == 0u32) by (bit_vector);
    if y & x == x {
        assert forall|i: u32| i < FLAG_WIDTH && #[trigger] (x & single_flag(i)) == single_flag(i) implies y
            & single_flag(i) == single_flag(i) by {
            lemma_single_flag(x, i);
            lemma_single_flag(y, i);
            lemma_bit_and(y, x, i);
        }
    }
    if forall|i: u32|
        i < FLAG_WIDTH && #[trigger] (x & single_flag(i)) == single_flag(i) ==> y & single_flag(i)
            == single_flag(i) {
        assert forall|i: u32| i < 32 implies #[trigger] has_bit(y & x, i) == has_bit(x, i) by {
            lemma_single_flag(x, i);
            lemma_single_flag(y, i);
            lemma_bit_and(y, x, i);
        }
        lemma_bits_ext(y & x, x);
    }
}

proof fn lemma_shift_step(a: u32, b: u32, n: u32)
    by (bit_vector)
    requires
        n < 31,
        a >> ((n + 1) as u32) == b >> ((n + 1) as u32),
        ((a >> n) & 1u32 == 1u32) == ((b >> n) & 1u32 == 1u32),
    ensures
        a >> n == b >> n,
{
}

proof fn lemma_top_bit(a: u32, b: u32)
    by (bit_vector)
    requires
        ((a >> 31u32) & 1u32 == 1u32) == ((b >> 31u32) & 1u32 == 1u32),
    ensures
        a >> 31u32 == b >> 31u32,
{
}

proof fn lemma_shift_zero(a: u32, b: u32)
    by (bit_vector)
    requires
        a >> 0u32 == b >> 0u32,
    ensures
        a == b,
{
}

/// Agreement on all bits from position `n` up gives equal high parts.
proof fn lemma_high_bits(a: u32, b: u32, n: u32)
    requires
        n < 32,
        forall|i: u32| n <= i < 32 ==> #[trigger] has_bit(a, i) == has_bit(b, i),
    ensures
        a >> n == b >> n,
    decreases 32 - n,
{
    assert(has_bit(a, n) == has_bit(b, n));
    if n == 31 {
        lemma_top_bit(a, b);
    } else {
        lemma_high_bits(a, b, (n + 1) as u32);
        lemma_shift_step(a, b, n);
    }
}

/// Two bit patterns that agree at every position are equal.
proof fn lemma_bits_ext(a: u32, b: u32)
    requires
        forall|i: u32| i < 32 ==> #[trigger] has_bit(a, i) == has_bit(b, i),
    ensures
        a == b,
{
    lemma_high_bits(a, b, 0);
    lemma_shift_zero(a, b);
}

} // verus!
