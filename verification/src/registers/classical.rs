//! The classical outcome of a measurement: eight bits packed in a byte.
use crate::error::QuantumError;
use vstd::prelude::*;

verus! {

/// Eight classical bits, bit `0` being the least significant.
#[derive(Debug, Clone, Copy, PartialEq, Eq, Structural)]
pub struct ClassicalRegister {
    pub bits: u8,
}

/// Bit `index` of `bits`.
pub open spec fn bit_of(bits: u8, index: u8) -> bool {
    (bits >> index) & 1 == 1
}

impl View for ClassicalRegister {
    type V = Seq<bool>;

    /// The eight bits, least significant first.
    open spec fn view(&self) -> Seq<bool> {
        Seq::new(8, |i: int| bit_of(self.bits, i as u8))
    }
}

proof fn lemma_or_bit(bits: u8, n: u8, one_bit: u8, i: u8)
    by (bit_vector)
    requires
        n < 8,
        i < 8,
        one_bit == 0 || one_bit == 1,
        (bits >> n) & 1 == 0,
    ensures
        (((bits | (one_bit << n)) >> i) & 1 == 1) == (if i == n {
            one_bit == 1
        } else {
            (bits >> i) & 1 == 1
        }),
{
}

proof fn lemma_set_bit(bits: u8, n: u8, i: u8)
    by (bit_vector)
    requires
        n < 8,
        i < 8,
    ensures
        (((bits | (1u8 << n)) >> i) & 1 == 1) == (if i == n {
            true
        } else {
            (bits >> i) & 1 == 1
        }),
        (((bits & !(1u8 << n)) >> i) & 1 == 1) == (if i == n {
            false
        } else {
            (bits >> i) & 1 == 1
        }),
{
}

proof fn lemma_zero_bit(i: u8)
    by (bit_vector)
    requires
        i < 8,
    ensures
        (0u8 >> i) & 1 == 0,
{
}

proof fn lemma_bits_determine(a: u8, b: u8)
    by (bit_vector)
    requires
        ((a >> 0u8) & 1 == 1) == ((b >> 0u8) & 1 == 1),
        ((a >> 1u8) & 1 == 1) == ((b >> 1u8) & 1 == 1),
        ((a >> 2u8) & 1 == 1) == ((b >> 2u8) & 1 == 1),
        ((a >> 3u8) & 1 == 1) == ((b >> 3u8) & 1 == 1),
        ((a >> 4u8) & 1 == 1) == ((b >> 4u8) & 1 == 1),
        ((a >> 5u8) & 1 == 1) == ((b >> 5u8) & 1 == 1),
        ((a >> 6u8) & 1 == 1) == ((b >> 6u8) & 1 == 1),
        ((a >> 7u8) & 1 == 1) == ((b >> 7u8) & 1 == 1),
    ensures
        a == b,
{
}

impl ClassicalRegister {
    /// Bit `index` of this register.
    pub open spec fn bit(&self, index: u8) -> bool {
        bit_of(self.bits, index)
    }

    /// This register is `bools` packed: bit `i` is `bools[i]` for every
    /// index of `bools`, and the bits past its end are clear.
    pub open spec fn packs(&self, bools: Seq<bool>) -> bool {
        forall|i: u8| i < 8 ==> #[trigger] self.bit(i) == (i < bools.len() && bools[i as int])
    }

    /// Packs `bools` into a register, `bools[0]` becoming bit `0`.
    ///
    /// More than eight bits do not fit: they are refused, never truncated.
    pub fn from_bools(bools: &[bool]) -> (r: Result<ClassicalRegister, QuantumError>)
        ensures
            bools@.len() <= 8 <==> r is Ok,
            r matches Ok(reg) ==> reg.packs(bools@),
            r matches Err(e) ==> e == QuantumError::Overflow,
    {
        if bools.len() > 8 {
            return Err(QuantumError::Overflow);
        }
        let mut bits: u8 = 0;
        let mut n: u8 = 0;
        proof {
            assert forall|i: u8| i < 8 implies #[trigger] bit_of(bits, i) == false by {
                lemma_zero_bit(i);
            }
        }
        while (n as usize) < bools.len()
            invariant
                bools@.len() <= 8,
                n <= bools@.len(),
                forall|i: u8|
                    i < 8 ==> #[trigger] bit_of(bits, i) == (i < n && bools@[i as int]),
            decreases bools@.len() - n,
        {
            let b = bools[n as usize];
            let ghost before = bits;
            let one_bit: u8 = if b {
                1
            } else {
                0
            };
            bits = bits | (one_bit << n);
            proof {
                assert(bit_of(before, n) == false);
                assert((before >> n) & 1 == 0) by (bit_vector)
                    requires
                        !((before >> n) & 1 == 1),
                ;
                assert forall|i: u8| i < 8 implies #[trigger] bit_of(bits, i) == (i < n + 1
                    && bools@[i as int]) by {
                    lemma_or_bit(before, n, one_bit, i);
                    assert(bit_of(before, i) == (i < n && bools@[i as int]));
                }
            }
            n = n + 1;
        }
        Ok(ClassicalRegister { bits })
    }

    /// Reads bit `index`.
    pub fn index(&self, index: u8) -> (r: bool)
        requires
            index < 8,
        ensures
            r == self.bit(index),
            r == self@[index as int],
    {
        ((self.bits >> index) & 1) == 1
    }

    /// Writes `val` to bit `index` and leaves the other bits as they are.
    pub fn set(&mut self, index: u8, val: bool)
        requires
            index < 8,
        ensures
            final(self).bits == (if val {
                old(self).bits | (1u8 << index)
            } else {
                old(self).bits & !(1u8 << index)
            }),
            final(self).bit(index) == val,
            forall|i: u8| i < 8 && i != index ==> #[trigger] final(self).bit(i) == old(self).bit(i),
            final(self)@ == old(self)@.update(index as int, val),
    {
        let ghost before = self.bits;
        if val {
            self.bits = self.bits | (1u8 << index);
        } else {
            self.bits = self.bits & !(1u8 << index);
        }
        proof {
            assert forall|i: u8| i < 8 implies #[trigger] bit_of(self.bits, i) == (if i == index {
                val
            } else {
                bit_of(before, i)
            }) by {
                lemma_set_bit(before, index, i);
            }
            assert(self@ =~= old(self)@.update(index as int, val));
        }
    }
}

impl vstd::std_specs::convert::FromSpecImpl<u8> for ClassicalRegister {
    open spec fn obeys_from_spec() -> bool {
        true
    }

    /// The register whose bit pattern is the byte.
    open spec fn from_spec(bits: u8) -> Self {
        ClassicalRegister { bits }
    }
}

impl From<u8> for ClassicalRegister {
    fn from(bits: u8) -> (r: Self) {
        ClassicalRegister { bits }
    }
}

/// Reading every index of a register packed from at most eight bits gives
/// the bits back, and the indices past the last one read as clear.
pub proof fn lemma_pack_round_trip(bools: Seq<bool>, reg: ClassicalRegister)
    requires
        bools.len() <= 8,
        reg.packs(bools),
    ensures
        reg@.subrange(0, bools.len() as int) == bools,
        forall|i: int| bools.len() <= i < 8 ==> !reg@[i],
{
    assert(reg@.subrange(0, bools.len() as int) =~= bools) by {
        assert forall|i: int| 0 <= i < bools.len() implies reg@[i] == bools[i] by {
            assert(reg.bit(i as u8) == bools[i]);
        }
    }
    assert forall|i: int| bools.len() <= i < 8 implies !reg@[i] by {
        assert(reg.bit(i as u8) == false);
    }
}

/// A sequence of bits packs into one register only: the eight bits
/// determine the byte.
pub proof fn lemma_packing_is_unique(bools: Seq<bool>, a: ClassicalRegister, b: ClassicalRegister)
    requires
        a.packs(bools),
        b.packs(bools),
    ensures
        a == b,
{
    assert(a.bit(0) == b.bit(0));
    assert(a.bit(1) == b.bit(1));
    assert(a.bit(2) == b.bit(2));
    assert(a.bit(3) == b.bit(3));
    assert(a.bit(4) == b.bit(4));
    assert(a.bit(5) == b.bit(5));
    assert(a.bit(6) == b.bit(6));
    assert(a.bit(7) == b.bit(7));
    lemma_bits_determine(a.bits, b.bits);
}

} // verus!
