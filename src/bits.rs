use vstd::prelude::*;

verus! {

/// Number of addressable bits in a `BitVector`.
pub const BIT_WIDTH: u128 = 128;

/// Whether bit `b` of `v` is one; bits at or beyond the width are never set.
pub open spec fn bit_of(v: u128, b: u128) -> bool {
    b < 128 && v & (1u128 << b) != 0
}

/// A bit position that lies outside the width of a `BitVector`.
#[derive(Clone, Copy, Debug, PartialEq, Eq, Structural)]
pub struct OutOfRange {
    pub bit: u128,
}

/// A value that names one bit of a `BitVector`.
pub trait Flag {
    /// The bit position this value names.
    spec fn spec_bit(&self) -> u128;

    fn bit(self) -> (r: u128)
        ensures
            r == self.spec_bit(),
    ;
}

impl Flag for u8 {
    open spec fn spec_bit(&self) -> u128 {
        *self as u128
    }

    fn bit(self) -> (r: u128) {
        self as u128
    }
}

impl Flag for u32 {
    open spec fn spec_bit(&self) -> u128 {
        *self as u128
    }

    fn bit(self) -> (r: u128) {
        self as u128
    }
}

impl Flag for u128 {
    open spec fn spec_bit(&self) -> u128 {
        *self
    }

    fn bit(self) -> (r: u128) {
        self
    }
}

/// A fixed-width set of flags, one bit per flag.
#[derive(Clone, Copy, Debug, PartialEq, Eq, Structural)]
pub struct BitVector(pub u128);

impl BitVector {
    /// Whether flag `b` is present in the set.
    pub open spec fn has(self, b: u128) -> bool {
        bit_of(self.0, b)
    }

    /// A vector with every bit clear.
    pub fn new() -> (r: BitVector)
        ensures
            r.0 == 0,
            forall|b: u128| !r.has(b),
    {
        proof {
            assert forall|b: u128| !bit_of(0u128, b) by {
                assert(0u128 & (1u128 << b) == 0) by (bit_vector);
            }
        }
        BitVector(0)
    }

    /// Whether the bit named by `flag` is set; a bit beyond the width never is.
    pub fn is_set<T: Flag>(&self, flag: T) -> (r: bool)
        ensures
            r == self.has(flag.spec_bit()),
    {
        let b = flag.bit();
        if b < BIT_WIDTH {
            self.0 & (1u128 << b) != 0
        } else {
            false
        }
    }

    /// Sets the bit named by `flag`, or reports that it lies beyond the width.
    pub fn set<T: Flag>(&mut self, flag: T) -> (r: Result<(), OutOfRange>)
        ensures
            flag.spec_bit() < 128 <==> r is Ok,
            r is Ok ==> final(self).0 == old(self).0 | (1u128 << flag.spec_bit()),
            r is Ok ==> forall|k: u128|
                #[trigger] final(self).has(k) == (k == flag.spec_bit() || old(self).has(k)),
            r is Err ==> r == Err::<(), OutOfRange>(OutOfRange { bit: flag.spec_bit() }),
            r is Err ==> *final(self) == *old(self),
    {
        let b = flag.bit();
        if b < BIT_WIDTH {
            let v = self.0;
            self.0 = v | (1u128 << b);
            proof {
                let w = self.0;
                assert forall|k: u128| #[trigger] bit_of(w, k) == (k == b || bit_of(v, k)) by {
                    assert(w == v | (1u128 << b) && b < 128 ==> ((k < 128 && w & (1u128 << k) != 0)
                        == (k == b || (k < 128 && v & (1u128 << k) != 0)))) by (bit_vector);
                }
            }
            Ok(())
        } else {
            Err(OutOfRange { bit: b })
        }
    }

    /// Clears the bit named by `flag`, or reports that it lies beyond the width.
    pub fn unset<T: Flag>(&mut self, flag: T) -> (r: Result<(), OutOfRange>)
        ensures
            flag.spec_bit() < 128 <==> r is Ok,
            r is Ok ==> final(self).0 == old(self).0 & !(1u128 << flag.spec_bit()),
            r is Ok ==> forall|k: u128|
                #[trigger] final(self).has(k) == (k != flag.spec_bit() && old(self).has(k)),
            r is Err ==> r == Err::<(), OutOfRange>(OutOfRange { bit: flag.spec_bit() }),
            r is Err ==> *final(self) == *old(self),
    {
        let b = flag.bit();
        if b < BIT_WIDTH {
            let v = self.0;
            self.0 = v & !(1u128 << b);
            proof {
                let w = self.0;
                assert forall|k: u128| #[trigger] bit_of(w, k) == (k != b && bit_of(v, k)) by {
                    assert(w == v & !(1u128 << b) && b < 128 ==> ((k < 128 && w & (1u128 << k)
                        != 0) == (k != b && (k < 128 && v & (1u128 << k) != 0)))) by (bit_vector);
                }
            }
            Ok(())
        } else {
            Err(OutOfRange { bit: b })
        }
    }
}

impl From<u128> for BitVector {
    fn from(value: u128) -> (r: BitVector) {
        BitVector(value)
    }
}

impl vstd::std_specs::convert::FromSpecImpl<u128> for BitVector {
    open spec fn obeys_from_spec() -> bool {
        true
    }

    open spec fn from_spec(value: u128) -> BitVector {
        BitVector(value)
    }
}

/// Setting a valid bit makes it read as set and leaves every other bit as it
/// was; clearing that bit again restores the vector whenever it was clear
/// before it was set.
pub proof fn lemma_set_unset_round_trip(v: BitVector, b: u128)
    requires
        b < 128,
    ensures
        BitVector(v.0 | (1u128 << b)).has(b),
        forall|k: u128| k != b ==> #[trigger] BitVector(v.0 | (1u128 << b)).has(k) == v.has(k),
        !v.has(b) ==> BitVector((v.0 | (1u128 << b)) & !(1u128 << b)) == v,
{
    let x = v.0;
    assert(b < 128 ==> (x | (1u128 << b)) & (1u128 << b) != 0) by (bit_vector);
    assert forall|k: u128| k != b implies #[trigger] bit_of(x | (1u128 << b), k) == bit_of(x, k) by {
        assert(k != b && b < 128 ==> (k < 128 && (x | (1u128 << b)) & (1u128 << k) != 0) == (k
            < 128 && x & (1u128 << k) != 0)) by (bit_vector);
    }
    assert(b < 128 && x & (1u128 << b) == 0 ==> (x | (1u128 << b)) & !(1u128 << b) == x)
        by (bit_vector);
}

} // verus!
