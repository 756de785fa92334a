//! Three-bit access sets, as they appear for owner, group and others in a
//! Unix-style mode string.

use vstd::prelude::*;

verus! {

/// One of the three rights that a mode string grants or withholds.
#[derive(Clone, Copy, Debug, PartialEq, Eq, Structural)]
pub enum Access {
    Read,
    Write,
    Exec,
}

/// A set of rights, kept as three bits.
#[derive(Clone, Copy, Debug, PartialEq, Eq, Structural)]
pub struct SubPerm {
    bits: u8,
}

/// No right.
pub const NIL: u8 = 0b0000_0000;

/// The right to execute.
pub const EXEC: u8 = 0b0000_0001;

/// The right to write.
pub const WRITE: u8 = 0b0000_0010;

/// The right to read.
pub const READ: u8 = 0b0000_0100;

/// Every right.
pub const ALL: u8 = 0b0000_0111;

/// The bit that stands for one right.
pub open spec fn access_bit(a: Access) -> u8 {
    match a {
        Access::Read => READ,
        Access::Write => WRITE,
        Access::Exec => EXEC,
    }
}

/// Whether the bit of the right `a` is set in `bits`.
pub open spec fn bits_hold(bits: u8, a: Access) -> bool {
    bits & access_bit(a) != 0
}

/// The rights whose bits are set in `bits`.
pub open spec fn rights_of(bits: u8) -> Set<Access> {
    Set::new(|a: Access| bits_hold(bits, a))
}

/// How the bits of unions, intersections and the five named sets read as
/// rights.
pub proof fn lemma_bits(x: u8, y: u8)
    requires
        x <= ALL,
        y <= ALL,
    ensures
        x | y <= ALL,
        x & y <= ALL,
        rights_of(x | y) == rights_of(x).union(rights_of(y)),
        rights_of(x & y) == rights_of(x).intersect(rights_of(y)),
        rights_of(x).subset_of(rights_of(y)) <==> x & y == x,
        rights_of(x) == rights_of(y) <==> x == y,
        rights_of(NIL) == Set::<Access>::empty(),
        rights_of(READ) == set![Access::Read],
        rights_of(WRITE) == set![Access::Write],
        rights_of(EXEC) == set![Access::Exec],
        rights_of(ALL) == Set::<Access>::full(),
{
    assert(x <= 7 && y <= 7 ==> (x | y) <= 7 && (x & y) <= 7) by (bit_vector);
    assert(((x | y) & 4 != 0 <==> (x & 4 != 0 || y & 4 != 0)) && ((x | y) & 2 != 0 <==> (x & 2 != 0
        || y & 2 != 0)) && ((x | y) & 1 != 0 <==> (x & 1 != 0 || y & 1 != 0))) by (bit_vector);
    assert(((x & y) & 4 != 0 <==> (x & 4 != 0 && y & 4 != 0)) && ((x & y) & 2 != 0 <==> (x & 2 != 0
        && y & 2 != 0)) && ((x & y) & 1 != 0 <==> (x & 1 != 0 && y & 1 != 0))) by (bit_vector);
    assert(x <= 7 && y <= 7 ==> (x & y == x <==> ((x & 4 != 0 ==> y & 4 != 0) && (x & 2 != 0 ==> y
        & 2 != 0) && (x & 1 != 0 ==> y & 1 != 0)))) by (bit_vector);
    assert(x <= 7 && y <= 7 ==> (x == y <==> ((x & 4 != 0 <==> y & 4 != 0) && (x & 2 != 0 <==> y & 2
        != 0) && (x & 1 != 0 <==> y & 1 != 0)))) by (bit_vector);
    assert(0u8 & 4 == 0 && 0u8 & 2 == 0 && 0u8 & 1 == 0) by (bit_vector);
    assert(4u8 & 4 != 0 && 4u8 & 2 == 0 && 4u8 & 1 == 0) by (bit_vector);
    assert(2u8 & 4 == 0 && 2u8 & 2 != 0 && 2u8 & 1 == 0) by (bit_vector);
    assert(1u8 & 4 == 0 && 1u8 & 2 == 0 && 1u8 & 1 != 0) by (bit_vector);
    assert(7u8 & 4 != 0 && 7u8 & 2 != 0 && 7u8 & 1 != 0) by (bit_vector);
    assert(rights_of(y).contains(Access::Read) == bits_hold(y, Access::Read));
    assert(rights_of(y).contains(Access::Write) == bits_hold(y, Access::Write));
    assert(rights_of(y).contains(Access::Exec) == bits_hold(y, Access::Exec));
}

impl SubPerm {
    /// Only the three low bits are ever set.
    #[verifier::type_invariant]
    spec fn within_all(self) -> bool {
        self.bits <= ALL
    }

    /// The bits of the set.
    pub closed spec fn spec_bits(self) -> u8 {
        self.bits
    }

    /// Whether the set holds the right `a`.
    pub open spec fn has(self, a: Access) -> bool {
        self@.contains(a)
    }
}

impl View for SubPerm {
    type V = Set<Access>;

    open spec fn view(&self) -> Set<Access> {
        rights_of(self.spec_bits())
    }
}

impl SubPerm {
    /// The set with the given bits, or `None` where a bit other than the
    /// three low ones is set.
    pub fn from_bits(bits: u8) -> (r: Option<SubPerm>)
        ensures
            r is Some <==> bits <= ALL,
            r matches Some(p) ==> p.spec_bits() == bits,
    {
        if bits <= ALL {
            Some(SubPerm { bits })
        } else {
            None
        }
    }

    /// The bits of the set: 4 for reading, 2 for writing, 1 for executing.
    pub fn bits(self) -> (r: u8)
        ensures
            r == self.spec_bits(),
            r <= ALL,
    {
        proof {
            use_type_invariant(self);
        }
        self.bits
    }

    /// The empty set.
    pub fn nil() -> (r: SubPerm)
        ensures
            r.spec_bits() == NIL,
            r@ == Set::<Access>::empty(),
    {
        proof {
            lemma_bits(NIL, NIL);
        }
        SubPerm { bits: NIL }
    }

    /// The right to execute, alone.
    pub fn exec() -> (r: SubPerm)
        ensures
            r.spec_bits() == EXEC,
            r@ == set![Access::Exec],
    {
        proof {
            lemma_bits(EXEC, EXEC);
        }
        SubPerm { bits: EXEC }
    }

    /// The right to write, alone.
    pub fn write() -> (r: SubPerm)
        ensures
            r.spec_bits() == WRITE,
            r@ == set![Access::Write],
    {
        proof {
            lemma_bits(WRITE, WRITE);
        }
        SubPerm { bits: WRITE }
    }

    /// The right to read, alone.
    pub fn read() -> (r: SubPerm)
        ensures
            r.spec_bits() == READ,
            r@ == set![Access::Read],
    {
        proof {
            lemma_bits(READ, READ);
        }
        SubPerm { bits: READ }
    }

    /// All three rights.
    pub fn all() -> (r: SubPerm)
        ensures
            r.spec_bits() == ALL,
            r@ == Set::<Access>::full(),
    {
        proof {
            lemma_bits(ALL, ALL);
        }
        SubPerm { bits: ALL }
    }

    /// The set that holds `a` alone.
    pub fn only(a: Access) -> (r: SubPerm)
        ensures
            r.spec_bits() == access_bit(a),
            r@ == set![a],
    {
        match a {
            Access::Read => SubPerm::read(),
            Access::Write => SubPerm::write(),
            Access::Exec => SubPerm::exec(),
        }
    }

    /// The rights of either set.
    pub fn union(self, other: SubPerm) -> (r: SubPerm)
        ensures
            r.spec_bits() == self.spec_bits() | other.spec_bits(),
            r@ == self@.union(other@),
    {
        proof {
            use_type_invariant(self);
            use_type_invariant(other);
            lemma_bits(self.bits, other.bits);
        }
        SubPerm { bits: self.bits | other.bits }
    }

    /// The rights of both sets.
    pub fn intersection(self, other: SubPerm) -> (r: SubPerm)
        ensures
            r.spec_bits() == self.spec_bits() & other.spec_bits(),
            r@ == self@.intersect(other@),
    {
        proof {
            use_type_invariant(self);
            use_type_invariant(other);
            lemma_bits(self.bits, other.bits);
        }
        SubPerm { bits: self.bits & other.bits }
    }

    /// Whether every right of `other` is in the set.
    pub fn contains(self, other: SubPerm) -> (r: bool)
        ensures
            r == other@.subset_of(self@),
    {
        proof {
            use_type_invariant(self);
            use_type_invariant(other);
            lemma_bits(other.bits, self.bits);
        }
        other.bits & self.bits == other.bits
    }

    /// Whether the set holds the right `a`.
    pub fn grants(self, a: Access) -> (r: bool)
        ensures
            r == self.has(a),
    {
        let bit = match a {
            Access::Read => READ,
            Access::Write => WRITE,
            Access::Exec => EXEC,
        };
        self.bits & bit != 0
    }

    /// Whether the set holds no right.
    pub fn is_empty(self) -> (r: bool)
        ensures
            r == (self@ == Set::<Access>::empty()),
            r == (self.spec_bits() == NIL),
    {
        proof {
            use_type_invariant(self);
            lemma_bits(self.bits, NIL);
        }
        self.bits == NIL
    }

    /// Whether the set holds every right.
    pub fn is_all(self) -> (r: bool)
        ensures
            r == (self@ == Set::<Access>::full()),
            r == (self.spec_bits() == ALL),
    {
        proof {
            use_type_invariant(self);
            lemma_bits(self.bits, ALL);
        }
        self.bits == ALL
    }
}

} // verus!
