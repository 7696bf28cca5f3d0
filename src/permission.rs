//! Access permissions of a registry object, as a set of four flags.
use vstd::prelude::*;

verus! {

/// Read access.
pub const PERM_R: u32 = 0o400;

/// Write access.
pub const PERM_W: u32 = 0o200;

/// Execute access: calling methods on the object.
pub const PERM_X: u32 = 0o100;

/// Updating the object's metadata.
pub const PERM_M: u32 = 0o010;

/// The union of the four flags.
pub const PERM_ALL: u32 = 0o710;

/// `raw` has no bit outside the four flags.
pub open spec fn valid_bits(raw: u32) -> bool {
    raw & !PERM_ALL == 0
}

/// The mask made of the flags that are chosen.
pub open spec fn flag_mask(r: bool, w: bool, x: bool, m: bool) -> u32 {
    (if r { PERM_R } else { 0u32 }) | (if w { PERM_W } else { 0u32 }) | (if x { PERM_X } else {
        0u32
    }) | (if m { PERM_M } else { 0u32 })
}

/// A set of permission flags. Only the four known bits can be set.
#[derive(Debug, Clone, Copy, PartialEq, Eq, Structural)]
pub struct Permission {
    bits: u32,
}

impl View for Permission {
    type V = u32;

    closed spec fn view(&self) -> u32 {
        self.bits
    }
}

impl Permission {
    #[verifier::type_invariant]
    closed spec fn inv(self) -> bool {
        valid_bits(self.bits)
    }

    /// The permissions of `raw`, or `None` when a bit outside the four flags
    /// is set.
    pub fn from_bits(raw: u32) -> (r: Option<Permission>)
        ensures
            r is Some <==> valid_bits(raw),
            r matches Some(p) ==> p@ == raw,
    {
        if raw & !PERM_ALL == 0 {
            Some(Permission { bits: raw })
        } else {
            None
        }
    }

    /// The raw mask of the set.
    pub fn bits(&self) -> (r: u32)
        ensures
            r == self@,
            valid_bits(r),
    {
        proof {
            use_type_invariant(self);
        }
        self.bits
    }

    /// The set without any flag.
    pub fn empty() -> (r: Permission)
        ensures
            r@ == 0,
    {
        assert(0u32 & !PERM_ALL == 0) by (bit_vector);
        Permission { bits: 0 }
    }

    /// The set of all four flags.
    pub fn all() -> (r: Permission)
        ensures
            r@ == PERM_ALL,
    {
        assert(PERM_ALL & !PERM_ALL == 0) by (bit_vector);
        Permission { bits: PERM_ALL }
    }

    /// Read access alone.
    pub fn read() -> (r: Permission)
        ensures
            r@ == PERM_R,
    {
        assert(PERM_R & !PERM_ALL == 0) by (bit_vector);
        Permission { bits: PERM_R }
    }

    /// Write access alone.
    pub fn write() -> (r: Permission)
        ensures
            r@ == PERM_W,
    {
        assert(PERM_W & !PERM_ALL == 0) by (bit_vector);
        Permission { bits: PERM_W }
    }

    /// Execute access alone.
    pub fn execute() -> (r: Permission)
        ensures
            r@ == PERM_X,
    {
        assert(PERM_X & !PERM_ALL == 0) by (bit_vector);
        Permission { bits: PERM_X }
    }

    /// Metadata update alone.
    pub fn metadata() -> (r: Permission)
        ensures
            r@ == PERM_M,
    {
        assert(PERM_M & !PERM_ALL == 0) by (bit_vector);
        Permission { bits: PERM_M }
    }

    /// No flag is set.
    pub fn is_empty(&self) -> (r: bool)
        ensures
            r == (self@ == 0),
    {
        self.bits == 0
    }

    /// Every flag of `other` is set in `self`.
    pub fn contains(&self, other: Permission) -> (r: bool)
        ensures
            r == (self@ & other@ == other@),
    {
        self.bits & other.bits == other.bits
    }

    /// Some flag is set in both.
    pub fn intersects(&self, other: Permission) -> (r: bool)
        ensures
            r == (self@ & other@ != 0),
    {
        self.bits & other.bits != 0
    }

    /// The flags set in either.
    pub fn union(&self, other: Permission) -> (r: Permission)
        ensures
            r@ == self@ | other@,
    {
        proof {
            use_type_invariant(self);
            use_type_invariant(other);
            let (a, b) = (self.bits, other.bits);
            assert(a & !PERM_ALL == 0 && b & !PERM_ALL == 0 ==> (a | b) & !PERM_ALL == 0)
                by (bit_vector);
        }
        Permission { bits: self.bits | other.bits }
    }

    /// The flags set in both.
    pub fn intersection(&self, other: Permission) -> (r: Permission)
        ensures
            r@ == self@ & other@,
    {
        proof {
            use_type_invariant(self);
            let (a, b) = (self.bits, other.bits);
            assert(a & !PERM_ALL == 0 ==> (a & b) & !PERM_ALL == 0) by (bit_vector);
        }
        Permission { bits: self.bits & other.bits }
    }

    /// The flags set in `self` and not in `other`.
    pub fn difference(&self, other: Permission) -> (r: Permission)
        ensures
            r@ == self@ & !other@,
    {
        proof {
            use_type_invariant(self);
            let (a, b) = (self.bits, other.bits);
            assert(a & !PERM_ALL == 0 ==> (a & !b) & !PERM_ALL == 0) by (bit_vector);
        }
        Permission { bits: self.bits & !other.bits }
    }
}

/// The masks accepted as permissions are exactly the combinations of the four
/// flags: each combination is accepted, and an accepted mask is the
/// combination of the flags it has set.
pub proof fn lemma_valid_bits_are_flag_combinations(raw: u32)
    ensures
        valid_bits(raw) <==> raw == flag_mask(
            raw & PERM_R != 0,
            raw & PERM_W != 0,
            raw & PERM_X != 0,
            raw & PERM_M != 0,
        ),
{
    let (r, w, x, m) = (raw & PERM_R != 0, raw & PERM_W != 0, raw & PERM_X != 0, raw & PERM_M != 0);
    assert(raw & !0o710u32 == 0 <==> raw == (if raw & 0o400u32 != 0 { 0o400u32 } else { 0u32 }) | (
    if raw & 0o200u32 != 0 { 0o200u32 } else { 0u32 }) | (if raw & 0o100u32 != 0 { 0o100u32 } else {
        0u32
    }) | (if raw & 0o010u32 != 0 { 0o010u32 } else { 0u32 })) by (bit_vector);
}

/// Every combination of the four flags is a valid permission mask.
pub proof fn lemma_flag_combination_valid(r: bool, w: bool, x: bool, m: bool)
    ensures
        valid_bits(flag_mask(r, w, x, m)),
{
    let v = flag_mask(r, w, x, m);
    assert(v == (if r { 0o400u32 } else { 0u32 }) | (if w { 0o200u32 } else { 0u32 }) | (if x {
        0o100u32
    } else { 0u32 }) | (if m { 0o010u32 } else { 0u32 }));
    assert(((if r { 0o400u32 } else { 0u32 }) | (if w { 0o200u32 } else { 0u32 }) | (if x {
        0o100u32
    } else { 0u32 }) | (if m { 0o010u32 } else { 0u32 })) & !0o710u32 == 0) by (bit_vector);
}

} // verus!
