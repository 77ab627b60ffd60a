//! CAN identifiers.

use vstd::prelude::*;
use vstd::std_specs::convert::FromSpecImpl;

verus! {

/// The largest identifier of eleven bits.
pub const STANDARD_ID_MAX: u16 = 0x7FF;

/// The largest identifier of twenty-nine bits.
pub const EXTENDED_ID_MAX: u32 = 0x1FFF_FFFF;

/// An identifier of eleven bits.
#[derive(Debug, Clone, Copy, PartialEq, Eq)]
pub struct StandardId {
    raw: u16,
}

impl StandardId {
    #[verifier::type_invariant]
    spec fn inv(self) -> bool {
        self.raw <= STANDARD_ID_MAX
    }

    /// The identifier as a number.
    pub closed spec fn raw(self) -> u16 {
        self.raw
    }

    /// The identifier whose number is `raw`.
    pub closed spec fn of_raw(raw: u16) -> StandardId {
        StandardId { raw }
    }

    /// Makes an identifier of `raw`, unless `raw` has more than eleven
    /// bits.
    pub fn new(raw: u16) -> (r: Option<StandardId>)
        ensures
            r is Some <==> raw <= STANDARD_ID_MAX,
            r matches Some(id) ==> id == StandardId::of_raw(raw) && id.raw() == raw,
    {
        if raw <= STANDARD_ID_MAX {
            Some(StandardId { raw })
        } else {
            None
        }
    }

    /// The identifier as a number.
    pub fn as_raw(&self) -> (r: u16)
        ensures
            r == self.raw(),
            r <= STANDARD_ID_MAX,
            *self == StandardId::of_raw(r),
    {
        proof {
            use_type_invariant(self);
        }
        self.raw
    }
}

/// An identifier of twenty-nine bits.
#[derive(Debug, Clone, Copy, PartialEq, Eq)]
pub struct ExtendedId {
    raw: u32,
}

impl ExtendedId {
    #[verifier::type_invariant]
    spec fn inv(self) -> bool {
        self.raw <= EXTENDED_ID_MAX
    }

    /// The identifier as a number.
    pub closed spec fn raw(self) -> u32 {
        self.raw
    }

    /// The identifier whose number is `raw`.
    pub closed spec fn of_raw(raw: u32) -> ExtendedId {
        ExtendedId { raw }
    }

    /// Makes an identifier of `raw`, unless `raw` has more than twenty-nine
    /// bits.
    pub fn new(raw: u32) -> (r: Option<ExtendedId>)
        ensures
            r is Some <==> raw <= EXTENDED_ID_MAX,
            r matches Some(id) ==> id == ExtendedId::of_raw(raw) && id.raw() == raw,
    {
        if raw <= EXTENDED_ID_MAX {
            Some(ExtendedId { raw })
        } else {
            None
        }
    }

    /// The identifier as a number.
    pub fn as_raw(&self) -> (r: u32)
        ensures
            r == self.raw(),
            r <= EXTENDED_ID_MAX,
            *self == ExtendedId::of_raw(r),
    {
        proof {
            use_type_invariant(self);
        }
        self.raw
    }
}

/// A CAN identifier of either length.
#[derive(Debug, Clone, Copy, PartialEq, Eq)]
pub enum CanId {
    Standard(StandardId),
    Extended(ExtendedId),
}

impl CanId {
    /// The identifier as a number, whatever its length.
    pub open spec fn raw(self) -> u32 {
        match self {
            CanId::Standard(id) => id.raw() as u32,
            CanId::Extended(id) => id.raw(),
        }
    }

    /// The identifier as a number, whatever its length.
    pub fn as_raw(&self) -> (r: u32)
        ensures
            r == self.raw(),
            r <= EXTENDED_ID_MAX,
            self is Standard ==> r <= STANDARD_ID_MAX,
    {
        match self {
            CanId::Standard(id) => id.as_raw() as u32,
            CanId::Extended(id) => id.as_raw(),
        }
    }
}

impl From<StandardId> for CanId {
    fn from(id: StandardId) -> (r: CanId) {
        CanId::Standard(id)
    }
}

impl FromSpecImpl<StandardId> for CanId {
    open spec fn obeys_from_spec() -> bool {
        true
    }

    open spec fn from_spec(id: StandardId) -> CanId {
        CanId::Standard(id)
    }
}

impl From<ExtendedId> for CanId {
    fn from(id: ExtendedId) -> (r: CanId) {
        CanId::Extended(id)
    }
}

impl FromSpecImpl<ExtendedId> for CanId {
    open spec fn obeys_from_spec() -> bool {
        true
    }

    open spec fn from_spec(id: ExtendedId) -> CanId {
        CanId::Extended(id)
    }
}

} // verus!
