//! Boot-vCPU register maps for the `vm` target, one module per architecture.

use vstd::prelude::*;
use vstd::std_specs::cmp::PartialEqSpec;

pub mod aarch64;
pub mod x86_64;

verus! {

/// Whether `v` equals the default value of its type: the rule by which a
/// register left at its default is omitted from the wire form.
pub fn is_zero<T: Default + PartialEq>(v: &T) -> (r: bool)
    ensures
        T::obeys_eq_spec() ==> exists|d: T| call_ensures(T::default, (), d) && r == v.eq_spec(&d),
{
    let d = T::default();
    *v == d
}

/// A boot-vCPU register value that violates an architectural invariant of the
/// `vm` register maps.
#[derive(Debug, Clone, Copy, PartialEq, Eq, Structural)]
pub enum InvalidRegister {
    /// `rflags` bit 1 (reserved) was clear; the architecture requires it set.
    RflagsReservedBitClear,
    /// A segment-attribute word set reserved bits 12–15, which must be zero.
    SegmentReservedBits,
    /// `pstate` does not select EL1 (`M[3:0]` is neither `EL1t` nor `EL1h`).
    PstateNotEl1,
}

impl InvalidRegister {
    /// The human-readable description of the violated invariant.
    pub fn message(&self) -> (r: &'static str)
        ensures
            *self == InvalidRegister::RflagsReservedBitClear ==> r@
                == "rflags bit 1 (reserved) must be set"@,
            *self == InvalidRegister::SegmentReservedBits ==> r@
                == "segment attribute bits 12-15 are reserved and must be zero"@,
            *self == InvalidRegister::PstateNotEl1 ==> r@
                == "pstate must select EL1 (M[3:0] = 0b0100 or 0b0101)"@,
    {
        match self {
            InvalidRegister::RflagsReservedBitClear => "rflags bit 1 (reserved) must be set",
            InvalidRegister::SegmentReservedBits => {
                "segment attribute bits 12-15 are reserved and must be zero"
            },
            InvalidRegister::PstateNotEl1 => "pstate must select EL1 (M[3:0] = 0b0100 or 0b0101)",
        }
    }
}

} // verus!
