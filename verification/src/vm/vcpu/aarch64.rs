//! `vcpu-aarch64`: the AArch64 boot-vCPU register map.

use vstd::prelude::*;
use vstd::std_specs::convert::TryFromSpecImpl;

use super::InvalidRegister;

verus! {

/// Whether a raw `PSTATE` value selects EL1: `M[4:0]` is `0b00100` (`EL1t`) or
/// `0b00101` (`EL1h`), which also fixes `M[4] = 0` (AArch64).
pub open spec fn pstate_selects_el1(bits: u64) -> bool {
    bits & 0x1F == 0x4 || bits & 0x1F == 0x5
}

/// AArch64 `PSTATE` (in SPSR form), constrained to select EL1. It has no
/// default: no single value is universally correct, so `pstate` is required.
#[derive(Debug, Clone, Copy, PartialEq, Eq, Structural)]
pub struct PState(u64);

impl View for PState {
    type V = u64;

    closed spec fn view(&self) -> u64 {
        self.0
    }
}

impl PState {
    #[verifier::type_invariant]
    spec fn selects_el1(self) -> bool {
        pstate_selects_el1(self.0)
    }

    /// Two values with the same raw bits are the same value.
    pub proof fn lemma_bits_determine_value(a: PState, b: PState)
        requires
            a@ == b@,
        ensures
            a == b,
    {
    }

    /// Construct from raw bits; fails with [`InvalidRegister::PstateNotEl1`] if
    /// `M[3:0]` is neither `EL1t` nor `EL1h`.
    pub fn new(bits: u64) -> (r: Result<Self, InvalidRegister>)
        ensures
            r is Ok <==> pstate_selects_el1(bits),
            r matches Ok(p) ==> p@ == bits,
            r matches Err(e) ==> e == InvalidRegister::PstateNotEl1,
    {
        match bits & 0x1F {
            0x4 | 0x5 => Ok(Self(bits)),
            _ => Err(InvalidRegister::PstateNotEl1),
        }
    }

    /// The raw `PSTATE` value; it always selects EL1.
    pub fn get(self) -> (r: u64)
        ensures
            r == self@,
            pstate_selects_el1(r),
    {
        proof {
            use_type_invariant(&self);
        }
        self.0
    }
}

impl TryFrom<u64> for PState {
    type Error = InvalidRegister;

    /// Same as [`PState::new`].
    fn try_from(bits: u64) -> (r: Result<Self, Self::Error>)
        ensures
            r is Ok <==> pstate_selects_el1(bits),
            r matches Ok(p) ==> p@ == bits,
            r matches Err(e) ==> e == InvalidRegister::PstateNotEl1,
    {
        Self::new(bits)
    }
}

impl TryFromSpecImpl<u64> for PState {
    open spec fn obeys_try_from_spec() -> bool {
        true
    }

    closed spec fn try_from_spec(bits: u64) -> Result<Self, InvalidRegister> {
        if pstate_selects_el1(bits) {
            Ok(PState(bits))
        } else {
            Err(InvalidRegister::PstateNotEl1)
        }
    }
}

/// The AArch64 boot-vCPU register map. Registers missing from the wire form
/// are zero, except `pstate`, which is required.
#[derive(Debug, Clone)]
pub struct CpuState {
    pub x0: u64,
    pub x1: u64,
    pub x2: u64,
    pub x3: u64,
    pub x4: u64,
    pub x5: u64,
    pub x6: u64,
    pub x7: u64,
    pub x8: u64,
    pub x9: u64,
    pub x10: u64,
    pub x11: u64,
    pub x12: u64,
    pub x13: u64,
    pub x14: u64,
    pub x15: u64,
    pub x16: u64,
    pub x17: u64,
    pub x18: u64,
    pub x19: u64,
    pub x20: u64,
    pub x21: u64,
    pub x22: u64,
    pub x23: u64,
    pub x24: u64,
    pub x25: u64,
    pub x26: u64,
    pub x27: u64,
    pub x28: u64,
    pub x29: u64,
    pub x30: u64,
    pub sp_el1: u64,
    pub pc: u64,
    /// `PSTATE`; required, and always selects EL1.
    pub pstate: PState,
    pub sctlr_el1: u64,
    pub tcr_el1: u64,
    pub ttbr0_el1: u64,
    pub ttbr1_el1: u64,
    pub mair_el1: u64,
    pub vbar_el1: u64,
    pub cpacr_el1: u64,
}

} // verus!
