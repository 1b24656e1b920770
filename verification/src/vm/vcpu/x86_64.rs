//! `vcpu-x64`: the x86-64 boot-vCPU register map.

use vstd::prelude::*;
use vstd::std_specs::convert::TryFromSpecImpl;
use vstd::std_specs::cmp::{PartialEqSpec, PartialEqSpecImpl};

use super::InvalidRegister;

verus! {

/// Whether a raw `RFLAGS` value has bit 1 (architecturally reserved-as-one) set.
pub open spec fn rflags_reserved_bit_set(bits: u64) -> bool {
    bits & 0x2 != 0
}

/// x86-64 `RFLAGS`, with bit 1 (architecturally reserved-as-one) guaranteed set.
/// Construction rejects any value that clears bit 1.
#[derive(Debug, Clone, Copy, PartialEq, Eq, Structural)]
pub struct RFlags(u64);

impl View for RFlags {
    type V = u64;

    closed spec fn view(&self) -> u64 {
        self.0
    }
}

impl RFlags {
    #[verifier::type_invariant]
    spec fn reserved_bit_holds(self) -> bool {
        rflags_reserved_bit_set(self.0)
    }

    /// Two values with the same raw bits are the same value.
    pub proof fn lemma_bits_determine_value(a: RFlags, b: RFlags)
        requires
            a@ == b@,
        ensures
            a == b,
    {
    }

    /// Construct from raw bits; fails with
    /// [`InvalidRegister::RflagsReservedBitClear`] if bit 1 is not set.
    pub fn new(bits: u64) -> (r: Result<Self, InvalidRegister>)
        ensures
            r is Ok <==> rflags_reserved_bit_set(bits),
            r matches Ok(f) ==> f@ == bits,
            r matches Err(e) ==> e == InvalidRegister::RflagsReservedBitClear,
    {
        if bits & 0x2 == 0 {
            return Err(InvalidRegister::RflagsReservedBitClear);
        }
        Ok(Self(bits))
    }

    /// The raw `RFLAGS` value; bit 1 is always set.
    pub fn get(self) -> (r: u64)
        ensures
            r == self@,
            rflags_reserved_bit_set(r),
    {
        proof {
            use_type_invariant(&self);
        }
        self.0
    }
}

impl Default for RFlags {
    /// `0x2`: the reserved-as-one bit set, all others clear.
    fn default() -> (r: Self)
        ensures
            r@ == 0x2,
    {
        assert(0x2u64 & 0x2 != 0) by (bit_vector);
        Self(0x2)
    }
}

impl TryFrom<u64> for RFlags {
    type Error = InvalidRegister;

    /// Same as [`RFlags::new`].
    fn try_from(bits: u64) -> (r: Result<Self, Self::Error>)
        ensures
            r is Ok <==> rflags_reserved_bit_set(bits),
            r matches Ok(f) ==> f@ == bits,
            r matches Err(e) ==> e == InvalidRegister::RflagsReservedBitClear,
    {
        Self::new(bits)
    }
}

impl TryFromSpecImpl<u64> for RFlags {
    open spec fn obeys_try_from_spec() -> bool {
        true
    }

    closed spec fn try_from_spec(bits: u64) -> Result<Self, InvalidRegister> {
        if rflags_reserved_bit_set(bits) {
            Ok(RFlags(bits))
        } else {
            Err(InvalidRegister::RflagsReservedBitClear)
        }
    }
}

/// Whether a raw segment-attribute word keeps its reserved bits 12–15 clear.
pub open spec fn seg_reserved_bits_clear(bits: u16) -> bool {
    bits & 0xF000 == 0
}

/// A segment-register attribute word, with reserved bits 12–15 guaranteed zero.
#[derive(Debug, Clone, Copy)]
pub struct SegAttributes(u16);

impl PartialEq for SegAttributes {
    fn eq(&self, other: &Self) -> (r: bool)
        ensures
            r == (*self == *other),
            r == (self@ == other@),
    {
        self.0 == other.0
    }
}

impl Eq for SegAttributes {
}

impl PartialEqSpecImpl for SegAttributes {
    open spec fn obeys_eq_spec() -> bool {
        true
    }

    open spec fn eq_spec(&self, other: &Self) -> bool {
        self@ == other@
    }
}

impl View for SegAttributes {
    type V = u16;

    closed spec fn view(&self) -> u16 {
        self.0
    }
}

impl SegAttributes {
    #[verifier::type_invariant]
    spec fn reserved_bits_hold(self) -> bool {
        seg_reserved_bits_clear(self.0)
    }

    /// Two values with the same raw bits are the same value.
    pub proof fn lemma_bits_determine_value(a: SegAttributes, b: SegAttributes)
        requires
            a@ == b@,
        ensures
            a == b,
    {
    }

    /// Construct from raw bits; fails with
    /// [`InvalidRegister::SegmentReservedBits`] if any of bits 12–15 are set.
    pub fn new(bits: u16) -> (r: Result<Self, InvalidRegister>)
        ensures
            r is Ok <==> seg_reserved_bits_clear(bits),
            r matches Ok(a) ==> a@ == bits,
            r matches Err(e) ==> e == InvalidRegister::SegmentReservedBits,
    {
        if bits & 0xF000 != 0 {
            return Err(InvalidRegister::SegmentReservedBits);
        }
        Ok(Self(bits))
    }

    /// The raw attribute word; bits 12–15 are always clear.
    pub fn get(self) -> (r: u16)
        ensures
            r == self@,
            seg_reserved_bits_clear(r),
    {
        proof {
            use_type_invariant(&self);
        }
        self.0
    }
}

impl Default for SegAttributes {
    /// The all-zero attribute word.
    fn default() -> (r: Self)
        ensures
            r@ == 0,
    {
        assert(0u16 & 0xF000 == 0) by (bit_vector);
        Self(0)
    }
}

impl TryFrom<u16> for SegAttributes {
    type Error = InvalidRegister;

    /// Same as [`SegAttributes::new`].
    fn try_from(bits: u16) -> (r: Result<Self, Self::Error>)
        ensures
            r is Ok <==> seg_reserved_bits_clear(bits),
            r matches Ok(a) ==> a@ == bits,
            r matches Err(e) ==> e == InvalidRegister::SegmentReservedBits,
    {
        Self::new(bits)
    }
}

impl TryFromSpecImpl<u16> for SegAttributes {
    open spec fn obeys_try_from_spec() -> bool {
        true
    }

    closed spec fn try_from_spec(bits: u16) -> Result<Self, InvalidRegister> {
        if seg_reserved_bits_clear(bits) {
            Ok(SegAttributes(bits))
        } else {
            Err(InvalidRegister::SegmentReservedBits)
        }
    }
}

/// Whether `rflags` holds its default value `0x2`, in which case it is omitted
/// from the wire form.
pub fn rflags_is_default(v: &RFlags) -> (r: bool)
    ensures
        r == (v@ == 0x2),
{
    *v == RFlags::default()
}

/// x86-64 segment register.
#[derive(Debug, Clone)]
pub struct SegReg {
    pub selector: u16,
    pub attributes: SegAttributes,
    pub limit: u32,
    pub base: u64,
}

impl PartialEq for SegReg {
    fn eq(&self, other: &Self) -> (r: bool)
        ensures
            r == (*self == *other),
    {
        self.selector == other.selector && self.attributes == other.attributes && self.limit
            == other.limit && self.base == other.base
    }
}

impl Eq for SegReg {
}

impl PartialEqSpecImpl for SegReg {
    open spec fn obeys_eq_spec() -> bool {
        true
    }

    open spec fn eq_spec(&self, other: &Self) -> bool {
        &&& self.selector == other.selector
        &&& self.attributes@ == other.attributes@
        &&& self.limit == other.limit
        &&& self.base == other.base
    }
}

impl SegReg {
    /// Every field of the segment register is zero.
    pub open spec fn is_zeroed(&self) -> bool {
        &&& self.selector == 0
        &&& self.attributes@ == 0
        &&& self.limit == 0
        &&& self.base == 0
    }
}

impl Default for SegReg {
    /// The all-zero segment register.
    fn default() -> (r: Self)
        ensures
            r.is_zeroed(),
    {
        SegReg { selector: 0, attributes: SegAttributes::default(), limit: 0, base: 0 }
    }
}

/// x86-64 descriptor-table register (`GDTR`/`IDTR`).
#[derive(Debug, Clone)]
pub struct Dtr {
    pub limit: u16,
    pub base: u64,
}

impl PartialEq for Dtr {
    fn eq(&self, other: &Self) -> (r: bool)
        ensures
            r == (*self == *other),
    {
        self.limit == other.limit && self.base == other.base
    }
}

impl Eq for Dtr {
}

impl PartialEqSpecImpl for Dtr {
    open spec fn obeys_eq_spec() -> bool {
        true
    }

    open spec fn eq_spec(&self, other: &Self) -> bool {
        self.limit == other.limit && self.base == other.base
    }
}

impl Dtr {
    /// Both fields of the descriptor-table register are zero.
    pub open spec fn is_zeroed(&self) -> bool {
        self.limit == 0 && self.base == 0
    }
}

impl Default for Dtr {
    /// The all-zero descriptor-table register.
    fn default() -> (r: Self)
        ensures
            r.is_zeroed(),
    {
        Dtr { limit: 0, base: 0 }
    }
}

/// The x86-64 boot-vCPU register map. Registers missing from the wire form
/// take their default: zero, except `rflags`, which defaults to `0x2`.
#[derive(Debug, Clone)]
pub struct CpuState {
    pub rip: u64,
    pub rsp: u64,
    pub rflags: RFlags,
    pub rax: u64,
    pub rbx: u64,
    pub rcx: u64,
    pub rdx: u64,
    pub rsi: u64,
    pub rdi: u64,
    pub rbp: u64,
    pub r8: u64,
    pub r9: u64,
    pub r10: u64,
    pub r11: u64,
    pub r12: u64,
    pub r13: u64,
    pub r14: u64,
    pub r15: u64,
    pub cr0: u64,
    pub cr3: u64,
    pub cr4: u64,
    pub efer: u64,
    pub cs: SegReg,
    pub ds: SegReg,
    pub es: SegReg,
    pub fs: SegReg,
    pub gs: SegReg,
    pub ss: SegReg,
    pub gdtr: Dtr,
    pub idtr: Dtr,
}

impl CpuState {
    /// The reset state: every register zero except `rflags`, which holds only
    /// its reserved-as-one bit.
    pub open spec fn is_reset(&self) -> bool {
        &&& self.rip == 0
        &&& self.rsp == 0
        &&& self.rflags@ == 0x2
        &&& self.rax == 0
        &&& self.rbx == 0
        &&& self.rcx == 0
        &&& self.rdx == 0
        &&& self.rsi == 0
        &&& self.rdi == 0
        &&& self.rbp == 0
        &&& self.r8 == 0
        &&& self.r9 == 0
        &&& self.r10 == 0
        &&& self.r11 == 0
        &&& self.r12 == 0
        &&& self.r13 == 0
        &&& self.r14 == 0
        &&& self.r15 == 0
        &&& self.cr0 == 0
        &&& self.cr3 == 0
        &&& self.cr4 == 0
        &&& self.efer == 0
        &&& self.cs.is_zeroed()
        &&& self.ds.is_zeroed()
        &&& self.es.is_zeroed()
        &&& self.fs.is_zeroed()
        &&& self.gs.is_zeroed()
        &&& self.ss.is_zeroed()
        &&& self.gdtr.is_zeroed()
        &&& self.idtr.is_zeroed()
    }
}

impl Default for CpuState {
    /// The reset state (see [`CpuState::is_reset`]).
    fn default() -> (r: Self)
        ensures
            r.is_reset(),
    {
        CpuState {
            rip: 0,
            rsp: 0,
            rflags: RFlags::default(),
            rax: 0,
            rbx: 0,
            rcx: 0,
            rdx: 0,
            rsi: 0,
            rdi: 0,
            rbp: 0,
            r8: 0,
            r9: 0,
            r10: 0,
            r11: 0,
            r12: 0,
            r13: 0,
            r14: 0,
            r15: 0,
            cr0: 0,
            cr3: 0,
            cr4: 0,
            efer: 0,
            cs: SegReg::default(),
            ds: SegReg::default(),
            es: SegReg::default(),
            fs: SegReg::default(),
            gs: SegReg::default(),
            ss: SegReg::default(),
            gdtr: Dtr::default(),
            idtr: Dtr::default(),
        }
    }
}

} // verus!
