//! Properties that hold across the target specs and register types.

use vstd::prelude::*;
use vstd::std_specs::cmp::PartialEqSpec;

use crate::vm::vcpu::aarch64::pstate_selects_el1;
use crate::vm::vcpu::x86_64::{
    rflags_reserved_bit_set, seg_reserved_bits_clear, CpuState, Dtr, SegAttributes, SegReg,
};
use crate::{target_section, Target};

verus! {

/// Every target's spec lives in the PE section `.pmi.<name>`, and no two
/// targets share a name, so no two targets share a section.
pub proof fn law_target_sections_follow_names<V>()
    ensures
        crate::cca::Spec::SECTION@ == target_section(crate::cca::Spec::NAME@),
        crate::sev::Spec::SECTION@ == target_section(crate::sev::Spec::NAME@),
        crate::tdx::Spec::SECTION@ == target_section(crate::tdx::Spec::NAME@),
        crate::vm::Spec::<V>::SECTION@ == target_section(crate::vm::Spec::<V>::NAME@),
        crate::cca::Spec::NAME@ != crate::sev::Spec::NAME@,
        crate::cca::Spec::NAME@ != crate::tdx::Spec::NAME@,
        crate::cca::Spec::NAME@ != crate::vm::Spec::<V>::NAME@,
        crate::sev::Spec::NAME@ != crate::tdx::Spec::NAME@,
        crate::sev::Spec::NAME@ != crate::vm::Spec::<V>::NAME@,
        crate::tdx::Spec::NAME@ != crate::vm::Spec::<V>::NAME@,
{
    <crate::cca::Spec as Target>::lemma_section_follows_name();
    <crate::sev::Spec as Target>::lemma_section_follows_name();
    <crate::tdx::Spec as Target>::lemma_section_follows_name();
    <crate::vm::Spec<V> as Target>::lemma_section_follows_name();
    reveal_strlit("cca");
    reveal_strlit("sev");
    reveal_strlit("tdx");
    reveal_strlit("vm");
    assert(crate::cca::Spec::NAME@[0] != crate::sev::Spec::NAME@[0]);
    assert(crate::cca::Spec::NAME@[0] != crate::tdx::Spec::NAME@[0]);
    assert(crate::cca::Spec::NAME@[0] != crate::vm::Spec::<V>::NAME@[0]);
    assert(crate::sev::Spec::NAME@[0] != crate::tdx::Spec::NAME@[0]);
    assert(crate::sev::Spec::NAME@[0] != crate::vm::Spec::<V>::NAME@[0]);
    assert(crate::tdx::Spec::NAME@[0] != crate::vm::Spec::<V>::NAME@[0]);
}

/// `rflags` constrains bit 1 alone: any value becomes acceptable once bit 1 is
/// set, and none is acceptable with bit 1 clear.
pub proof fn law_rflags_only_bit_1_is_constrained(bits: u64)
    ensures
        rflags_reserved_bit_set(bits | 0x2),
        !rflags_reserved_bit_set(bits & !0x2u64),
        rflags_reserved_bit_set(0x2),
{
    assert((bits | 0x2) & 0x2 != 0) by (bit_vector);
    assert((bits & !0x2u64) & 0x2 == 0) by (bit_vector);
    assert(0x2u64 & 0x2 != 0) by (bit_vector);
}

/// A segment-attribute word is acceptable exactly when it fits in 12 bits.
pub proof fn law_segment_attributes_fit_in_twelve_bits(bits: u16)
    ensures
        seg_reserved_bits_clear(bits) <==> bits < 0x1000,
{
    assert((bits & 0xF000 == 0) <==> bits < 0x1000) by (bit_vector);
}

/// A `pstate` that selects EL1 is an AArch64 state (`M[4] = 0`) whose
/// `M[3:0]` is `EL1t` or `EL1h`, and conversely.
pub proof fn law_pstate_el1_means_aarch64_el1t_or_el1h(bits: u64)
    ensures
        pstate_selects_el1(bits) <==> (bits & 0x10 == 0 && (bits & 0xF == 0x4 || bits & 0xF == 0x5)),
{
    assert((bits & 0x1F == 0x4 || bits & 0x1F == 0x5) <==> (bits & 0x10 == 0 && (bits & 0xF
        == 0x4 || bits & 0xF == 0x5))) by (bit_vector);
}

/// The DAIF interrupt masks (bits 6–9) do not affect EL selection.
pub proof fn law_pstate_ignores_daif_masks(bits: u64)
    ensures
        pstate_selects_el1(bits | 0x3C0) == pstate_selects_el1(bits),
        pstate_selects_el1(bits & !0x3C0u64) == pstate_selects_el1(bits),
{
    assert((bits | 0x3C0) & 0x1F == bits & 0x1F) by (bit_vector);
    assert((bits & !0x3C0u64) & 0x1F == bits & 0x1F) by (bit_vector);
}

/// The reset state is the one every register of which the encoder omits: each
/// register equals the default of its type under that type's `==` (the rule of
/// [`is_zero`](crate::vm::vcpu::is_zero)), and `rflags` holds `0x2` (the rule of
/// [`rflags_is_default`](crate::vm::vcpu::x86_64::rflags_is_default)).
pub proof fn law_reset_vcpu_is_written_as_the_empty_map(s: CpuState)
    requires
        s.is_reset(),
    ensures
        s.rflags@ == 0x2,
        <u64 as PartialEqSpec>::obeys_eq_spec(),
        <SegReg as PartialEqSpec>::obeys_eq_spec(),
        <Dtr as PartialEqSpec>::obeys_eq_spec(),
        forall|d: u64| call_ensures(u64::default, (), d) ==> s.rip == d && s.rsp == d && s.rax == d && s.rbx == d && s.rcx == d && s.rdx == d && s.rsi == d && s.rdi == d && s.rbp == d && s.r8 == d && s.r9 == d && s.r10 == d && s.r11 == d && s.r12 == d && s.r13 == d && s.r14 == d && s.r15 == d && s.cr0 == d && s.cr3 == d && s.cr4 == d && s.efer == d,
        forall|d: SegReg| call_ensures(SegReg::default, (), d) ==> s.cs.eq_spec(&d) && s.ds.eq_spec(&d) && s.es.eq_spec(&d) && s.fs.eq_spec(&d) && s.gs.eq_spec(&d) && s.ss.eq_spec(&d),
        forall|d: Dtr| call_ensures(Dtr::default, (), d) ==> s.gdtr.eq_spec(&d) && s.idtr.eq_spec(&d),
{
}

/// `==` on segment attribute words is equality of the values, which is
/// equality of their raw words: two words compare equal exactly when they are
/// the same word.
pub proof fn law_segment_attributes_equal_iff_same_word(a: SegAttributes, b: SegAttributes)
    ensures
        <SegAttributes as PartialEqSpec>::obeys_eq_spec(),
        a.eq_spec(&b) <==> a == b,
        a == b <==> a@ == b@,
{
    if a@ == b@ {
        SegAttributes::lemma_bits_determine_value(a, b);
    }
}

/// `==` on segment registers is equality of the values: they compare equal
/// exactly when selector, attribute word, limit and base all agree.
pub proof fn law_segment_registers_equal_iff_all_fields_equal(a: SegReg, b: SegReg)
    ensures
        <SegReg as PartialEqSpec>::obeys_eq_spec(),
        a.eq_spec(&b) <==> a == b,
        a == b <==> (a.selector == b.selector && a.attributes@ == b.attributes@ && a.limit
            == b.limit && a.base == b.base),
{
    if a.attributes@ == b.attributes@ {
        SegAttributes::lemma_bits_determine_value(a.attributes, b.attributes);
    }
}

/// `==` on descriptor-table registers is equality of the values: they compare
/// equal exactly when limit and base both agree.
pub proof fn law_descriptor_tables_equal_iff_limit_and_base_equal(a: Dtr, b: Dtr)
    ensures
        <Dtr as PartialEqSpec>::obeys_eq_spec(),
        a.eq_spec(&b) <==> a == b,
        a == b <==> (a.limit == b.limit && a.base == b.base),
{
}

/// The skip rule `is_zero` omits a register exactly when every field of it is
/// zero: an attribute word equals its default only when the word is 0, a
/// segment register only when selector, attributes, limit and base are all 0,
/// and a descriptor-table register only when limit and base are both 0.
pub proof fn law_default_comparison_is_all_fields_zero(a: SegAttributes, s: SegReg, t: Dtr)
    ensures
        forall|d: SegAttributes| #[trigger] call_ensures(SegAttributes::default, (), d) ==> (a.eq_spec(&d) <==> a@ == 0),
        forall|d: SegReg| #[trigger] call_ensures(SegReg::default, (), d) ==> (s.eq_spec(&d) <==> (
        s.selector == 0 && s.attributes@ == 0 && s.limit == 0 && s.base == 0)),
        forall|d: Dtr| #[trigger] call_ensures(Dtr::default, (), d) ==> (t.eq_spec(&d) <==> (t.limit == 0
            && t.base == 0)),
{
    assert forall|d: SegAttributes| #[trigger] call_ensures(SegAttributes::default, (), d) implies (a.eq_spec(&d) <==> a@ == 0) by {
        law_segment_attributes_equal_iff_same_word(a, d);
    }
    assert forall|d: SegReg| #[trigger] call_ensures(SegReg::default, (), d) implies (s.eq_spec(&d) <==> (
    s.selector == 0 && s.attributes@ == 0 && s.limit == 0 && s.base == 0)) by {
        law_segment_registers_equal_iff_all_fields_equal(s, d);
    }
}

} // verus!
