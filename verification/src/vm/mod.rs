//! `vm` target: non-confidential virtual machines.

use vstd::prelude::*;

pub mod vcpu;

use crate::{Target, Version};

pub use crate::cpu::Profile;
pub use crate::kind::{FillKind, LoadKind};

verus! {

/// `vm` target spec, carried in the `.pmi.vm` PE section.
///
/// `V` is the boot-vCPU register map; it must match `PE.FileHeader.Machine`.
/// Use [`vcpu::x86_64::CpuState`] for `0x8664` and [`vcpu::aarch64::CpuState`]
/// for `0xAA64`. The caller selects `V` from the PE header before decoding.
#[derive(Debug, Clone)]
pub struct Spec<V> {
    /// Schema version; must be `1`.
    pub version: Version<1>,
    /// Ordered launch recipe.
    pub actions: Vec<Action>,
    /// Boot vCPU register map (`vm:vcpu`).
    pub vcpu: V,
    /// vCPU ISA baseline (`cpu:profile` target attribute).
    pub cpu_profile: Profile,
    /// Optional `dt:dtb` target attribute: PE section holding the bundled base
    /// DTB. Absent means the base is distributed separately (detached mode).
    pub dt_dtb: Option<String>,
}

impl<V> Target for Spec<V> {
    const NAME: &'static str = "vm";
    const SECTION: &'static str = ".pmi.vm";

    proof fn lemma_section_follows_name()
        ensures
            Self::NAME@ == "vm"@,
    {
        reveal_strlit("vm");
        reveal_strlit(".pmi.vm");
        reveal_strlit(".pmi.");
        assert(Self::SECTION@ =~= crate::target_section(Self::NAME@));
    }
}

/// One entry in the `vm` target's `actions` array.
#[derive(Debug, Clone)]
pub enum Action {
    /// `load` action.
    Load(Load),
    /// `fill` action.
    Fill(Fill),
}

/// `load` action: place a PE section's bytes into guest memory.
#[derive(Debug, Clone)]
pub struct Load {
    /// Absolute guest-physical address at which the section's bytes are placed.
    pub gpa: u64,
    /// PE section supplying the bytes.
    pub section: String,
    /// Load kind; defaults to [`LoadKind::Default`].
    pub kind: LoadKind,
}

/// `fill` action: populate a reserved GPA range with kind-specific content.
#[derive(Debug, Clone)]
pub struct Fill {
    /// Absolute guest-physical address of the filled range.
    pub gpa: u64,
    /// PE section name to fill (must be a Zero section).
    pub section: String,
    /// Fill kind, selecting how the section is populated.
    pub kind: FillKind,
}

} // verus!
