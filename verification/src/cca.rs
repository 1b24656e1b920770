//! `cca` target: Arm CCA confidential virtual machines.

use vstd::prelude::*;

use crate::{Target, Version};

pub use crate::cpu::Profile;
pub use crate::kind::{FillKind, LoadKind};

verus! {

/// `cca` target spec, carried in the `.pmi.cca` PE section.
#[derive(Debug, Clone)]
pub struct Spec {
    /// Schema version; must be `1`.
    pub version: Version<1>,
    /// Ordered launch recipe.
    pub actions: Vec<Action>,
    /// BSP REC parameters (`cca:vcpu`). CCA is aarch64 only.
    pub vcpu: crate::vm::vcpu::aarch64::CpuState,
    /// vCPU ISA baseline (`cpu:profile` target attribute).
    pub cpu_profile: Profile,
}

impl Target for Spec {
    const NAME: &'static str = "cca";
    const SECTION: &'static str = ".pmi.cca";

    proof fn lemma_section_follows_name()
        ensures
            Self::NAME@ == "cca"@,
    {
        reveal_strlit("cca");
        reveal_strlit(".pmi.cca");
        reveal_strlit(".pmi.");
        assert(Self::SECTION@ =~= crate::target_section(Self::NAME@));
    }
}

/// One entry in the `cca` target's `actions` array.
#[derive(Debug, Clone)]
pub enum Action {
    /// `load` action.
    Load(Load),
    /// `fill` action.
    Fill(Fill),
}

/// `load` action: place a PE section's bytes into guest memory.
#[derive(Debug, Clone)]
pub struct Load {
    /// PE section name to load.
    pub section: String,
    /// Load kind; defaults to [`LoadKind::Default`].
    pub kind: LoadKind,
}

/// `fill` action: populate a reserved GPA range with kind-specific content.
#[derive(Debug, Clone)]
pub struct Fill {
    /// PE section name to fill (must be a Zero section).
    pub section: String,
    /// Fill kind, selecting how the section is populated.
    pub kind: FillKind,
}

} // verus!
