//! `tdx` target: Intel TDX confidential virtual machines.

use vstd::prelude::*;

use crate::{Target, Version};

pub use crate::cpu::Profile;
pub use crate::kind::{FillKind, LoadKind};

verus! {

/// `tdx` target spec, carried in the `.pmi.tdx` PE section.
///
/// The `tdx` target defines no vCPU register map: TDX fixes the initial
/// register state in the module.
#[derive(Debug, Clone)]
pub struct Spec {
    /// Schema version; must be `1`.
    pub version: Version<1>,
    /// Ordered launch recipe.
    pub actions: Vec<Action>,
    /// vCPU ISA baseline (`cpu:profile` target attribute).
    pub cpu_profile: Profile,
    /// Optional `merged:dtb` target attribute: PE section holding the base DTB
    /// when the image uses the `merged` extension.
    pub merged_dtb: Option<String>,
}

impl Target for Spec {
    const NAME: &'static str = "tdx";
    const SECTION: &'static str = ".pmi.tdx";

    proof fn lemma_section_follows_name()
        ensures
            Self::NAME@ == "tdx"@,
    {
        reveal_strlit("tdx");
        reveal_strlit(".pmi.tdx");
        reveal_strlit(".pmi.");
        assert(Self::SECTION@ =~= crate::target_section(Self::NAME@));
    }
}

/// One entry in the `tdx` target's `actions` array.
#[derive(Debug, Clone)]
pub enum Action {
    /// `load` action.
    Load(Load),
    /// `fill` action.
    Fill(Fill),
}

/// `load` action: place a PE section's bytes into guest memory.
#[derive(Debug, Clone)]
pub struct Load {
    /// Absolute guest-physical address at which the section's bytes are placed.
    pub gpa: u64,
    /// PE section supplying the bytes.
    pub section: String,
    /// Load kind; defaults to [`LoadKind::Default`].
    pub kind: LoadKind,
}

/// `fill` action: populate a reserved GPA range with kind-specific content.
#[derive(Debug, Clone)]
pub struct Fill {
    /// Absolute guest-physical address of the filled range.
    pub gpa: u64,
    /// PE section name to fill (must be a Zero section).
    pub section: String,
    /// Fill kind, selecting how the section is populated.
    pub kind: FillKind,
}

} // verus!
