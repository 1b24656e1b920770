//! `sev` target: AMD SEV-SNP confidential virtual machines.

use vstd::prelude::*;

use crate::{Target, Version};

pub use crate::cpu::Profile;

verus! {

/// `sev` target spec, carried in the `.pmi.sev` PE section.
///
/// The BSP's initial register state comes solely from the measured `sev:vmsa`
/// load, so there is no vCPU register map.
#[derive(Debug, Clone)]
pub struct Spec {
    /// Schema version; must be `1`.
    pub version: Version<1>,
    /// Ordered launch recipe.
    pub actions: Vec<Action>,
    /// Optional signed launch identity (`sev:id`). Present on signed launches.
    pub id: Option<Id>,
    /// vCPU ISA baseline (`cpu:profile` target attribute).
    pub cpu_profile: Profile,
    /// Optional `dt:dtb` target attribute: PE section holding the bundled base
    /// DTB. Absent means the base is distributed separately (detached mode).
    pub dt_dtb: Option<String>,
}

impl Target for Spec {
    const NAME: &'static str = "sev";
    const SECTION: &'static str = ".pmi.sev";

    proof fn lemma_section_follows_name()
        ensures
            Self::NAME@ == "sev"@,
    {
        reveal_strlit("sev");
        reveal_strlit(".pmi.sev");
        reveal_strlit(".pmi.");
        assert(Self::SECTION@ =~= crate::target_section(Self::NAME@));
    }
}

/// Signed launch identity: PE-section names for the 96-byte ID block and the
/// 4 KiB ID auth info.
#[derive(Debug, Clone)]
pub struct Id {
    /// PE section carrying the 96-byte SEV-SNP ID block.
    pub block: String,
    /// PE section carrying the 4 KiB SEV-SNP ID auth info structure.
    pub auth: String,
}

/// One entry in the `sev` target's `actions` array.
#[derive(Debug, Clone)]
pub enum Action {
    /// `load` action.
    Load(Load),
    /// `fill` action.
    Fill(Fill),
}

/// `load` action: place a PE section's bytes into guest memory.
#[derive(Debug, Clone)]
pub struct Load {
    /// Absolute guest-physical address at which the section's bytes are placed.
    pub gpa: u64,
    /// PE section supplying the bytes.
    pub section: String,
    /// Load kind; defaults to [`LoadKind::Default`].
    pub kind: LoadKind,
}

/// `load` action kinds accepted on the `sev` target: the core `default`, plus
/// `sev:vmsa` for the BSP VMSA page.
#[derive(Debug, Clone, Copy, PartialEq, Eq, Structural)]
pub enum LoadKind {
    /// Core `default` kind: a normal measured load.
    Default,
    /// `sev:vmsa`: load the section as the BSP's 4 KiB VMSA page.
    Vmsa,
}

impl Default for LoadKind {
    fn default() -> (r: Self)
        ensures
            r == LoadKind::Default,
    {
        LoadKind::Default
    }
}

impl LoadKind {
    /// Whether this is the `default` kind, which is omitted from the wire form.
    pub fn is_default(&self) -> (r: bool)
        ensures
            r == (*self == LoadKind::Default),
    {
        matches!(self, LoadKind::Default)
    }
}

/// `fill` action: populate a reserved GPA range with kind-specific content.
#[derive(Debug, Clone)]
pub struct Fill {
    /// Absolute guest-physical address of the filled range.
    pub gpa: u64,
    /// PE section name to fill (must be a Zero section).
    pub section: String,
    /// Fill kind, selecting how the section is populated.
    pub kind: FillKind,
}

/// `fill` action kinds accepted on the `sev` target: the cross-target `dt:dtb`
/// and `dt:dtbo`, plus `sev:secrets` and `sev:cpuid`.
#[derive(Debug, Clone, Copy, PartialEq, Eq, Structural)]
pub enum FillKind {
    /// `dt:dtb`: the VMM populates the Zero section with the measured base DTB.
    DtDtb,
    /// `dt:dtbo`: host-supplied, unmeasured DTBO overlay.
    DtDtbo,
    /// `sev:secrets`: a SEV-SNP secrets page.
    Secrets,
    /// `sev:cpuid`: a SEV-SNP CPUID page.
    Cpuid,
}

} // verus!
