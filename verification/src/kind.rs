//! Action kinds shared by the `vm`, `cca` and `tdx` targets.

use vstd::prelude::*;

verus! {

/// `load` action kind discriminator.
#[derive(Debug, Clone, Copy, PartialEq, Eq, Structural)]
pub enum LoadKind {
    /// The core `default` kind; behavior is defined by the active target.
    Default,
}

impl Default for LoadKind {
    fn default() -> (r: Self)
        ensures
            r == LoadKind::Default,
    {
        LoadKind::Default
    }
}

impl LoadKind {
    /// Whether this is the `default` kind, which is omitted from the wire form.
    pub fn is_default(&self) -> (r: bool)
        ensures
            r == (*self == LoadKind::Default),
    {
        matches!(self, LoadKind::Default)
    }
}

/// `fill` action kind discriminator: the cross-target fill kinds defined by
/// the `dt` extension, available on every target.
#[derive(Debug, Clone, Copy, PartialEq, Eq, Structural)]
pub enum FillKind {
    /// `dt:dtb`: the section (a Zero section reserving the range) is populated
    /// by the VMM with the measured base DTB.
    DtDtb,
    /// `dt:dtbo`: the section is populated with a host-supplied, unmeasured
    /// flattened devicetree overlay.
    DtDtbo,
}

} // verus!
