//! Type definitions for the Portable Machine Image (PMI) target specs.
//!
//! These types mirror the per-target CBOR schemas; the crate carries no PE
//! I/O, no FDT, no measurement and no platform glue. The rules that the
//! schemas pin on values (the schema version, the reserved register bits) are
//! checked here; encoding and decoding are layered on top.

use vstd::prelude::*;
use vstd::std_specs::cmp::PartialEqSpecImpl;
use vstd::std_specs::convert::{TryFromSpec, TryFromSpecImpl};

pub mod cca;
pub mod cpu;
pub mod sev;
pub mod tdx;
pub mod vm;

mod kind;
pub mod laws;

verus! {

/// Common interface for a top-level PMI target spec.
///
/// Each target's spec lives in its own PE section named by
/// [`Target::SECTION`].
pub trait Target {
    /// The target's short name (e.g., `"vm"`).
    const NAME: &'static str;

    /// The PE section name carrying this target's spec (e.g., `".pmi.vm"`).
    const SECTION: &'static str;

    /// The section is named after the target: `.pmi.` followed by its name.
    proof fn lemma_section_follows_name()
        ensures
            Self::SECTION@ == target_section(Self::NAME@),
    ;
}

/// The section that carries the spec of the target named `name`:
/// `.pmi.` followed by the name.
pub open spec fn target_section(name: Seq<char>) -> Seq<char> {
    ".pmi."@ + name
}

/// Schema version field pinned to `N`.
///
/// Its wire value is `N`; a decoded value is accepted only when it equals `N`.
#[derive(Debug, Clone, Copy)]
pub struct Version<const N: u32>(());

impl<const N: u32> PartialEq for Version<N> {
    /// Two values of `Version<N>` are always equal: both stand for `N`.
    fn eq(&self, other: &Self) -> (r: bool) {
        true
    }
}

impl<const N: u32> Eq for Version<N> {
}

impl<const N: u32> PartialEqSpecImpl for Version<N> {
    open spec fn obeys_eq_spec() -> bool {
        true
    }

    open spec fn eq_spec(&self, other: &Self) -> bool {
        true
    }
}

impl<const N: u32> Default for Version<N> {
    /// The only value of `Version<N>` (see [`lemma_versions_are_equal`]).
    fn default() -> (r: Self) {
        Self(())
    }
}

impl<const N: u32> Version<N> {
    /// The wire value of the version field: `N`.
    pub fn value(self) -> (r: u32)
        ensures
            r == N,
    {
        N
    }
}

/// A decoded schema version that differs from the one the schema pins.
#[derive(Debug, Clone, Copy, PartialEq, Eq, Structural)]
pub struct UnsupportedVersion {
    /// The version the schema pins.
    pub expected: u32,
    /// The version found on the wire.
    pub got: u32,
}

impl<const N: u32> TryFrom<u32> for Version<N> {
    type Error = UnsupportedVersion;

    /// Accept the decoded version `v` only when it equals `N`.
    fn try_from(v: u32) -> (r: Result<Self, Self::Error>)
        ensures
            r is Ok <==> v == N,
            r matches Err(e) ==> e == (UnsupportedVersion { expected: N, got: v }),
    {
        if v != N {
            return Err(UnsupportedVersion { expected: N, got: v });
        }
        Ok(Self::default())
    }
}

impl<const N: u32> TryFromSpecImpl<u32> for Version<N> {
    open spec fn obeys_try_from_spec() -> bool {
        true
    }

    closed spec fn try_from_spec(v: u32) -> Result<Self, UnsupportedVersion> {
        if v == N {
            Ok(Version(()))
        } else {
            Err(UnsupportedVersion { expected: N, got: v })
        }
    }
}

/// `Version<N>` has a single value: any two are equal.
pub proof fn lemma_versions_are_equal<const N: u32>(a: Version<N>, b: Version<N>)
    ensures
        a == b,
{
}

/// `Version<N>` is written as `N` and read back only from `N`: every other wire
/// value is refused, naming both the expected and the found version.
pub proof fn law_version_reads_back_only_its_own_value<const N: u32>(v: u32)
    ensures
        <Version<N> as TryFromSpec<u32>>::try_from_spec(N) is Ok,
        v != N ==> <Version<N> as TryFromSpec<u32>>::try_from_spec(v) == Err::<Version<N>, UnsupportedVersion>(
            UnsupportedVersion { expected: N, got: v },
        ),
{
}

} // verus!
