//! `cpu` extension: portable declaration of the vCPU ISA baseline.
//!
//! `cpu:profile` names an ISA baseline drawn from a per-architecture upstream
//! definition: x86-64 microarchitecture levels on x86-64, Armv8-A / Armv9-A
//! revisions on aarch64. Profile values are not enumerated here; the VMM
//! recognizes them by name.

use vstd::prelude::*;
use vstd::std_specs::convert::{FromSpec, FromSpecImpl};

verus! {

/// std's `impl From<&str> for String`: the new `String` holds a copy of the
/// characters of `s`, as its documentation states ("Converts a `&str` into a
/// `String`"). Nothing else is claimed.
pub assume_specification<'a>[ <String as From<&'a str>>::from ](s: &str) -> (r: String)
    ensures
        r@ == s@,
;

/// core's reflexive `impl<T> From<T> for T`: the value is returned unchanged,
/// as its documentation states ("Returns the argument unchanged").
pub assume_specification<Item>[ <Item as From<Item>>::from ](t: Item) -> (r: Item)
    ensures
        r == t,
;

/// `cpu:profile` value: an ISA baseline name, carried verbatim. Recognizing
/// the name and checking the host against it is the VMM's task.
#[derive(Debug, Clone, PartialEq, Eq)]
pub struct Profile(pub String);

impl Profile {
    /// Construct a `Profile` from any string-like input.
    pub fn new<S: Into<String>>(name: S) -> (p: Self)
        ensures
            call_ensures(S::into, (name,), p.0),
    {
        Self(name.into())
    }

    /// Borrow the profile name as `&str`.
    pub fn as_str(&self) -> (r: &str)
        ensures
            r@ == self.0@,
    {
        self.0.as_str()
    }
}

impl From<String> for Profile {
    fn from(name: String) -> (p: Self) {
        Self(name)
    }
}

impl FromSpecImpl<String> for Profile {
    open spec fn obeys_from_spec() -> bool {
        true
    }

    open spec fn from_spec(name: String) -> Self {
        Profile(name)
    }
}

impl<'a> From<&'a str> for Profile {
    fn from(name: &'a str) -> (p: Self)
        ensures
            p.0@ == name@,
    {
        Self(name.to_owned())
    }
}

impl<'a> FromSpecImpl<&'a str> for Profile {
    /// The produced `String` is pinned by its view only (see `from`).
    open spec fn obeys_from_spec() -> bool {
        false
    }

    open spec fn from_spec(name: &'a str) -> Self {
        arbitrary()
    }
}

/// `Profile::new` and `Profile::from` agree: from a `String` both keep that
/// very string, and from a `&str` both keep its characters.
pub proof fn law_profile_new_agrees_with_from()
    ensures
        forall|s: String, p: String| #[trigger] call_ensures(<String as Into<String>>::into, (s,), p) ==> p == s,
        forall|s: String| #[trigger] <Profile as FromSpec<String>>::from_spec(s) == Profile(s),
        <Profile as FromSpec<String>>::obeys_from_spec(),
        forall|s: &str, p: String| #[trigger] call_ensures(<&str as Into<String>>::into, (s,), p) ==> p@ == s@,
{
}

} // verus!
