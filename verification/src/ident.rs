//! Identifiers of probes, targets, groups and authorization entries.
//!
//! Each identifier wraps a string; its view is the sequence of characters, and
//! two identifiers compare equal exactly when their views are equal.

use vstd::prelude::*;
use vstd::std_specs::cmp::PartialEqSpecImpl;

verus! {

/// A 128-bit universally unique identifier, held as its integer value.
pub type Uuid = u128;

/// Serial number of a debug probe; unique among the probes of a server.
#[derive(Debug, Eq, Hash)]
pub struct ProbeSerial(pub String);

impl View for ProbeSerial {
    type V = Seq<char>;

    open spec fn view(&self) -> Seq<char> {
        self.0@
    }
}

impl Clone for ProbeSerial {
    fn clone(&self) -> (r: Self)
        ensures
            r@ == self@,
    {
        ProbeSerial(self.0.clone())
    }
}

impl PartialEqSpecImpl for ProbeSerial {
    open spec fn obeys_eq_spec() -> bool {
        true
    }

    open spec fn eq_spec(&self, other: &Self) -> bool {
        self@ == other@
    }
}

impl PartialEq for ProbeSerial {
    fn eq(&self, other: &Self) -> (r: bool) {
        self.0 == other.0
    }
}

impl ProbeSerial {
    /// The identifier as a string slice.
    pub fn as_str(&self) -> (r: &str)
        ensures
            r@ == self@,
    {
        self.0.as_str()
    }
}

impl Default for ProbeSerial {
    fn default() -> (r: Self)
        ensures
            r@ == Seq::<char>::empty(),
    {
        ProbeSerial(String::new())
    }
}

/// Human-readable label of a debug probe.
#[derive(Debug, Eq, Hash)]
pub struct ProbeAlias(pub String);

impl View for ProbeAlias {
    type V = Seq<char>;

    open spec fn view(&self) -> Seq<char> {
        self.0@
    }
}

impl Clone for ProbeAlias {
    fn clone(&self) -> (r: Self)
        ensures
            r@ == self@,
    {
        ProbeAlias(self.0.clone())
    }
}

impl PartialEqSpecImpl for ProbeAlias {
    open spec fn obeys_eq_spec() -> bool {
        true
    }

    open spec fn eq_spec(&self, other: &Self) -> bool {
        self@ == other@
    }
}

impl PartialEq for ProbeAlias {
    fn eq(&self, other: &Self) -> (r: bool) {
        self.0 == other.0
    }
}

impl ProbeAlias {
    /// The identifier as a string slice.
    pub fn as_str(&self) -> (r: &str)
        ensures
            r@ == self@,
    {
        self.0.as_str()
    }
}

impl Default for ProbeAlias {
    fn default() -> (r: Self)
        ensures
            r@ == Seq::<char>::empty(),
    {
        ProbeAlias(String::new())
    }
}

/// Part identifier of the microcontroller reachable through a probe.
#[derive(Debug, Eq, Hash)]
pub struct TargetName(pub String);

impl View for TargetName {
    type V = Seq<char>;

    open spec fn view(&self) -> Seq<char> {
        self.0@
    }
}

impl Clone for TargetName {
    fn clone(&self) -> (r: Self)
        ensures
            r@ == self@,
    {
        TargetName(self.0.clone())
    }
}

impl PartialEqSpecImpl for TargetName {
    open spec fn obeys_eq_spec() -> bool {
        true
    }

    open spec fn eq_spec(&self, other: &Self) -> bool {
        self@ == other@
    }
}

impl PartialEq for TargetName {
    fn eq(&self, other: &Self) -> (r: bool) {
        self.0 == other.0
    }
}

impl TargetName {
    /// The identifier as a string slice.
    pub fn as_str(&self) -> (r: &str)
        ensures
            r@ == self@,
    {
        self.0.as_str()
    }
}

impl Default for TargetName {
    fn default() -> (r: Self)
        ensures
            r@ == Seq::<char>::empty(),
    {
        TargetName(String::new())
    }
}

/// Free-form label that collects several targets.
#[derive(Debug, Eq, Hash)]
pub struct TargetGroup(pub String);

impl View for TargetGroup {
    type V = Seq<char>;

    open spec fn view(&self) -> Seq<char> {
        self.0@
    }
}

impl Clone for TargetGroup {
    fn clone(&self) -> (r: Self)
        ensures
            r@ == self@,
    {
        TargetGroup(self.0.clone())
    }
}

impl PartialEqSpecImpl for TargetGroup {
    open spec fn obeys_eq_spec() -> bool {
        true
    }

    open spec fn eq_spec(&self, other: &Self) -> bool {
        self@ == other@
    }
}

impl PartialEq for TargetGroup {
    fn eq(&self, other: &Self) -> (r: bool) {
        self.0 == other.0
    }
}

impl TargetGroup {
    /// The identifier as a string slice.
    pub fn as_str(&self) -> (r: &str)
        ensures
            r@ == self@,
    {
        self.0.as_str()
    }
}

impl Default for TargetGroup {
    fn default() -> (r: Self)
        ensures
            r@ == Seq::<char>::empty(),
    {
        TargetGroup(String::new())
    }
}

/// Name under which an authorization token is stored.
#[derive(Debug, Eq, Hash)]
pub struct AuthName(pub String);

impl View for AuthName {
    type V = Seq<char>;

    open spec fn view(&self) -> Seq<char> {
        self.0@
    }
}

impl Clone for AuthName {
    fn clone(&self) -> (r: Self)
        ensures
            r@ == self@,
    {
        AuthName(self.0.clone())
    }
}

impl PartialEqSpecImpl for AuthName {
    open spec fn obeys_eq_spec() -> bool {
        true
    }

    open spec fn eq_spec(&self, other: &Self) -> bool {
        self@ == other@
    }
}

impl PartialEq for AuthName {
    fn eq(&self, other: &Self) -> (r: bool) {
        self.0 == other.0
    }
}

impl AuthName {
    /// The identifier as a string slice.
    pub fn as_str(&self) -> (r: &str)
        ensures
            r@ == self@,
    {
        self.0.as_str()
    }
}

/// Secret that a client presents as its bearer token.
#[derive(Debug, Eq, Hash)]
pub struct AuthToken(pub String);

impl View for AuthToken {
    type V = Seq<char>;

    open spec fn view(&self) -> Seq<char> {
        self.0@
    }
}

impl Clone for AuthToken {
    fn clone(&self) -> (r: Self)
        ensures
            r@ == self@,
    {
        AuthToken(self.0.clone())
    }
}

impl PartialEqSpecImpl for AuthToken {
    open spec fn obeys_eq_spec() -> bool {
        true
    }

    open spec fn eq_spec(&self, other: &Self) -> bool {
        self@ == other@
    }
}

impl PartialEq for AuthToken {
    fn eq(&self, other: &Self) -> (r: bool) {
        self.0 == other.0
    }
}

impl AuthToken {
    /// The identifier as a string slice.
    pub fn as_str(&self) -> (r: &str)
        ensures
            r@ == self@,
    {
        self.0.as_str()
    }
}


/// The identifier carries the version and variant bits of a random
/// identifier: version four, variant one.
pub open spec fn is_version_four(id: Uuid) -> bool {
    id & 0x0000_0000_0000_f000_c000_0000_0000_0000u128
        == 0x0000_0000_0000_4000_8000_0000_0000_0000u128
}

/// Calls `uuid::Uuid::new_v4` and hands out the identifier's 128-bit value.
/// The identifier is drawn at random, so nothing is claimed of it beyond the
/// version and variant bits that every such identifier carries.
#[verifier::external_body]
pub(crate) fn fresh_uuid() -> (r: Uuid)
    ensures
        is_version_four(r),
{
    uuid::Uuid::new_v4().as_u128()
}

} // verus!
