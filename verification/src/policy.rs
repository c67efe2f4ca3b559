//! The policy argument domain: the two-valued setting surfaced to the user
//! as the literal strings `"on"` and `"off"`.

use crate::text::str_eq;
use vstd::prelude::*;

verus! {

/// The beta-notifications preference as the user states it on the command
/// line. No other value is representable: parsing rejects everything outside
/// `{"on", "off"}` before any handler logic runs.
#[derive(Clone, Copy, Debug, PartialEq, Eq, Structural)]
pub enum Policy {
    On,
    Off,
}

impl Policy {
    /// Whether this policy enables the beta program.
    pub open spec fn spec_enabled(self) -> bool {
        self is On
    }

    /// The user-facing label of this policy.
    pub open spec fn spec_label(self) -> Seq<char> {
        if self is On {
            "on"@
        } else {
            "off"@
        }
    }

    /// The policy denoted by a raw argument string, if any.
    pub open spec fn spec_parse(s: Seq<char>) -> Option<Policy> {
        if s == "on"@ {
            Some(Policy::On)
        } else if s == "off"@ {
            Some(Policy::Off)
        } else {
            None
        }
    }

    pub fn enabled(&self) -> (r: bool)
        ensures
            r == self.spec_enabled(),
    {
        match self {
            Policy::On => true,
            Policy::Off => false,
        }
    }

    pub fn from_enabled(enabled: bool) -> (r: Policy)
        ensures
            r.spec_enabled() == enabled,
    {
        if enabled {
            Policy::On
        } else {
            Policy::Off
        }
    }

    pub fn label(&self) -> (r: &'static str)
        ensures
            r@ == self.spec_label(),
    {
        match self {
            Policy::On => "on",
            Policy::Off => "off",
        }
    }

    /// Parse a raw argument string. Exactly `"on"` and `"off"` are accepted;
    /// any other value yields `None`, so no malformed policy can reach the
    /// handler.
    pub fn parse(s: &str) -> (r: Option<Policy>)
        ensures
            r == Policy::spec_parse(s@),
    {
        if str_eq(s, "on") {
            Some(Policy::On)
        } else if str_eq(s, "off") {
            Some(Policy::Off)
        } else {
            None
        }
    }
}

/// A value outside `{"on", "off"}` never parses to a policy: it is turned
/// away at the argument boundary, before any handler logic or remote call.
pub proof fn lemma_parse_rejects_invalid(s: Seq<char>)
    requires
        s != "on"@,
        s != "off"@,
    ensures
        Policy::spec_parse(s) is None,
{
}

/// Parsing a policy's own label gives that policy back: the labels printed
/// on success are themselves valid arguments, and the two labels are
/// distinct.
pub proof fn lemma_label_parse_round_trip(p: Policy)
    ensures
        Policy::spec_parse(p.spec_label()) == Some(p),
{
    reveal_strlit("on");
    reveal_strlit("off");
    assert("on"@.len() == 2);
    assert("off"@.len() == 3);
}

} // verus!
