//! Typed identifiers: one opaque wrapper around a 32-bit unsigned integer
//! per namespace, so a shell identifier can never be passed where a user
//! identifier is expected without an explicit, visible conversion.

use vstd::prelude::*;

use crate::text::push_char;

verus! {

/// The character for the decimal digit `d`.
pub open spec fn digit_char(d: nat) -> char
    recommends
        d < 10,
{
    (((d % 10) + 0x30) as u8) as char
}

/// The decimal representation of `n`: its usual digit string, with no sign
/// and no leading zeros (0 itself is the single digit "0").
pub open spec fn spec_decimal(n: nat) -> Seq<char>
    decreases n,
{
    if n < 10 {
        seq![digit_char(n)]
    } else {
        spec_decimal(n / 10).push(digit_char(n % 10))
    }
}

fn digit_to_char(d: u8) -> (c: char)
    requires
        d < 10,
    ensures
        c == digit_char(d as nat),
{
    (0x30 + d) as char
}

fn u32_decimal(n: u32) -> (s: String)
    ensures
        s@ == spec_decimal(n as nat),
    decreases n,
{
    if n < 10 {
        let mut s = String::new();
        let c = digit_to_char((n % 10) as u8);
        push_char(&mut s, c);
        proof {
            assert(s@ =~= spec_decimal(n as nat));
        }
        s
    } else {
        let mut s = u32_decimal(n / 10);
        let c = digit_to_char((n % 10) as u8);
        push_char(&mut s, c);
        s
    }
}

/// Unique identifier for a shell within the session.
///
/// Any 32-bit value is a syntactically valid identifier; uniqueness is
/// guaranteed only for values minted by one `IdCounter`, which never issues
/// 0 before wrapping (0 is the "no identifier" sentinel).
#[derive(Debug, Clone, Copy, PartialEq, Eq, Structural, Hash, Ord)]
pub struct Sid(pub u32);

/// Unique identifier for a user within the session.
///
/// Same shape and invariants as `Sid`, but drawn from a disjoint counter:
/// a `Sid` and a `Uid` with equal raw values name unrelated entities.
#[derive(Debug, Clone, Copy, PartialEq, Eq, Structural, Hash, Ord)]
pub struct Uid(pub u32);

impl Sid {
    /// Renders the identifier as the decimal representation of its raw
    /// value.
    pub fn display_string(&self) -> (s: String)
        ensures
            s@ == spec_decimal(self.0 as nat),
    {
        u32_decimal(self.0)
    }
}

impl Uid {
    /// Renders the identifier as the decimal representation of its raw
    /// value.
    pub fn display_string(&self) -> (s: String)
        ensures
            s@ == spec_decimal(self.0 as nat),
    {
        u32_decimal(self.0)
    }
}

impl PartialOrd for Sid {
    fn partial_cmp(&self, other: &Sid) -> (r: Option<core::cmp::Ordering>) {
        if self.0 < other.0 {
            Some(core::cmp::Ordering::Less)
        } else if self.0 == other.0 {
            Some(core::cmp::Ordering::Equal)
        } else {
            Some(core::cmp::Ordering::Greater)
        }
    }
}

impl vstd::std_specs::cmp::PartialOrdSpecImpl for Sid {
    open spec fn obeys_partial_cmp_spec() -> bool {
        true
    }

    open spec fn partial_cmp_spec(&self, other: &Sid) -> Option<core::cmp::Ordering> {
        if self.0 < other.0 {
            Some(core::cmp::Ordering::Less)
        } else if self.0 == other.0 {
            Some(core::cmp::Ordering::Equal)
        } else {
            Some(core::cmp::Ordering::Greater)
        }
    }
}

impl PartialOrd for Uid {
    fn partial_cmp(&self, other: &Uid) -> (r: Option<core::cmp::Ordering>) {
        if self.0 < other.0 {
            Some(core::cmp::Ordering::Less)
        } else if self.0 == other.0 {
            Some(core::cmp::Ordering::Equal)
        } else {
            Some(core::cmp::Ordering::Greater)
        }
    }
}

impl vstd::std_specs::cmp::PartialOrdSpecImpl for Uid {
    open spec fn obeys_partial_cmp_spec() -> bool {
        true
    }

    open spec fn partial_cmp_spec(&self, other: &Uid) -> Option<core::cmp::Ordering> {
        if self.0 < other.0 {
            Some(core::cmp::Ordering::Less)
        } else if self.0 == other.0 {
            Some(core::cmp::Ordering::Equal)
        } else {
            Some(core::cmp::Ordering::Greater)
        }
    }
}

/// Round trip through the raw integer encoding: reading an identifier's raw
/// value and reconstructing from it yields an identifier equal to the
/// original, for every representable 32-bit value.
pub proof fn lemma_identifier_round_trip(x: u32)
    ensures
        Sid(x).0 == x,
        Uid(x).0 == x,
        forall|s: Sid| Sid(s.0) == s,
        forall|u: Uid| Uid(u.0) == u,
{
}

} // verus!
