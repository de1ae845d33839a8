//! The closed set of resource kinds and the unit of resource that flows
//! through the exchange.

use vstd::prelude::*;

verus! {

/// One of the three kinds of resource the economy trades in.
#[derive(Clone, Copy, PartialEq, Eq, Structural, Debug)]
pub enum ResourceKind {
    Burnstone,
    Seaplum,
    Klah,
}

/// A single in-flight unit of resource, tagged with its kind.
#[derive(Clone, Copy, PartialEq, Eq, Structural, Debug)]
pub struct ResourceUnit {
    pub kind: ResourceKind,
}

impl ResourceKind {
    /// The display name of the kind.
    pub open spec fn spec_name(self) -> Seq<char> {
        match self {
            ResourceKind::Burnstone => "Burnstone"@,
            ResourceKind::Seaplum => "Seaplum"@,
            ResourceKind::Klah => "Klah"@,
        }
    }

    /// Returns the display name of the kind.
    pub fn name(&self) -> (r: &'static str)
        ensures
            r@ == self.spec_name(),
    {
        match self {
            ResourceKind::Burnstone => "Burnstone",
            ResourceKind::Seaplum => "Seaplum",
            ResourceKind::Klah => "Klah",
        }
    }

    /// The kind at a given position in the fixed Burnstone, Seaplum, Klah
    /// ordering, used to map a random draw to a kind.
    pub open spec fn spec_from_index(i: int) -> ResourceKind {
        if i == 0 {
            ResourceKind::Burnstone
        } else if i == 1 {
            ResourceKind::Seaplum
        } else {
            ResourceKind::Klah
        }
    }

    /// Maps an index below three to its kind.
    pub fn from_index(i: usize) -> (r: ResourceKind)
        requires
            i < 3,
        ensures
            r == ResourceKind::spec_from_index(i as int),
    {
        if i == 0 {
            ResourceKind::Burnstone
        } else if i == 1 {
            ResourceKind::Seaplum
        } else {
            ResourceKind::Klah
        }
    }
}

/// Of two distinct kinds, the one kind that is neither: with exactly three
/// kinds, a distinct pair always leaves exactly one kind absent.
pub open spec fn absent_kind(a: ResourceKind, b: ResourceKind) -> ResourceKind {
    if a != ResourceKind::Burnstone && b != ResourceKind::Burnstone {
        ResourceKind::Burnstone
    } else if a != ResourceKind::Seaplum && b != ResourceKind::Seaplum {
        ResourceKind::Seaplum
    } else {
        ResourceKind::Klah
    }
}

/// Returns the kind absent from a distinct pair.
pub fn absent_of(a: ResourceKind, b: ResourceKind) -> (r: ResourceKind)
    requires
        a != b,
    ensures
        r == absent_kind(a, b),
        r != a && r != b,
{
    if a != ResourceKind::Burnstone && b != ResourceKind::Burnstone {
        ResourceKind::Burnstone
    } else if a != ResourceKind::Seaplum && b != ResourceKind::Seaplum {
        ResourceKind::Seaplum
    } else {
        ResourceKind::Klah
    }
}

} // verus!
