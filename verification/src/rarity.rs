//! The ordered rarity scale and its combine operation.

use vstd::prelude::*;

use crate::text::str_eq;

verus! {

/// The six-step rarity scale, from most to least common.
#[derive(Clone, Copy, PartialEq, Eq, Structural, Debug)]
pub enum Rarity {
    Common,
    Uncommon,
    Rare,
    Epic,
    Legendary,
    Unique,
}

impl Rarity {
    /// Position of this rarity on the ordered scale: `Common` is 0, `Unique` is 5.
    pub open spec fn rank_spec(self) -> int {
        match self {
            Rarity::Common => 0,
            Rarity::Uncommon => 1,
            Rarity::Rare => 2,
            Rarity::Epic => 3,
            Rarity::Legendary => 4,
            Rarity::Unique => 5,
        }
    }

    /// Position of this rarity on the ordered scale, as a machine integer.
    pub fn rank(&self) -> (r: u8)
        ensures
            r as int == self.rank_spec(),
    {
        match self {
            Rarity::Common => 0,
            Rarity::Uncommon => 1,
            Rarity::Rare => 2,
            Rarity::Epic => 3,
            Rarity::Legendary => 4,
            Rarity::Unique => 5,
        }
    }

    /// The higher of two rarities; equal operands give that same rarity.
    pub open spec fn combine_spec(self, other: Rarity) -> Rarity {
        if self.rank_spec() >= other.rank_spec() {
            self
        } else {
            other
        }
    }

    /// Combine two rarities, keeping the higher one.
    pub fn combine(self, other: Rarity) -> (r: Rarity)
        ensures
            r == self.combine_spec(other),
    {
        if self.rank() >= other.rank() {
            self
        } else {
            other
        }
    }

    /// The lower-case name of this rarity, as stored in the catalog.
    pub open spec fn name_spec(self) -> Seq<char> {
        match self {
            Rarity::Common => "common"@,
            Rarity::Uncommon => "uncommon"@,
            Rarity::Rare => "rare"@,
            Rarity::Epic => "epic"@,
            Rarity::Legendary => "legendary"@,
            Rarity::Unique => "unique"@,
        }
    }

    /// The lower-case name of this rarity.
    pub fn name(&self) -> (s: &'static str)
        ensures
            s@ == self.name_spec(),
    {
        match self {
            Rarity::Common => "common",
            Rarity::Uncommon => "uncommon",
            Rarity::Rare => "rare",
            Rarity::Epic => "epic",
            Rarity::Legendary => "legendary",
            Rarity::Unique => "unique",
        }
    }

    /// Which rarity, if any, a lower-case name denotes.
    pub open spec fn parse_spec(s: Seq<char>) -> Option<Rarity> {
        if s == "common"@ {
            Some(Rarity::Common)
        } else if s == "uncommon"@ {
            Some(Rarity::Uncommon)
        } else if s == "rare"@ {
            Some(Rarity::Rare)
        } else if s == "epic"@ {
            Some(Rarity::Epic)
        } else if s == "legendary"@ {
            Some(Rarity::Legendary)
        } else if s == "unique"@ {
            Some(Rarity::Unique)
        } else {
            None
        }
    }

    /// Parse a lower-case rarity name.
    pub fn parse(s: &str) -> (r: Option<Rarity>)
        ensures
            r == Self::parse_spec(s@),
    {
        if str_eq(s, "common") {
            Some(Rarity::Common)
        } else if str_eq(s, "uncommon") {
            Some(Rarity::Uncommon)
        } else if str_eq(s, "rare") {
            Some(Rarity::Rare)
        } else if str_eq(s, "epic") {
            Some(Rarity::Epic)
        } else if str_eq(s, "legendary") {
            Some(Rarity::Legendary)
        } else if str_eq(s, "unique") {
            Some(Rarity::Unique)
        } else {
            None
        }
    }
}

/// Combining a rarity with itself gives it back.
pub proof fn lemma_combine_idempotent(r: Rarity)
    ensures
        r.combine_spec(r) == r,
{
}

/// Combine does not depend on the order of its operands.
pub proof fn lemma_combine_commutative(a: Rarity, b: Rarity)
    ensures
        a.combine_spec(b) == b.combine_spec(a),
{
}

/// Combine does not depend on how its operands are grouped.
pub proof fn lemma_combine_associative(a: Rarity, b: Rarity, c: Rarity)
    ensures
        a.combine_spec(b).combine_spec(c) == a.combine_spec(b.combine_spec(c)),
{
}

/// The pairwise combine of four rarities is their maximum: it is one of the
/// four, and no higher-ranked rarity is among them.
pub proof fn lemma_combine_four_is_max(r1: Rarity, r2: Rarity, r3: Rarity, r4: Rarity)
    ensures
        ({
            let m = r1.combine_spec(r2).combine_spec(r3).combine_spec(r4);
            &&& (m == r1 || m == r2 || m == r3 || m == r4)
            &&& m.rank_spec() >= r1.rank_spec()
            &&& m.rank_spec() >= r2.rank_spec()
            &&& m.rank_spec() >= r3.rank_spec()
            &&& m.rank_spec() >= r4.rank_spec()
        }),
{
}

} // verus!
