//! Plain record types handed to the presentation layer, and key–value
//! parameter lists with first-match lookup.

use vstd::prelude::*;

use crate::catalog::Part;
use crate::text::str_eq;
use crate::weapon::WeaponDisplay;

verus! {

/// How a stat is edited and rendered.
#[derive(Clone, Copy, PartialEq, Eq, Structural, Debug)]
pub enum StatType {
    Number,
    Boolean,
}

impl StatType {
    /// The lower-case name of this stat type.
    pub open spec fn name_spec(self) -> Seq<char> {
        match self {
            StatType::Number => "number"@,
            StatType::Boolean => "boolean"@,
        }
    }

    /// The lower-case name of this stat type.
    pub fn name(&self) -> (s: &'static str)
        ensures
            s@ == self.name_spec(),
    {
        match self {
            StatType::Number => "number",
            StatType::Boolean => "boolean",
        }
    }

    /// Which stat type, if any, a lower-case name denotes.
    pub open spec fn parse_spec(s: Seq<char>) -> Option<StatType> {
        if s == "number"@ {
            Some(StatType::Number)
        } else if s == "boolean"@ {
            Some(StatType::Boolean)
        } else {
            None
        }
    }

    /// Parse a lower-case stat type name.
    pub fn parse(s: &str) -> (r: Option<StatType>)
        ensures
            r == Self::parse_spec(s@),
    {
        if str_eq(s, "number") {
            Some(StatType::Number)
        } else if str_eq(s, "boolean") {
            Some(StatType::Boolean)
        } else {
            None
        }
    }
}

/// A stat of the shared template.
#[derive(Clone, PartialEq, Debug)]
pub struct Stat {
    pub name: String,
    pub typ: StatType,
}

/// One stat value of one character.
#[derive(Clone, PartialEq, Debug)]
pub struct CharacterStat {
    pub name: String,
    pub typ: StatType,
    pub value: i32,
}

/// A tracked player character with its stat values.
#[derive(Clone, PartialEq, Debug)]
pub struct Character {
    pub name: String,
    pub stats: Vec<CharacterStat>,
}

/// The full application state handed to the presentation layer.
#[derive(Clone, PartialEq, Debug)]
pub struct State {
    pub stats: Vec<Stat>,
    pub characters: Vec<Character>,
    pub parts: Vec<Part>,
    pub weapon: Option<WeaponDisplay>,
}

/// Owned key–value pairs, as parsed from a query string.
pub struct Pairs(pub Vec<(String, String)>);

impl Pairs {
    /// Wrap a list of key–value pairs.
    pub fn new(pairs: Vec<(String, String)>) -> (r: Pairs)
        ensures
            r.0 == pairs,
    {
        Pairs(pairs)
    }

    /// The value of the first pair whose key is `name`, if any.
    pub fn find(&self, name: &str) -> (r: Option<&str>)
        ensures
            match r {
                Some(v) => exists|i: int|
                    #![trigger self.0@[i]]
                    0 <= i < self.0@.len() && self.0@[i].0@ == name@ && v@ == self.0@[i].1@ && (
                    forall|j: int| 0 <= j < i ==> self.0@[j].0@ != name@),
                None => forall|i: int| 0 <= i < self.0@.len() ==> self.0@[i].0@ != name@,
            },
    {
        let mut i: usize = 0;
        while i < self.0.len()
            invariant
                i <= self.0@.len(),
                forall|j: int| 0 <= j < i ==> self.0@[j].0@ != name@,
            decreases self.0@.len() - i,
        {
            if str_eq(self.0[i].0.as_str(), name) {
                return Some(self.0[i].1.as_str());
            }
            i = i + 1;
        }
        None
    }
}

/// Borrowed key–value pairs, as matched out of a routed path.
pub struct Params<'p>(pub Vec<(&'p str, &'p str)>);

impl<'p> Params<'p> {
    /// Wrap a list of key–value pairs.
    pub fn new(pairs: Vec<(&'p str, &'p str)>) -> (r: Params<'p>)
        ensures
            r.0 == pairs,
    {
        Params(pairs)
    }

    /// The value of the first pair whose key is `name`, if any.
    pub fn find(&self, name: &str) -> (r: Option<&'p str>)
        ensures
            match r {
                Some(v) => exists|i: int|
                    #![trigger self.0@[i]]
                    0 <= i < self.0@.len() && self.0@[i].0@ == name@ && v@ == self.0@[i].1@ && (
                    forall|j: int| 0 <= j < i ==> self.0@[j].0@ != name@),
                None => forall|i: int| 0 <= i < self.0@.len() ==> self.0@[i].0@ != name@,
            },
    {
        let mut i: usize = 0;
        while i < self.0.len()
            invariant
                i <= self.0@.len(),
                forall|j: int| 0 <= j < i ==> self.0@[j].0@ != name@,
            decreases self.0@.len() - i,
        {
            if str_eq(self.0[i].0, name) {
                return Some(self.0[i].1);
            }
            i = i + 1;
        }
        None
    }
}

} // verus!
