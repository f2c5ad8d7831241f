//! Catalog entries: weapon parts, their slots and their manufacturers.

use vstd::prelude::*;

use crate::rarity::Rarity;
use crate::text::str_eq;

verus! {

/// A part manufacturer.
#[derive(Clone, Copy, PartialEq, Eq, Structural, Debug)]
pub enum Company {
    Arksys,
    Dikarum,
    Pecora,
    Sisterhood,
    Theia,
    WestField,
}

impl Company {
    /// The lower-case name of this company, as stored in the catalog.
    pub open spec fn lower_name_spec(self) -> Seq<char> {
        match self {
            Company::Arksys => "arksys"@,
            Company::Dikarum => "dikarum"@,
            Company::Pecora => "pecora"@,
            Company::Sisterhood => "sisterhood"@,
            Company::Theia => "theia"@,
            Company::WestField => "west_field"@,
        }
    }

    /// The lower-case name of this company.
    pub fn to_lower_name(self) -> (s: &'static str)
        ensures
            s@ == self.lower_name_spec(),
    {
        match self {
            Company::Arksys => "arksys",
            Company::Dikarum => "dikarum",
            Company::Pecora => "pecora",
            Company::Sisterhood => "sisterhood",
            Company::Theia => "theia",
            Company::WestField => "west_field",
        }
    }

    /// The display name of this company.
    pub open spec fn display_name_spec(self) -> Seq<char> {
        match self {
            Company::Arksys => "Arksys Inc"@,
            Company::Dikarum => "Dikarum & Sons"@,
            Company::Pecora => "Pecora Group"@,
            Company::Sisterhood => "Sisterhood of Blight"@,
            Company::Theia => "Theia Manufacturing"@,
            Company::WestField => "West Field Mining Munitions"@,
        }
    }

    /// The display name of this company.
    pub fn display_name(&self) -> (s: &'static str)
        ensures
            s@ == self.display_name_spec(),
    {
        match self {
            Company::Arksys => "Arksys Inc",
            Company::Dikarum => "Dikarum & Sons",
            Company::Pecora => "Pecora Group",
            Company::Sisterhood => "Sisterhood of Blight",
            Company::Theia => "Theia Manufacturing",
            Company::WestField => "West Field Mining Munitions",
        }
    }

    /// Which company, if any, a lower-case name denotes.
    pub open spec fn parse_spec(s: Seq<char>) -> Option<Company> {
        if s == "arksys"@ {
            Some(Company::Arksys)
        } else if s == "dikarum"@ {
            Some(Company::Dikarum)
        } else if s == "pecora"@ {
            Some(Company::Pecora)
        } else if s == "sisterhood"@ {
            Some(Company::Sisterhood)
        } else if s == "theia"@ {
            Some(Company::Theia)
        } else if s == "west_field"@ {
            Some(Company::WestField)
        } else {
            None
        }
    }

    /// Parse a lower-case company name.
    pub fn parse(s: &str) -> (r: Option<Company>)
        ensures
            r == Self::parse_spec(s@),
    {
        if str_eq(s, "arksys") {
            Some(Company::Arksys)
        } else if str_eq(s, "dikarum") {
            Some(Company::Dikarum)
        } else if str_eq(s, "pecora") {
            Some(Company::Pecora)
        } else if str_eq(s, "sisterhood") {
            Some(Company::Sisterhood)
        } else if str_eq(s, "theia") {
            Some(Company::Theia)
        } else if str_eq(s, "west_field") {
            Some(Company::WestField)
        } else {
            None
        }
    }
}

/// One of the four interchangeable part slots of a weapon.
#[derive(Clone, Copy, PartialEq, Eq, Structural, Debug)]
pub enum PartType {
    Body,
    Barrel,
    Magazine,
    Stock,
}

impl PartType {
    /// The lower-case name of this slot, as stored in the catalog.
    pub open spec fn name_spec(self) -> Seq<char> {
        match self {
            PartType::Body => "body"@,
            PartType::Barrel => "barrel"@,
            PartType::Magazine => "magazine"@,
            PartType::Stock => "stock"@,
        }
    }

    /// The lower-case name of this slot.
    pub fn name(&self) -> (s: &'static str)
        ensures
            s@ == self.name_spec(),
    {
        match self {
            PartType::Body => "body",
            PartType::Barrel => "barrel",
            PartType::Magazine => "magazine",
            PartType::Stock => "stock",
        }
    }

    /// Which slot, if any, a lower-case name denotes.
    pub open spec fn parse_spec(s: Seq<char>) -> Option<PartType> {
        if s == "body"@ {
            Some(PartType::Body)
        } else if s == "barrel"@ {
            Some(PartType::Barrel)
        } else if s == "magazine"@ {
            Some(PartType::Magazine)
        } else if s == "stock"@ {
            Some(PartType::Stock)
        } else {
            None
        }
    }

    /// Parse a lower-case slot name.
    pub fn parse(s: &str) -> (r: Option<PartType>)
        ensures
            r == Self::parse_spec(s@),
    {
        if str_eq(s, "body") {
            Some(PartType::Body)
        } else if str_eq(s, "barrel") {
            Some(PartType::Barrel)
        } else if str_eq(s, "magazine") {
            Some(PartType::Magazine)
        } else if str_eq(s, "stock") {
            Some(PartType::Stock)
        } else {
            None
        }
    }
}

/// An immutable catalog entry. Identity within the catalog is positional:
/// the identifier codec stores an entry's index in the catalog list, so the
/// list must only ever be appended to once identifiers have been issued.
#[derive(Clone, PartialEq, Debug)]
pub struct Part {
    /// Display name; may be a sentinel placeholder for unnamed parts.
    pub name: String,
    /// Optional flavor text; the empty string means absent.
    pub details: String,
    /// The slot this part fits.
    pub typ: PartType,
    /// The rarity of this part.
    pub rarity: Rarity,
    /// The manufacturer of this part.
    pub company: Company,
}

impl Part {
    /// An exact copy of this part, with every field equal.
    pub fn duplicate(&self) -> (r: Part)
        ensures
            r == *self,
    {
        Part {
            name: self.name.clone(),
            details: self.details.clone(),
            typ: self.typ,
            rarity: self.rarity,
            company: self.company,
        }
    }
}

} // verus!
