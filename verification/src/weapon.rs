//! Weapon types, generation, and resolution from an identifier.

use vstd::prelude::*;

use rand::Rng;

use crate::catalog::{Company, Part, PartType};
use crate::curve::Curve;
use crate::id::Id;
use crate::rarity::Rarity;
use crate::text::str_eq;

verus! {

/// The seven weapon types.
#[derive(Clone, Copy, PartialEq, Eq, Structural, Debug)]
pub enum WeaponType {
    Assault,
    Grenade,
    Pistol,
    Rocket,
    Shotgun,
    Sniper,
    Submachine,
}

impl WeaponType {
    /// The byte stored for this type in an identifier.
    pub open spec fn index_spec(self) -> u8 {
        match self {
            WeaponType::Assault => 0,
            WeaponType::Grenade => 1,
            WeaponType::Pistol => 2,
            WeaponType::Rocket => 3,
            WeaponType::Shotgun => 4,
            WeaponType::Sniper => 5,
            WeaponType::Submachine => 6,
        }
    }

    /// The byte stored for this type in an identifier.
    pub fn index(&self) -> (r: u8)
        ensures
            r == self.index_spec(),
    {
        match self {
            WeaponType::Assault => 0,
            WeaponType::Grenade => 1,
            WeaponType::Pistol => 2,
            WeaponType::Rocket => 3,
            WeaponType::Shotgun => 4,
            WeaponType::Sniper => 5,
            WeaponType::Submachine => 6,
        }
    }

    /// The type a stored byte denotes, if any.
    pub open spec fn from_index_spec(index: u8) -> Option<WeaponType> {
        if index == 0 {
            Some(WeaponType::Assault)
        } else if index == 1 {
            Some(WeaponType::Grenade)
        } else if index == 2 {
            Some(WeaponType::Pistol)
        } else if index == 3 {
            Some(WeaponType::Rocket)
        } else if index == 4 {
            Some(WeaponType::Shotgun)
        } else if index == 5 {
            Some(WeaponType::Sniper)
        } else if index == 6 {
            Some(WeaponType::Submachine)
        } else {
            None
        }
    }

    /// Decode a stored type byte.
    pub fn from_index(index: u8) -> (r: Option<WeaponType>)
        ensures
            r == Self::from_index_spec(index),
    {
        match index {
            0 => Some(WeaponType::Assault),
            1 => Some(WeaponType::Grenade),
            2 => Some(WeaponType::Pistol),
            3 => Some(WeaponType::Rocket),
            4 => Some(WeaponType::Shotgun),
            5 => Some(WeaponType::Sniper),
            6 => Some(WeaponType::Submachine),
            _ => None,
        }
    }

    /// The weapon type drawn for a bucket of the weighted selection table:
    /// of ten equally likely buckets, two map to each of pistol, submachine
    /// gun, shotgun and assault rifle, one to grenade launcher and one to
    /// sniper rifle. No bucket maps to rocket launcher: the table as tuned
    /// leaves it unreachable.
    pub open spec fn from_bucket_spec(bucket: u32) -> WeaponType {
        if bucket <= 1 {
            WeaponType::Pistol
        } else if bucket <= 3 {
            WeaponType::Submachine
        } else if bucket <= 5 {
            WeaponType::Shotgun
        } else if bucket <= 7 {
            WeaponType::Assault
        } else if bucket == 8 {
            WeaponType::Grenade
        } else {
            WeaponType::Sniper
        }
    }

    /// Map a bucket of the weighted selection table to its weapon type.
    pub fn from_bucket(bucket: u32) -> (r: WeaponType)
        requires
            bucket < 10,
        ensures
            r == Self::from_bucket_spec(bucket),
            r != WeaponType::Rocket,
    {
        if bucket <= 1 {
            WeaponType::Pistol
        } else if bucket <= 3 {
            WeaponType::Submachine
        } else if bucket <= 5 {
            WeaponType::Shotgun
        } else if bucket <= 7 {
            WeaponType::Assault
        } else if bucket == 8 {
            WeaponType::Grenade
        } else {
            WeaponType::Sniper
        }
    }

    /// The display name of this weapon type.
    pub open spec fn name_spec(self) -> Seq<char> {
        match self {
            WeaponType::Assault => "assault rifle"@,
            WeaponType::Grenade => "grenade launcher"@,
            WeaponType::Pistol => "pistol"@,
            WeaponType::Rocket => "rocket launcher"@,
            WeaponType::Shotgun => "shotgun"@,
            WeaponType::Sniper => "sniper rifle"@,
            WeaponType::Submachine => "submachine gun"@,
        }
    }

    /// The display name of this weapon type.
    pub fn name(&self) -> (s: &'static str)
        ensures
            s@ == self.name_spec(),
    {
        match self {
            WeaponType::Assault => "assault rifle",
            WeaponType::Grenade => "grenade launcher",
            WeaponType::Pistol => "pistol",
            WeaponType::Rocket => "rocket launcher",
            WeaponType::Shotgun => "shotgun",
            WeaponType::Sniper => "sniper rifle",
            WeaponType::Submachine => "submachine gun",
        }
    }

    /// Which weapon type, if any, a display name denotes.
    pub open spec fn parse_spec(s: Seq<char>) -> Option<WeaponType> {
        if s == "assault rifle"@ {
            Some(WeaponType::Assault)
        } else if s == "grenade launcher"@ {
            Some(WeaponType::Grenade)
        } else if s == "pistol"@ {
            Some(WeaponType::Pistol)
        } else if s == "rocket launcher"@ {
            Some(WeaponType::Rocket)
        } else if s == "shotgun"@ {
            Some(WeaponType::Shotgun)
        } else if s == "sniper rifle"@ {
            Some(WeaponType::Sniper)
        } else if s == "submachine gun"@ {
            Some(WeaponType::Submachine)
        } else {
            None
        }
    }

    /// Parse a weapon type display name.
    pub fn parse(s: &str) -> (r: Option<WeaponType>)
        ensures
            r == Self::parse_spec(s@),
    {
        if str_eq(s, "assault rifle") {
            Some(WeaponType::Assault)
        } else if str_eq(s, "grenade launcher") {
            Some(WeaponType::Grenade)
        } else if str_eq(s, "pistol") {
            Some(WeaponType::Pistol)
        } else if str_eq(s, "rocket launcher") {
            Some(WeaponType::Rocket)
        } else if str_eq(s, "shotgun") {
            Some(WeaponType::Shotgun)
        } else if str_eq(s, "sniper rifle") {
            Some(WeaponType::Sniper)
        } else if str_eq(s, "submachine gun") {
            Some(WeaponType::Submachine)
        } else {
            None
        }
    }
}

/// The damage curve configured for one weapon type.
#[derive(Clone, Copy, PartialEq, Eq, Structural, Debug)]
pub struct WeaponCurve {
    pub typ: WeaponType,
    pub curve: Curve,
}

/// The index of the first curve entry for `typ`, if there is one.
pub open spec fn find_curve_spec(curves: Seq<WeaponCurve>, typ: WeaponType) -> Option<int>
    decreases curves.len(),
{
    if curves.len() == 0 {
        None
    } else if curves[0].typ == typ {
        Some(0)
    } else {
        match find_curve_spec(curves.skip(1), typ) {
            Some(i) => Some(i + 1),
            None => None,
        }
    }
}

/// If `i` is a match and nothing before it is, the first match is `i`.
proof fn lemma_find_curve_first(curves: Seq<WeaponCurve>, typ: WeaponType, i: int)
    requires
        0 <= i < curves.len(),
        curves[i].typ == typ,
        forall|j: int| 0 <= j < i ==> curves[j].typ != typ,
    ensures
        find_curve_spec(curves, typ) == Some(i),
    decreases i,
{
    if i == 0 {
    } else {
        lemma_find_curve_first(curves.skip(1), typ, i - 1);
    }
}

/// If nothing matches, there is no first match.
proof fn lemma_find_curve_none(curves: Seq<WeaponCurve>, typ: WeaponType)
    requires
        forall|j: int| 0 <= j < curves.len() ==> curves[j].typ != typ,
    ensures
        find_curve_spec(curves, typ) is None,
    decreases curves.len(),
{
    if curves.len() == 0 {
    } else {
        lemma_find_curve_none(curves.skip(1), typ);
    }
}

/// Find the first curve entry for `typ`.
fn find_curve(curves: &Vec<WeaponCurve>, typ: WeaponType) -> (r: Option<usize>)
    ensures
        match r {
            Some(i) => i < curves@.len() && curves@[i as int].typ == typ && find_curve_spec(
                curves@,
                typ,
            ) == Some(i as int),
            None => find_curve_spec(curves@, typ) is None,
        },
{
    let mut i: usize = 0;
    while i < curves.len()
        invariant
            i <= curves@.len(),
            forall|j: int| 0 <= j < i ==> curves@[j].typ != typ,
        decreases curves@.len() - i,
    {
        if curves[i].typ == typ {
            proof {
                lemma_find_curve_first(curves@, typ, i as int);
            }
            return Some(i);
        }
        i = i + 1;
    }
    proof {
        lemma_find_curve_none(curves@, typ);
    }
    None
}

/// Which rarities the level-gated filter admits: strictly higher levels only
/// ever widen the set.
pub open spec fn rarity_allowed(level: u8, rarity: Rarity) -> bool {
    if level >= 20 {
        true
    } else if level >= 12 {
        rarity.rank_spec() <= 3
    } else if level >= 8 {
        rarity.rank_spec() <= 2
    } else {
        rarity.rank_spec() <= 1
    }
}

/// Raising the level never narrows the set of admitted rarities.
pub proof fn lemma_rarity_gate_monotone(l1: u8, l2: u8, rarity: Rarity)
    requires
        l1 <= l2,
    ensures
        rarity_allowed(l1, rarity) ==> rarity_allowed(l2, rarity),
{
}

/// Whether catalog entry `i` may be drawn for `slot` at `level`.
pub open spec fn eligible(parts: Seq<Part>, level: u8, slot: PartType, i: int) -> bool {
    &&& 0 <= i < parts.len()
    &&& parts[i].typ == slot
    &&& rarity_allowed(level, parts[i].rarity)
}

/// Whether any catalog entry may be drawn for `slot` at `level`.
pub open spec fn has_eligible(parts: Seq<Part>, level: u8, slot: PartType) -> bool {
    exists|i: int| eligible(parts, level, slot, i)
}

/// Why a weapon could not be generated or resolved.
#[derive(Clone, Copy, PartialEq, Eq, Structural, Debug)]
pub enum WeaponError {
    /// No eligible candidate for a slot, or an embedded index out of range
    /// or pointing at a part of the wrong slot.
    MissingPart,
    /// The curve table has no entry for the weapon type.
    MissingCurve,
    /// The embedded weapon type byte denotes no type.
    UnknownWeaponType,
}

/// A fully resolved weapon. Immutable once built; either rolled fresh by
/// `generate` or rebuilt from an identifier by `from_id`.
#[derive(Clone, PartialEq, Debug)]
pub struct Weapon {
    pub level: u8,
    pub id: Id,
    pub rarity: Rarity,
    pub typ: WeaponType,
    pub company: Company,
    pub barrel: Part,
    pub body: Part,
    pub magazine: Part,
    pub stock: Part,
    /// The damage curve configured for `typ`; the damage scalar is this
    /// curve evaluated at `level` rescaled into the curve domain.
    pub curve: Curve,
}

/// Whether identifier byte `idx` refers to a catalog entry of slot `slot`.
pub open spec fn slot_ref_ok(parts: Seq<Part>, idx: u8, slot: PartType) -> bool {
    idx < parts.len() && parts[idx as int].typ == slot
}

/// The weapon determined by the catalog and a structurally valid identifier
/// whose type byte denotes `typ` and whose curve entry is at `ci`.
pub open spec fn resolved_weapon(
    parts: Seq<Part>,
    curves: Seq<WeaponCurve>,
    id: Id,
    typ: WeaponType,
    ci: int,
) -> Weapon {
    let body = parts[id.body as int];
    let barrel = parts[id.barrel as int];
    let magazine = parts[id.magazine as int];
    let stock = parts[id.stock as int];
    Weapon {
        level: id.level,
        id,
        rarity: body.rarity.combine_spec(barrel.rarity).combine_spec(magazine.rarity).combine_spec(
            stock.rarity,
        ),
        typ,
        company: body.company,
        barrel,
        body,
        magazine,
        stock,
        curve: curves[ci].curve,
    }
}

/// What resolving an identifier against the catalog yields: the referential
/// checks in order, then the type byte, then the curve lookup, then the
/// fully determined weapon.
pub open spec fn resolve_spec(parts: Seq<Part>, curves: Seq<WeaponCurve>, id: Id) -> Result<
    Weapon,
    WeaponError,
> {
    if !(slot_ref_ok(parts, id.body, PartType::Body) && slot_ref_ok(parts, id.barrel, PartType::Barrel)
        && slot_ref_ok(parts, id.magazine, PartType::Magazine) && slot_ref_ok(
        parts,
        id.stock,
        PartType::Stock,
    )) {
        Err(WeaponError::MissingPart)
    } else {
        match WeaponType::from_index_spec(id.typ) {
            None => Err(WeaponError::UnknownWeaponType),
            Some(typ) => match find_curve_spec(curves, typ) {
                None => Err(WeaponError::MissingCurve),
                Some(ci) => Ok(resolved_weapon(parts, curves, id, typ, ci)),
            },
        }
    }
}

impl Weapon {
    /// Whether the level-gated rarity filter admits `part` at `level`.
    pub fn filter_rarity(part: &Part, level: u8) -> (r: bool)
        ensures
            r == rarity_allowed(level, part.rarity),
    {
        let rank = part.rarity.rank();
        if level >= 20 {
            true
        } else if level >= 12 {
            rank <= 3
        } else if level >= 8 {
            rank <= 2
        } else {
            rank <= 1
        }
    }

    /// Roll a fresh weapon: draw a type from the weighted table, look up its
    /// curve, and draw one eligible part per slot uniformly at random,
    /// embedding the drawn catalog indices in the identifier.
    ///
    /// On success the weapon re-resolves from its own identifier, so the
    /// identifier alone reproduces it for as long as the catalog stands.
    pub fn generate(parts: &Vec<Part>, curves: &Vec<WeaponCurve>, level: u8) -> (r: Result<
        Weapon,
        WeaponError,
    >)
        requires
            parts@.len() <= 256,
        ensures
            match r {
                Ok(w) => {
                    &&& w.level == level
                    &&& w.typ != WeaponType::Rocket
                    &&& w.id.level == level
                    &&& w.id.typ == w.typ.index_spec()
                    &&& w.id.reserved == 0
                    &&& w.id.check_spec()
                    &&& eligible(parts@, level, PartType::Body, w.id.body as int)
                    &&& eligible(parts@, level, PartType::Barrel, w.id.barrel as int)
                    &&& eligible(parts@, level, PartType::Magazine, w.id.magazine as int)
                    &&& eligible(parts@, level, PartType::Stock, w.id.stock as int)
                    &&& w.body == parts@[w.id.body as int]
                    &&& w.barrel == parts@[w.id.barrel as int]
                    &&& w.magazine == parts@[w.id.magazine as int]
                    &&& w.stock == parts@[w.id.stock as int]
                    &&& w.rarity == w.body.rarity.combine_spec(w.barrel.rarity).combine_spec(
                        w.magazine.rarity,
                    ).combine_spec(w.stock.rarity)
                    &&& w.company == w.body.company
                    &&& find_curve_spec(curves@, w.typ) is Some
                    &&& w.curve == curves@[find_curve_spec(curves@, w.typ)->Some_0].curve
                    &&& resolve_spec(parts@, curves@, w.id) == Ok::<Weapon, WeaponError>(w)
                },
                Err(WeaponError::MissingCurve) => exists|t: WeaponType|
                    t != WeaponType::Rocket && find_curve_spec(curves@, t) is None,
                Err(WeaponError::MissingPart) => !(has_eligible(parts@, level, PartType::Body)
                    && has_eligible(parts@, level, PartType::Barrel) && has_eligible(
                    parts@,
                    level,
                    PartType::Magazine,
                ) && has_eligible(parts@, level, PartType::Stock)),
                Err(WeaponError::UnknownWeaponType) => false,
            },
            ((forall|t: WeaponType|
                t != WeaponType::Rocket ==> find_curve_spec(curves@, t) is Some) && has_eligible(
                parts@,
                level,
                PartType::Body,
            ) && has_eligible(parts@, level, PartType::Barrel) && has_eligible(
                parts@,
                level,
                PartType::Magazine,
            ) && has_eligible(parts@, level, PartType::Stock)) ==> r is Ok,
    {
        let mut rng = fresh_rng();
        let bucket = rand_below(&mut rng, 10);
        let typ = WeaponType::from_bucket(bucket);
        let ci = match find_curve(curves, typ) {
            Some(ci) => ci,
            None => {
                return Err(WeaponError::MissingCurve);
            },
        };
        let (barrel_index, barrel) = match generate_part(parts, &mut rng, level, PartType::Barrel) {
            Some(x) => x,
            None => {
                return Err(WeaponError::MissingPart);
            },
        };
        let (body_index, body) = match generate_part(parts, &mut rng, level, PartType::Body) {
            Some(x) => x,
            None => {
                return Err(WeaponError::MissingPart);
            },
        };
        let (magazine_index, magazine) = match generate_part(
            parts,
            &mut rng,
            level,
            PartType::Magazine,
        ) {
            Some(x) => x,
            None => {
                return Err(WeaponError::MissingPart);
            },
        };
        let (stock_index, stock) = match generate_part(parts, &mut rng, level, PartType::Stock) {
            Some(x) => x,
            None => {
                return Err(WeaponError::MissingPart);
            },
        };
        let rarity = body.rarity.combine(barrel.rarity).combine(magazine.rarity).combine(
            stock.rarity,
        );
        let id = Id::from(
            level,
            typ.index(),
            body_index as u8,
            barrel_index as u8,
            magazine_index as u8,
            stock_index as u8,
        );
        let curve = curves[ci].curve;
        let w = Weapon {
            level,
            id,
            rarity,
            typ,
            company: body.company,
            barrel,
            body,
            magazine,
            stock,
            curve,
        };
        proof {
            assert(WeaponType::from_index_spec(typ.index_spec()) == Some(typ));
            assert(resolve_spec(parts@, curves@, w.id) == Ok::<Weapon, WeaponError>(w));
        }
        Ok(w)
    }

    /// Rebuild the weapon a structurally valid identifier denotes: validate
    /// that each embedded index refers to a part of the expected slot, decode
    /// the type byte, look up the curve, and recompute every derived field.
    pub fn from_id(parts: &Vec<Part>, curves: &Vec<WeaponCurve>, id: Id) -> (r: Result<
        Weapon,
        WeaponError,
    >)
        ensures
            r == resolve_spec(parts@, curves@, id),
    {
        let body_idx = id.body() as usize;
        let barrel_idx = id.barrel() as usize;
        let magazine_idx = id.magazine() as usize;
        let stock_idx = id.stock() as usize;
        let n = parts.len();
        if body_idx >= n || barrel_idx >= n || magazine_idx >= n || stock_idx >= n {
            return Err(WeaponError::MissingPart);
        }
        let body = parts[body_idx].duplicate();
        let barrel = parts[barrel_idx].duplicate();
        let magazine = parts[magazine_idx].duplicate();
        let stock = parts[stock_idx].duplicate();
        if !(matches!(body.typ, PartType::Body) && matches!(barrel.typ, PartType::Barrel)
            && matches!(magazine.typ, PartType::Magazine) && matches!(stock.typ, PartType::Stock)) {
            return Err(WeaponError::MissingPart);
        }
        let typ = match WeaponType::from_index(id.typ()) {
            Some(typ) => typ,
            None => {
                return Err(WeaponError::UnknownWeaponType);
            },
        };
        let ci = match find_curve(curves, typ) {
            Some(ci) => ci,
            None => {
                return Err(WeaponError::MissingCurve);
            },
        };
        let rarity = body.rarity.combine(barrel.rarity).combine(magazine.rarity).combine(
            stock.rarity,
        );
        let curve = curves[ci].curve;
        let w = Weapon {
            level: id.level(),
            id,
            rarity,
            typ,
            company: body.company,
            barrel,
            body,
            magazine,
            stock,
            curve,
        };
        proof {
            assert(w == resolved_weapon(parts@, curves@, id, typ, ci as int));
        }
        Ok(w)
    }
}

/// The presentation-only projection of a resolved weapon: the identifier as
/// its hex string, formatted display fields, and the flattened flavor texts.
#[derive(Clone, PartialEq, Debug)]
pub struct WeaponDisplay {
    pub level: u8,
    pub id: String,
    pub name: String,
    pub rarity: Rarity,
    pub typ: WeaponType,
    pub company: Company,
    pub barrel: Part,
    pub body: Part,
    pub magazine: Part,
    pub stock: Part,
    pub range: String,
    pub damage: String,
    pub details: Vec<String>,
}

impl Weapon {
    /// The display name: barrel name, a space, body name.
    pub fn name(&self) -> (r: String)
        ensures
            r@ == self.barrel.name@ + " "@ + self.body.name@,
    {
        self.barrel.name.clone().concat(" ").concat(self.body.name.as_str())
    }

    /// The range category of this weapon's type.
    pub open spec fn range_spec(self) -> Seq<char> {
        match self.typ {
            WeaponType::Assault => "mid-far"@,
            WeaponType::Grenade => "mid"@,
            WeaponType::Pistol => "close-near"@,
            WeaponType::Rocket => "mid-far"@,
            WeaponType::Shotgun => "mid"@,
            WeaponType::Sniper => "far"@,
            WeaponType::Submachine => "close-mid"@,
        }
    }

    /// The fixed range category string of this weapon's type.
    pub fn range(&self) -> (s: &'static str)
        ensures
            s@ == self.range_spec(),
    {
        match self.typ {
            WeaponType::Assault => "mid-far",
            WeaponType::Grenade => "mid",
            WeaponType::Pistol => "close-near",
            WeaponType::Rocket => "mid-far",
            WeaponType::Shotgun => "mid",
            WeaponType::Sniper => "far",
            WeaponType::Submachine => "close-mid",
        }
    }

    /// The non-empty flavor texts of the four parts, in body, barrel,
    /// magazine, stock order.
    pub open spec fn details_spec(self) -> Seq<String> {
        (if self.body.details@.len() > 0 {
            seq![self.body.details]
        } else {
            Seq::<String>::empty()
        }) + (if self.barrel.details@.len() > 0 {
            seq![self.barrel.details]
        } else {
            Seq::<String>::empty()
        }) + (if self.magazine.details@.len() > 0 {
            seq![self.magazine.details]
        } else {
            Seq::<String>::empty()
        }) + (if self.stock.details@.len() > 0 {
            seq![self.stock.details]
        } else {
            Seq::<String>::empty()
        })
    }

    /// Collect the non-empty flavor texts of the four parts, keeping body,
    /// barrel, magazine, stock order and skipping empty ones.
    pub fn details(&self) -> (r: Vec<String>)
        ensures
            r@ == self.details_spec(),
    {
        let mut v: Vec<String> = Vec::new();
        if !self.body.details.as_str().is_empty() {
            v.push(self.body.details.clone());
        }
        if !self.barrel.details.as_str().is_empty() {
            v.push(self.barrel.details.clone());
        }
        if !self.magazine.details.as_str().is_empty() {
            v.push(self.magazine.details.clone());
        }
        if !self.stock.details.as_str().is_empty() {
            v.push(self.stock.details.clone());
        }
        proof {
            assert(v@ =~= self.details_spec());
        }
        v
    }

    /// Project this weapon for presentation. The damage display string is
    /// computed by the caller — it comes from floating-point curve
    /// evaluation, which stays outside the verified core — and is carried
    /// through unchanged.
    pub fn display(self, damage: String) -> (d: WeaponDisplay)
        ensures
            d.level == self.level,
            d.id@ == self.id.hex_spec(),
            d.name@ == self.barrel.name@ + " "@ + self.body.name@,
            d.rarity == self.rarity,
            d.typ == self.typ,
            d.company == self.company,
            d.barrel == self.barrel,
            d.body == self.body,
            d.magazine == self.magazine,
            d.stock == self.stock,
            d.range@ == self.range_spec(),
            d.damage == damage,
            d.details@ == self.details_spec(),
    {
        let id = self.id.to_hex();
        let name = self.name();
        let range = String::from_str(self.range());
        let details = self.details();
        WeaponDisplay {
            level: self.level,
            id,
            name,
            rarity: self.rarity,
            typ: self.typ,
            company: self.company,
            barrel: self.barrel,
            body: self.body,
            magazine: self.magazine,
            stock: self.stock,
            range,
            damage,
            details,
        }
    }
}

/// Round trip: a weapon that resolves from its own identifier — as every
/// generated weapon does — is reproduced exactly after the identifier is
/// rendered to its hex string and parsed back.
pub proof fn lemma_round_trip(parts: Seq<Part>, curves: Seq<WeaponCurve>, w: Weapon)
    requires
        resolve_spec(parts, curves, w.id) == Ok::<Weapon, WeaponError>(w),
    ensures
        Id::parse_spec(w.id.hex_spec()) == Ok::<Id, crate::id::ParseError>(w.id),
        resolve_spec(parts, curves, Id::parse_spec(w.id.hex_spec())->Ok_0) == Ok::<
            Weapon,
            WeaponError,
        >(w),
{
    crate::id::lemma_hex_round_trip(w.id);
}

/// Collect the catalog indices eligible for `slot` at `level` and draw one
/// uniformly at random, returning the index and a copy of the entry.
fn generate_part(
    parts: &Vec<Part>,
    rng: &mut rand::rngs::ThreadRng,
    level: u8,
    typ: PartType,
) -> (r: Option<(usize, Part)>)
    requires
        parts@.len() <= 256,
    ensures
        match r {
            Some(p) => eligible(parts@, level, typ, p.0 as int) && p.1 == parts@[p.0 as int],
            None => !has_eligible(parts@, level, typ),
        },
{
    let mut candidates: Vec<usize> = Vec::new();
    let mut j: usize = 0;
    while j < parts.len()
        invariant
            j <= parts@.len(),
            parts@.len() <= 256,
            forall|k: int|
                0 <= k < candidates@.len() ==> eligible(parts@, level, typ, candidates@[k] as int),
            candidates@.len() == 0 ==> forall|i: int| 0 <= i < j ==> !eligible(parts@, level, typ, i),
            candidates@.len() <= j,
        decreases parts@.len() - j,
    {
        if parts[j].typ == typ && Weapon::filter_rarity(&parts[j], level) {
            candidates.push(j);
        }
        j = j + 1;
    }
    if candidates.len() == 0 {
        proof {
            assert(forall|i: int| 0 <= i < parts@.len() ==> !eligible(parts@, level, typ, i));
        }
        None
    } else {
        let k = rand_below(rng, candidates.len() as u32);
        let i = candidates[k as usize];
        Some((i, parts[i].duplicate()))
    }
}

/// Relies on `rand::thread_rng`: a handle to the thread-local random number
/// generator, used once per generation call.
#[verifier::external_body]
fn fresh_rng() -> rand::rngs::ThreadRng {
    rand::thread_rng()
}

/// Relies on `rand::Rng::gen_range` over `0..n`: it panics only on an empty
/// range and returns a value of the range. Nothing more is assumed of which
/// value comes back.
#[verifier::external_body]
fn rand_below(rng: &mut rand::rngs::ThreadRng, n: u32) -> (r: u32)
    requires
        n > 0,
    ensures
        r < n,
{
    rng.gen_range(0..n)
}

#[verifier::external_type_specification]
#[verifier::external_body]
pub struct ExThreadRng(rand::rngs::ThreadRng);

} // verus!
