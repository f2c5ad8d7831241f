use lumen::catalog::{Company, Part, PartType};
use lumen::curve::Curve;
use lumen::id::Id;
use lumen::rarity::Rarity;
use lumen::weapon::{Weapon, WeaponCurve, WeaponType};

fn part(name: &str, details: &str, typ: PartType, rarity: Rarity) -> Part {
    Part {
        name: name.to_string(),
        details: details.to_string(),
        typ,
        rarity,
        company: Company::Pecora,
    }
}

fn catalog() -> Vec<Part> {
    vec![
        part("ionized", "lore: crackles", PartType::Barrel, Rarity::Rare),
        part("flicker", "", PartType::Body, Rarity::Common),
        part("cell", "lore: bottomless", PartType::Magazine, Rarity::Common),
        part("grip", "", PartType::Stock, Rarity::Common),
    ]
}

fn curves() -> Vec<WeaponCurve> {
    vec![WeaponCurve {
        typ: WeaponType::Sniper,
        curve: Curve::linear(0.0f32.to_bits(), 1.0f32.to_bits()),
    }]
}

fn sniper() -> Weapon {
    let id = Id::from(20, 5, 1, 0, 2, 3);
    Weapon::from_id(&catalog(), &curves(), id).unwrap()
}

#[test]
fn weapon_name_is_barrel_then_body() {
    assert_eq!(sniper().name(), "ionized flicker");
}

#[test]
fn range_table() {
    let mut w = sniper();
    let expect = [
        (WeaponType::Assault, "mid-far"),
        (WeaponType::Grenade, "mid"),
        (WeaponType::Pistol, "close-near"),
        (WeaponType::Rocket, "mid-far"),
        (WeaponType::Shotgun, "mid"),
        (WeaponType::Sniper, "far"),
        (WeaponType::Submachine, "close-mid"),
    ];
    for (typ, range) in expect {
        w.typ = typ;
        assert_eq!(w.range(), range);
    }
}

#[test]
fn details_keep_order_and_skip_empty() {
    let w = sniper();
    // body first, then barrel, then magazine, then stock; empty ones skipped
    assert_eq!(
        w.details(),
        vec!["lore: crackles".to_string(), "lore: bottomless".to_string()]
    );
}

#[test]
fn details_empty_when_no_flavor_text() {
    let plain: Vec<Part> = catalog()
        .into_iter()
        .map(|mut p| {
            p.details = String::new();
            p
        })
        .collect();
    let id = Id::from(20, 5, 1, 0, 2, 3);
    let w = Weapon::from_id(&plain, &curves(), id).unwrap();
    assert_eq!(w.details(), Vec::<String>::new());
}

#[test]
fn display_projection() {
    let w = sniper();
    let d = w.clone().display("2".to_string());
    assert_eq!(d.level, 20);
    assert_eq!(d.id, w.id.to_hex());
    assert_eq!(d.name, "ionized flicker");
    assert_eq!(d.rarity, Rarity::Rare);
    assert_eq!(d.typ, WeaponType::Sniper);
    assert_eq!(d.company, Company::Pecora);
    assert_eq!(d.barrel, w.barrel);
    assert_eq!(d.body, w.body);
    assert_eq!(d.magazine, w.magazine);
    assert_eq!(d.stock, w.stock);
    assert_eq!(d.range, "far");
    assert_eq!(d.damage, "2");
    assert_eq!(d.details, w.details());
}

#[test]
fn company_names() {
    let cases = [
        (Company::Arksys, "arksys", "Arksys Inc"),
        (Company::Dikarum, "dikarum", "Dikarum & Sons"),
        (Company::Pecora, "pecora", "Pecora Group"),
        (Company::Sisterhood, "sisterhood", "Sisterhood of Blight"),
        (Company::Theia, "theia", "Theia Manufacturing"),
        (Company::WestField, "west_field", "West Field Mining Munitions"),
    ];
    for (company, lower, display) in cases {
        assert_eq!(company.to_lower_name(), lower);
        assert_eq!(company.display_name(), display);
        assert_eq!(Company::parse(lower), Some(company));
    }
    assert_eq!(Company::parse("umbrella"), None);
}

#[test]
fn part_type_names() {
    let cases = [
        (PartType::Body, "body"),
        (PartType::Barrel, "barrel"),
        (PartType::Magazine, "magazine"),
        (PartType::Stock, "stock"),
    ];
    for (typ, name) in cases {
        assert_eq!(typ.name(), name);
        assert_eq!(PartType::parse(name), Some(typ));
    }
    assert_eq!(PartType::parse("scope"), None);
}
