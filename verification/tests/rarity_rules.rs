use lumen::catalog::{Company, Part, PartType};
use lumen::rarity::Rarity;
use lumen::weapon::Weapon;

const ALL: [Rarity; 6] = [
    Rarity::Common,
    Rarity::Uncommon,
    Rarity::Rare,
    Rarity::Epic,
    Rarity::Legendary,
    Rarity::Unique,
];

fn part_of(rarity: Rarity) -> Part {
    Part {
        name: "test".to_string(),
        details: String::new(),
        typ: PartType::Barrel,
        rarity,
        company: Company::Arksys,
    }
}

#[test]
fn combine_keeps_higher() {
    assert_eq!(Rarity::Common.combine(Rarity::Rare), Rarity::Rare);
    assert_eq!(Rarity::Rare.combine(Rarity::Common), Rarity::Rare);
    assert_eq!(Rarity::Unique.combine(Rarity::Legendary), Rarity::Unique);
}

#[test]
fn combine_idempotent() {
    for r in ALL {
        assert_eq!(r.combine(r), r);
    }
}

#[test]
fn combine_commutative() {
    for a in ALL {
        for b in ALL {
            assert_eq!(a.combine(b), b.combine(a));
        }
    }
}

#[test]
fn combine_associative() {
    for a in ALL {
        for b in ALL {
            for c in ALL {
                assert_eq!(a.combine(b).combine(c), a.combine(b.combine(c)));
            }
        }
    }
}

#[test]
fn combine_of_four_is_max() {
    for a in ALL {
        for b in ALL {
            for c in ALL {
                for d in ALL {
                    let m = a.combine(b).combine(c).combine(d);
                    let max_rank = [a, b, c, d].iter().map(|r| r.rank()).max().unwrap();
                    assert_eq!(m.rank(), max_rank);
                }
            }
        }
    }
}

#[test]
fn rank_order() {
    for (i, r) in ALL.iter().enumerate() {
        assert_eq!(r.rank() as usize, i);
    }
}

#[test]
fn rarity_names_round_trip() {
    for r in ALL {
        assert_eq!(Rarity::parse(r.name()), Some(r));
    }
    assert_eq!(Rarity::parse("mythic"), None);
    assert_eq!(Rarity::name(&Rarity::Common), "common");
}

#[test]
fn gate_brackets() {
    // level < 8: Common and Uncommon only
    for level in [0u8, 5, 7] {
        assert!(Weapon::filter_rarity(&part_of(Rarity::Common), level));
        assert!(Weapon::filter_rarity(&part_of(Rarity::Uncommon), level));
        assert!(!Weapon::filter_rarity(&part_of(Rarity::Rare), level));
        assert!(!Weapon::filter_rarity(&part_of(Rarity::Epic), level));
    }
    // 8 <= level < 12 adds Rare
    for level in [8u8, 11] {
        assert!(Weapon::filter_rarity(&part_of(Rarity::Rare), level));
        assert!(!Weapon::filter_rarity(&part_of(Rarity::Epic), level));
    }
    // 12 <= level < 20 adds Epic
    for level in [12u8, 19] {
        assert!(Weapon::filter_rarity(&part_of(Rarity::Epic), level));
        assert!(!Weapon::filter_rarity(&part_of(Rarity::Legendary), level));
    }
    // level >= 20: everything
    for level in [20u8, 32, 255] {
        for r in ALL {
            assert!(Weapon::filter_rarity(&part_of(r), level));
        }
    }
}

#[test]
fn gate_monotone_in_level() {
    for l1 in 0u8..=32 {
        for l2 in l1..=32 {
            for r in ALL {
                if Weapon::filter_rarity(&part_of(r), l1) {
                    assert!(Weapon::filter_rarity(&part_of(r), l2));
                }
            }
        }
    }
}
