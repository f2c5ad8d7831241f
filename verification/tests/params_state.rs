use lumen::state::{Pairs, Params, StatType};

#[test]
fn pairs_find_first_match() {
    let pairs = Pairs::new(vec![
        ("level".to_string(), "12".to_string()),
        ("name".to_string(), "vex".to_string()),
        ("name".to_string(), "shadow".to_string()),
    ]);
    assert_eq!(pairs.find("level"), Some("12"));
    assert_eq!(pairs.find("name"), Some("vex"));
    assert_eq!(pairs.find("missing"), None);
}

#[test]
fn pairs_find_empty() {
    let pairs = Pairs::new(Vec::new());
    assert_eq!(pairs.find("anything"), None);
}

#[test]
fn params_find_first_match() {
    let params = Params::new(vec![("name", "vex"), ("stat", "luck"), ("stat", "grit")]);
    assert_eq!(params.find("stat"), Some("luck"));
    assert_eq!(params.find("name"), Some("vex"));
    assert_eq!(params.find("other"), None);
}

#[test]
fn stat_type_names_round_trip() {
    assert_eq!(StatType::Number.name(), "number");
    assert_eq!(StatType::Boolean.name(), "boolean");
    assert_eq!(StatType::parse("number"), Some(StatType::Number));
    assert_eq!(StatType::parse("boolean"), Some(StatType::Boolean));
    assert_eq!(StatType::parse("text"), None);
}
