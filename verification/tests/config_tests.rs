use democracy_simulator::config::{
    config_to_seed, default_config, preset_config, resolve_config, same_text, SimConfig,
};
use std::collections::hash_map::DefaultHasher;
use std::hash::{Hash, Hasher};

fn cfg(citizens: u32, inequality: u32, trust: u32, volatility: u32) -> SimConfig {
    SimConfig {
        citizens,
        initial_inequality: inequality,
        initial_trust: trust,
        economic_volatility: volatility,
    }
}

#[test]
fn default_config_values() {
    assert_eq!(default_config(), cfg(1000, 500, 500, 500));
    assert!(default_config().is_valid());
}

#[test]
fn preset_values() {
    assert_eq!(preset_config("collapse"), cfg(1500, 800, 100, 700));
    assert_eq!(preset_config("stable"), cfg(1200, 300, 700, 200));
    assert_eq!(preset_config("polarized"), cfg(2000, 600, 400, 500));
    assert_eq!(preset_config("utopia"), cfg(800, 100, 900, 100));
    assert_eq!(preset_config("dystopia"), cfg(3000, 900, 50, 800));
    assert_eq!(preset_config("revolution"), cfg(1800, 750, 150, 600));
}

#[test]
fn unknown_preset_gives_default() {
    assert_eq!(preset_config("anarchy"), default_config());
    assert_eq!(preset_config(""), default_config());
    assert_eq!(preset_config("Collapse"), default_config());
    assert_eq!(preset_config("collapse "), default_config());
}

#[test]
fn every_preset_is_valid() {
    for name in ["collapse", "stable", "polarized", "utopia", "dystopia", "revolution", "other"] {
        let c = preset_config(name);
        assert!(c.is_valid(), "{} should be valid", name);
        assert!(c.validate().is_empty());
    }
}

#[test]
fn validate_too_few_citizens() {
    let errors = cfg(50, 500, 500, 500).validate();
    assert_eq!(errors, vec!["Citizens must be at least 100".to_string()]);
    assert!(!cfg(50, 500, 500, 500).is_valid());
}

#[test]
fn validate_too_many_citizens() {
    assert_eq!(cfg(5001, 500, 500, 500).validate(), vec!["Citizens cannot exceed 5000".to_string()]);
    assert!(cfg(5000, 500, 500, 500).is_valid());
    assert!(cfg(100, 500, 500, 500).is_valid());
    assert!(!cfg(99, 500, 500, 500).is_valid());
}

#[test]
fn validate_ranges() {
    assert_eq!(cfg(1000, 1001, 500, 500).validate(), vec!["Inequality cannot exceed 1.0".to_string()]);
    assert_eq!(cfg(1000, 500, 1001, 500).validate(), vec!["Trust cannot exceed 1.0".to_string()]);
    assert_eq!(cfg(1000, 500, 500, 1001).validate(), vec!["Volatility cannot exceed 1.0".to_string()]);
    assert!(cfg(1000, 1000, 200, 1000).is_valid());
    assert!(cfg(1000, 0, 0, 0).is_valid());
}

#[test]
fn validate_combinations() {
    assert_eq!(
        cfg(1000, 801, 801, 500).validate(),
        vec!["High inequality with high trust may create unrealistic scenarios".to_string()]
    );
    assert!(cfg(1000, 800, 801, 500).is_valid());
    assert_eq!(
        cfg(1000, 500, 199, 901).validate(),
        vec!["High volatility with low trust may cause excessive instability".to_string()]
    );
    assert!(cfg(1000, 500, 200, 901).is_valid());
}

#[test]
fn validate_reports_all_errors_in_order() {
    let errors = cfg(10, 2000, 100, 2000).validate();
    assert_eq!(
        errors,
        vec![
            "Citizens must be at least 100".to_string(),
            "Inequality cannot exceed 1.0".to_string(),
            "Volatility cannot exceed 1.0".to_string(),
            "High volatility with low trust may cause excessive instability".to_string(),
        ]
    );
    let errors = cfg(6000, 900, 1100, 0).validate();
    assert_eq!(
        errors,
        vec![
            "Citizens cannot exceed 5000".to_string(),
            "Trust cannot exceed 1.0".to_string(),
            "High inequality with high trust may create unrealistic scenarios".to_string(),
        ]
    );
}

#[test]
fn resolve_priorities() {
    assert_eq!(resolve_config(None, None, None, None, None), default_config());
    assert_eq!(resolve_config(Some("collapse"), None, None, None, None), preset_config("collapse"));
    assert_eq!(
        resolve_config(Some("collapse"), Some(2000), None, Some(300), None),
        cfg(2000, 800, 300, 700)
    );
    assert_eq!(
        resolve_config(None, Some(1500), Some(800), Some(200), Some(700)),
        cfg(1500, 800, 200, 700)
    );
    assert_eq!(resolve_config(Some("nonsense"), None, Some(0), None, None), cfg(1000, 0, 500, 500));
}

#[derive(Hash)]
struct Mirror {
    citizens: u32,
    initial_inequality: u32,
    initial_trust: u32,
    economic_volatility: u32,
}

fn derived_hash(c: &SimConfig) -> u64 {
    let m = Mirror {
        citizens: c.citizens,
        initial_inequality: c.initial_inequality,
        initial_trust: c.initial_trust,
        economic_volatility: c.economic_volatility,
    };
    let mut h = DefaultHasher::new();
    m.hash(&mut h);
    h.finish()
}

#[test]
fn seed_is_deterministic() {
    let a = preset_config("collapse");
    let b = preset_config("collapse");
    assert_eq!(config_to_seed(&a), config_to_seed(&b));
    assert_ne!(config_to_seed(&a), config_to_seed(&preset_config("stable")));
}

#[test]
fn seed_matches_hash_of_fields() {
    for c in [default_config(), preset_config("utopia"), cfg(0, 0, 0, 0), cfg(u32::MAX, 1, 2, 3)] {
        assert_eq!(config_to_seed(&c), derived_hash(&c));
    }
}

#[test]
fn same_text_compares_characters() {
    assert!(same_text("stable", "stable"));
    assert!(!same_text("stable", "stabl"));
    assert!(!same_text("stable", "Stable"));
    assert!(same_text("", ""));
    assert!(same_text("héllo", "héllo"));
    assert!(!same_text("héllo", "hello"));
}
