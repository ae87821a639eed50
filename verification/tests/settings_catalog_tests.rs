use std::collections::HashSet;

use casefile::models::settings_catalog::{allowed_setting_keys, default_setting_pairs, path_like_keys, settings_catalog};
use casefile::services::settings_validator::validate_setting_pair;

#[test]
fn catalog_keys_are_unique() {
    let mut seen = HashSet::new();
    for item in settings_catalog() {
        assert!(seen.insert(item.key), "duplicate setting key: {}", item.key);
    }
}

#[test]
fn every_catalog_key_has_a_default_pair() {
    let allowed = allowed_setting_keys();
    let pairs: HashSet<String> = default_setting_pairs().into_iter().map(|(k, _)| k).collect();
    for key in &allowed {
        assert!(pairs.contains(*key), "missing default for setting key: {key}");
    }
}

#[test]
fn every_default_value_passes_validation() {
    for (key, value) in default_setting_pairs() {
        validate_setting_pair(&key, &value).unwrap_or_else(|e| panic!("default value invalid for key '{key}': {}", e.message));
    }
}

#[test]
fn path_like_keys_are_a_subset_of_catalog() {
    let allowed = allowed_setting_keys();
    for key in path_like_keys() {
        assert!(allowed.contains(&key), "path-like key not in catalog: {key}");
    }
}
