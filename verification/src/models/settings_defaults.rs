//! Catalog defaults as named pairs, for call sites that read them by field name.

use vstd::prelude::*;

use crate::models::settings_catalog::{catalog, default_setting_pairs};

verus! {

/// A named (key, value) pair.
#[derive(Debug, Clone)]
pub struct DefaultSettingPair {
    pub key: String,
    pub value: String,
}

/// The catalog defaults as named pairs, in catalog order.
pub fn default_settings_pairs() -> (pairs: Vec<DefaultSettingPair>)
    ensures
        pairs@.len() == catalog().len(),
        forall|i: int|
            0 <= i < catalog().len() ==> (#[trigger] pairs@[i]).key@ == catalog()[i].key@
                && pairs@[i].value@ == catalog()[i].default_value@,
{
    let raw = default_setting_pairs();
    let mut pairs: Vec<DefaultSettingPair> = Vec::new();
    let mut i: usize = 0;
    while i < raw.len()
        invariant
            raw@.len() == catalog().len(),
            forall|j: int|
                0 <= j < catalog().len() ==> (#[trigger] raw@[j]).0@ == catalog()[j].key@
                    && raw@[j].1@ == catalog()[j].default_value@,
            i <= raw.len(),
            pairs@.len() == i,
            forall|j: int|
                0 <= j < i ==> (#[trigger] pairs@[j]).key@ == catalog()[j].key@
                    && pairs@[j].value@ == catalog()[j].default_value@,
        decreases raw.len() - i,
    {
        let (k, v) = (raw[i].0.clone(), raw[i].1.clone());
        pairs.push(DefaultSettingPair { key: k, value: v });
        i = i + 1;
    }
    pairs
}

} // verus!
