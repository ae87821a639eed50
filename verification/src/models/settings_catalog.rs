//! The catalog of application settings: every key that may be stored, its
//! category, its kind (which decides how values are validated), its default
//! value and whether it holds a filesystem path.

use vstd::prelude::*;

verus! {

#[derive(Debug, Clone, Copy, PartialEq, Eq, Structural)]
pub enum SettingKind {
    Bool,
    Str,
    Path,
    Template,
}

#[derive(Debug, Clone, Copy, PartialEq, Eq, Structural)]
pub enum SettingCategory {
    Docx,
    Backup,
    Integrity,
    Access,
}

/// One catalog entry.
#[derive(Debug, Clone, Copy)]
pub struct SettingDefinition {
    /// Canonical database key (dot-separated snake_case).
    pub key: &'static str,
    pub category: SettingCategory,
    pub kind: SettingKind,
    pub default_value: &'static str,
    /// True for keys whose values are filesystem paths and must be redacted in audit logs.
    pub is_path_like: bool,
}

pub const KEY_DOCX_DEFAULT_TEMPLATE: &'static str = "docx.default_template";
pub const KEY_DOCX_DEFAULT_EXPORT_DIR: &'static str = "docx.default_export_dir";
pub const KEY_DOCX_INCLUDE_MATERIALS_TABLE: &'static str = "docx.include_materials_table";
pub const KEY_DOCX_INCLUDE_SHA256_TABLE: &'static str = "docx.include_sha256_table";

pub const KEY_BACKUP_DEFAULT_DIR: &'static str = "backup.default_dir";
pub const KEY_BACKUP_SAFETY_BEFORE_RESTORE: &'static str = "backup.safety_before_restore";
pub const KEY_BACKUP_VERIFY_AFTER_CREATE: &'static str = "backup.verify_after_create";

pub const KEY_INTEGRITY_WARN_BEFORE_DOCX: &'static str = "integrity.warn_before_docx_export";
pub const KEY_INTEGRITY_WARN_BEFORE_BACKUP: &'static str = "integrity.warn_before_backup";

pub const KEY_ACCESS_VIEWER_CAN_EXPORT_DOCX: &'static str = "access.viewer_can_export_docx";
pub const KEY_ACCESS_ANALYST_CAN_CREATE_BACKUP: &'static str = "access.analyst_can_create_backup";

pub open spec fn def(
    key: &'static str,
    category: SettingCategory,
    kind: SettingKind,
    default_value: &'static str,
    is_path_like: bool,
) -> SettingDefinition {
    SettingDefinition { key, category, kind, default_value, is_path_like }
}

/// The catalog, in its canonical order.
pub open spec fn catalog() -> Seq<SettingDefinition> {
    seq![
        def(KEY_DOCX_DEFAULT_TEMPLATE, SettingCategory::Docx, SettingKind::Template, "analytical-report", false),
        def(KEY_DOCX_DEFAULT_EXPORT_DIR, SettingCategory::Docx, SettingKind::Path, "", true),
        def(KEY_DOCX_INCLUDE_MATERIALS_TABLE, SettingCategory::Docx, SettingKind::Bool, "true", false),
        def(KEY_DOCX_INCLUDE_SHA256_TABLE, SettingCategory::Docx, SettingKind::Bool, "true", false),
        def(KEY_BACKUP_DEFAULT_DIR, SettingCategory::Backup, SettingKind::Path, "", true),
        def(KEY_BACKUP_SAFETY_BEFORE_RESTORE, SettingCategory::Backup, SettingKind::Bool, "true", false),
        def(KEY_BACKUP_VERIFY_AFTER_CREATE, SettingCategory::Backup, SettingKind::Bool, "true", false),
        def(KEY_INTEGRITY_WARN_BEFORE_DOCX, SettingCategory::Integrity, SettingKind::Bool, "true", false),
        def(KEY_INTEGRITY_WARN_BEFORE_BACKUP, SettingCategory::Integrity, SettingKind::Bool, "true", false),
        def(KEY_ACCESS_VIEWER_CAN_EXPORT_DOCX, SettingCategory::Access, SettingKind::Bool, "false", false),
        def(KEY_ACCESS_ANALYST_CAN_CREATE_BACKUP, SettingCategory::Access, SettingKind::Bool, "false", false),
    ]
}

/// The catalog entries, in canonical order.
pub fn settings_catalog() -> (v: Vec<SettingDefinition>)
    ensures
        v@ == catalog(),
{
    let v = vec![
        SettingDefinition { key: KEY_DOCX_DEFAULT_TEMPLATE, category: SettingCategory::Docx, kind: SettingKind::Template, default_value: "analytical-report", is_path_like: false },
        SettingDefinition { key: KEY_DOCX_DEFAULT_EXPORT_DIR, category: SettingCategory::Docx, kind: SettingKind::Path, default_value: "", is_path_like: true },
        SettingDefinition { key: KEY_DOCX_INCLUDE_MATERIALS_TABLE, category: SettingCategory::Docx, kind: SettingKind::Bool, default_value: "true", is_path_like: false },
        SettingDefinition { key: KEY_DOCX_INCLUDE_SHA256_TABLE, category: SettingCategory::Docx, kind: SettingKind::Bool, default_value: "true", is_path_like: false },
        SettingDefinition { key: KEY_BACKUP_DEFAULT_DIR, category: SettingCategory::Backup, kind: SettingKind::Path, default_value: "", is_path_like: true },
        SettingDefinition { key: KEY_BACKUP_SAFETY_BEFORE_RESTORE, category: SettingCategory::Backup, kind: SettingKind::Bool, default_value: "true", is_path_like: false },
        SettingDefinition { key: KEY_BACKUP_VERIFY_AFTER_CREATE, category: SettingCategory::Backup, kind: SettingKind::Bool, default_value: "true", is_path_like: false },
        SettingDefinition { key: KEY_INTEGRITY_WARN_BEFORE_DOCX, category: SettingCategory::Integrity, kind: SettingKind::Bool, default_value: "true", is_path_like: false },
        SettingDefinition { key: KEY_INTEGRITY_WARN_BEFORE_BACKUP, category: SettingCategory::Integrity, kind: SettingKind::Bool, default_value: "true", is_path_like: false },
        SettingDefinition { key: KEY_ACCESS_VIEWER_CAN_EXPORT_DOCX, category: SettingCategory::Access, kind: SettingKind::Bool, default_value: "false", is_path_like: false },
        SettingDefinition { key: KEY_ACCESS_ANALYST_CAN_CREATE_BACKUP, category: SettingCategory::Access, kind: SettingKind::Bool, default_value: "false", is_path_like: false },
    ];
    assert(v@ =~= catalog());
    v
}

/// The keys of the catalog, in order.
pub open spec fn catalog_keys() -> Seq<Seq<char>> {
    catalog().map_values(|d: SettingDefinition| d.key@)
}

/// The first catalog index whose key is `key`, if any.
pub open spec fn index_of_key(key: Seq<char>) -> Option<int> {
    if exists|i: int| 0 <= i < catalog().len() && #[trigger] catalog()[i].key@ == key {
        let i = choose|i: int|
            0 <= i < catalog().len() && #[trigger] catalog()[i].key@ == key && forall|j: int|
                0 <= j < i ==> #[trigger] catalog()[j].key@ != key;
        Some(i)
    } else {
        None
    }
}

/// The definition stored under `key`, if any (the first one, should keys repeat).
pub open spec fn definition_of(key: Seq<char>) -> Option<SettingDefinition> {
    if exists|i: int| 0 <= i < catalog().len() && #[trigger] catalog()[i].key@ == key {
        Some(
            catalog()[choose|i: int|
                0 <= i < catalog().len() && #[trigger] catalog()[i].key@ == key && forall|j: int|
                    0 <= j < i ==> #[trigger] catalog()[j].key@ != key],
        )
    } else {
        None
    }
}

/// Returns the keys that may be written to the settings table, in catalog order.
pub fn allowed_setting_keys() -> (keys: Vec<&'static str>)
    ensures
        keys@.len() == catalog().len(),
        forall|i: int| 0 <= i < catalog().len() ==> keys@[i] == #[trigger] catalog()[i].key,
{
    let cat = settings_catalog();
    let mut keys: Vec<&'static str> = Vec::new();
    let mut i: usize = 0;
    while i < cat.len()
        invariant
            cat@ == catalog(),
            i <= cat.len(),
            keys@.len() == i,
            forall|j: int| 0 <= j < i ==> keys@[j] == #[trigger] catalog()[j].key,
        decreases cat.len() - i,
    {
        keys.push(cat[i].key);
        i = i + 1;
    }
    keys
}

/// Returns all catalog defaults as (key, value) string pairs, in catalog order.
pub fn default_setting_pairs() -> (pairs: Vec<(String, String)>)
    ensures
        pairs@.len() == catalog().len(),
        forall|i: int|
            0 <= i < catalog().len() ==> (#[trigger] pairs@[i]).0@ == catalog()[i].key@ && pairs@[i].1@
                == catalog()[i].default_value@,
{
    let cat = settings_catalog();
    let mut pairs: Vec<(String, String)> = Vec::new();
    let mut i: usize = 0;
    while i < cat.len()
        invariant
            cat@ == catalog(),
            i <= cat.len(),
            pairs@.len() == i,
            forall|j: int|
                0 <= j < i ==> (#[trigger] pairs@[j]).0@ == catalog()[j].key@ && pairs@[j].1@
                    == catalog()[j].default_value@,
        decreases cat.len() - i,
    {
        let d = cat[i];
        pairs.push((d.key.to_owned(), d.default_value.to_owned()));
        i = i + 1;
    }
    pairs
}

/// Returns the catalog defaults as a lookup table of (key, value) entries;
/// keys are distinct (see [`lemma_catalog_keys_unique`]).
pub fn default_settings_map() -> (map: Vec<(String, String)>)
    ensures
        map@.len() == catalog().len(),
        forall|i: int|
            0 <= i < catalog().len() ==> (#[trigger] map@[i]).0@ == catalog()[i].key@ && map@[i].1@
                == catalog()[i].default_value@,
{
    default_setting_pairs()
}

/// Looks up a single definition by key.
pub fn setting_definition(key: &str) -> (d: Option<SettingDefinition>)
    ensures
        d == definition_of(key@),
{
    let cat = settings_catalog();
    let mut i: usize = 0;
    while i < cat.len()
        invariant
            cat@ == catalog(),
            i <= cat.len(),
            forall|j: int| 0 <= j < i ==> #[trigger] catalog()[j].key@ != key@,
        decreases cat.len() - i,
    {
        if crate::text::str_eq(cat[i].key, key) {
            let ghost w = i as int;
            assert(catalog()[w].key@ == key@);
            let ghost c = choose|k: int|
                0 <= k < catalog().len() && #[trigger] catalog()[k].key@ == key@ && forall|j: int|
                    0 <= j < k ==> #[trigger] catalog()[j].key@ != key@;
            assert(c == w) by {
                if c < w {
                    assert(catalog()[c].key@ != key@);
                } else if c > w {
                    assert(catalog()[w].key@ != key@);
                }
            }
            return Some(cat[i]);
        }
        i = i + 1;
    }
    None
}

/// Returns only the keys whose values are filesystem paths (used for audit redaction), in catalog order.
pub open spec fn path_like_keys_spec() -> Seq<&'static str> {
    catalog().filter(|d: SettingDefinition| d.is_path_like).map_values(|d: SettingDefinition| d.key)
}

pub fn path_like_keys() -> (keys: Vec<&'static str>)
    ensures
        keys@ == path_like_keys_spec(),
{
    let cat = settings_catalog();
    let mut keys: Vec<&'static str> = Vec::new();
    let mut i: usize = 0;
    let ghost pred = |d: SettingDefinition| d.is_path_like;
    while i < cat.len()
        invariant
            cat@ == catalog(),
            i <= cat.len(),
            pred == (|d: SettingDefinition| d.is_path_like),
            keys@ == catalog().take(i as int).filter(pred).map_values(|d: SettingDefinition| d.key),
        decreases cat.len() - i,
    {
        proof {
            reveal_with_fuel(Seq::<_>::filter, 1);
            assert(catalog().take(i + 1).drop_last() =~= catalog().take(i as int));
        }
        if cat[i].is_path_like {
            keys.push(cat[i].key);
        }
        i = i + 1;
        proof {
            let before = catalog().take(i - 1);
            let after = catalog().take(i as int);
            assert(after.drop_last() =~= before);
            if after.last().is_path_like {
                assert(after.filter(pred) =~= before.filter(pred).push(after.last()));
            } else {
                assert(after.filter(pred) =~= before.filter(pred));
            }
            assert(keys@ =~= after.filter(pred).map_values(|d: SettingDefinition| d.key));
        }
    }
    assert(catalog().take(cat.len() as int) =~= catalog());
    keys
}

/// No two catalog entries share a key.
pub proof fn lemma_catalog_keys_unique()
    ensures
        forall|i: int, j: int|
            0 <= i < catalog().len() && 0 <= j < catalog().len() && i != j ==> catalog()[i].key@
                != catalog()[j].key@,
{
    reveal_strlit("docx.default_template");
    reveal_strlit("docx.default_export_dir");
    reveal_strlit("docx.include_materials_table");
    reveal_strlit("docx.include_sha256_table");
    reveal_strlit("backup.default_dir");
    reveal_strlit("backup.safety_before_restore");
    reveal_strlit("backup.verify_after_create");
    reveal_strlit("integrity.warn_before_docx_export");
    reveal_strlit("integrity.warn_before_backup");
    reveal_strlit("access.viewer_can_export_docx");
    reveal_strlit("access.analyst_can_create_backup");
        assert(catalog()[0].key@.len() != catalog()[1].key@.len());
        assert(catalog()[0].key@.len() != catalog()[2].key@.len());
        assert(catalog()[0].key@.len() != catalog()[3].key@.len());
        assert(catalog()[0].key@.len() != catalog()[4].key@.len());
        assert(catalog()[0].key@.len() != catalog()[5].key@.len());
        assert(catalog()[0].key@.len() != catalog()[6].key@.len());
        assert(catalog()[0].key@.len() != catalog()[7].key@.len());
        assert(catalog()[0].key@.len() != catalog()[8].key@.len());
        assert(catalog()[0].key@.len() != catalog()[9].key@.len());
        assert(catalog()[0].key@.len() != catalog()[10].key@.len());
        assert(catalog()[1].key@.len() != catalog()[2].key@.len());
        assert(catalog()[1].key@.len() != catalog()[3].key@.len());
        assert(catalog()[1].key@.len() != catalog()[4].key@.len());
        assert(catalog()[1].key@.len() != catalog()[5].key@.len());
        assert(catalog()[1].key@.len() != catalog()[6].key@.len());
        assert(catalog()[1].key@.len() != catalog()[7].key@.len());
        assert(catalog()[1].key@.len() != catalog()[8].key@.len());
        assert(catalog()[1].key@.len() != catalog()[9].key@.len());
        assert(catalog()[1].key@.len() != catalog()[10].key@.len());
        assert(catalog()[2].key@.len() != catalog()[3].key@.len());
        assert(catalog()[2].key@.len() != catalog()[4].key@.len());
        assert(catalog()[2].key@[0] != catalog()[5].key@[0]);
        assert(catalog()[2].key@.len() != catalog()[6].key@.len());
        assert(catalog()[2].key@.len() != catalog()[7].key@.len());
        assert(catalog()[2].key@[0] != catalog()[8].key@[0]);
        assert(catalog()[2].key@.len() != catalog()[9].key@.len());
        assert(catalog()[2].key@.len() != catalog()[10].key@.len());
        assert(catalog()[3].key@.len() != catalog()[4].key@.len());
        assert(catalog()[3].key@.len() != catalog()[5].key@.len());
        assert(catalog()[3].key@.len() != catalog()[6].key@.len());
        assert(catalog()[3].key@.len() != catalog()[7].key@.len());
        assert(catalog()[3].key@.len() != catalog()[8].key@.len());
        assert(catalog()[3].key@.len() != catalog()[9].key@.len());
        assert(catalog()[3].key@.len() != catalog()[10].key@.len());
        assert(catalog()[4].key@.len() != catalog()[5].key@.len());
        assert(catalog()[4].key@.len() != catalog()[6].key@.len());
        assert(catalog()[4].key@.len() != catalog()[7].key@.len());
        assert(catalog()[4].key@.len() != catalog()[8].key@.len());
        assert(catalog()[4].key@.len() != catalog()[9].key@.len());
        assert(catalog()[4].key@.len() != catalog()[10].key@.len());
        assert(catalog()[5].key@.len() != catalog()[6].key@.len());
        assert(catalog()[5].key@.len() != catalog()[7].key@.len());
        assert(catalog()[5].key@[0] != catalog()[8].key@[0]);
        assert(catalog()[5].key@.len() != catalog()[9].key@.len());
        assert(catalog()[5].key@.len() != catalog()[10].key@.len());
        assert(catalog()[6].key@.len() != catalog()[7].key@.len());
        assert(catalog()[6].key@.len() != catalog()[8].key@.len());
        assert(catalog()[6].key@.len() != catalog()[9].key@.len());
        assert(catalog()[6].key@.len() != catalog()[10].key@.len());
        assert(catalog()[7].key@.len() != catalog()[8].key@.len());
        assert(catalog()[7].key@.len() != catalog()[9].key@.len());
        assert(catalog()[7].key@.len() != catalog()[10].key@.len());
        assert(catalog()[8].key@.len() != catalog()[9].key@.len());
        assert(catalog()[8].key@.len() != catalog()[10].key@.len());
        assert(catalog()[9].key@.len() != catalog()[10].key@.len());
    assert forall|i: int, j: int|
        0 <= i < catalog().len() && 0 <= j < catalog().len() && i != j implies catalog()[i].key@
            != catalog()[j].key@ by {
        assert(i == 0 || i == 1 || i == 2 || i == 3 || i == 4 || i == 5 || i == 6 || i == 7 || i == 8 || i == 9 || i == 10);
        assert(j == 0 || j == 1 || j == 2 || j == 3 || j == 4 || j == 5 || j == 6 || j == 7 || j == 8 || j == 9 || j == 10);
    }
}

/// A key's definition is the catalog entry that carries it.
pub proof fn lemma_definition_of_catalog_key(i: int)
    requires
        0 <= i < catalog().len(),
    ensures
        definition_of(catalog()[i].key@) == Some(catalog()[i]),
{
    lemma_catalog_keys_unique();
    let key = catalog()[i].key@;
    assert(0 <= i < catalog().len() && catalog()[i].key@ == key);
    let c = choose|k: int|
        0 <= k < catalog().len() && #[trigger] catalog()[k].key@ == key && forall|j: int|
            0 <= j < k ==> #[trigger] catalog()[j].key@ != key;
    assert(catalog()[i].key@ == key && forall|j: int| 0 <= j < i ==> #[trigger] catalog()[j].key@ != key);
    assert(c == i);
}

/// Every path-like key is a catalog key.
pub proof fn lemma_path_like_keys_in_catalog()
    ensures
        forall|k: int|
            0 <= k < path_like_keys_spec().len() ==> catalog().map_values(|d: SettingDefinition| d.key).contains(
                #[trigger] path_like_keys_spec()[k],
            ),
{
    let pred = |d: SettingDefinition| d.is_path_like;
    let f = catalog().filter(pred);
    let keys = catalog().map_values(|d: SettingDefinition| d.key);
    assert forall|k: int| 0 <= k < path_like_keys_spec().len() implies keys.contains(
        #[trigger] path_like_keys_spec()[k],
    ) by {
        assert(f.contains(f[k]));
        catalog().lemma_filter_contains_rev(pred, f[k]);
        let i = choose|i: int| 0 <= i < catalog().len() && catalog()[i] == f[k];
        assert(keys[i] == path_like_keys_spec()[k]);
    }
}

} // verus!
