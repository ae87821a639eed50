//! What changed when the settings were updated or reset: the changed keys
//! with their old and new values, and the setting categories they touch.

use vstd::prelude::*;

use vstd::string::*;

use crate::audit::audit_metadata::{settings_change_details, settings_details_json};
use crate::error::AppErrorDto;
use crate::error::AppErrorView;
use crate::security::session::CurrentUserDto;
use crate::services::audit_service::AuditSuccessInput;
use crate::services::settings_access_policy::{lookup, lookup_setting};
use crate::services::settings_validator::{validate_setting_pair, validate_setting_pair_spec};
use crate::text::{contains_string, str_eq, string_views};

verus! {

/// The category a setting key is reported under in the audit log.
pub open spec fn category_spec(key: Seq<char>) -> Seq<char> {
    if key == "viewer_can_export_docx"@ || key == "analyst_can_create_backup"@ {
        "access"@
    } else if key == "storage_path"@ || key == "backup_path"@ || key == "export_path"@ {
        "storage"@
    } else if key == "docx_template"@ || key == "default_report_type"@ {
        "docx"@
    } else if key == "integrity_check_before_export"@ {
        "integrity"@
    } else if key == "audit_strict_mode"@ {
        "audit"@
    } else {
        "general"@
    }
}

/// The audit category of a setting key.
pub fn settings_category_for_key(key: &str) -> (c: &'static str)
    ensures
        c@ == category_spec(key@),
{
    if str_eq(key, "viewer_can_export_docx") || str_eq(key, "analyst_can_create_backup") {
        "access"
    } else if str_eq(key, "storage_path") || str_eq(key, "backup_path") || str_eq(key, "export_path") {
        "storage"
    } else if str_eq(key, "docx_template") || str_eq(key, "default_report_type") {
        "docx"
    } else if str_eq(key, "integrity_check_before_export") {
        "integrity"
    } else if str_eq(key, "audit_strict_mode") {
        "audit"
    } else {
        "general"
    }
}

/// One changed setting; values are JSON texts, the old one absent for a new key.
pub struct SettingChange {
    pub key: String,
    pub category: String,
    pub old_value: Option<String>,
    pub new_value: String,
}

pub struct SettingChangeView {
    pub key: Seq<char>,
    pub category: Seq<char>,
    pub old_value: Option<Seq<char>>,
    pub new_value: Seq<char>,
}

impl View for SettingChange {
    type V = SettingChangeView;

    open spec fn view(&self) -> SettingChangeView {
        SettingChangeView {
            key: self.key@,
            category: self.category@,
            old_value: crate::error::opt_string_view(self.old_value),
            new_value: self.new_value@,
        }
    }
}

/// The changes between two settings listings, in the order of the new one:
/// every row whose key had no value, or another value, before.
pub open spec fn changes_spec(old: Seq<(String, String)>, new: Seq<(String, String)>) -> Seq<SettingChangeView>
    decreases new.len(),
{
    if new.len() == 0 {
        Seq::empty()
    } else {
        let prev = changes_spec(old, new.drop_last());
        let key = new.last().0@;
        let value = new.last().1@;
        if lookup(old, key) == Some(value) {
            prev
        } else {
            prev.push(SettingChangeView { key, category: category_spec(key), old_value: lookup(old, key), new_value: value })
        }
    }
}

/// The distinct items of a sequence, in the order they first occur.
pub open spec fn distinct_in_order(s: Seq<Seq<char>>) -> Seq<Seq<char>>
    decreases s.len(),
{
    if s.len() == 0 {
        Seq::empty()
    } else {
        let prev = distinct_in_order(s.drop_last());
        if prev.contains(s.last()) {
            prev
        } else {
            prev.push(s.last())
        }
    }
}

pub open spec fn change_views(v: Seq<SettingChange>) -> Seq<SettingChangeView> {
    v.map_values(|c: SettingChange| c@)
}

pub open spec fn change_keys(c: Seq<SettingChangeView>) -> Seq<Seq<char>> {
    c.map_values(|x: SettingChangeView| x.key)
}

pub open spec fn change_categories(c: Seq<SettingChangeView>) -> Seq<Seq<char>> {
    c.map_values(|x: SettingChangeView| x.category)
}

/// The changes, the changed keys and the distinct categories of a settings update.
pub struct SettingsChangeSet {
    pub changes: Vec<SettingChange>,
    pub changed_keys: Vec<String>,
    pub categories: Vec<String>,
}

/// The texts of (key, value) rows.
pub open spec fn row_views(rows: Seq<(String, String)>) -> Seq<(Seq<char>, Seq<char>)> {
    rows.map_values(|r: (String, String)| (r.0@, r.1@))
}

/// The outcome of validating rows in order: the error of the first invalid
/// pair, if any.
pub open spec fn first_invalid_spec(rows: Seq<(String, String)>) -> Result<(), AppErrorView>
    decreases rows.len(),
{
    if rows.len() == 0 {
        Ok(())
    } else {
        match first_invalid_spec(rows.drop_last()) {
            Err(e) => Err(e),
            Ok(_) => pair_outcome(rows.last().0@, rows.last().1@),
        }
    }
}

/// The outcome of validating one pair against the catalog.
#[verifier::opaque]
pub open spec fn pair_outcome(key: Seq<char>, value: Seq<char>) -> Result<(), AppErrorView> {
    validate_setting_pair_spec(key, value)
}

/// Reads the settings as (key, JSON value) rows for the settings commands.
pub struct SettingsRepository;

/// The audit-relevant part of updating or resetting settings.
pub struct SettingsService;

impl SettingsService {
    /// Validates every (key, value) pair against the catalog, in order, before
    /// anything is written: the first invalid pair is the error; otherwise the
    /// rows to write are the pairs as given.
    pub fn validated_settings_rows(pairs: &Vec<(String, String)>) -> (r: Result<Vec<(String, String)>, AppErrorDto>)
        ensures
            match first_invalid_spec(pairs@) {
                Err(e) => r matches Err(e2) && e2@ == e,
                Ok(_) => r matches Ok(v) && row_views(v@) == row_views(pairs@),
            },
    {
        let mut out: Vec<(String, String)> = Vec::new();
        let mut i: usize = 0;
        while i < pairs.len()
            invariant
                i <= pairs.len(),
                first_invalid_spec(pairs@.take(i as int)) is Ok,
                row_views(out@) == row_views(pairs@.take(i as int)),
            decreases pairs.len() - i,
        {
            let ghost next = pairs@.take(i + 1);
            proof {
                assert(next.drop_last() =~= pairs@.take(i as int));
                assert(next.last() == pairs@[i as int]);
            }
            let checked = validate_setting_pair(pairs[i].0.as_str(), pairs[i].1.as_str());
            proof {
                reveal(pair_outcome);
                assert(crate::error::unit_result_view(checked) == pair_outcome(pairs@[i as int].0@, pairs@[i as int].1@));
            }
            match checked {
                Err(e) => {
                    proof {
                        lemma_first_invalid_prefix(pairs@, i + 1);
                    }
                    return Err(e);
                },
                Ok(()) => {},
            }
            let ghost before = row_views(out@);
            out.push((pairs[i].0.clone(), pairs[i].1.clone()));
            proof {
                assert(row_views(out@) =~= before.push((pairs@[i as int].0@, pairs@[i as int].1@)));
                assert(row_views(next) =~= row_views(pairs@.take(i as int)).push((pairs@[i as int].0@, pairs@[i as int].1@)));
            }
            i = i + 1;
        }
        proof {
            assert(pairs@.take(pairs.len() as int) =~= pairs@);
        }
        Ok(out)
    }

    /// Compares the settings before and after (key, JSON value) row by row.
    /// Nothing is audited when `changed_keys` is empty.
    pub fn settings_changes(old: &Vec<(String, String)>, new: &Vec<(String, String)>) -> (r: SettingsChangeSet)
        ensures
            change_views(r.changes@) == changes_spec(old@, new@),
            string_views(r.changed_keys@) == change_keys(changes_spec(old@, new@)),
            string_views(r.categories@) == distinct_in_order(change_categories(changes_spec(old@, new@))),
    {
        let mut changes: Vec<SettingChange> = Vec::new();
        let mut keys: Vec<String> = Vec::new();
        let mut cats: Vec<String> = Vec::new();
        let mut i: usize = 0;
        while i < new.len()
            invariant
                i <= new.len(),
                change_views(changes@) == changes_spec(old@, new@.take(i as int)),
                string_views(keys@) == change_keys(changes_spec(old@, new@.take(i as int))),
                string_views(cats@) == distinct_in_order(change_categories(changes_spec(old@, new@.take(i as int)))),
            decreases new.len() - i,
        {
            let ghost prefix = new@.take(i as int);
            let ghost next = new@.take(i + 1);
            proof {
                assert(next.drop_last() =~= prefix);
                assert(next.last() == new@[i as int]);
            }
            let key = &new[i].0;
            let value = &new[i].1;
            let previous = lookup_setting(old, key.as_str());
            let same = match previous {
                Some(p) => str_eq(p.as_str(), value.as_str()),
                None => false,
            };
            if !same {
                let category = settings_category_for_key(key.as_str());
                let old_value = match previous {
                    Some(p) => Some(p.clone()),
                    None => None,
                };
                let ghost before = changes_spec(old@, prefix);
                let change = SettingChange {
                    key: key.clone(),
                    category: category.to_owned(),
                    old_value,
                    new_value: value.clone(),
                };
                let ghost cv = change@;
                changes.push(change);
                keys.push(key.clone());
                proof {
                    assert(changes_spec(old@, next) == before.push(cv));
                    assert(change_views(changes@) =~= before.push(cv));
                    assert(change_keys(before.push(cv)) =~= change_keys(before).push(cv.key));
                    assert(string_views(keys@) =~= change_keys(before.push(cv)));
                    assert(change_categories(before.push(cv)) =~= change_categories(before).push(cv.category));
                    assert(change_categories(before.push(cv)).drop_last() =~= change_categories(before));
                }
                if !contains_string(&cats, category) {
                    cats.push(category.to_owned());
                    proof {
                        assert(string_views(cats@) =~= distinct_in_order(change_categories(before)).push(category@));
                    }
                }
            } else {
                proof {
                    assert(changes_spec(old@, next) == changes_spec(old@, prefix));
                }
            }
            i = i + 1;
        }
        proof {
            assert(new@.take(new.len() as int) =~= new@);
        }
        SettingsChangeSet { changes, changed_keys: keys, categories: cats }
    }
}

impl SettingsService {
    /// The audit entry of a settings update or reset by `user`, from the rows
    /// before and after the write: none when no key changed; otherwise
    /// `action` on the settings, with the changed keys and their categories
    /// as details.
    pub fn settings_audit_input(
        user: &CurrentUserDto,
        action: &str,
        old: &Vec<(String, String)>,
        new: &Vec<(String, String)>,
    ) -> (r: Option<AuditSuccessInput>)
        ensures
            r is None <==> changes_spec(old@, new@).len() == 0,
            r matches Some(i) ==> {
                &&& i.user_id == user.user_id
                &&& i.username == user.username
                &&& i.user_role == user.role
                &&& i.action@ == action@
                &&& i.entity_type@ == "settings"@
                &&& i.entity_id is None
                &&& i.case_id is None
                &&& i.old_value is None
                &&& i.new_value is None
                &&& i.technical_details matches Some(d) && d@ == settings_details_json(
                    change_keys(changes_spec(old@, new@)),
                    distinct_in_order(change_categories(changes_spec(old@, new@))),
                )
            },
    {
        let set = Self::settings_changes(old, new);
        if set.changed_keys.len() == 0 {
            proof {
                assert(change_keys(changes_spec(old@, new@)).len() == changes_spec(old@, new@).len());
            }
            return None;
        }
        proof {
            assert(change_keys(changes_spec(old@, new@)).len() == changes_spec(old@, new@).len());
        }
        let details = settings_change_details(&set.changed_keys, &set.categories);
        let text = details.as_json().to_owned();
        proof {
            reveal_strlit("settings");
        }
        Some(AuditSuccessInput::new(user, action, "settings", None, None, None, None, Some(text)))
    }
}

/// A key listed as changed always has a new value other than its old one.
pub proof fn lemma_changes_differ(old: Seq<(String, String)>, new: Seq<(String, String)>, j: int)
    requires
        0 <= j < changes_spec(old, new).len(),
    ensures
        changes_spec(old, new)[j].old_value != Some(changes_spec(old, new)[j].new_value),
        changes_spec(old, new)[j].old_value == lookup(old, changes_spec(old, new)[j].key),
    decreases new.len(),
{
    if new.len() > 0 {
        let prev = changes_spec(old, new.drop_last());
        if j < prev.len() {
            lemma_changes_differ(old, new.drop_last(), j);
        }
    }
}

/// Comparing a listing with itself finds no change.
pub proof fn lemma_no_changes_against_itself(rows: Seq<(String, String)>, new: Seq<(String, String)>)
    requires
        forall|j: int| 0 <= j < new.len() ==> lookup(rows, #[trigger] new[j].0@) == Some(new[j].1@),
    ensures
        changes_spec(rows, new).len() == 0,
    decreases new.len(),
{
    if new.len() > 0 {
        assert forall|j: int| 0 <= j < new.drop_last().len() implies lookup(rows, #[trigger] new.drop_last()[j].0@) == Some(new.drop_last()[j].1@) by {
            assert(new.drop_last()[j] == new[j]);
        }
        lemma_no_changes_against_itself(rows, new.drop_last());
        assert(new.last() == new[new.len() - 1]);
    }
}

proof fn lemma_contains_drop_last(s: Seq<Seq<char>>, x: Seq<char>)
    requires
        s.len() > 0,
    ensures
        s.contains(x) <==> (s.drop_last().contains(x) || x == s.last()),
{
    if s.contains(x) {
        let k = choose|k: int| 0 <= k < s.len() && s[k] == x;
        if k < s.len() - 1 {
            assert(s.drop_last()[k] == x);
        }
    }
    if s.drop_last().contains(x) {
        let k = choose|k: int| 0 <= k < s.drop_last().len() && s.drop_last()[k] == x;
        assert(s[k] == x);
    }
    if x == s.last() {
        assert(s[s.len() - 1] == x);
    }
}

proof fn lemma_contains_push(s: Seq<Seq<char>>, y: Seq<char>, x: Seq<char>)
    ensures
        s.push(y).contains(x) <==> (s.contains(x) || x == y),
{
    lemma_contains_drop_last(s.push(y), x);
    assert(s.push(y).drop_last() =~= s);
}

/// Each category is listed once, and exactly the categories of the changes are listed.
pub proof fn lemma_categories_listed_once(s: Seq<Seq<char>>)
    ensures
        forall|i: int, j: int| 0 <= i < j < distinct_in_order(s).len() ==> distinct_in_order(s)[i] != distinct_in_order(s)[j],
        forall|x: Seq<char>| distinct_in_order(s).contains(x) <==> s.contains(x),
    decreases s.len(),
{
    if s.len() > 0 {
        let prev = distinct_in_order(s.drop_last());
        let d = distinct_in_order(s);
        lemma_categories_listed_once(s.drop_last());
        assert forall|x: Seq<char>| d.contains(x) <==> s.contains(x) by {
            lemma_contains_drop_last(s, x);
            lemma_contains_push(prev, s.last(), x);
        }
        if !prev.contains(s.last()) {
            assert forall|i: int, j: int| 0 <= i < j < d.len() implies d[i] != d[j] by {
                if j == prev.len() {
                    assert(d[j] == s.last());
                    assert(d[i] == prev[i]);
                    if d[i] == d[j] {
                        assert(prev.contains(s.last()));
                    }
                } else {
                    assert(d[i] == prev[i] && d[j] == prev[j]);
                }
            }
        }
    }
}

/// Once a prefix of the rows is invalid, so are all the rows, with the same error.
pub proof fn lemma_first_invalid_prefix(rows: Seq<(String, String)>, n: int)
    requires
        0 <= n <= rows.len(),
        first_invalid_spec(rows.take(n)) is Err,
    ensures
        first_invalid_spec(rows) == first_invalid_spec(rows.take(n)),
    decreases rows.len() - n,
{
    if n < rows.len() {
        let next = rows.take(n + 1);
        assert(next.drop_last() =~= rows.take(n));
        lemma_first_invalid_prefix(rows, n + 1);
    } else {
        assert(rows.take(n) =~= rows);
    }
}

} // verus!
