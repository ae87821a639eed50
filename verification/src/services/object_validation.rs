//! Normalization of the fields of analytical objects (persons, phones,
//! organizations and the like) before they are stored.

use vstd::prelude::*;

use crate::domain::vocabulary::{is_valid_object_type, object_types, views};
use crate::error::{
    err_view, opt_string_result_view, opt_string_view, string_result_view, AppErrorDto, AppErrorView,
};
use crate::text::{
    ascii_lower, char_count, is_ascii_text, lemma_seq_lt_asymmetric, lemma_seq_lt_irreflexive, lemma_seq_lt_total, lemma_seq_lt_transitive,
    lowercase, seq_lt, str_eq, str_lt, str_to_lowercase, str_trim, string_views, trim, trimmed,
};

verus! {

pub const MAX_OBJECT_TITLE_LEN: usize = 200;
pub const MAX_OBJECT_VALUE_LEN: usize = 500;
pub const MAX_OBJECT_DESCRIPTION_LEN: usize = 5000;
pub const MAX_OBJECT_CONFIDENCE_NOTE_LEN: usize = 2000;
pub const MAX_OBJECT_LINK_REASON_LEN: usize = 2000;

/// A required identifier: trimmed, and the given error when nothing is left.
pub open spec fn required_id_spec(value: Seq<char>, code: Seq<char>, message: Seq<char>) -> Result<Seq<char>, AppErrorView> {
    if trim(value).len() == 0 {
        Err(err_view(code, message))
    } else {
        Ok(trim(value))
    }
}

/// Trims a required identifier; an empty one is the error `code`/`message`.
pub fn normalize_required_id(value: &str, code: &str, message: &str) -> (r: Result<String, AppErrorDto>)
    ensures
        string_result_view(r) == required_id_spec(value@, code@, message@),
{
    let normalized = trimmed(value);
    if char_count(normalized.as_str()) == 0 {
        return Err(AppErrorDto::new(code, message, None));
    }
    Ok(normalized)
}

pub open spec fn normalize_object_type_spec(value: Seq<char>) -> Result<Seq<char>, AppErrorView> {
    object_type_of_lowered(lowercase(trim(value)))
}

/// The check of an object type once it is trimmed and lower-cased.
pub open spec fn object_type_of_lowered(n: Seq<char>) -> Result<Seq<char>, AppErrorView> {
    if n.len() == 0 {
        Err(err_view("ERR_OBJECT_TYPE_REQUIRED"@, "Не выбран тип объекта."@))
    } else if !views(object_types()).contains(n) {
        Err(err_view("ERR_OBJECT_TYPE_INVALID"@, "Недопустимый тип объекта."@))
    } else {
        Ok(n)
    }
}

/// Trims and lowercases an object type, which must be one of the known types.
pub fn normalize_object_type(value: &str) -> (r: Result<String, AppErrorDto>)
    ensures
        string_result_view(r) == normalize_object_type_spec(value@),
        is_ascii_text(trim(value@)) ==> string_result_view(r) == object_type_of_lowered(ascii_lower(trim(value@))),
{
    let normalized = str_to_lowercase(str_trim(value));
    if char_count(normalized.as_str()) == 0 {
        return Err(AppErrorDto::new("ERR_OBJECT_TYPE_REQUIRED", "Не выбран тип объекта.", None));
    }
    if !is_valid_object_type(normalized.as_str()) {
        return Err(AppErrorDto::new("ERR_OBJECT_TYPE_INVALID", "Недопустимый тип объекта.", None));
    }
    Ok(normalized)
}

pub open spec fn normalize_object_title_spec(value: Seq<char>) -> Result<Seq<char>, AppErrorView> {
    let n = trim(value);
    if n.len() == 0 {
        Err(err_view("ERR_OBJECT_TITLE_REQUIRED"@, "Название объекта обязательно."@))
    } else if n.len() > MAX_OBJECT_TITLE_LEN {
        Err(err_view("ERR_OBJECT_TITLE_TOO_LONG"@, "Название объекта слишком длинное."@))
    } else {
        Ok(n)
    }
}

/// A required title of at most 200 characters, trimmed.
pub fn normalize_object_title(value: &str) -> (r: Result<String, AppErrorDto>)
    ensures
        string_result_view(r) == normalize_object_title_spec(value@),
{
    let normalized = trimmed(value);
    if char_count(normalized.as_str()) == 0 {
        return Err(AppErrorDto::new("ERR_OBJECT_TITLE_REQUIRED", "Название объекта обязательно.", None));
    }
    if char_count(normalized.as_str()) > MAX_OBJECT_TITLE_LEN {
        return Err(AppErrorDto::new("ERR_OBJECT_TITLE_TOO_LONG", "Название объекта слишком длинное.", None));
    }
    Ok(normalized)
}

pub open spec fn normalize_optional_value_spec(value: Option<Seq<char>>) -> Result<Option<Seq<char>>, AppErrorView> {
    match value {
        None => Ok(None),
        Some(v) => {
            let n = trim(v);
            if n.len() == 0 {
                Ok(None)
            } else if n.len() > MAX_OBJECT_VALUE_LEN {
                Err(err_view("ERR_OBJECT_VALUE_TOO_LONG"@, "Значение объекта слишком длинное."@))
            } else {
                Ok(Some(n))
            }
        },
    }
}

/// An optional value of at most 500 characters, trimmed; blank means absent.
pub fn normalize_optional_value(value: Option<String>) -> (r: Result<Option<String>, AppErrorDto>)
    ensures
        opt_string_result_view(r) == normalize_optional_value_spec(opt_string_view(value)),
{
    let value = match value {
        None => return Ok(None),
        Some(v) => v,
    };
    let normalized = trimmed(value.as_str());
    if char_count(normalized.as_str()) == 0 {
        return Ok(None);
    }
    if char_count(normalized.as_str()) > MAX_OBJECT_VALUE_LEN {
        return Err(AppErrorDto::new("ERR_OBJECT_VALUE_TOO_LONG", "Значение объекта слишком длинное.", None));
    }
    Ok(Some(normalized))
}

/// An optional text, trimmed (absent means empty), of at most `max` characters.
pub open spec fn bounded_text_spec(value: Option<Seq<char>>, max: usize, code: Seq<char>, message: Seq<char>) -> Result<Seq<char>, AppErrorView> {
    let n = trim(
        match value {
            Some(v) => v,
            None => Seq::<char>::empty(),
        },
    );
    if n.len() > max {
        Err(err_view(code, message))
    } else {
        Ok(n)
    }
}

fn bounded_text(value: Option<String>, max: usize, code: &str, message: &str) -> (r: Result<String, AppErrorDto>)
    ensures
        string_result_view(r) == bounded_text_spec(opt_string_view(value), max, code@, message@),
{
    let raw = match value {
        Some(v) => v,
        None => String::new(),
    };
    let normalized = trimmed(raw.as_str());
    if char_count(normalized.as_str()) > max {
        return Err(AppErrorDto::new(code, message, None));
    }
    Ok(normalized)
}

pub open spec fn normalize_object_description_spec(value: Option<Seq<char>>) -> Result<Seq<char>, AppErrorView> {
    bounded_text_spec(value, MAX_OBJECT_DESCRIPTION_LEN, "ERR_OBJECT_DESCRIPTION_TOO_LONG"@, "Описание объекта слишком длинное."@)
}

/// An optional description of at most 5000 characters, trimmed.
pub fn normalize_object_description(value: Option<String>) -> (r: Result<String, AppErrorDto>)
    ensures
        string_result_view(r) == normalize_object_description_spec(opt_string_view(value)),
{
    bounded_text(value, MAX_OBJECT_DESCRIPTION_LEN, "ERR_OBJECT_DESCRIPTION_TOO_LONG", "Описание объекта слишком длинное.")
}

pub open spec fn normalize_confidence_note_spec(value: Option<Seq<char>>) -> Result<Seq<char>, AppErrorView> {
    bounded_text_spec(value, MAX_OBJECT_CONFIDENCE_NOTE_LEN, "ERR_OBJECT_CONFIDENCE_NOTE_TOO_LONG"@, "Примечание по достоверности слишком длинное."@)
}

/// An optional confidence note of at most 2000 characters, trimmed.
pub fn normalize_confidence_note(value: Option<String>) -> (r: Result<String, AppErrorDto>)
    ensures
        string_result_view(r) == normalize_confidence_note_spec(opt_string_view(value)),
{
    bounded_text(value, MAX_OBJECT_CONFIDENCE_NOTE_LEN, "ERR_OBJECT_CONFIDENCE_NOTE_TOO_LONG", "Примечание по достоверности слишком длинное.")
}

pub open spec fn normalize_link_reason_spec(value: Option<Seq<char>>) -> Result<Seq<char>, AppErrorView> {
    bounded_text_spec(value, MAX_OBJECT_LINK_REASON_LEN, "ERR_OBJECT_LINK_REASON_TOO_LONG"@, "Основание связи объекта с материалом слишком длинное."@)
}

/// An optional reason for linking an object to a material, at most 2000 characters, trimmed.
pub fn normalize_link_reason(value: Option<String>) -> (r: Result<String, AppErrorDto>)
    ensures
        string_result_view(r) == normalize_link_reason_spec(opt_string_view(value)),
{
    bounded_text(value, MAX_OBJECT_LINK_REASON_LEN, "ERR_OBJECT_LINK_REASON_TOO_LONG", "Основание связи объекта с материалом слишком длинное.")
}

/// Strictly increasing in lexicographic order (so without repeats).
pub open spec fn strictly_sorted(s: Seq<Seq<char>>) -> bool {
    forall|a: int, b: int| 0 <= a < b < s.len() ==> seq_lt(#[trigger] s[a], #[trigger] s[b])
}

/// Whether `x` is the non-empty trimmed form of one of the first `n` inputs.
pub open spec fn is_trimmed_input(values: Seq<String>, n: int, x: Seq<char>) -> bool {
    x.len() > 0 && exists|j: int| 0 <= j < n && trim(#[trigger] values[j]@) == x
}

/// Trims every identifier, drops the blank ones, sorts them and removes repeats.
pub fn normalize_unique_ids(values: Vec<String>) -> (r: Vec<String>)
    ensures
        strictly_sorted(string_views(r@)),
        forall|x: Seq<char>| string_views(r@).contains(x) <==> is_trimmed_input(values@, values@.len() as int, x),
{
    let mut out: Vec<String> = Vec::new();
    let mut i: usize = 0;
    while i < values.len()
        invariant
            i <= values.len(),
            strictly_sorted(string_views(out@)),
            forall|x: Seq<char>| string_views(out@).contains(x) <==> is_trimmed_input(values@, i as int, x),
        decreases values.len() - i,
    {
        let t = trimmed(values[i].as_str());
        let ghost tv = t@;
        let ghost old_views = string_views(out@);
        let ghost mut inserted = false;
        let ghost mut pos: int = 0;
        if char_count(t.as_str()) > 0 {
            let mut k: usize = 0;
            while k < out.len() && str_lt(out[k].as_str(), t.as_str())
                invariant
                    k <= out.len(),
                    forall|m: int| 0 <= m < k ==> seq_lt(#[trigger] string_views(out@)[m], tv),
                    string_views(out@) == old_views,
                    strictly_sorted(old_views),
                    tv == t@,
                decreases out.len() - k,
            {
                assert(string_views(out@)[k as int] == out@[k as int]@);
                k = k + 1;
            }
            let present = k < out.len() && str_eq(out[k].as_str(), t.as_str());
            proof {
                pos = k as int;
            }
            if !present {
                proof {
                    if k < out.len() {
                        lemma_seq_lt_total(old_views[k as int], tv);
                    }
                }
                out.insert(k, t);
                proof {
                    inserted = true;
                    let nv = string_views(out@);
                    assert(nv =~= old_views.insert(k as int, tv));
                    assert forall|a: int, b: int| 0 <= a < b < nv.len() implies seq_lt(#[trigger] nv[a], #[trigger] nv[b]) by {
                        if b < k {
                        } else if b == k {
                        } else if a < k {
                            lemma_seq_lt_total(old_views[k as int], tv);
                            if b == k + 1 {
                                lemma_seq_lt_transitive(nv[a], tv, nv[b]);
                            } else {
                                lemma_seq_lt_transitive(tv, old_views[k as int], nv[b]);
                                lemma_seq_lt_transitive(nv[a], tv, nv[b]);
                            }
                        } else if a == k {
                            if b > k + 1 {
                                lemma_seq_lt_transitive(tv, old_views[k as int], nv[b]);
                            }
                        } else {
                        }
                    }
                }
            } else {
                proof {
                    assert(old_views[k as int] == tv);
                }
            }
        }
        proof {
            let nv = string_views(out@);
            if inserted {
                assert(nv =~= old_views.insert(pos, tv));
            } else {
                assert(nv =~= old_views);
            }
            assert forall|x: Seq<char>| nv.contains(x) <==> is_trimmed_input(values@, i + 1, x) by {
                if nv.contains(x) {
                    let m = choose|m: int| 0 <= m < nv.len() && nv[m] == x;
                    if inserted && x == tv {
                        assert(trim(values@[i as int]@) == x);
                    } else if inserted {
                        if m < pos {
                            assert(old_views[m] == x);
                        } else {
                            assert(old_views[m - 1] == x);
                        }
                        assert(old_views.contains(x));
                    } else {
                        assert(old_views.contains(x));
                    }
                }
                if is_trimmed_input(values@, i + 1, x) {
                    let j = choose|j: int| 0 <= j < i + 1 && trim(#[trigger] values@[j]@) == x;
                    if j < i {
                        assert(is_trimmed_input(values@, i as int, x));
                        assert(old_views.contains(x));
                        let m = choose|m: int| 0 <= m < old_views.len() && old_views[m] == x;
                        if inserted {
                            if m < pos {
                                assert(nv[m] == x);
                            } else {
                                assert(nv[m + 1] == x);
                            }
                        } else {
                            assert(nv[m] == x);
                        }
                    } else {
                        if inserted {
                            assert(nv[pos] == x);
                        } else {
                            assert(old_views[pos] == x);
                            assert(nv[pos] == x);
                        }
                    }
                }
            }
        }
        i = i + 1;
    }
    out
}

} // verus!
