//! Technical details attached to audit entries, as JSON text.

use vstd::prelude::*;
use vstd::string::*;

use crate::error::{AppErrorDto, AppErrorView};
use crate::repositories::sequential_code::{decimal, push_decimal};
use crate::text::string_views;

verus! {

/// How a character is written inside a JSON string literal: quotes and
/// backslashes escaped, the control characters with a short form as `\b`,
/// `\t`, `\n`, `\f`, `\r`, the other ones below U+0020 as `\u00` and two
/// lower-case hexadecimal digits; every other character as itself.
pub open spec fn json_escape_char(c: char) -> Seq<char> {
    let v = c as u32;
    if c == '"' {
        seq!['\\', '"']
    } else if c == '\\' {
        seq!['\\', '\\']
    } else if v == 0x08 {
        seq!['\\', 'b']
    } else if v == 0x09 {
        seq!['\\', 't']
    } else if v == 0x0A {
        seq!['\\', 'n']
    } else if v == 0x0C {
        seq!['\\', 'f']
    } else if v == 0x0D {
        seq!['\\', 'r']
    } else if v < 0x20 {
        seq!['\\', 'u', '0', '0', "0123456789abcdef"@[(v / 16) as int], "0123456789abcdef"@[(v % 16) as int]]
    } else {
        seq![c]
    }
}

/// The escaped characters of a text.
pub open spec fn json_escape(s: Seq<char>) -> Seq<char>
    decreases s.len(),
{
    if s.len() == 0 {
        Seq::empty()
    } else {
        json_escape(s.drop_last()) + json_escape_char(s.last())
    }
}

/// The JSON string literal of a text: its escaped characters between quotes.
pub open spec fn json_string(s: Seq<char>) -> Seq<char> {
    seq!['"'] + json_escape(s) + seq!['"']
}

/// Calls `serde_json::to_string` on a string slice, which writes the JSON
/// string literal [`json_string`] (the escaping of `format_escaped_str`). For
/// a string slice the call cannot fail: the serializer writes into a
/// `Vec<u8>`, which accepts every write.
#[verifier::external_body]
fn json_quote(s: &str) -> (r: String)
    ensures
        r@ == json_string(s@),
{
    serde_json::to_string(s).unwrap_or_default()
}

/// The JSON object text with the given members, in order.
pub struct AuditDetails {
    json: String,
}

impl View for AuditDetails {
    type V = Seq<char>;

    closed spec fn view(&self) -> Seq<char> {
        self.json@
    }
}

impl AuditDetails {
    /// The JSON text.
    pub fn as_json(&self) -> (s: &str)
        ensures
            s@ == self@,
    {
        self.json.as_str()
    }
}

/// `"name":value` with the value quoted.
pub open spec fn member(name: Seq<char>, value: Seq<char>) -> Seq<char> {
    json_string(name) + ":"@ + json_string(value)
}

/// The JSON object recording why an operation was refused: the operation's
/// action name, the reason and, for policy denials, the policy key.
pub open spec fn access_denied_json(operation: Seq<char>, reason: Seq<char>, policy_key: Option<Seq<char>>) -> Seq<char> {
    "{"@ + member("operation"@, operation) + ","@ + member("reason"@, reason) + match policy_key {
        Some(k) => ","@ + member("policyKey"@, k),
        None => Seq::<char>::empty(),
    } + "}"@
}

pub open spec fn opt_str_view(o: Option<&str>) -> Option<Seq<char>> {
    match o {
        Some(s) => Some(s@),
        None => None,
    }
}

/// `"name":"value"` appended to a JSON text under construction.
pub fn push_str_member(out: &mut String, name: &str, value: &str)
    ensures
        final(out)@ == old(out)@ + member(name@, value@),
{
    let n = json_quote(name);
    let v = json_quote(value);
    out.append(n.as_str());
    out.append(":");
    out.append(v.as_str());
    proof {
        reveal_strlit(":");
        assert(final(out)@ =~= old(out)@ + member(name@, value@));
    }
}

/// The JSON literal of a boolean.
pub open spec fn json_bool(b: bool) -> Seq<char> {
    if b {
        "true"@
    } else {
        "false"@
    }
}

/// `"name":true` or `"name":false`.
pub open spec fn bool_member(name: Seq<char>, b: bool) -> Seq<char> {
    json_string(name) + ":"@ + json_bool(b)
}

/// `"name":true` or `"name":false` appended to a JSON text under construction.
pub fn push_bool_member(out: &mut String, name: &str, b: bool)
    ensures
        final(out)@ == old(out)@ + bool_member(name@, b),
{
    let n = json_quote(name);
    out.append(n.as_str());
    out.append(":");
    if b {
        out.append("true");
    } else {
        out.append("false");
    }
    proof {
        reveal_strlit(":");
        reveal_strlit("true");
        reveal_strlit("false");
        assert(final(out)@ =~= old(out)@ + bool_member(name@, b));
    }
}

/// Appends a literal piece of JSON punctuation.
pub fn push_raw(out: &mut String, piece: &str)
    ensures
        final(out)@ == old(out)@ + piece@,
{
    out.append(piece);
}

/// Builds the details of an access denial.
pub fn access_denied_details(operation: &str, reason: &str, policy_key: Option<&str>) -> (r: Result<AuditDetails, AppErrorDto>)
    ensures
        r matches Ok(d) && d@ == access_denied_json(operation@, reason@, opt_str_view(policy_key)),
{
    let mut out = "{".to_owned();
    push_str_member(&mut out, "operation", operation);
    out.append(",");
    push_str_member(&mut out, "reason", reason);
    match policy_key {
        Some(k) => {
            out.append(",");
            push_str_member(&mut out, "policyKey", k);
        },
        None => {},
    }
    out.append("}");
    proof {
        assert(out@ =~= access_denied_json(operation@, reason@, opt_str_view(policy_key)));
    }
    Ok(AuditDetails { json: out })
}

/// The items of a JSON array of strings, separated by commas.
pub open spec fn json_array_items(items: Seq<Seq<char>>) -> Seq<char>
    decreases items.len(),
{
    if items.len() == 0 {
        Seq::empty()
    } else if items.len() == 1 {
        json_string(items[0])
    } else {
        json_array_items(items.drop_last()) + ","@ + json_string(items.last())
    }
}

/// A JSON array of strings.
pub open spec fn json_array(items: Seq<Seq<char>>) -> Seq<char> {
    "["@ + json_array_items(items) + "]"@
}

/// `"name":[…]` appended to a JSON text under construction.
pub fn push_str_array_member(out: &mut String, name: &str, items: &Vec<String>)
    ensures
        final(out)@ == old(out)@ + json_string(name@) + ":"@ + json_array(string_views(items@)),
{
    let n = json_quote(name);
    out.append(n.as_str());
    out.append(":[");
    let ghost start = old(out)@ + json_string(name@) + ":"@;
    proof {
        reveal_strlit(":[");
        reveal_strlit(":");
        reveal_strlit("[");
        assert(out@ =~= start + "["@ + json_array_items(string_views(items@.take(0))));
    }
    let mut i: usize = 0;
    while i < items.len()
        invariant
            i <= items.len(),
            out@ == start + "["@ + json_array_items(string_views(items@.take(i as int))),
        decreases items.len() - i,
    {
        let ghost before = string_views(items@.take(i as int));
        let ghost after = string_views(items@.take(i + 1));
        proof {
            assert(after.drop_last() =~= before);
            assert(after.last() == items@[i as int]@);
        }
        if i > 0 {
            out.append(",");
        }
        let q = json_quote(items[i].as_str());
        out.append(q.as_str());
        proof {
            assert(out@ =~= start + "["@ + json_array_items(after));
        }
        i = i + 1;
    }
    out.append("]");
    proof {
        assert(items@.take(items.len() as int) =~= items@);
        assert(out@ =~= old(out)@ + json_string(name@) + ":"@ + json_array(string_views(items@)));
    }
}

/// The details of an update: the entity's identifier and code, and the
/// fields that changed.
pub open spec fn change_details_json(
    id_key: Seq<char>,
    id: Seq<char>,
    code_key: Seq<char>,
    code: Seq<char>,
    changed: Seq<Seq<char>>,
) -> Seq<char> {
    "{"@ + member(id_key, id) + ","@ + member(code_key, code) + ","@ + json_string("changedFields"@) + ":"@ + json_array(changed)
        + "}"@
}

/// Builds the details of an update.
pub fn change_details(id_key: &str, id: &str, code_key: &str, code: &str, changed: &Vec<String>) -> (d: AuditDetails)
    ensures
        d@ == change_details_json(id_key@, id@, code_key@, code@, string_views(changed@)),
{
    let mut out = "{".to_owned();
    push_str_member(&mut out, id_key, id);
    out.append(",");
    push_str_member(&mut out, code_key, code);
    out.append(",");
    push_str_array_member(&mut out, "changedFields", changed);
    out.append("}");
    proof {
        assert(out@ =~= change_details_json(id_key@, id@, code_key@, code@, string_views(changed@)));
    }
    AuditDetails { json: out }
}

/// The details of a settings change: the changed keys and their categories.
pub open spec fn settings_details_json(keys: Seq<Seq<char>>, categories: Seq<Seq<char>>) -> Seq<char> {
    "{"@ + json_string("changedKeys"@) + ":"@ + json_array(keys) + ","@ + json_string("categories"@) + ":"@ + json_array(categories)
        + "}"@
}

/// Builds the details of a settings change.
pub fn settings_change_details(keys: &Vec<String>, categories: &Vec<String>) -> (d: AuditDetails)
    ensures
        d@ == settings_details_json(string_views(keys@), string_views(categories@)),
{
    let mut out = "{".to_owned();
    push_str_array_member(&mut out, "changedKeys", keys);
    out.append(",");
    push_str_array_member(&mut out, "categories", categories);
    out.append("}");
    proof {
        assert(out@ =~= settings_details_json(string_views(keys@), string_views(categories@)));
    }
    AuditDetails { json: out }
}

/// The details of a refusal by the access policy: the refused command, the
/// user's role and the policy key.
pub open spec fn policy_denied_json(command: Seq<char>, role: Seq<char>, policy: Seq<char>) -> Seq<char> {
    "{"@ + member("command"@, command) + ","@ + member("role"@, role) + ","@ + member("policy"@, policy) + "}"@
}

/// Builds the details of a refusal by the access policy.
pub fn policy_denied_details(command: &str, role: &str, policy: &str) -> (d: AuditDetails)
    ensures
        d@ == policy_denied_json(command@, role@, policy@),
{
    let mut out = "{".to_owned();
    push_str_member(&mut out, "command", command);
    out.append(",");
    push_str_member(&mut out, "role", role);
    out.append(",");
    push_str_member(&mut out, "policy", policy);
    out.append("}");
    proof {
        assert(out@ =~= policy_denied_json(command@, role@, policy@));
    }
    AuditDetails { json: out }
}

/// `"name":digits` for a count.
pub open spec fn count_member(name: Seq<char>, n: nat) -> Seq<char> {
    json_string(name) + ":"@ + decimal(n)
}

/// `"name":digits` appended to a JSON text under construction.
pub fn push_count_member(out: &mut String, name: &str, n: u64)
    ensures
        final(out)@ == old(out)@ + count_member(name@, n as nat),
{
    let q = json_quote(name);
    out.append(q.as_str());
    out.append(":");
    push_decimal(out, n);
    proof {
        reveal_strlit(":");
        assert(final(out)@ =~= old(out)@ + count_member(name@, n as nat));
    }
}

/// The details of a report draft that passed validation: the draft, its
/// case, the verdict and how many warnings and errors were found.
pub open spec fn draft_validated_json(draft_id: Seq<char>, case_id: Seq<char>, is_valid: bool, warnings: nat, errors: nat) -> Seq<char> {
    "{"@ + member("draftId"@, draft_id) + ","@ + member("caseId"@, case_id) + ","@ + bool_member("isValid"@, is_valid)
        + ","@ + count_member("warningsCount"@, warnings) + ","@ + count_member("errorsCount"@, errors) + "}"@
}

/// Builds the details of a validated report draft.
pub fn draft_validated_details(draft_id: &str, case_id: &str, is_valid: bool, warnings: u64, errors: u64) -> (d: AuditDetails)
    ensures
        d@ == draft_validated_json(draft_id@, case_id@, is_valid, warnings as nat, errors as nat),
{
    let mut out = "{".to_owned();
    push_str_member(&mut out, "draftId", draft_id);
    out.append(",");
    push_str_member(&mut out, "caseId", case_id);
    out.append(",");
    push_bool_member(&mut out, "isValid", is_valid);
    out.append(",");
    push_count_member(&mut out, "warningsCount", warnings);
    out.append(",");
    push_count_member(&mut out, "errorsCount", errors);
    out.append("}");
    proof {
        assert(out@ =~= draft_validated_json(draft_id@, case_id@, is_valid, warnings as nat, errors as nat));
    }
    AuditDetails { json: out }
}

/// The new value recorded when the audit log is exported: how many entries
/// the file holds.
pub open spec fn exported_count_json(count: nat) -> Seq<char> {
    "{"@ + count_member("exported_count"@, count) + "}"@
}

/// Builds the value recorded when the audit log is exported.
pub fn exported_count_details(count: u64) -> (d: AuditDetails)
    ensures
        d@ == exported_count_json(count as nat),
{
    let mut out = "{".to_owned();
    push_count_member(&mut out, "exported_count", count);
    out.append("}");
    proof {
        assert(out@ =~= exported_count_json(count as nat));
    }
    AuditDetails { json: out }
}

} // verus!
