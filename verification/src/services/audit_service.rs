//! Audit-log rules: the records written for successful actions, who may list,
//! read and export entries with which filters, and the CSV export format.

use vstd::prelude::*;
use vstd::string::*;

use crate::domain::audit::{AuditLogDto, ExportAuditLogPayload, GetAuditLogsPayload};
use crate::error::{access_denied_code, err_view, opt_string_view, string_result_view, validation_code, AppErrorDto, AppErrorView};
use crate::repositories::audit_repository::{AuditLogFilters, CreateAuditLogRecord};
use crate::repositories::sequential_code::decimal;
use crate::security::policy_aware_permission_service::lemma_roles_distinct;
use crate::security::session::{role_administrator, role_viewer, CurrentUserDto};
use crate::services::relation_validation::{normalize_optional_id, optional_id_spec};
use crate::text::{char_count, chars_of, push_char, str_eq, trim, trimmed};

verus! {

pub const AUDIT_RESULT_SUCCESS: &'static str = "success";
pub const AUDIT_SEVERITY_INFO: &'static str = "info";
pub const AUDIT_RESULT_DENIED: &'static str = "denied";
pub const AUDIT_SEVERITY_WARNING: &'static str = "warning";
pub const ACCESS_DENIED_ACTION: &'static str = "ACCESS_DENIED";
pub const ENTITY_TYPE_EVENT: &'static str = "event";
pub const EVENT_CREATED: &'static str = "EVENT_CREATED";
pub const EVENT_UPDATED: &'static str = "EVENT_UPDATED";
pub const EVENT_DELETED: &'static str = "EVENT_DELETED";
pub const EVENT_REPORT_FLAG_CHANGED: &'static str = "EVENT_REPORT_FLAG_CHANGED";

/// A successful action to audit; the snapshots and details are JSON texts.
#[derive(Debug, Clone)]
pub struct AuditSuccessInput {
    pub user_id: String,
    pub username: String,
    pub user_role: String,
    pub action: String,
    pub entity_type: String,
    pub entity_id: Option<String>,
    pub case_id: Option<String>,
    pub old_value: Option<String>,
    pub new_value: Option<String>,
    pub technical_details: Option<String>,
}

pub open spec fn opt_ref_view(o: Option<&str>) -> Option<Seq<char>> {
    match o {
        Some(s) => Some(s@),
        None => None,
    }
}

fn opt_owned(o: Option<&str>) -> (r: Option<String>)
    ensures
        opt_string_view(r) == opt_ref_view(o),
{
    match o {
        Some(s) => Some(s.to_owned()),
        None => None,
    }
}

impl AuditSuccessInput {
    /// The action of `user` on an entity, with its snapshots and details.
    pub fn new(
        user: &CurrentUserDto,
        action: &str,
        entity_type: &str,
        entity_id: Option<&str>,
        case_id: Option<&str>,
        old_value: Option<String>,
        new_value: Option<String>,
        technical_details: Option<String>,
    ) -> (s: Self)
        ensures
            s.user_id == user.user_id,
            s.username == user.username,
            s.user_role == user.role,
            s.action@ == action@,
            s.entity_type@ == entity_type@,
            opt_string_view(s.entity_id) == opt_ref_view(entity_id),
            opt_string_view(s.case_id) == opt_ref_view(case_id),
            s.old_value == old_value,
            s.new_value == new_value,
            s.technical_details == technical_details,
    {
        AuditSuccessInput {
            user_id: user.user_id.clone(),
            username: user.username.clone(),
            user_role: user.role.clone(),
            action: action.to_owned(),
            entity_type: entity_type.to_owned(),
            entity_id: opt_owned(entity_id),
            case_id: opt_owned(case_id),
            old_value,
            new_value,
            technical_details,
        }
    }
}

/// A page of the audit log: its filters, page number and page size.
#[derive(Debug, Clone)]
pub struct AuditLogsQuery {
    pub filters: AuditLogFilters,
    pub page: i64,
    pub page_size: i64,
}

pub open spec fn viewer_log_message() -> Seq<char> {
    "Недостаточно прав для просмотра журнала действий."@
}

pub open spec fn page_spec(page: Option<i64>) -> int {
    let p = match page {
        Some(p) => p as int,
        None => 1,
    };
    if p < 1 {
        1
    } else {
        p
    }
}

pub open spec fn page_size_spec(page_size: Option<i64>) -> int {
    let s = match page_size {
        Some(s) => s as int,
        None => 50,
    };
    if s < 10 {
        10
    } else if s > 200 {
        200
    } else {
        s
    }
}

/// The trimmed filter value, absent when blank.
pub fn normalize_optional_filter(value: Option<String>) -> (r: Option<String>)
    ensures
        opt_string_view(r) == optional_id_spec(opt_string_view(value)),
{
    normalize_optional_id(&value)
}

/// The filters shared by listing and export, from the request's values.
pub open spec fn common_filters_ok(
    f: AuditLogFilters,
    action: Option<String>,
    result: Option<String>,
    severity: Option<String>,
    case_id: Option<String>,
    entity_type: Option<String>,
    date_from: Option<String>,
    date_to: Option<String>,
) -> bool {
    &&& opt_string_view(f.action) == optional_id_spec(opt_string_view(action))
    &&& opt_string_view(f.result) == optional_id_spec(opt_string_view(result))
    &&& opt_string_view(f.severity) == optional_id_spec(opt_string_view(severity))
    &&& opt_string_view(f.case_id) == optional_id_spec(opt_string_view(case_id))
    &&& opt_string_view(f.entity_type) == optional_id_spec(opt_string_view(entity_type))
    &&& opt_string_view(f.date_from) == optional_id_spec(opt_string_view(date_from))
    &&& opt_string_view(f.date_to) == optional_id_spec(opt_string_view(date_to))
}

pub struct AuditService;

impl AuditService {
    /// The stored record of a successful action: result `success`, severity `info`.
    pub fn build_success_record(input: AuditSuccessInput, app_version: &str) -> (r: CreateAuditLogRecord)
        ensures
            r.user_id == Some(input.user_id),
            r.username == input.username,
            r.user_role == input.user_role,
            r.action == input.action,
            r.entity_type == input.entity_type,
            r.entity_id == input.entity_id,
            r.case_id == input.case_id,
            r.result@ == AUDIT_RESULT_SUCCESS@,
            r.severity@ == AUDIT_SEVERITY_INFO@,
            r.old_value == input.old_value,
            r.new_value == input.new_value,
            r.technical_details == input.technical_details,
            r.app_version@ == app_version@,
    {
        CreateAuditLogRecord {
            user_id: Some(input.user_id),
            username: input.username,
            user_role: input.user_role,
            action: input.action,
            entity_type: input.entity_type,
            entity_id: input.entity_id,
            case_id: input.case_id,
            result: AUDIT_RESULT_SUCCESS.to_owned(),
            severity: AUDIT_SEVERITY_INFO.to_owned(),
            old_value: input.old_value,
            new_value: input.new_value,
            technical_details: input.technical_details,
            app_version: app_version.to_owned(),
        }
    }

    /// The stored record of a refused access: action `ACCESS_DENIED`, result
    /// `denied`, severity `warning`, on an entity type, with its details.
    pub fn build_denied_record(
        user: &CurrentUserDto,
        entity_type: &str,
        technical_details: Option<String>,
        app_version: &str,
    ) -> (r: CreateAuditLogRecord)
        ensures
            r.user_id == Some(user.user_id),
            r.username == user.username,
            r.user_role == user.role,
            r.action@ == ACCESS_DENIED_ACTION@,
            r.entity_type@ == entity_type@,
            r.entity_id is None,
            r.case_id is None,
            r.result@ == AUDIT_RESULT_DENIED@,
            r.severity@ == AUDIT_SEVERITY_WARNING@,
            r.old_value is None,
            r.new_value is None,
            r.technical_details == technical_details,
            r.app_version@ == app_version@,
    {
        CreateAuditLogRecord {
            user_id: Some(user.user_id.clone()),
            username: user.username.clone(),
            user_role: user.role.clone(),
            action: ACCESS_DENIED_ACTION.to_owned(),
            entity_type: entity_type.to_owned(),
            entity_id: None,
            case_id: None,
            result: AUDIT_RESULT_DENIED.to_owned(),
            severity: AUDIT_SEVERITY_WARNING.to_owned(),
            old_value: None,
            new_value: None,
            technical_details,
            app_version: app_version.to_owned(),
        }
    }

    /// Whether the first row of the requested page fits in an `i64` offset.
    pub fn page_offset_fits(page: Option<i64>, page_size: Option<i64>) -> (b: bool)
        ensures
            b == ((page_spec(page) - 1) * page_size_spec(page_size) <= i64::MAX),
    {
        let p: i64 = match page {
            Some(v) => if v < 1 { 1 } else { v },
            None => 1,
        };
        let size: i64 = match page_size {
            Some(v) => if v < 10 { 10 } else if v > 200 { 200 } else { v },
            None => 50,
        };
        let fits = (p - 1).checked_mul(size).is_some();
        proof {
            assert(0 <= (p - 1) * size) by (nonlinear_arith)
                requires
                    p >= 1,
                    size >= 10,
            ;
        }
        fits
    }

    /// The page of the audit log a user asked for. Viewers are refused. The page
    /// is at least 1, the page size between 10 and 200 (50 by default), and
    /// anyone but an administrator sees only their own entries.
    pub fn audit_logs_query(current_user: &CurrentUserDto, payload: GetAuditLogsPayload) -> (r: Result<AuditLogsQuery, AppErrorDto>)
        requires
            current_user.role@ != role_viewer() ==> (page_spec(payload.page) - 1) * page_size_spec(payload.page_size) <= i64::MAX,
        ensures
            current_user.role@ == role_viewer() ==> (r matches Err(e) && e@ == err_view(access_denied_code(), viewer_log_message())),
            current_user.role@ != role_viewer() ==> (r matches Ok(q) && {
                &&& q.page == page_spec(payload.page)
                &&& q.page_size == page_size_spec(payload.page_size)
                &&& q.filters.limit == q.page_size
                &&& q.filters.offset == (q.page - 1) * q.page_size
                &&& common_filters_ok(q.filters, payload.action, payload.result, payload.severity, payload.case_id,
                    payload.entity_type, payload.date_from, payload.date_to)
                &&& if current_user.role@ == role_administrator() {
                    opt_string_view(q.filters.user_id) == optional_id_spec(opt_string_view(payload.user_id))
                } else {
                    q.filters.user_id == Some(current_user.user_id)
                }
            }),
    {
        if str_eq(current_user.role.as_str(), "viewer") {
            return Err(AppErrorDto::access_denied("Недостаточно прав для просмотра журнала действий."));
        }
        let requested_page = match payload.page {
            Some(p) => p,
            None => 1,
        };
        let page = if requested_page < 1 { 1 } else { requested_page };
        let requested_size = match payload.page_size {
            Some(s) => s,
            None => 50,
        };
        let page_size = if requested_size < 10 { 10 } else if requested_size > 200 { 200 } else { requested_size };
        assert(0 <= (page - 1) * page_size) by (nonlinear_arith)
            requires
                1 <= page,
                10 <= page_size,
        ;
        let offset = (page - 1) * page_size;
        let requested_user_id = normalize_optional_filter(payload.user_id);
        let user_id_filter = if str_eq(current_user.role.as_str(), "administrator") {
            requested_user_id
        } else {
            Some(current_user.user_id.clone())
        };
        let filters = AuditLogFilters {
            action: normalize_optional_filter(payload.action),
            result: normalize_optional_filter(payload.result),
            severity: normalize_optional_filter(payload.severity),
            case_id: normalize_optional_filter(payload.case_id),
            entity_type: normalize_optional_filter(payload.entity_type),
            date_from: normalize_optional_filter(payload.date_from),
            date_to: normalize_optional_filter(payload.date_to),
            user_id: user_id_filter,
            limit: page_size,
            offset,
        };
        Ok(AuditLogsQuery { filters, page, page_size })
    }

    /// Whose actions a user may list: viewers are refused, administrators see
    /// everyone's (`None`), others only their own.
    pub fn audit_actions_scope(current_user: &CurrentUserDto) -> (r: Result<Option<String>, AppErrorDto>)
        ensures
            current_user.role@ == role_viewer() ==> (r matches Err(e) && e@ == err_view(access_denied_code(), viewer_log_message())),
            current_user.role@ == role_administrator() ==> r matches Ok(None),
            current_user.role@ != role_viewer() && current_user.role@ != role_administrator() ==> r == Ok::<
                Option<String>,
                AppErrorDto,
            >(Some(current_user.user_id)),
    {
        proof {
            lemma_roles_distinct();
        }
        if str_eq(current_user.role.as_str(), "viewer") {
            return Err(AppErrorDto::access_denied("Недостаточно прав для просмотра журнала действий."));
        }
        if str_eq(current_user.role.as_str(), "administrator") {
            Ok(None)
        } else {
            Ok(Some(current_user.user_id.clone()))
        }
    }

    /// Only administrators may list the users that appear in the log.
    pub fn require_audit_users_access(current_user: &CurrentUserDto) -> (r: Result<(), AppErrorDto>)
        ensures
            r is Ok <==> current_user.role@ == role_administrator(),
            r matches Err(e) ==> e@ == err_view(access_denied_code(), "Фильтр по пользователям доступен только администратору."@),
    {
        if str_eq(current_user.role.as_str(), "administrator") {
            Ok(())
        } else {
            Err(AppErrorDto::access_denied("Фильтр по пользователям доступен только администратору."))
        }
    }

    /// The id of the entry a user asked to read: viewers are refused and the id must not be blank.
    pub fn audit_log_entry_id(current_user: &CurrentUserDto, audit_log_id: &str) -> (r: Result<String, AppErrorDto>)
        ensures
            string_result_view(r) == if current_user.role@ == role_viewer() {
                Err(err_view(access_denied_code(), viewer_log_message()))
            } else if trim(audit_log_id@).len() == 0 {
                Err(err_view(validation_code(), "Не указан идентификатор записи журнала."@))
            } else {
                Ok(trim(audit_log_id@))
            },
    {
        if str_eq(current_user.role.as_str(), "viewer") {
            return Err(AppErrorDto::access_denied("Недостаточно прав для просмотра журнала действий."));
        }
        let id = trimmed(audit_log_id);
        if char_count(id.as_str()) == 0 {
            return Err(AppErrorDto::validation("Не указан идентификатор записи журнала."));
        }
        Ok(id)
    }

    /// Administrators read any entry; others only entries of their own.
    pub fn check_audit_entry_visible(current_user: &CurrentUserDto, entry_user_id: &Option<String>) -> (r: Result<(), AppErrorDto>)
        ensures
            r is Ok <==> (current_user.role@ == role_administrator() || (entry_user_id matches Some(u) && u@
                == current_user.user_id@)),
            r matches Err(e) ==> e@ == err_view(access_denied_code(), "Недостаточно прав для просмотра этой записи журнала."@),
    {
        if str_eq(current_user.role.as_str(), "administrator") {
            return Ok(());
        }
        match entry_user_id {
            Some(u) => {
                if str_eq(u.as_str(), current_user.user_id.as_str()) {
                    return Ok(());
                }
            },
            None => {},
        }
        Err(AppErrorDto::access_denied("Недостаточно прав для просмотра этой записи журнала."))
    }

    /// Only administrators export; the export takes every matching entry.
    pub fn export_filters(current_user: &CurrentUserDto, payload: ExportAuditLogPayload) -> (r: Result<AuditLogFilters, AppErrorDto>)
        ensures
            current_user.role@ != role_administrator() ==> (r matches Err(e) && e@ == err_view(
                access_denied_code(),
                "Экспорт журнала действий доступен только администратору."@,
            )),
            current_user.role@ == role_administrator() ==> (r matches Ok(f) && f.limit == i64::MAX && f.offset == 0
                && opt_string_view(f.user_id) == optional_id_spec(opt_string_view(payload.user_id)) && common_filters_ok(
                f,
                payload.action,
                payload.result,
                payload.severity,
                payload.case_id,
                payload.entity_type,
                payload.date_from,
                payload.date_to,
            )),
    {
        if !str_eq(current_user.role.as_str(), "administrator") {
            return Err(AppErrorDto::access_denied("Экспорт журнала действий доступен только администратору."));
        }
        Ok(AuditLogFilters {
            action: normalize_optional_filter(payload.action),
            result: normalize_optional_filter(payload.result),
            severity: normalize_optional_filter(payload.severity),
            case_id: normalize_optional_filter(payload.case_id),
            entity_type: normalize_optional_filter(payload.entity_type),
            date_from: normalize_optional_filter(payload.date_from),
            date_to: normalize_optional_filter(payload.date_to),
            user_id: normalize_optional_filter(payload.user_id),
            limit: i64::MAX,
            offset: 0,
        })
    }

    /// An export with nothing to export is refused.
    pub fn require_export_items(count: usize) -> (r: Result<(), AppErrorDto>)
        ensures
            r is Ok <==> count > 0,
            r matches Err(e) ==> e@ == err_view(validation_code(), "Не найдено записей для экспорта с указанными фильтрами."@),
    {
        if count == 0 {
            return Err(AppErrorDto::validation("Не найдено записей для экспорта с указанными фильтрами."));
        }
        Ok(())
    }
}

/// Double quotes doubled, as CSV requires inside a quoted cell.
pub open spec fn csv_escape(s: Seq<char>) -> Seq<char>
    decreases s.len(),
{
    if s.len() == 0 {
        s
    } else if s.last() == '"' {
        csv_escape(s.drop_last()) + seq!['"', '"']
    } else {
        csv_escape(s.drop_last()).push(s.last())
    }
}

/// A quoted CSV cell.
pub open spec fn csv_cell_spec(s: Seq<char>) -> Seq<char> {
    seq!['"'] + csv_escape(s) + seq!['"']
}

fn append_escaped(out: &mut String, value: &str)
    ensures
        final(out)@ == old(out)@ + csv_escape(value@),
{
    let cs = chars_of(value);
    let ghost start = out@;
    let mut i: usize = 0;
    while i < cs.len()
        invariant
            cs@ == value@,
            i <= cs.len(),
            out@ == start + csv_escape(value@.subrange(0, i as int)),
        decreases cs.len() - i,
    {
        let c = cs[i];
        proof {
            assert(value@.subrange(0, i + 1).drop_last() =~= value@.subrange(0, i as int));
        }
        if c == '"' {
            push_char(out, '"');
            push_char(out, '"');
        } else {
            push_char(out, c);
        }
        i = i + 1;
        assert(out@ =~= start + csv_escape(value@.subrange(0, i as int)));
    }
    assert(value@.subrange(0, value@.len() as int) =~= value@);
}

/// A quoted CSV cell with inner quotes doubled.
pub fn csv_cell(value: &str) -> (r: String)
    ensures
        r@ == csv_cell_spec(value@),
{
    let mut out = String::new();
    push_char(&mut out, '"');
    append_escaped(&mut out, value);
    push_char(&mut out, '"');
    assert(out@ =~= csv_cell_spec(value@));
    out
}

pub open spec fn opt_or_empty(o: Option<String>) -> Seq<char> {
    match o {
        Some(s) => s@,
        None => Seq::<char>::empty(),
    }
}

/// A quoted CSV cell; an absent value is an empty cell.
pub fn csv_optional_cell(value: Option<&str>) -> (r: String)
    ensures
        r@ == csv_cell_spec(match value {
            Some(s) => s@,
            None => Seq::<char>::empty(),
        }),
{
    match value {
        Some(v) => csv_cell(v),
        None => {
            let e = "";
            proof {
                reveal_strlit("");
            }
            csv_cell(e)
        },
    }
}

pub open spec fn csv_header() -> Seq<char> {
    "id,created_at,user_id,username,user_role,action,entity_type,entity_id,case_id,result,severity,old_value,new_value,technical_details,app_version\n"@
}

/// The cells of one entry, in header order.
pub open spec fn csv_cells(item: AuditLogDto) -> Seq<Seq<char>> {
    seq![
        csv_cell_spec(item.id@),
        csv_cell_spec(item.created_at@),
        csv_cell_spec(opt_or_empty(item.user_id)),
        csv_cell_spec(item.username@),
        csv_cell_spec(item.user_role@),
        csv_cell_spec(item.action@),
        csv_cell_spec(item.entity_type@),
        csv_cell_spec(opt_or_empty(item.entity_id)),
        csv_cell_spec(opt_or_empty(item.case_id)),
        csv_cell_spec(item.result@),
        csv_cell_spec(item.severity@),
        csv_cell_spec(opt_or_empty(item.old_value)),
        csv_cell_spec(opt_or_empty(item.new_value)),
        csv_cell_spec(opt_or_empty(item.technical_details)),
        csv_cell_spec(item.app_version@),
    ]
}

/// Cells separated by commas.
pub open spec fn join_commas(cells: Seq<Seq<char>>) -> Seq<char>
    decreases cells.len(),
{
    if cells.len() == 0 {
        Seq::<char>::empty()
    } else if cells.len() == 1 {
        cells[0]
    } else {
        join_commas(cells.drop_last()) + seq![','] + cells.last()
    }
}

/// One line of the export.
pub open spec fn csv_line(item: AuditLogDto) -> Seq<char> {
    join_commas(csv_cells(item)).push('\n')
}

/// The lines of the given entries, in order.
pub open spec fn csv_lines(items: Seq<AuditLogDto>) -> Seq<char>
    decreases items.len(),
{
    if items.len() == 0 {
        Seq::<char>::empty()
    } else {
        csv_lines(items.drop_last()) + csv_line(items.last())
    }
}

fn opt_as_str(o: &Option<String>) -> (r: Option<&str>)
    ensures
        match r {
            Some(s) => s@ == opt_or_empty(*o) && o.is_some(),
            None => o.is_none(),
        },
{
    match o {
        Some(s) => Some(s.as_str()),
        None => None,
    }
}

fn csv_line_of(item: &AuditLogDto) -> (r: String)
    ensures
        r@ == csv_line(*item),
{
    let cells = vec![
        csv_cell(item.id.as_str()),
        csv_cell(item.created_at.as_str()),
        csv_optional_cell(opt_as_str(&item.user_id)),
        csv_cell(item.username.as_str()),
        csv_cell(item.user_role.as_str()),
        csv_cell(item.action.as_str()),
        csv_cell(item.entity_type.as_str()),
        csv_optional_cell(opt_as_str(&item.entity_id)),
        csv_optional_cell(opt_as_str(&item.case_id)),
        csv_cell(item.result.as_str()),
        csv_cell(item.severity.as_str()),
        csv_optional_cell(opt_as_str(&item.old_value)),
        csv_optional_cell(opt_as_str(&item.new_value)),
        csv_optional_cell(opt_as_str(&item.technical_details)),
        csv_cell(item.app_version.as_str()),
    ];
    let ghost want = csv_cells(*item);
    assert(cells@.map_values(|c: String| c@) =~= want);
    let mut out = String::new();
    let mut i: usize = 0;
    while i < cells.len()
        invariant
            i <= cells.len(),
            cells@.len() == want.len(),
            forall|k: int| 0 <= k < cells@.len() ==> #[trigger] cells@[k]@ == want[k],
            out@ == join_commas(want.subrange(0, i as int)),
        decreases cells.len() - i,
    {
        proof {
            assert(want.subrange(0, i + 1).drop_last() =~= want.subrange(0, i as int));
        }
        if i > 0 {
            push_char(&mut out, ',');
        }
        out.append(cells[i].as_str());
        i = i + 1;
        proof {
            if i == 1 {
                assert(out@ =~= join_commas(want.subrange(0, i as int)));
            } else {
                assert(out@ =~= join_commas(want.subrange(0, i as int)));
            }
        }
    }
    push_char(&mut out, '\n');
    assert(want.subrange(0, want.len() as int) =~= want);
    out
}

/// The CSV export: a header line, then one line per entry.
pub fn build_audit_log_csv(items: &[AuditLogDto]) -> (r: String)
    ensures
        r@ == csv_header() + csv_lines(items@),
{
    let mut output = String::new();
    output.append("id,created_at,user_id,username,user_role,action,entity_type,entity_id,case_id,result,severity,old_value,new_value,technical_details,app_version\n");
    let ghost head = output@;
    let mut i: usize = 0;
    while i < items.len()
        invariant
            i <= items@.len(),
            head == csv_header(),
            output@ == head + csv_lines(items@.subrange(0, i as int)),
        decreases items.len() - i,
    {
        let line = csv_line_of(&items[i]);
        output.append(line.as_str());
        proof {
            assert(items@.subrange(0, i + 1).drop_last() =~= items@.subrange(0, i as int));
        }
        i = i + 1;
        assert(output@ =~= head + csv_lines(items@.subrange(0, i as int)));
    }
    assert(items@.subrange(0, items@.len() as int) =~= items@);
    output
}

/// `audit-log-{timestamp}.csv`.
pub fn audit_export_file_name(timestamp: u64) -> (r: String)
    ensures
        r@ == "audit-log-"@ + decimal(timestamp as nat) + ".csv"@,
{
    let mut out = "audit-log-".to_owned();
    crate::repositories::sequential_code::push_decimal(&mut out, timestamp);
    out.append(".csv");
    out
}

/// The names of the export's columns, as the header lists them.
pub open spec fn csv_column_names() -> Seq<Seq<char>> {
    seq!["id"@, "created_at"@, "user_id"@, "username"@, "user_role"@, "action"@, "entity_type"@, "entity_id"@, "case_id"@, "result"@, "severity"@, "old_value"@, "new_value"@, "technical_details"@, "app_version"@]
}

/// The value of an entry under the column of the given name (an absent
/// optional value is empty).
pub open spec fn audit_field(item: AuditLogDto, column: Seq<char>) -> Seq<char> {
    if column == "id"@ {
        item.id@
    } else if column == "created_at"@ {
        item.created_at@
    } else if column == "user_id"@ {
        opt_or_empty(item.user_id)
    } else if column == "username"@ {
        item.username@
    } else if column == "user_role"@ {
        item.user_role@
    } else if column == "action"@ {
        item.action@
    } else if column == "entity_type"@ {
        item.entity_type@
    } else if column == "entity_id"@ {
        opt_or_empty(item.entity_id)
    } else if column == "case_id"@ {
        opt_or_empty(item.case_id)
    } else if column == "result"@ {
        item.result@
    } else if column == "severity"@ {
        item.severity@
    } else if column == "old_value"@ {
        opt_or_empty(item.old_value)
    } else if column == "new_value"@ {
        opt_or_empty(item.new_value)
    } else if column == "technical_details"@ {
        opt_or_empty(item.technical_details)
    } else if column == "app_version"@ {
        item.app_version@
    } else {
        Seq::<char>::empty()
    }
}

/// Each line of the export follows its header: the header lists the column
/// names, and the cell at each position holds, quoted, the entry's value
/// for the column named at that position (the cell under `username` is the
/// username, the one under `user_role` the role, and so on).
pub proof fn lemma_csv_cells_follow_header(item: AuditLogDto)
    ensures
        csv_header() == join_commas(csv_column_names()).push('\n'),
        csv_cells(item).len() == csv_column_names().len(),
        forall|k: int| 0 <= k < csv_column_names().len() ==> #[trigger] csv_cells(item)[k] == csv_cell_spec(
            audit_field(item, csv_column_names()[k]),
        ),
{
    reveal_strlit("id");
    reveal_strlit("created_at");
    reveal_strlit("user_id");
    reveal_strlit("username");
    reveal_strlit("user_role");
    reveal_strlit("action");
    reveal_strlit("entity_type");
    reveal_strlit("entity_id");
    reveal_strlit("case_id");
    reveal_strlit("result");
    reveal_strlit("severity");
    reveal_strlit("old_value");
    reveal_strlit("new_value");
    reveal_strlit("technical_details");
    reveal_strlit("app_version");
    reveal_strlit("id,created_at,user_id,username,user_role,action,entity_type,entity_id,case_id,result,severity,old_value,new_value,technical_details,app_version\n");
    assert("result"@[0] != "action"@[0]);
    assert("case_id"@[0] != "user_id"@[0]);
    assert("severity"@[0] != "username"@[0]);
    assert("entity_id"@[0] != "user_role"@[0]);
    assert("old_value"@[0] != "user_role"@[0] && "old_value"@[0] != "entity_id"@[0]);
    assert("new_value"@[0] != "user_role"@[0] && "new_value"@[0] != "entity_id"@[0] && "new_value"@[0] != "old_value"@[0]);
    assert("app_version"@[0] != "entity_type"@[0]);
    reveal_with_fuel(join_commas, 16);
    assert(csv_header() =~= join_commas(csv_column_names()).push('\n'));
}

/// A value with no double quote is written into its cell unchanged, between
/// a pair of quotes.
pub proof fn lemma_csv_cell_without_quotes(s: Seq<char>)
    requires
        forall|i: int| 0 <= i < s.len() ==> s[i] != '"',
    ensures
        csv_escape(s) == s,
        csv_cell_spec(s) == seq!['"'] + s + seq!['"'],
    decreases s.len(),
{
    if s.len() > 0 {
        lemma_csv_cell_without_quotes(s.drop_last());
        assert(s.drop_last().push(s.last()) =~= s);
    }
}

/// Every double quote of a value is doubled in its cell, so the cell is one
/// character longer per quote.
pub proof fn lemma_csv_escape_doubles_quotes(s: Seq<char>)
    ensures
        csv_escape(s).len() == s.len() + s.filter(|c: char| c == '"').len(),
    decreases s.len(),
{
    reveal(Seq::filter);
    if s.len() > 0 {
        lemma_csv_escape_doubles_quotes(s.drop_last());
    }
}

} // verus!
