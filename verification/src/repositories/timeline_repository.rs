//! Rows written to and read from the timeline tables.

use vstd::prelude::*;
use vstd::string::*;

use crate::error::opt_string_view;

verus! {

/// A new timeline event.
#[derive(Debug, Clone)]
pub struct CreateEventRecord {
    pub id: String,
    pub case_id: String,
    pub event_code: String,
    pub event_type: String,
    pub title: String,
    pub description: String,
    pub event_date: String,
    pub event_time: Option<String>,
    pub date_precision: String,
    pub period_start: Option<String>,
    pub period_end: Option<String>,
    pub source_note: String,
    pub analyst_comment: String,
    pub include_in_report: bool,
    pub created_by_user_id: String,
}

/// New values of an existing timeline event.
#[derive(Debug, Clone)]
pub struct UpdateEventRecord {
    pub id: String,
    pub case_id: String,
    pub event_type: String,
    pub title: String,
    pub description: String,
    pub event_date: String,
    pub event_time: Option<String>,
    pub date_precision: String,
    pub period_start: Option<String>,
    pub period_end: Option<String>,
    pub source_note: String,
    pub analyst_comment: String,
    pub include_in_report: bool,
}

/// The filters of a timeline listing; `None` leaves a filter off.
#[derive(Debug, Clone)]
pub struct TimelineFiltersRecord {
    pub query: Option<String>,
    pub event_type: Option<String>,
    pub object_id: Option<String>,
    pub material_id: Option<String>,
    pub date_from: Option<String>,
    pub date_to: Option<String>,
    pub include_in_report: Option<bool>,
}

impl TimelineFiltersRecord {
    /// No filter at all: the whole timeline of a case.
    pub fn unfiltered() -> (f: Self)
        ensures
            f.query is None,
            f.event_type is None,
            f.object_id is None,
            f.material_id is None,
            f.date_from is None,
            f.date_to is None,
            f.include_in_report is None,
    {
        TimelineFiltersRecord {
            query: None,
            event_type: None,
            object_id: None,
            material_id: None,
            date_from: None,
            date_to: None,
            include_in_report: None,
        }
    }
}

/// The statement that lists the events of a case, then one optional clause
/// per filter, then the ordering.
pub const TIMELINE_SELECT_SQL: &'static str = "\n            SELECT\n                e.id,\n                e.case_id,\n                e.event_code,\n                e.event_type,\n                e.title,\n                e.description,\n                e.event_date,\n                e.event_time,\n                e.date_precision,\n                e.period_start,\n                e.period_end,\n                e.source_note,\n                e.analyst_comment,\n                e.include_in_report,\n                (\n                    SELECT COUNT(*)\n                    FROM event_objects eo\n                    WHERE eo.event_id = e.id\n                ) AS linked_object_count,\n                (\n                    SELECT COUNT(*)\n                    FROM event_materials em\n                    WHERE em.event_id = e.id\n                ) AS linked_material_count,\n                e.created_by_user_id,\n                e.created_at,\n                e.updated_at\n            FROM events e\n            WHERE e.case_id = ?\n              AND e.archived_at IS NULL\n            ";

pub const TIMELINE_QUERY_FILTER_SQL: &'static str = "\n                AND (\n                    e.event_code LIKE ?\n                    OR e.title LIKE ?\n                    OR e.description LIKE ?\n                    OR e.source_note LIKE ?\n                    OR e.analyst_comment LIKE ?\n                )\n                ";

pub const TIMELINE_EVENT_TYPE_FILTER_SQL: &'static str = " AND e.event_type = ? ";

pub const TIMELINE_OBJECT_FILTER_SQL: &'static str = "\n                AND EXISTS (\n                    SELECT 1\n                    FROM event_objects eo\n                    WHERE eo.event_id = e.id\n                      AND eo.object_id = ?\n                )\n                ";

pub const TIMELINE_MATERIAL_FILTER_SQL: &'static str = "\n                AND EXISTS (\n                    SELECT 1\n                    FROM event_materials em\n                    WHERE em.event_id = e.id\n                      AND em.material_id = ?\n                )\n                ";

pub const TIMELINE_DATE_FROM_FILTER_SQL: &'static str = " AND e.event_date >= ? ";

pub const TIMELINE_DATE_TO_FILTER_SQL: &'static str = " AND e.event_date <= ? ";

pub const TIMELINE_REPORT_FILTER_SQL: &'static str = " AND e.include_in_report = ? ";

pub const TIMELINE_ORDER_SQL: &'static str = "\n            ORDER BY\n                e.event_date ASC,\n                e.event_time ASC,\n                e.created_at ASC\n            ";

/// A parameter bound to a `?` of a statement.
#[derive(Debug, Clone, PartialEq, Eq)]
pub enum SqlParam {
    Text(String),
    Integer(i64),
}

pub enum SqlParamView {
    Text(Seq<char>),
    Integer(i64),
}

impl View for SqlParam {
    type V = SqlParamView;

    open spec fn view(&self) -> SqlParamView {
        match self {
            SqlParam::Text(s) => SqlParamView::Text(s@),
            SqlParam::Integer(n) => SqlParamView::Integer(*n),
        }
    }
}

/// A statement with its parameters, in placeholder order.
pub struct SqlQuery {
    pub sql: String,
    pub params: Vec<SqlParam>,
}

pub open spec fn param_views(v: Seq<SqlParam>) -> Seq<SqlParamView> {
    v.map_values(|p: SqlParam| p@)
}

pub open spec fn clause_if(present: bool, clause: Seq<char>) -> Seq<char> {
    if present {
        clause
    } else {
        Seq::empty()
    }
}

/// The text of the timeline statement for the given filters.
pub open spec fn timeline_sql_spec(f: TimelineFiltersRecord) -> Seq<char> {
    TIMELINE_SELECT_SQL@ + clause_if(f.query is Some, TIMELINE_QUERY_FILTER_SQL@) + clause_if(
        f.event_type is Some,
        TIMELINE_EVENT_TYPE_FILTER_SQL@,
    ) + clause_if(f.object_id is Some, TIMELINE_OBJECT_FILTER_SQL@) + clause_if(f.material_id is Some, TIMELINE_MATERIAL_FILTER_SQL@)
        + clause_if(f.date_from is Some, TIMELINE_DATE_FROM_FILTER_SQL@) + clause_if(f.date_to is Some, TIMELINE_DATE_TO_FILTER_SQL@)
        + clause_if(f.include_in_report is Some, TIMELINE_REPORT_FILTER_SQL@) + TIMELINE_ORDER_SQL@
}

pub open spec fn text_param_if(value: Option<Seq<char>>) -> Seq<SqlParamView> {
    match value {
        Some(v) => seq![SqlParamView::Text(v)],
        None => Seq::empty(),
    }
}

/// The search text as a `LIKE` pattern: `%text%`.
pub open spec fn like_pattern(q: Seq<char>) -> Seq<char> {
    seq!['%'] + q + seq!['%']
}

/// The parameters of the timeline statement: the case, then the search
/// pattern five times (code, title, description, source, comment), then one
/// per other filter; the report flag is bound as 1 or 0.
pub open spec fn timeline_params_spec(case_id: Seq<char>, f: TimelineFiltersRecord) -> Seq<SqlParamView> {
    seq![SqlParamView::Text(case_id)] + match opt_string_view(f.query) {
        Some(q) => Seq::new(5, |i: int| SqlParamView::Text(like_pattern(q))),
        None => Seq::empty(),
    } + text_param_if(opt_string_view(f.event_type)) + text_param_if(opt_string_view(f.object_id)) + text_param_if(
        opt_string_view(f.material_id),
    ) + text_param_if(opt_string_view(f.date_from)) + text_param_if(opt_string_view(f.date_to)) + match f.include_in_report {
        Some(b) => seq![SqlParamView::Integer(if b { 1 } else { 0 })],
        None => Seq::empty(),
    }
}

fn push_text_filter(sql: &mut String, params: &mut Vec<SqlParam>, clause: &str, value: &Option<String>)
    ensures
        final(sql)@ == old(sql)@ + clause_if(value is Some, clause@),
        param_views(final(params)@) == param_views(old(params)@) + text_param_if(opt_string_view(*value)),
{
    match value {
        Some(v) => {
            sql.append(clause);
            params.push(SqlParam::Text(v.clone()));
            proof {
                assert(param_views(params@) =~= param_views(old(params)@) + text_param_if(opt_string_view(*value)));
            }
        },
        None => {
            proof {
                assert(sql@ =~= old(sql)@ + clause_if(value is Some, clause@));
                assert(param_views(params@) =~= param_views(old(params)@) + text_param_if(opt_string_view(*value)));
            }
        },
    }
}

impl TimelineRepository {
    /// The statement and parameters that list a case's timeline with the
    /// given filters.
    pub fn timeline_query(case_id: &str, filters: &TimelineFiltersRecord) -> (q: SqlQuery)
        ensures
            q.sql@ == timeline_sql_spec(*filters),
            param_views(q.params@) == timeline_params_spec(case_id@, *filters),
    {
        let mut sql = TIMELINE_SELECT_SQL.to_owned();
        let mut params: Vec<SqlParam> = vec![SqlParam::Text(case_id.to_owned())];
        let ghost p0 = param_views(params@);
        assert(p0 =~= seq![SqlParamView::Text(case_id@)]);
        match &filters.query {
            Some(query) => {
                sql.append(TIMELINE_QUERY_FILTER_SQL);
                let mut like = "%".to_owned();
                like.append(query.as_str());
                like.append("%");
                proof {
                    reveal_strlit("%");
                    assert(like@ =~= like_pattern(query@));
                }
                let mut k: usize = 0;
                while k < 5
                    invariant
                        k <= 5,
                        like@ == like_pattern(query@),
                        param_views(params@) == p0 + Seq::new(k as nat, |i: int| SqlParamView::Text(like_pattern(query@))),
                    decreases 5 - k,
                {
                    let ghost before = param_views(params@);
                    let item = SqlParam::Text(like.clone());
                    assert(item@ == SqlParamView::Text(like_pattern(query@)));
                    params.push(item);
                    proof {
                        assert(param_views(params@) =~= before.push(SqlParamView::Text(like_pattern(query@))));
                        assert(param_views(params@) =~= p0 + Seq::new((k + 1) as nat, |i: int| SqlParamView::Text(like_pattern(query@))));
                    }
                    k = k + 1;
                }
            },
            None => {
                proof {
                    assert(param_views(params@) =~= p0 + Seq::<SqlParamView>::empty());
                }
            },
        }
        let ghost s1 = sql@;
        let ghost q1 = param_views(params@);
        assert(s1 =~= TIMELINE_SELECT_SQL@ + clause_if(filters.query is Some, TIMELINE_QUERY_FILTER_SQL@));
        push_text_filter(&mut sql, &mut params, TIMELINE_EVENT_TYPE_FILTER_SQL, &filters.event_type);
        push_text_filter(&mut sql, &mut params, TIMELINE_OBJECT_FILTER_SQL, &filters.object_id);
        push_text_filter(&mut sql, &mut params, TIMELINE_MATERIAL_FILTER_SQL, &filters.material_id);
        push_text_filter(&mut sql, &mut params, TIMELINE_DATE_FROM_FILTER_SQL, &filters.date_from);
        push_text_filter(&mut sql, &mut params, TIMELINE_DATE_TO_FILTER_SQL, &filters.date_to);
        let ghost before_flag = param_views(params@);
        match filters.include_in_report {
            Some(b) => {
                sql.append(TIMELINE_REPORT_FILTER_SQL);
                let value: i64 = if b { 1 } else { 0 };
                params.push(SqlParam::Integer(value));
                proof {
                    assert(param_views(params@) =~= before_flag + seq![SqlParamView::Integer(value)]);
                }
            },
            None => {},
        }
        sql.append(TIMELINE_ORDER_SQL);
        proof {
            assert(sql@ =~= timeline_sql_spec(*filters));
            assert(param_views(params@) =~= timeline_params_spec(case_id@, *filters));
        }
        SqlQuery { sql, params }
    }
}

/// Reads and writes timeline events and their links.
pub struct TimelineRepository;

/// The date range of the timeline: a lower bound `date_from` is bound to an
/// `event_date >= ?` clause and an upper bound `date_to` to an
/// `event_date <= ?` clause, each clause present exactly when its bound is
/// given, and each placeholder takes that bound's value, in the order the
/// clauses appear after the case.
pub proof fn lemma_timeline_date_range(case_id: Seq<char>, f: TimelineFiltersRecord)
    requires
        f.query is None,
        f.event_type is None,
        f.object_id is None,
        f.material_id is None,
        f.include_in_report is None,
    ensures
        timeline_sql_spec(f) == TIMELINE_SELECT_SQL@ + (match f.date_from {
            Some(_) => " AND e.event_date >= ? "@,
            None => Seq::<char>::empty(),
        }) + (match f.date_to {
            Some(_) => " AND e.event_date <= ? "@,
            None => Seq::<char>::empty(),
        }) + TIMELINE_ORDER_SQL@,
        timeline_params_spec(case_id, f) == seq![SqlParamView::Text(case_id)] + (match f.date_from {
            Some(v) => seq![SqlParamView::Text(v@)],
            None => Seq::<SqlParamView>::empty(),
        }) + (match f.date_to {
            Some(v) => seq![SqlParamView::Text(v@)],
            None => Seq::<SqlParamView>::empty(),
        }),
{
    let e = Seq::<char>::empty();
    assert(TIMELINE_SELECT_SQL@ + e =~= TIMELINE_SELECT_SQL@);
    assert(timeline_sql_spec(f) =~= TIMELINE_SELECT_SQL@ + (match f.date_from {
        Some(_) => " AND e.event_date >= ? "@,
        None => Seq::<char>::empty(),
    }) + (match f.date_to {
        Some(_) => " AND e.event_date <= ? "@,
        None => Seq::<char>::empty(),
    }) + TIMELINE_ORDER_SQL@);
    assert(timeline_params_spec(case_id, f) =~= seq![SqlParamView::Text(case_id)] + (match f.date_from {
        Some(v) => seq![SqlParamView::Text(v@)],
        None => Seq::<SqlParamView>::empty(),
    }) + (match f.date_to {
        Some(v) => seq![SqlParamView::Text(v@)],
        None => Seq::<SqlParamView>::empty(),
    }));
}

/// Every filter of the timeline: a search text adds a clause matching code,
/// title, description, source and comment, bound five times to `%text%`; an
/// event type, an object, a material, a lower and an upper date each add
/// their own clause bound to their value; the report flag adds its clause
/// bound to 1 or 0. Each clause is present exactly when its filter is given,
/// the clauses and their values come in the same order, after the case.
pub proof fn lemma_timeline_filters(case_id: Seq<char>, f: TimelineFiltersRecord)
    ensures
        timeline_sql_spec(f) == TIMELINE_SELECT_SQL@ + (match f.query {
            Some(_) => TIMELINE_QUERY_FILTER_SQL@,
            None => Seq::<char>::empty(),
        }) + (match f.event_type {
            Some(_) => " AND e.event_type = ? "@,
            None => Seq::<char>::empty(),
        }) + (match f.object_id {
            Some(_) => TIMELINE_OBJECT_FILTER_SQL@,
            None => Seq::<char>::empty(),
        }) + (match f.material_id {
            Some(_) => TIMELINE_MATERIAL_FILTER_SQL@,
            None => Seq::<char>::empty(),
        }) + (match f.date_from {
            Some(_) => " AND e.event_date >= ? "@,
            None => Seq::<char>::empty(),
        }) + (match f.date_to {
            Some(_) => " AND e.event_date <= ? "@,
            None => Seq::<char>::empty(),
        }) + (match f.include_in_report {
            Some(_) => " AND e.include_in_report = ? "@,
            None => Seq::<char>::empty(),
        }) + TIMELINE_ORDER_SQL@,
        timeline_params_spec(case_id, f) == seq![SqlParamView::Text(case_id)] + (match f.query {
            Some(q) => seq![
                SqlParamView::Text(seq!['%'] + q@ + seq!['%']),
                SqlParamView::Text(seq!['%'] + q@ + seq!['%']),
                SqlParamView::Text(seq!['%'] + q@ + seq!['%']),
                SqlParamView::Text(seq!['%'] + q@ + seq!['%']),
                SqlParamView::Text(seq!['%'] + q@ + seq!['%']),
            ],
            None => Seq::<SqlParamView>::empty(),
        }) + (match f.event_type {
            Some(v) => seq![SqlParamView::Text(v@)],
            None => Seq::<SqlParamView>::empty(),
        }) + (match f.object_id {
            Some(v) => seq![SqlParamView::Text(v@)],
            None => Seq::<SqlParamView>::empty(),
        }) + (match f.material_id {
            Some(v) => seq![SqlParamView::Text(v@)],
            None => Seq::<SqlParamView>::empty(),
        }) + (match f.date_from {
            Some(v) => seq![SqlParamView::Text(v@)],
            None => Seq::<SqlParamView>::empty(),
        }) + (match f.date_to {
            Some(v) => seq![SqlParamView::Text(v@)],
            None => Seq::<SqlParamView>::empty(),
        }) + (match f.include_in_report {
            Some(true) => seq![SqlParamView::Integer(1)],
            Some(false) => seq![SqlParamView::Integer(0)],
            None => Seq::<SqlParamView>::empty(),
        }),
{
    match f.query {
        Some(q) => {
            assert(Seq::new(5, |i: int| SqlParamView::Text(like_pattern(q@))) =~= seq![
                SqlParamView::Text(seq!['%'] + q@ + seq!['%']),
                SqlParamView::Text(seq!['%'] + q@ + seq!['%']),
                SqlParamView::Text(seq!['%'] + q@ + seq!['%']),
                SqlParamView::Text(seq!['%'] + q@ + seq!['%']),
                SqlParamView::Text(seq!['%'] + q@ + seq!['%']),
            ]);
        },
        None => {},
    }
    assert(timeline_params_spec(case_id, f) =~= seq![SqlParamView::Text(case_id)] + (match f.query {
        Some(q) => seq![
            SqlParamView::Text(seq!['%'] + q@ + seq!['%']),
            SqlParamView::Text(seq!['%'] + q@ + seq!['%']),
            SqlParamView::Text(seq!['%'] + q@ + seq!['%']),
            SqlParamView::Text(seq!['%'] + q@ + seq!['%']),
            SqlParamView::Text(seq!['%'] + q@ + seq!['%']),
        ],
        None => Seq::<SqlParamView>::empty(),
    }) + (match f.event_type {
        Some(v) => seq![SqlParamView::Text(v@)],
        None => Seq::<SqlParamView>::empty(),
    }) + (match f.object_id {
        Some(v) => seq![SqlParamView::Text(v@)],
        None => Seq::<SqlParamView>::empty(),
    }) + (match f.material_id {
        Some(v) => seq![SqlParamView::Text(v@)],
        None => Seq::<SqlParamView>::empty(),
    }) + (match f.date_from {
        Some(v) => seq![SqlParamView::Text(v@)],
        None => Seq::<SqlParamView>::empty(),
    }) + (match f.date_to {
        Some(v) => seq![SqlParamView::Text(v@)],
        None => Seq::<SqlParamView>::empty(),
    }) + (match f.include_in_report {
        Some(true) => seq![SqlParamView::Integer(1)],
        Some(false) => seq![SqlParamView::Integer(0)],
        None => Seq::<SqlParamView>::empty(),
    }));
}

} // verus!
