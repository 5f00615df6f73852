//! The repository: translates entity operations into parameterized SQL
//! against the store handle. It is the only component that knows the on-disk
//! column layout.
//!
//! A query is a clause string with `?` placeholders plus a list of bound
//! values — values are never spliced into the SQL text, preserving injection
//! safety and type fidelity. The clause builders carry exact contracts: the
//! text and the bound values are pinned, character for character, by the
//! filter they were built from.

use vstd::prelude::*;

use crate::calendar::civil_text_value;
use crate::calendar::encode_instant;
use crate::calendar::in_encodable_range;
use crate::dates::clamp_instant;
use crate::dates::clamped;
use crate::dates::current_instant;
use crate::error::Result;
use crate::error::TaskyError;
use crate::models::CreateTodo;
use crate::models::Instant;
use crate::models::Priority;
use crate::models::SortBy;
use crate::models::SortOrder;
use crate::models::Status;
use crate::models::Todo;
use crate::models::TodoFilter;
use crate::models::TodoStats;
use crate::models::UpdateTodo;
use crate::models::overdue_at;
use crate::models::priority_code_spec;
use crate::models::priority_of_code_spec;
use crate::models::status_code_spec;
use crate::models::status_of_code_spec;
use crate::store::RawRow;
use crate::store::SqlParam;
use crate::store::exec_sql;
use crate::store::last_insert_id;
use crate::store::query_opt_row;
use crate::store::query_rows;

verus! {

/// A todo whose timestamps all lie in the encodable range: what every todo
/// leaving the repository satisfies.
pub open spec fn wf_todo(t: Todo) -> bool {
    &&& in_encodable_range(t.created_at as int)
    &&& in_encodable_range(t.updated_at as int)
    &&& (t.due_date matches Some(d) ==> in_encodable_range(d as int))
}

// ---------------------------------------------------------------------------
// The dynamic filter clause
// ---------------------------------------------------------------------------

/// The condition strings a filter contributes, one per present predicate, in
/// the fixed order status, priority, created-before, created-after,
/// due-before, due-after.
pub open spec fn filter_condition_list(f: TodoFilter) -> Seq<Seq<char>> {
    let c0: Seq<Seq<char>> = if f.status is Some {
        seq!["status = ?"@]
    } else {
        seq![]
    };
    let c1: Seq<Seq<char>> = if f.priority is Some {
        seq!["priority = ?"@]
    } else {
        seq![]
    };
    let c2: Seq<Seq<char>> = if f.created_before is Some {
        seq!["created_at < ?"@]
    } else {
        seq![]
    };
    let c3: Seq<Seq<char>> = if f.created_after is Some {
        seq!["created_at > ?"@]
    } else {
        seq![]
    };
    let c4: Seq<Seq<char>> = if f.due_before is Some {
        seq!["due_date < ?"@]
    } else {
        seq![]
    };
    let c5: Seq<Seq<char>> = if f.due_after is Some {
        seq!["due_date > ?"@]
    } else {
        seq![]
    };
    c0 + c1 + c2 + c3 + c4 + c5
}

/// The given parts joined with `" AND "`.
pub open spec fn join_and(parts: Seq<Seq<char>>) -> Seq<char>
    decreases parts.len(),
{
    if parts.len() == 0 {
        Seq::empty()
    } else if parts.len() == 1 {
        parts[0]
    } else {
        parts[0] + " AND "@ + join_and(parts.drop_first())
    }
}

/// Appending a part extends the joined text by a connective and the part.
proof fn lemma_join_and_push(parts: Seq<Seq<char>>, x: Seq<char>)
    ensures
        join_and(parts.push(x)) == if parts.len() == 0 {
            x
        } else {
            join_and(parts) + " AND "@ + x
        },
    decreases parts.len(),
{
    if parts.len() == 0 {
        assert(parts.push(x) =~= seq![x]);
    } else {
        lemma_join_and_push(parts.drop_first(), x);
        assert(parts.push(x).drop_first() =~= parts.drop_first().push(x));
        assert(parts.push(x)[0] == parts[0]);
        if parts.len() == 1 {
            assert(parts.drop_first().len() == 0);
        } else {
            assert((parts[0] + " AND "@ + (join_and(parts.drop_first()) + " AND "@ + x)) =~= ((
            parts[0] + " AND "@ + join_and(parts.drop_first())) + " AND "@ + x));
        }
    }
}

/// The WHERE clause a filter builds: empty when no predicate is present,
/// else `"WHERE "` and the present conditions joined with AND.
pub open spec fn filter_clause_text(f: TodoFilter) -> Seq<char> {
    let parts = filter_condition_list(f);
    if parts.len() == 0 {
        Seq::empty()
    } else {
        "WHERE "@ + join_and(parts)
    }
}

/// Whether the bound values are exactly those the filter's present
/// predicates demand, in clause order: enumeration predicates bind their
/// persisted integer code, time predicates bind the stored text encoding of
/// their bound (clamped into the encodable range). The store compares these
/// bounds against the timestamp columns as text; by
/// `crate::calendar::lemma_stored_text_order` that comparison agrees with
/// the order of the instants themselves.
pub open spec fn params_match_filter(ps: Seq<SqlParam>, f: TodoFilter) -> bool {
    let n0: int = if f.status is Some {
        1
    } else {
        0
    };
    let n1: int = n0 + if f.priority is Some {
        1int
    } else {
        0
    };
    let n2: int = n1 + if f.created_before is Some {
        1int
    } else {
        0
    };
    let n3: int = n2 + if f.created_after is Some {
        1int
    } else {
        0
    };
    let n4: int = n3 + if f.due_before is Some {
        1int
    } else {
        0
    };
    let n5: int = n4 + if f.due_after is Some {
        1int
    } else {
        0
    };
    &&& ps.len() == n5
    &&& (f.status matches Some(st) ==> ps[0] matches SqlParam::Int(v) && v == status_code_spec(st))
    &&& (f.priority matches Some(p) ==> ps[n0] matches SqlParam::Int(v) && v == priority_code_spec(
        p,
    ))
    &&& (f.created_before matches Some(t) ==> ps[n1] matches SqlParam::Text(s) && civil_text_value(
        s@,
    ) == Some(clamped(t as int)))
    &&& (f.created_after matches Some(t) ==> ps[n2] matches SqlParam::Text(s) && civil_text_value(
        s@,
    ) == Some(clamped(t as int)))
    &&& (f.due_before matches Some(t) ==> ps[n3] matches SqlParam::Text(s) && civil_text_value(s@)
        == Some(clamped(t as int)))
    &&& (f.due_after matches Some(t) ==> ps[n4] matches SqlParam::Text(s) && civil_text_value(s@)
        == Some(clamped(t as int)))
}

/// A filter with zero predicates set builds the empty WHERE clause and binds
/// nothing: the query scans the full table, constrained by nothing.
pub proof fn lemma_unconstrained_filter_builds_empty_clause(f: TodoFilter)
    requires
        f.status is None,
        f.priority is None,
        f.created_before is None,
        f.created_after is None,
        f.due_before is None,
        f.due_after is None,
    ensures
        filter_clause_text(f) == Seq::<char>::empty(),
        forall|ps: Seq<SqlParam>| params_match_filter(ps, f) ==> ps.len() == 0,
{
    assert(filter_condition_list(f) =~= Seq::<Seq<char>>::empty());
}

/// A timestamp bound, encoded for storage.
fn instant_param(t: Instant) -> (r: SqlParam)
    ensures
        r matches SqlParam::Text(s) && civil_text_value(s@) == Some(clamped(t as int)),
{
    SqlParam::Text(encode_instant(clamp_instant(t)))
}

/// Build the WHERE clause of a filter: one condition and one bound value per
/// present predicate, conjoined with AND; an absent field contributes
/// nothing, and a filter with no predicates builds the empty clause.
#[verifier::rlimit(100)]
pub fn build_filter_clause(filter: &TodoFilter) -> (r: (String, Vec<SqlParam>))
    ensures
        r.0@ == filter_clause_text(*filter),
        params_match_filter(r.1@, *filter),
{
    let mut conds: Vec<&'static str> = Vec::new();
    let mut params: Vec<SqlParam> = Vec::new();
    if let Some(st) = filter.status {
        conds.push("status = ?");
        params.push(SqlParam::Int(st.code()));
    }
    if let Some(p) = filter.priority {
        conds.push("priority = ?");
        params.push(SqlParam::Int(p.code()));
    }
    if let Some(t) = filter.created_before {
        conds.push("created_at < ?");
        params.push(instant_param(t));
    }
    if let Some(t) = filter.created_after {
        conds.push("created_at > ?");
        params.push(instant_param(t));
    }
    if let Some(t) = filter.due_before {
        conds.push("due_date < ?");
        params.push(instant_param(t));
    }
    if let Some(t) = filter.due_after {
        conds.push("due_date > ?");
        params.push(instant_param(t));
    }
    proof {
        assert(conds.deep_view() =~= filter_condition_list(*filter));
    }
    let clause = join_conditions(&conds);
    proof {
        assert(clause@ == filter_clause_text(*filter));
    }
    (clause, params)
}

/// Join condition strings into a WHERE clause.
fn join_conditions(conds: &Vec<&'static str>) -> (r: String)
    ensures
        r@ == (if conds.deep_view().len() == 0 {
            Seq::<char>::empty()
        } else {
            "WHERE "@ + join_and(conds.deep_view())
        }),
{
    let mut clause = String::new();
    if conds.len() == 0 {
        return clause;
    }
    clause.append("WHERE ");
    let mut i: usize = 0;
    while i < conds.len()
        invariant
            i <= conds@.len(),
            conds@.len() > 0,
            i == 0 ==> clause@ == "WHERE "@,
            i > 0 ==> clause@ == "WHERE "@ + join_and(conds.deep_view().take(i as int)),
        decreases conds@.len() - i,
    {
        if i > 0 {
            clause.append(" AND ");
        }
        clause.append(conds[i]);
        proof {
            let dv = conds.deep_view();
            assert(dv.take(i + 1) =~= dv.take(i as int).push(dv[i as int]));
            lemma_join_and_push(dv.take(i as int), dv[i as int]);
            assert(dv[i as int] == conds@[i as int]@);
            if i == 0 {
                assert(clause@ =~= "WHERE "@ + join_and(dv.take(i + 1)));
            } else {
                assert(clause@ =~= "WHERE "@ + join_and(dv.take(i + 1)));
            }
        }
        i = i + 1;
    }
    proof {
        assert(conds.deep_view().take(conds@.len() as int) =~= conds.deep_view());
    }
    clause
}

// ---------------------------------------------------------------------------
// The ORDER BY clause
// ---------------------------------------------------------------------------

/// The column a sort key orders by.
pub open spec fn sort_column_text(s: SortBy) -> Seq<char> {
    match s {
        SortBy::CreatedAt => "created_at"@,
        SortBy::UpdatedAt => "updated_at"@,
        SortBy::DueDate => "due_date"@,
        SortBy::Priority => "priority"@,
        SortBy::Title => "title"@,
    }
}

/// The direction keyword of a sort order.
pub open spec fn sort_direction_text(o: SortOrder) -> Seq<char> {
    match o {
        SortOrder::Asc => "ASC"@,
        SortOrder::Desc => "DESC"@,
    }
}

/// The ORDER BY clause of a sort descriptor.
pub open spec fn order_clause_text(s: SortBy, o: SortOrder) -> Seq<char> {
    "ORDER BY "@ + sort_column_text(s) + " "@ + sort_direction_text(o)
}

/// Build the ORDER BY clause mapping the sort enumeration to its column and
/// direction.
pub fn build_order_clause(sort_by: SortBy, sort_order: SortOrder) -> (r: String)
    ensures
        r@ == order_clause_text(sort_by, sort_order),
{
    let mut clause = String::new();
    clause.append("ORDER BY ");
    match sort_by {
        SortBy::CreatedAt => clause.append("created_at"),
        SortBy::UpdatedAt => clause.append("updated_at"),
        SortBy::DueDate => clause.append("due_date"),
        SortBy::Priority => clause.append("priority"),
        SortBy::Title => clause.append("title"),
    }
    clause.append(" ");
    match sort_order {
        SortOrder::Asc => clause.append("ASC"),
        SortOrder::Desc => clause.append("DESC"),
    }
    proof {
        assert(clause@ =~= order_clause_text(sort_by, sort_order));
    }
    clause
}

// ---------------------------------------------------------------------------
// Decoding stored rows
// ---------------------------------------------------------------------------

/// Decode one stored row into a todo. Priority and status decode
/// defensively: an out-of-range integer yields the enumeration default. A
/// timestamp column whose text is not a valid encoding is an error carrying
/// the offending text.
pub fn row_to_todo(row: &RawRow) -> (r: Result<Todo>)
    ensures
        r matches Ok(t) ==> ({
            &&& t.id == Some(row.id)
            &&& t.title == row.title
            &&& t.description == row.description
            &&& t.priority == priority_of_code_spec(row.priority as int)
            &&& t.status == status_of_code_spec(row.status as int)
            &&& civil_text_value(row.created_at@) == Some(t.created_at as int)
            &&& civil_text_value(row.updated_at@) == Some(t.updated_at as int)
            &&& (row.due_date matches Some(dt) ==> t.due_date matches Some(d) && civil_text_value(
                dt@,
            ) == Some(d as int))
            &&& (row.due_date is None ==> t.due_date is None)
            &&& wf_todo(t)
        }),
        r is Err <==> (civil_text_value(row.created_at@) is None || civil_text_value(
            row.updated_at@,
        ) is None || (row.due_date matches Some(dt) && civil_text_value(dt@) is None)),
        r matches Err(e) ==> e matches TaskyError::InvalidStoredTimestamp { text: _ },
{
    let created_at = match crate::calendar::decode_instant(row.created_at.as_str()) {
        Some(v) => v,
        None => {
            return Err(TaskyError::InvalidStoredTimestamp { text: row.created_at.clone() });
        },
    };
    let updated_at = match crate::calendar::decode_instant(row.updated_at.as_str()) {
        Some(v) => v,
        None => {
            return Err(TaskyError::InvalidStoredTimestamp { text: row.updated_at.clone() });
        },
    };
    let due_date = match &row.due_date {
        Some(dt) => match crate::calendar::decode_instant(dt.as_str()) {
            Some(v) => Some(v),
            None => {
                return Err(TaskyError::InvalidStoredTimestamp { text: dt.clone() });
            },
        },
        None => None,
    };
    proof {
        crate::calendar::lemma_civil_text_value_in_range(row.created_at@);
        crate::calendar::lemma_civil_text_value_in_range(row.updated_at@);
        if row.due_date is Some {
            crate::calendar::lemma_civil_text_value_in_range(row.due_date->0@);
        }
    }
    Ok(
        Todo {
            id: Some(row.id),
            title: row.title.clone(),
            description: match &row.description {
                Some(d) => Some(d.clone()),
                None => None,
            },
            priority: Priority::from_code(row.priority),
            status: Status::from_code(row.status),
            created_at,
            updated_at,
            due_date,
        },
    )
}

// ---------------------------------------------------------------------------
// Derived statistics
// ---------------------------------------------------------------------------

/// How many of the todos are pending.
pub open spec fn count_pending(s: Seq<Todo>) -> int
    decreases s.len(),
{
    if s.len() == 0 {
        0
    } else {
        count_pending(s.drop_last()) + (if s.last().status == Status::Pending {
            1int
        } else {
            0
        })
    }
}

/// How many of the todos are done.
pub open spec fn count_done(s: Seq<Todo>) -> int
    decreases s.len(),
{
    if s.len() == 0 {
        0
    } else {
        count_done(s.drop_last()) + (if s.last().status == Status::Done {
            1int
        } else {
            0
        })
    }
}

/// How many of the todos carry high priority.
pub open spec fn count_high(s: Seq<Todo>) -> int
    decreases s.len(),
{
    if s.len() == 0 {
        0
    } else {
        count_high(s.drop_last()) + (if s.last().priority == Priority::High {
            1int
        } else {
            0
        })
    }
}

/// How many of the todos are overdue at instant `now`.
pub open spec fn count_overdue(s: Seq<Todo>, now: Instant) -> int
    decreases s.len(),
{
    if s.len() == 0 {
        0
    } else {
        count_overdue(s.drop_last(), now) + (if overdue_at(s.last(), now) {
            1int
        } else {
            0
        })
    }
}

/// Every count lies between zero and the number of todos.
pub proof fn lemma_counts_in_range(s: Seq<Todo>, now: Instant)
    ensures
        0 <= count_pending(s) <= s.len(),
        0 <= count_done(s) <= s.len(),
        0 <= count_high(s) <= s.len(),
        0 <= count_overdue(s, now) <= s.len(),
    decreases s.len(),
{
    if s.len() > 0 {
        lemma_counts_in_range(s.drop_last(), now);
    }
}

/// Every todo is either pending or done, so the two tallies always sum to
/// the total.
pub proof fn lemma_status_counts_partition(s: Seq<Todo>)
    ensures
        count_pending(s) + count_done(s) == s.len(),
    decreases s.len(),
{
    if s.len() > 0 {
        lemma_status_counts_partition(s.drop_last());
    }
}

/// An overdue todo is by definition still pending, so the overdue tally
/// never exceeds the pending tally.
pub proof fn lemma_overdue_at_most_pending(s: Seq<Todo>, now: Instant)
    ensures
        count_overdue(s, now) <= count_pending(s),
    decreases s.len(),
{
    if s.len() > 0 {
        lemma_overdue_at_most_pending(s.drop_last(), now);
    }
}

/// Completed todos per thousand of the total, rounded down; zero on an empty
/// table, never dividing by zero.
pub open spec fn completion_tenths(completed: int, total: int) -> int {
    if total == 0 {
        0
    } else {
        completed * 1000 / total
    }
}

/// Compute the aggregate statistics of one snapshot of the table, taken at
/// instant `now`. Because every tally is drawn from the same snapshot, the
/// pending and completed tallies always sum to the total.
pub fn compute_stats(todos: &Vec<Todo>, now: Instant) -> (r: TodoStats)
    requires
        todos@.len() <= 0x7FFF_FFFF_FFFF_FFFF,
    ensures
        r.total_todos == todos@.len(),
        r.pending_todos == count_pending(todos@),
        r.completed_todos == count_done(todos@),
        r.high_priority_todos == count_high(todos@),
        r.overdue_todos == count_overdue(todos@, now),
        r.pending_todos + r.completed_todos == r.total_todos,
        r.overdue_todos <= r.pending_todos,
        r.completion_rate_tenths == completion_tenths(count_done(todos@), todos@.len() as int),
        0 <= r.completion_rate_tenths <= 1000,
{
    let n = todos.len();
    let mut pending: i64 = 0;
    let mut done: i64 = 0;
    let mut high: i64 = 0;
    let mut overdue: i64 = 0;
    let mut i: usize = 0;
    while i < n
        invariant
            i <= n,
            n == todos@.len(),
            n <= 0x7FFF_FFFF_FFFF_FFFF,
            pending == count_pending(todos@.take(i as int)),
            done == count_done(todos@.take(i as int)),
            high == count_high(todos@.take(i as int)),
            overdue == count_overdue(todos@.take(i as int), now),
            0 <= pending <= i,
            0 <= done <= i,
            0 <= high <= i,
            0 <= overdue <= i,
        decreases n - i,
    {
        let t = &todos[i];
        proof {
            assert(todos@.take(i + 1).drop_last() =~= todos@.take(i as int));
            assert(todos@.take(i + 1).last() == todos@[i as int]);
        }
        if t.status == Status::Pending {
            pending = pending + 1;
        } else {
            done = done + 1;
        }
        if t.priority == Priority::High {
            high = high + 1;
        }
        if t.is_overdue_at(now) {
            overdue = overdue + 1;
        }
        i = i + 1;
    }
    proof {
        assert(todos@.take(n as int) =~= todos@);
        lemma_status_counts_partition(todos@);
        lemma_overdue_at_most_pending(todos@, now);
    }
    let rate: i64 = if n == 0 {
        0
    } else {
        proof {
            lemma_completion_rate_bounds(done as int, n as int);
        }
        (((done as i128) * 1000) / (n as i128)) as i64
    };
    TodoStats {
        total_todos: n as i64,
        pending_todos: pending,
        completed_todos: done,
        high_priority_todos: high,
        overdue_todos: overdue,
        completion_rate_tenths: rate,
    }
}

/// A tally of completed todos never exceeds the total, so the completion
/// rate lies between zero and a thousand tenths.
proof fn lemma_completion_rate_bounds(completed: int, total: int)
    requires
        0 <= completed <= total,
        0 < total,
    ensures
        0 <= completed * 1000 / total <= 1000,
{
    vstd::arithmetic::div_mod::lemma_div_pos_is_pos(completed * 1000, total);
    vstd::arithmetic::div_mod::lemma_div_is_ordered(completed * 1000, total * 1000, total);
    vstd::arithmetic::div_mod::lemma_div_multiples_vanish(1000, total);
}

// ---------------------------------------------------------------------------
// Binding a row's values
// ---------------------------------------------------------------------------

/// Whether the bound values are exactly the encoded fields of a todo, in the
/// INSERT column order (title, description, priority, status, created_at,
/// updated_at, due_date): what the store is told is precisely the row the
/// caller gets back.
pub open spec fn insert_params_match(ps: Seq<SqlParam>, t: Todo) -> bool {
    &&& ps.len() == 7
    &&& (ps[0] matches SqlParam::Text(s) && s == t.title)
    &&& (match t.description {
        Some(d) => ps[1] matches SqlParam::Text(s) && s == d,
        None => ps[1] is Null,
    })
    &&& (ps[2] matches SqlParam::Int(v) && v == priority_code_spec(t.priority))
    &&& (ps[3] matches SqlParam::Int(v) && v == status_code_spec(t.status))
    &&& (ps[4] matches SqlParam::Text(s) && civil_text_value(s@) == Some(t.created_at as int))
    &&& (ps[5] matches SqlParam::Text(s) && civil_text_value(s@) == Some(t.updated_at as int))
    &&& (match t.due_date {
        Some(d) => ps[6] matches SqlParam::Text(s) && civil_text_value(s@) == Some(d as int),
        None => ps[6] is Null,
    })
}

/// The INSERT parameters of a row.
fn insert_params(t: &Todo) -> (r: Vec<SqlParam>)
    requires
        wf_todo(*t),
    ensures
        insert_params_match(r@, *t),
{
    let mut params: Vec<SqlParam> = Vec::new();
    params.push(SqlParam::Text(t.title.clone()));
    params.push(
        match &t.description {
            Some(d) => SqlParam::Text(d.clone()),
            None => SqlParam::Null,
        },
    );
    params.push(SqlParam::Int(t.priority.code()));
    params.push(SqlParam::Int(t.status.code()));
    params.push(SqlParam::Text(encode_instant(t.created_at)));
    params.push(SqlParam::Text(encode_instant(t.updated_at)));
    params.push(
        match t.due_date {
            Some(d) => SqlParam::Text(encode_instant(d)),
            None => SqlParam::Null,
        },
    );
    params
}

/// Whether the bound values are exactly the encoded fields of a todo, in the
/// UPDATE column order (title, description, priority, status, due_date,
/// updated_at) followed by the keyed id.
pub open spec fn update_params_match(ps: Seq<SqlParam>, t: Todo, id: i64) -> bool {
    &&& ps.len() == 7
    &&& (ps[0] matches SqlParam::Text(s) && s == t.title)
    &&& (match t.description {
        Some(d) => ps[1] matches SqlParam::Text(s) && s == d,
        None => ps[1] is Null,
    })
    &&& (ps[2] matches SqlParam::Int(v) && v == priority_code_spec(t.priority))
    &&& (ps[3] matches SqlParam::Int(v) && v == status_code_spec(t.status))
    &&& (match t.due_date {
        Some(d) => ps[4] matches SqlParam::Text(s) && civil_text_value(s@) == Some(d as int),
        None => ps[4] is Null,
    })
    &&& (ps[5] matches SqlParam::Text(s) && civil_text_value(s@) == Some(t.updated_at as int))
    &&& (ps[6] matches SqlParam::Int(v) && v == id)
}

/// The UPDATE parameters of a row.
fn update_params(t: &Todo, id: i64) -> (r: Vec<SqlParam>)
    requires
        wf_todo(*t),
    ensures
        update_params_match(r@, *t, id),
{
    let mut params: Vec<SqlParam> = Vec::new();
    params.push(SqlParam::Text(t.title.clone()));
    params.push(
        match &t.description {
            Some(d) => SqlParam::Text(d.clone()),
            None => SqlParam::Null,
        },
    );
    params.push(SqlParam::Int(t.priority.code()));
    params.push(SqlParam::Int(t.status.code()));
    params.push(
        match t.due_date {
            Some(d) => SqlParam::Text(encode_instant(d)),
            None => SqlParam::Null,
        },
    );
    params.push(SqlParam::Text(encode_instant(t.updated_at)));
    params.push(SqlParam::Int(id));
    params
}

/// How the driver's rows-affected report of a keyed DELETE reads: a row was
/// removed exactly when at least one row was affected.
fn removal_happened(affected: usize) -> (r: bool)
    ensures
        r == (affected > 0),
{
    affected > 0
}

// ---------------------------------------------------------------------------
// The repository
// ---------------------------------------------------------------------------

/// The SQL repository over one borrowed store connection.
pub struct SqliteTodoRepository<'a> {
    conn: &'a rusqlite::Connection,
}

impl<'a> SqliteTodoRepository<'a> {
    /// A repository over the given connection.
    pub fn new(conn: &'a rusqlite::Connection) -> SqliteTodoRepository<'a> {
        SqliteTodoRepository { conn }
    }

    /// Insert a new todo: stamps creation and update time with the current
    /// instant, stores status Pending, and returns the row with its assigned
    /// id. Every field of the result is pinned to the request; due dates are
    /// clamped into the encodable range.
    pub fn create(&self, todo: &CreateTodo) -> (r: Result<Todo>)
        ensures
            r matches Ok(t) ==> ({
                &&& t.id is Some
                &&& t.title == todo.title
                &&& t.description == todo.description
                &&& t.priority == todo.priority
                &&& t.status == Status::Pending
                &&& t.created_at == t.updated_at
                &&& (todo.due_date matches Some(d) ==> t.due_date matches Some(c) && c as int
                    == clamped(d as int))
                &&& (todo.due_date is None ==> t.due_date is None)
                &&& wf_todo(t)
            }),
            r matches Err(e) ==> e matches TaskyError::Database(_),
    {
        let now = current_instant();
        let due = match todo.due_date {
            Some(d) => Some(clamp_instant(d)),
            None => None,
        };
        let row = Todo {
            id: None,
            title: todo.title.clone(),
            description: match &todo.description {
                Some(d) => Some(d.clone()),
                None => None,
            },
            priority: todo.priority,
            status: Status::Pending,
            created_at: now,
            updated_at: now,
            due_date: due,
        };
        let params = insert_params(&row);
        match exec_sql(
            self.conn,
            "INSERT INTO todos (title, description, priority, status, created_at, updated_at, due_date)
          VALUES (?1, ?2, ?3, ?4, ?5, ?6, ?7)",
            &params,
        ) {
            Ok(_) => {
                let id = last_insert_id(self.conn);
                Ok(Todo { id: Some(id), ..row })
            },
            Err(e) => Err(TaskyError::Database(e)),
        }
    }

    /// Look a todo up by id; absence is none, not an error. Any todo handed
    /// out is well-formed and carries its stored id.
    pub fn find_by_id(&self, id: i64) -> (r: Result<Option<Todo>>)
        ensures
            r matches Ok(Some(t)) ==> wf_todo(t) && t.id is Some,
            r matches Err(e) ==> crate::error::store_failure(e),
    {
        let mut params: Vec<SqlParam> = Vec::new();
        params.push(SqlParam::Int(id));
        match query_opt_row(
            self.conn,
            "SELECT id, title, description, priority, status, created_at, updated_at, due_date
            FROM todos WHERE id = ?1",
            &params,
        ) {
            Ok(Some(row)) => match row_to_todo(&row) {
                Ok(t) => Ok(Some(t)),
                Err(e) => Err(e),
            },
            Ok(None) => Ok(None),
            Err(e) => Err(TaskyError::Database(e)),
        }
    }

    /// List every todo the filter admits, in the requested order: conjoined
    /// parameterized predicates, one per present filter field, plus an ORDER
    /// BY mapped from the sort descriptors. A filter with no predicates
    /// scans the whole table. Every todo handed out is well-formed.
    pub fn find_all(&self, filter: &TodoFilter, sort_by: SortBy, sort_order: SortOrder) -> (r:
        Result<Vec<Todo>>)
        ensures
            r matches Ok(ts) ==> forall|i: int|
                0 <= i < ts@.len() ==> wf_todo(#[trigger] ts@[i]),
            r matches Err(e) ==> crate::error::store_failure(e),
    {
        let (where_clause, params) = build_filter_clause(filter);
        let order_clause = build_order_clause(sort_by, sort_order);
        let mut query = String::new();
        query.append(
            "SELECT id, title, description, priority, status, created_at, updated_at, due_date
            FROM todos ",
        );
        query.append(where_clause.as_str());
        query.append(" ");
        query.append(order_clause.as_str());
        let rows = match query_rows(self.conn, query.as_str(), &params) {
            Ok(rows) => rows,
            Err(e) => {
                return Err(TaskyError::Database(e));
            },
        };
        let mut todos: Vec<Todo> = Vec::new();
        let mut i: usize = 0;
        while i < rows.len()
            invariant
                i <= rows@.len(),
                forall|j: int| 0 <= j < todos@.len() ==> wf_todo(#[trigger] todos@[j]),
            decreases rows@.len() - i,
        {
            match row_to_todo(&rows[i]) {
                Ok(t) => todos.push(t),
                Err(e) => {
                    return Err(e);
                },
            }
            i = i + 1;
        }
        Ok(todos)
    }

    /// Read-modify-write: load the current row, overlay the patch's present
    /// fields, restamp the update time, and write every column back. Returns
    /// none when the id names no row. Every present patch field is reflected
    /// in the result.
    pub fn update(&self, id: i64, patch: &UpdateTodo) -> (r: Result<Option<Todo>>)
        ensures
            r matches Ok(Some(t)) ==> ({
                &&& wf_todo(t)
                &&& t.id is Some
                &&& t.updated_at >= t.created_at
                &&& (patch.title matches Some(ti) ==> t.title == ti)
                &&& (patch.description matches Some(d) ==> t.description == Some(d))
                &&& (patch.priority matches Some(p) ==> t.priority == p)
                &&& (patch.status matches Some(st) ==> t.status == st)
                &&& (patch.due_date matches Some(d) ==> t.due_date matches Some(c) && c as int
                    == clamped(d as int))
            }),
            r matches Err(e) ==> crate::error::store_failure(e),
    {
        let existing = match self.find_by_id(id) {
            Ok(Some(t)) => t,
            Ok(None) => {
                return Ok(None);
            },
            Err(e) => {
                return Err(e);
            },
        };
        let clock = current_instant();
        // never stamp behind the creation time: every row this function
        // writes satisfies updated_at >= created_at, whatever the clock reads
        let now = if clock < existing.created_at {
            existing.created_at
        } else {
            clock
        };
        let overlaid = patch.apply_to(&existing, now);
        let due = match overlaid.due_date {
            Some(d) => Some(clamp_instant(d)),
            None => None,
        };
        let updated = Todo { due_date: due, ..overlaid };
        let params = update_params(&updated, id);
        match exec_sql(
            self.conn,
            "UPDATE todos SET title = ?1, description = ?2, priority = ?3,
          status = ?4, due_date = ?5, updated_at = ?6 WHERE id = ?7",
            &params,
        ) {
            Ok(_) => Ok(Some(updated)),
            Err(e) => Err(TaskyError::Database(e)),
        }
    }

    /// Delete the row with the given id; the result reports whether a row
    /// was actually removed, per `removal_happened`.
    pub fn delete(&self, id: i64) -> (r: Result<bool>)
        ensures
            r matches Err(e) ==> e matches TaskyError::Database(_),
    {
        let mut params: Vec<SqlParam> = Vec::new();
        params.push(SqlParam::Int(id));
        match exec_sql(self.conn, "DELETE FROM todos WHERE id = ?1", &params) {
            Ok(affected) => Ok(removal_happened(affected)),
            Err(e) => Err(TaskyError::Database(e)),
        }
    }

    /// Aggregate statistics over one snapshot of the whole table, so that
    /// the tallies are mutually consistent: pending and completed always sum
    /// to the total, and the completion rate never divides by zero.
    pub fn get_stats(&self) -> (r: Result<TodoStats>)
        ensures
            r matches Ok(st) ==> ({
                &&& st.total_todos >= 0
                &&& st.pending_todos + st.completed_todos == st.total_todos
                &&& 0 <= st.pending_todos
                &&& 0 <= st.completed_todos
                &&& 0 <= st.high_priority_todos <= st.total_todos
                &&& 0 <= st.overdue_todos <= st.pending_todos
                &&& st.completion_rate_tenths == completion_tenths(
                    st.completed_todos as int,
                    st.total_todos as int,
                )
                &&& 0 <= st.completion_rate_tenths <= 1000
            }),
            r matches Err(e) ==> (crate::error::store_failure(e) || e
                matches TaskyError::InvalidInput { message: _ }),
    {
        let filter = TodoFilter::default();
        let todos = match self.find_all(&filter, SortBy::CreatedAt, SortOrder::Desc) {
            Ok(ts) => ts,
            Err(e) => {
                return Err(e);
            },
        };
        if todos.len() as u64 > 0x7FFF_FFFF_FFFF_FFFF {
            return Err(
                TaskyError::InvalidInput {
                    message: "통계를 계산하기에는 항목이 너무 많습니다".to_owned(),
                },
            );
        }
        let now = current_instant();
        proof {
            lemma_counts_in_range(todos@, now);
        }
        Ok(compute_stats(&todos, now))
    }
}

} // verus!
