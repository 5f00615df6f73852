//! The entity model: todo items and their mutation and query shapes.
//!
//! Priorities and statuses are persisted as small integers; decoding an
//! out-of-range integer defensively yields the enumeration default rather
//! than failing, a named policy of the store.

use vstd::prelude::*;

use crate::error::Result;
use crate::error::TaskyError;

verus! {

/// Seconds since the Unix epoch; the library's model of a point in time.
pub type Instant = i64;

// ---------------------------------------------------------------------------
// Case-insensitive keyword matching (ASCII folding, as the textual command
// vocabulary is ASCII; other characters must match exactly).
// ---------------------------------------------------------------------------

/// The code point of `c` with ASCII upper-case letters folded to lower case.
pub open spec fn lower_code(c: char) -> int {
    if 65 <= c as int && c as int <= 90 {
        c as int + 32
    } else {
        c as int
    }
}

/// Character-wise equality of two texts under ASCII case folding.
pub open spec fn eq_ignore_case_seq(s: Seq<char>, k: Seq<char>) -> bool {
    s.len() == k.len() && (forall|i: int| 0 <= i < s.len() ==> lower_code(s[i]) == lower_code(k[i]))
}

/// Executable ASCII-case-insensitive comparison of two strings.
pub fn eq_ignore_case(s: &str, k: &str) -> (r: bool)
    ensures
        r == eq_ignore_case_seq(s@, k@),
{
    let n = s.unicode_len();
    if n != k.unicode_len() {
        return false;
    }
    let mut i: usize = 0;
    while i < n
        invariant
            n == s@.len(),
            n == k@.len(),
            i <= n,
            forall|j: int| 0 <= j < i ==> lower_code(s@[j]) == lower_code(k@[j]),
        decreases n - i,
    {
        let a = s.get_char(i) as u32;
        let b = k.get_char(i) as u32;
        let af = if 65 <= a && a <= 90 { a + 32 } else { a };
        let bf = if 65 <= b && b <= 90 { b + 32 } else { b };
        if af != bf {
            return false;
        }
        i = i + 1;
    }
    true
}

// ---------------------------------------------------------------------------
// Priority
// ---------------------------------------------------------------------------

/// Importance of a todo; persisted as 0, 1 or 2.
#[derive(Debug, Clone, Copy, PartialEq, Eq, Structural)]
pub enum Priority {
    Low,
    Medium,
    High,
}

/// The integer a priority is persisted as.
pub open spec fn priority_code_spec(p: Priority) -> int {
    match p {
        Priority::Low => 0,
        Priority::Medium => 1,
        Priority::High => 2,
    }
}

/// The priority a persisted integer decodes to; out-of-range integers map to
/// the default, `Medium`.
pub open spec fn priority_of_code_spec(c: int) -> Priority {
    if c == 0 {
        Priority::Low
    } else if c == 2 {
        Priority::High
    } else {
        Priority::Medium
    }
}

/// Which priority, if any, a textual spelling names.
pub open spec fn parse_priority_spec(s: Seq<char>) -> Option<Priority> {
    if eq_ignore_case_seq(s, "low"@) || eq_ignore_case_seq(s, "낮음"@) || eq_ignore_case_seq(
        s,
        "l"@,
    ) {
        Some(Priority::Low)
    } else if eq_ignore_case_seq(s, "medium"@) || eq_ignore_case_seq(s, "보통"@)
        || eq_ignore_case_seq(s, "m"@) {
        Some(Priority::Medium)
    } else if eq_ignore_case_seq(s, "high"@) || eq_ignore_case_seq(s, "높음"@)
        || eq_ignore_case_seq(s, "h"@) {
        Some(Priority::High)
    } else {
        None
    }
}

impl Priority {
    /// The integer this priority is persisted as.
    pub fn code(&self) -> (r: i64)
        ensures
            r == priority_code_spec(*self),
    {
        match self {
            Priority::Low => 0,
            Priority::Medium => 1,
            Priority::High => 2,
        }
    }

    /// Decode a persisted integer; out-of-range values fall back to the
    /// default rather than failing.
    pub fn from_code(c: i64) -> (r: Priority)
        ensures
            r == priority_of_code_spec(c as int),
    {
        if c == 0 {
            Priority::Low
        } else if c == 2 {
            Priority::High
        } else {
            Priority::Medium
        }
    }

    /// Parse a priority name; accepted case-insensitively in English,
    /// Korean, or as a one-letter abbreviation.
    pub fn from_str(source: &str) -> (r: Result<Priority>)
        ensures
            match parse_priority_spec(source@) {
                Some(p) => r == Ok::<Priority, TaskyError>(p),
                None => r matches Err(TaskyError::InvalidPriority { priority }) && priority@
                    == source@,
            },
    {
        if eq_ignore_case(source, "low") || eq_ignore_case(source, "낮음") || eq_ignore_case(
            source,
            "l",
        ) {
            Ok(Priority::Low)
        } else if eq_ignore_case(source, "medium") || eq_ignore_case(source, "보통")
            || eq_ignore_case(source, "m") {
            Ok(Priority::Medium)
        } else if eq_ignore_case(source, "high") || eq_ignore_case(source, "높음")
            || eq_ignore_case(source, "h") {
            Ok(Priority::High)
        } else {
            Err(TaskyError::InvalidPriority { priority: source.to_owned() })
        }
    }

    /// The Korean display name of this priority.
    pub fn to_display_string(&self) -> (r: &'static str)
        ensures
            self == Priority::Low ==> r@ == "낮음"@,
            self == Priority::Medium ==> r@ == "보통"@,
            self == Priority::High ==> r@ == "높음"@,
    {
        match self {
            Priority::Low => "낮음",
            Priority::Medium => "보통",
            Priority::High => "높음",
        }
    }

    /// The coloured-dot marker of this priority.
    pub fn to_emoji(&self) -> (r: &'static str)
        ensures
            self == Priority::Low ==> r@ == "🟢"@,
            self == Priority::Medium ==> r@ == "🟡"@,
            self == Priority::High ==> r@ == "🔴"@,
    {
        match self {
            Priority::Low => "🟢",
            Priority::Medium => "🟡",
            Priority::High => "🔴",
        }
    }
}

impl Default for Priority {
    /// The default priority is `Medium`.
    fn default() -> (r: Self)
        ensures
            r == Priority::Medium,
    {
        Priority::Medium
    }
}

// ---------------------------------------------------------------------------
// Status
// ---------------------------------------------------------------------------

/// Completion state of a todo; persisted as 0 or 1.
#[derive(Debug, Clone, Copy, PartialEq, Eq, Structural)]
pub enum Status {
    Pending,
    Done,
}

/// The integer a status is persisted as.
pub open spec fn status_code_spec(s: Status) -> int {
    match s {
        Status::Pending => 0,
        Status::Done => 1,
    }
}

/// The status a persisted integer decodes to; out-of-range integers map to
/// the default, `Pending`.
pub open spec fn status_of_code_spec(c: int) -> Status {
    if c == 1 {
        Status::Done
    } else {
        Status::Pending
    }
}

/// Which status, if any, a textual spelling names.
pub open spec fn parse_status_spec(s: Seq<char>) -> Option<Status> {
    if eq_ignore_case_seq(s, "pending"@) || eq_ignore_case_seq(s, "대기"@) || eq_ignore_case_seq(
        s,
        "p"@,
    ) {
        Some(Status::Pending)
    } else if eq_ignore_case_seq(s, "done"@) || eq_ignore_case_seq(s, "완료"@)
        || eq_ignore_case_seq(s, "d"@) {
        Some(Status::Done)
    } else {
        None
    }
}

impl Status {
    /// The integer this status is persisted as.
    pub fn code(&self) -> (r: i64)
        ensures
            r == status_code_spec(*self),
    {
        match self {
            Status::Pending => 0,
            Status::Done => 1,
        }
    }

    /// Decode a persisted integer; out-of-range values fall back to the
    /// default rather than failing.
    pub fn from_code(c: i64) -> (r: Status)
        ensures
            r == status_of_code_spec(c as int),
    {
        if c == 1 {
            Status::Done
        } else {
            Status::Pending
        }
    }

    /// Parse a status name; accepted case-insensitively in English, Korean,
    /// or as a one-letter abbreviation.
    pub fn from_str(source: &str) -> (r: Result<Status>)
        ensures
            match parse_status_spec(source@) {
                Some(s) => r == Ok::<Status, TaskyError>(s),
                None => r matches Err(TaskyError::InvalidStatus { status }) && status@ == source@,
            },
    {
        if eq_ignore_case(source, "pending") || eq_ignore_case(source, "대기") || eq_ignore_case(
            source,
            "p",
        ) {
            Ok(Status::Pending)
        } else if eq_ignore_case(source, "done") || eq_ignore_case(source, "완료")
            || eq_ignore_case(source, "d") {
            Ok(Status::Done)
        } else {
            Err(TaskyError::InvalidStatus { status: source.to_owned() })
        }
    }

    /// The Korean display name of this status.
    pub fn to_display_string(&self) -> (r: &'static str)
        ensures
            self == Status::Pending ==> r@ == "대기중"@,
            self == Status::Done ==> r@ == "완료"@,
    {
        match self {
            Status::Pending => "대기중",
            Status::Done => "완료",
        }
    }

    /// The marker glyph of this status.
    pub fn to_emoji(&self) -> (r: &'static str)
        ensures
            self == Status::Pending ==> r@ == "⏳"@,
            self == Status::Done ==> r@ == "✅"@,
    {
        match self {
            Status::Pending => "⏳",
            Status::Done => "✅",
        }
    }
}

impl Default for Status {
    /// The default status is `Pending`.
    fn default() -> (r: Self)
        ensures
            r == Status::Pending,
    {
        Status::Pending
    }
}

// ---------------------------------------------------------------------------
// Sorting descriptors
// ---------------------------------------------------------------------------

/// The column a listing is ordered by.
#[derive(Debug, Clone, Copy, PartialEq, Eq, Structural)]
pub enum SortBy {
    CreatedAt,
    UpdatedAt,
    DueDate,
    Priority,
    Title,
}

/// Which sort key, if any, a textual spelling names.
pub open spec fn parse_sort_by_spec(s: Seq<char>) -> Option<SortBy> {
    if eq_ignore_case_seq(s, "created"@) || eq_ignore_case_seq(s, "created_at"@) {
        Some(SortBy::CreatedAt)
    } else if eq_ignore_case_seq(s, "updated"@) || eq_ignore_case_seq(s, "updated_at"@) {
        Some(SortBy::UpdatedAt)
    } else if eq_ignore_case_seq(s, "due"@) || eq_ignore_case_seq(s, "due_date"@) {
        Some(SortBy::DueDate)
    } else if eq_ignore_case_seq(s, "priority"@) {
        Some(SortBy::Priority)
    } else if eq_ignore_case_seq(s, "title"@) {
        Some(SortBy::Title)
    } else {
        None
    }
}

impl SortBy {
    /// Parse a sort-key name, case-insensitively.
    pub fn from_str(source: &str) -> (r: Result<SortBy>)
        ensures
            match parse_sort_by_spec(source@) {
                Some(s) => r == Ok::<SortBy, TaskyError>(s),
                None => r matches Err(TaskyError::InvalidSortBy { sort_by }) && sort_by@
                    == source@,
            },
    {
        if eq_ignore_case(source, "created") || eq_ignore_case(source, "created_at") {
            Ok(SortBy::CreatedAt)
        } else if eq_ignore_case(source, "updated") || eq_ignore_case(source, "updated_at") {
            Ok(SortBy::UpdatedAt)
        } else if eq_ignore_case(source, "due") || eq_ignore_case(source, "due_date") {
            Ok(SortBy::DueDate)
        } else if eq_ignore_case(source, "priority") {
            Ok(SortBy::Priority)
        } else if eq_ignore_case(source, "title") {
            Ok(SortBy::Title)
        } else {
            Err(TaskyError::InvalidSortBy { sort_by: source.to_owned() })
        }
    }
}

impl Default for SortBy {
    /// Listings default to ordering by creation time.
    fn default() -> (r: Self)
        ensures
            r == SortBy::CreatedAt,
    {
        SortBy::CreatedAt
    }
}

/// Direction of a listing's order.
#[derive(Debug, Clone, Copy, PartialEq, Eq, Structural)]
pub enum SortOrder {
    Asc,
    Desc,
}

/// The order a textual spelling names; anything unrecognized means
/// descending, the direction being a preference rather than a validated
/// input.
pub open spec fn parse_sort_order_spec(s: Seq<char>) -> SortOrder {
    if eq_ignore_case_seq(s, "asc"@) || eq_ignore_case_seq(s, "ascending"@) {
        SortOrder::Asc
    } else {
        SortOrder::Desc
    }
}

impl SortOrder {
    /// Parse a direction name; unrecognized spellings mean descending.
    pub fn from_str(source: &str) -> (r: Result<SortOrder>)
        ensures
            r == Ok::<SortOrder, TaskyError>(parse_sort_order_spec(source@)),
    {
        if eq_ignore_case(source, "asc") || eq_ignore_case(source, "ascending") {
            Ok(SortOrder::Asc)
        } else {
            Ok(SortOrder::Desc)
        }
    }
}

impl Default for SortOrder {
    /// Listings default to newest first.
    fn default() -> (r: Self)
        ensures
            r == SortOrder::Desc,
    {
        SortOrder::Desc
    }
}

// ---------------------------------------------------------------------------
// Todo and its mutation / query shapes
// ---------------------------------------------------------------------------

/// The persisted task entity.
#[derive(Debug, Clone)]
pub struct Todo {
    /// Surrogate key; absent before first persistence, assigned by the store.
    pub id: Option<i64>,
    pub title: String,
    pub description: Option<String>,
    pub priority: Priority,
    pub status: Status,
    pub created_at: Instant,
    pub updated_at: Instant,
    pub due_date: Option<Instant>,
}

/// The fields needed to create a todo; consumed once by the repository.
#[derive(Debug, Clone)]
pub struct CreateTodo {
    pub title: String,
    pub description: Option<String>,
    pub priority: Priority,
    pub due_date: Option<Instant>,
}

impl CreateTodo {
    /// A creation request with the given title and every other field at its
    /// default.
    pub fn new(title: String) -> (r: CreateTodo)
        ensures
            r.title == title,
            r.description is None,
            r.priority == Priority::Medium,
            r.due_date is None,
    {
        CreateTodo { title, description: None, priority: Priority::Medium, due_date: None }
    }

    /// The same request with a description.
    pub fn with_description(self, description: String) -> (r: CreateTodo)
        ensures
            r.title == self.title,
            r.description == Some(description),
            r.priority == self.priority,
            r.due_date == self.due_date,
    {
        CreateTodo { description: Some(description), ..self }
    }

    /// The same request with a priority.
    pub fn with_priority(self, priority: Priority) -> (r: CreateTodo)
        ensures
            r.title == self.title,
            r.description == self.description,
            r.priority == priority,
            r.due_date == self.due_date,
    {
        CreateTodo { priority, ..self }
    }

    /// The same request with a due date.
    pub fn with_due_date(self, due_date: Instant) -> (r: CreateTodo)
        ensures
            r.title == self.title,
            r.description == self.description,
            r.priority == self.priority,
            r.due_date == Some(due_date),
    {
        CreateTodo { due_date: Some(due_date), ..self }
    }
}

/// A sparse patch: every field is optional, and an absent field means
/// "leave unchanged".
#[derive(Debug, Clone)]
pub struct UpdateTodo {
    pub title: Option<String>,
    pub description: Option<String>,
    pub priority: Option<Priority>,
    pub status: Option<Status>,
    pub due_date: Option<Instant>,
}

impl Default for UpdateTodo {
    /// The empty patch: every field absent.
    fn default() -> (r: Self)
        ensures
            r.title is None,
            r.description is None,
            r.priority is None,
            r.status is None,
            r.due_date is None,
    {
        UpdateTodo { title: None, description: None, priority: None, status: None, due_date: None }
    }
}

/// The todo that results from overlaying a patch on a current row at time
/// `now`: present patch fields replace the current values, absent fields
/// leave them unchanged, and `updated_at` is restamped.
pub open spec fn overlay(patch: UpdateTodo, current: Todo, now: Instant) -> Todo {
    Todo {
        id: current.id,
        title: if patch.title is Some {
            patch.title->0
        } else {
            current.title
        },
        description: if patch.description is Some {
            patch.description
        } else {
            current.description
        },
        priority: if patch.priority is Some {
            patch.priority->0
        } else {
            current.priority
        },
        status: if patch.status is Some {
            patch.status->0
        } else {
            current.status
        },
        created_at: current.created_at,
        updated_at: now,
        due_date: if patch.due_date is Some {
            patch.due_date
        } else {
            current.due_date
        },
    }
}

impl UpdateTodo {
    /// Overlay this patch on a current row, restamping `updated_at` to `now`.
    pub fn apply_to(&self, current: &Todo, now: Instant) -> (r: Todo)
        ensures
            r == overlay(*self, *current, now),
    {
        let title = match &self.title {
            Some(t) => t.clone(),
            None => current.title.clone(),
        };
        let description = match &self.description {
            Some(d) => Some(d.clone()),
            None => current.description.clone(),
        };
        let priority = match self.priority {
            Some(p) => p,
            None => current.priority,
        };
        let status = match self.status {
            Some(s) => s,
            None => current.status,
        };
        let due_date = match self.due_date {
            Some(d) => Some(d),
            None => current.due_date,
        };
        Todo {
            id: current.id,
            title,
            description,
            priority,
            status,
            created_at: current.created_at,
            updated_at: now,
            due_date,
        }
    }
}

/// A patch changes exactly the fields it carries, plus `updated_at`; every
/// absent field keeps its pre-update value, and `id` and `created_at` are
/// never touched.
pub proof fn lemma_overlay_changes_only_present_fields(
    patch: UpdateTodo,
    current: Todo,
    now: Instant,
)
    ensures
        overlay(patch, current, now).id == current.id,
        overlay(patch, current, now).created_at == current.created_at,
        overlay(patch, current, now).updated_at == now,
        patch.title is None ==> overlay(patch, current, now).title == current.title,
        patch.description is None ==> overlay(patch, current, now).description
            == current.description,
        patch.priority is None ==> overlay(patch, current, now).priority == current.priority,
        patch.status is None ==> overlay(patch, current, now).status == current.status,
        patch.due_date is None ==> overlay(patch, current, now).due_date == current.due_date,
        patch.title matches Some(t) ==> overlay(patch, current, now).title == t,
        patch.description is Some ==> overlay(patch, current, now).description == patch.description,
        patch.priority matches Some(p) ==> overlay(patch, current, now).priority == p,
        patch.status matches Some(s) ==> overlay(patch, current, now).status == s,
        patch.due_date is Some ==> overlay(patch, current, now).due_date == patch.due_date,
{
}

/// Overlaying a patch a second time, at the same instant, changes nothing
/// more: one application already reflects every present field.
pub proof fn lemma_overlay_idempotent(patch: UpdateTodo, current: Todo, now: Instant)
    ensures
        overlay(patch, overlay(patch, current, now), now) == overlay(patch, current, now),
{
}

/// A sparse set of optional predicates over todos, combined with AND
/// semantics; an absent field constrains nothing.
#[derive(Debug, Clone)]
pub struct TodoFilter {
    pub status: Option<Status>,
    pub priority: Option<Priority>,
    pub created_before: Option<Instant>,
    pub created_after: Option<Instant>,
    pub due_before: Option<Instant>,
    pub due_after: Option<Instant>,
}

impl Default for TodoFilter {
    /// The unconstrained filter: every predicate absent.
    fn default() -> (r: Self)
        ensures
            r.status is None,
            r.priority is None,
            r.created_before is None,
            r.created_after is None,
            r.due_before is None,
            r.due_after is None,
    {
        TodoFilter {
            status: None,
            priority: None,
            created_before: None,
            created_after: None,
            due_before: None,
            due_after: None,
        }
    }
}

/// Whether a todo satisfies every present predicate of a filter. A due-date
/// bound excludes todos without a due date, mirroring SQL comparison with
/// NULL.
pub open spec fn filter_admits(f: TodoFilter, t: Todo) -> bool {
    &&& (f.status matches Some(s) ==> t.status == s)
    &&& (f.priority matches Some(p) ==> t.priority == p)
    &&& (f.created_before matches Some(b) ==> t.created_at < b)
    &&& (f.created_after matches Some(a) ==> t.created_at > a)
    &&& (f.due_before matches Some(b) ==> t.due_date matches Some(d) && d < b)
    &&& (f.due_after matches Some(a) ==> t.due_date matches Some(d) && d > a)
}

/// A filter with zero predicates set constrains nothing: it admits every
/// todo.
pub proof fn lemma_empty_filter_admits_all(f: TodoFilter, t: Todo)
    requires
        f.status is None,
        f.priority is None,
        f.created_before is None,
        f.created_after is None,
        f.due_before is None,
        f.due_after is None,
    ensures
        filter_admits(f, t),
{
}

// ---------------------------------------------------------------------------
// Derived statistics
// ---------------------------------------------------------------------------

/// Derived, non-persisted aggregate over the whole table. The completion
/// rate is carried in tenths of a percent so that the aggregate stays in
/// integer arithmetic.
#[derive(Debug, Clone)]
pub struct TodoStats {
    pub total_todos: i64,
    pub pending_todos: i64,
    pub completed_todos: i64,
    pub high_priority_todos: i64,
    pub overdue_todos: i64,
    /// Completed todos per thousand of the total, rounded down; 0 when the
    /// table is empty.
    pub completion_rate_tenths: i64,
}

// ---------------------------------------------------------------------------
// Time-derived views of a todo
// ---------------------------------------------------------------------------

/// Whether a todo counts as overdue at instant `now`: still pending, with a
/// due date strictly in the past.
pub open spec fn overdue_at(t: Todo, now: Instant) -> bool {
    t.status != Status::Done && (t.due_date matches Some(d) && d < now)
}

/// Signed whole days from `now` to `due`, truncated toward zero.
pub open spec fn days_between(now: Instant, due: Instant) -> int {
    if due >= now {
        (due - now) / 86400
    } else {
        -((now - due) / 86400)
    }
}

impl Todo {
    /// Whether this todo is overdue at instant `now`.
    pub fn is_overdue_at(&self, now: Instant) -> (r: bool)
        ensures
            r == overdue_at(*self, now),
    {
        if self.status == Status::Done {
            return false;
        }
        match self.due_date {
            Some(d) => d < now,
            None => false,
        }
    }

    /// Whether this todo is overdue right now. Whatever the clock reads, a
    /// result of true means the todo is pending and carries a due date.
    pub fn is_overdue(&self) -> (r: bool)
        ensures
            r ==> self.status != Status::Done && self.due_date is Some,
    {
        let now = crate::dates::now_instant();
        self.is_overdue_at(now)
    }

    /// Signed whole days from `now` until the due date, truncated toward
    /// zero; absent when the todo has no due date.
    pub fn days_until_due_at(&self, now: Instant) -> (r: Option<i64>)
        ensures
            match self.due_date {
                Some(d) => r == Some(days_between(now, d) as i64),
                None => r is None,
            },
    {
        match self.due_date {
            Some(due) => {
                let diff: i128 = (due as i128) - (now as i128);
                if diff >= 0 {
                    let days: i128 = diff / 86400;
                    Some(days as i64)
                } else {
                    let days: i128 = (-diff) / 86400;
                    Some(-(days as i64))
                }
            },
            None => None,
        }
    }

    /// Days until due measured from the current instant. Whatever the clock
    /// reads, the result is present exactly when the todo has a due date.
    pub fn days_until_due(&self) -> (r: Option<i64>)
        ensures
            r is Some <==> self.due_date is Some,
    {
        let now = crate::dates::now_instant();
        self.days_until_due_at(now)
    }
}

} // verus!

