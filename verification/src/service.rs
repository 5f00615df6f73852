//! The service: the one component presentation code calls. It validates and
//! normalizes inputs before any store mutation (fail fast, no partial
//! writes), orchestrates the repository, and derives the named views.

use vstd::prelude::*;

use crate::error::Result;
use crate::error::TaskyError;
use crate::error::store_failure;
use crate::models::CreateTodo;
use crate::models::Instant;
use crate::models::Priority;
use crate::models::SortBy;
use crate::models::SortOrder;
use crate::models::Status;
use crate::models::Todo;
use crate::models::TodoFilter;
use crate::models::TodoStats;
use crate::models::UpdateTodo;
use crate::repository::SqliteTodoRepository;
use crate::repository::wf_todo;
use crate::store::Database;

verus! {

// ---------------------------------------------------------------------------
// Whitespace trimming
// ---------------------------------------------------------------------------

/// Whether a character has Unicode's White_Space property: what trimming
/// strips from the ends of a title or description.
pub open spec fn is_space(c: char) -> bool {
    let u = c as int;
    ||| u == 9
    ||| u == 10
    ||| u == 11
    ||| u == 12
    ||| u == 13
    ||| u == 32
    ||| u == 0x85
    ||| u == 0xA0
    ||| u == 0x1680
    ||| (0x2000 <= u <= 0x200A)
    ||| u == 0x2028
    ||| u == 0x2029
    ||| u == 0x202F
    ||| u == 0x205F
    ||| u == 0x3000
}

/// Executable White_Space test.
fn is_space_char(c: char) -> (r: bool)
    ensures
        r == is_space(c),
{
    let u = c as u32;
    u == 9 || u == 10 || u == 11 || u == 12 || u == 13 || u == 32 || u == 0x85 || u == 0xA0 || u
        == 0x1680 || (0x2000 <= u && u <= 0x200A) || u == 0x2028 || u == 0x2029 || u == 0x202F || u
        == 0x205F || u == 0x3000
}

/// The first index at or after `from` that holds no whitespace.
pub open spec fn space_prefix_end(s: Seq<char>, from: int) -> int
    decreases s.len() - from,
{
    if from < 0 || from >= s.len() || !is_space(s[from]) {
        from
    } else {
        space_prefix_end(s, from + 1)
    }
}

/// The first index from the right, at or before `to`, with no whitespace
/// just before it.
pub open spec fn space_suffix_start(s: Seq<char>, to: int) -> int
    decreases to,
{
    if to <= 0 || to > s.len() || !is_space(s[to - 1]) {
        to
    } else {
        space_suffix_start(s, to - 1)
    }
}

/// The text with leading and trailing whitespace removed.
pub open spec fn trimmed(s: Seq<char>) -> Seq<char> {
    let start = space_prefix_end(s, 0);
    if start == s.len() {
        Seq::empty()
    } else {
        s.subrange(start, space_suffix_start(s, s.len() as int))
    }
}

/// The right scan stops above any known non-space index.
proof fn lemma_suffix_start_past_nonspace(s: Seq<char>, k: int, to: int)
    requires
        0 <= k < to <= s.len(),
        !is_space(s[k]),
    ensures
        k < space_suffix_start(s, to) <= to,
    decreases to,
{
    if to > 0 && to <= s.len() && is_space(s[to - 1]) {
        lemma_suffix_start_past_nonspace(s, k, to - 1);
    }
}

/// A prefix scan stops at the length or on a non-space, and everything it
/// skipped was whitespace.
proof fn lemma_prefix_end_props(s: Seq<char>, from: int)
    requires
        0 <= from <= s.len(),
    ensures
        from <= space_prefix_end(s, from) <= s.len(),
        space_prefix_end(s, from) < s.len() ==> !is_space(s[space_prefix_end(s, from)]),
        forall|j: int| from <= j < space_prefix_end(s, from) ==> is_space(#[trigger] s[j]),
    decreases s.len() - from,
{
    if from < s.len() && is_space(s[from]) {
        lemma_prefix_end_props(s, from + 1);
    }
}

/// A suffix scan stops at zero or just past a non-space.
proof fn lemma_suffix_start_props(s: Seq<char>, to: int)
    requires
        0 <= to <= s.len(),
    ensures
        0 <= space_suffix_start(s, to) <= to,
        space_suffix_start(s, to) > 0 ==> !is_space(s[space_suffix_start(s, to) - 1]),
    decreases to,
{
    if to > 0 && to <= s.len() && is_space(s[to - 1]) {
        lemma_suffix_start_props(s, to - 1);
    }
}

/// Trimming is a fixpoint: a trimmed text has no whitespace left at either
/// end, so trimming it again changes nothing. In particular a title the
/// service has normalized stays as it is, however often it is re-normalized.
pub proof fn lemma_trimmed_is_fixpoint(s: Seq<char>)
    ensures
        trimmed(trimmed(s)) == trimmed(s),
{
    let start = space_prefix_end(s, 0);
    lemma_prefix_end_props(s, 0);
    if start == s.len() {
        assert(trimmed(s) =~= Seq::<char>::empty());
    } else {
        let end = space_suffix_start(s, s.len() as int);
        lemma_suffix_start_props(s, s.len() as int);
        lemma_suffix_start_past_nonspace(s, start, s.len() as int);
        let t = s.subrange(start, end);
        assert(!is_space(t[0]));
        assert(!is_space(t[t.len() - 1]));
        assert(space_prefix_end(t, 0) == 0);
        assert(space_suffix_start(t, t.len() as int) == t.len());
        assert(trimmed(t) =~= t);
    }
}

/// Strip leading and trailing whitespace.
pub fn trim_str(s: &str) -> (r: String)
    ensures
        r@ == trimmed(s@),
{
    let n = s.unicode_len();
    let mut start: usize = 0;
    while start < n && is_space_char(s.get_char(start))
        invariant
            start <= n,
            n == s@.len(),
            space_prefix_end(s@, 0) == space_prefix_end(s@, start as int),
        decreases n - start,
    {
        start = start + 1;
    }
    if start == n {
        return String::new();
    }
    let mut end: usize = n;
    while end > 0 && is_space_char(s.get_char(end - 1))
        invariant
            end <= n,
            n == s@.len(),
            space_suffix_start(s@, n as int) == space_suffix_start(s@, end as int),
        decreases end,
    {
        end = end - 1;
    }
    proof {
        lemma_suffix_start_past_nonspace(s@, start as int, n as int);
    }
    s.substring_char(start, end).to_owned()
}

/// The repository's absence report, surfaced as the service's distinct
/// error: a present todo passes through, absence becomes `TodoNotFound`
/// carrying the requested id.
fn ok_or_not_found(found: Option<Todo>, id: i64) -> (r: Result<Todo>)
    ensures
        found matches Some(t) ==> r == Ok::<Todo, TaskyError>(t),
        found is None ==> r == Err::<Todo, TaskyError>(TaskyError::TodoNotFound { id }),
{
    match found {
        Some(t) => Ok(t),
        None => Err(TaskyError::TodoNotFound { id }),
    }
}

/// The repository's deletion report, surfaced the same way: an actual
/// removal passes through as true, a miss becomes `TodoNotFound` carrying
/// the requested id.
fn deleted_or_not_found(deleted: bool, id: i64) -> (r: Result<bool>)
    ensures
        deleted ==> r == Ok::<bool, TaskyError>(true),
        !deleted ==> r == Err::<bool, TaskyError>(TaskyError::TodoNotFound { id }),
{
    if deleted {
        Ok(true)
    } else {
        Err(TaskyError::TodoNotFound { id })
    }
}

// ---------------------------------------------------------------------------
// The derived views' queries
// ---------------------------------------------------------------------------

/// The query of the "due today" view: only a due-date window, covering
/// exactly the day between the two bounds inclusively (the filter's
/// comparisons are strict, so each bound is widened by one second), sorted
/// by due date ascending.
pub fn today_view_query(start: Instant, end: Instant) -> (r: (TodoFilter, SortBy, SortOrder))
    requires
        crate::calendar::in_encodable_range(start as int),
        crate::calendar::in_encodable_range(end as int),
    ensures
        r.0.status is None,
        r.0.priority is None,
        r.0.created_before is None,
        r.0.created_after is None,
        r.0.due_after matches Some(a) && a == start - 1,
        r.0.due_before matches Some(b) && b == end + 1,
        r.1 == SortBy::DueDate,
        r.2 == SortOrder::Asc,
{
    let mut filter = TodoFilter::default();
    filter.due_after = Some(start - 1);
    filter.due_before = Some(end + 1);
    (filter, SortBy::DueDate, SortOrder::Asc)
}

/// The query of the "urgent" view: still pending and of high priority,
/// nothing else constrained, sorted by due date ascending.
pub fn urgent_view_query() -> (r: (TodoFilter, SortBy, SortOrder))
    ensures
        r.0.status == Some(Status::Pending),
        r.0.priority == Some(Priority::High),
        r.0.created_before is None,
        r.0.created_after is None,
        r.0.due_before is None,
        r.0.due_after is None,
        r.1 == SortBy::DueDate,
        r.2 == SortOrder::Asc,
{
    let mut filter = TodoFilter::default();
    filter.status = Some(Status::Pending);
    filter.priority = Some(Priority::High);
    (filter, SortBy::DueDate, SortOrder::Asc)
}

/// The query of the "overdue" view: still pending with a due date strictly
/// before the given cutoff (today's local midnight), nothing else
/// constrained, sorted by due date ascending.
pub fn overdue_view_query(cutoff: Instant) -> (r: (TodoFilter, SortBy, SortOrder))
    ensures
        r.0.status == Some(Status::Pending),
        r.0.priority is None,
        r.0.created_before is None,
        r.0.created_after is None,
        r.0.due_before == Some(cutoff),
        r.0.due_after is None,
        r.1 == SortBy::DueDate,
        r.2 == SortOrder::Asc,
{
    let mut filter = TodoFilter::default();
    filter.status = Some(Status::Pending);
    filter.due_before = Some(cutoff);
    (filter, SortBy::DueDate, SortOrder::Asc)
}

// ---------------------------------------------------------------------------
// The service
// ---------------------------------------------------------------------------

/// The service over one owned store handle, held for the life of the
/// process's service instance.
pub struct DefaultTodoService {
    db: Database,
}

impl DefaultTodoService {
    /// A service over an already-opened store.
    pub fn new(db: Database) -> DefaultTodoService {
        DefaultTodoService { db }
    }

    /// A service over a fresh in-memory store, initialized.
    pub fn in_memory() -> (r: Result<DefaultTodoService>)
        ensures
            r matches Err(e) ==> e matches TaskyError::Database(_),
    {
        let db = match Database::in_memory() {
            Ok(db) => db,
            Err(e) => {
                return Err(e);
            },
        };
        match db.initialize() {
            Ok(_) => (),
            Err(e) => {
                return Err(e);
            },
        }
        Ok(DefaultTodoService::new(db))
    }

    /// Reject a creation request whose title is empty after trimming or over
    /// 200 characters, or whose description is over 1000 characters after
    /// trimming; each rejection is distinct and happens before any store
    /// access.
    fn validate_create_todo(&self, todo: &CreateTodo) -> (r: Result<()>)
        ensures
            ({
                let tt = trimmed(todo.title@);
                let dok = match todo.description {
                    Some(d) => trimmed(d@).len() <= 1000,
                    None => true,
                };
                &&& (r matches Err(TaskyError::EmptyTitle) <==> tt.len() == 0)
                &&& (tt.len() > 200 ==> (r matches Err(TaskyError::InvalidInput { message })
                    && message@ == "제목은 200자를 초과할 수 없습니다."@))
                &&& (1 <= tt.len() <= 200 && !dok ==> (r matches Err(
                    TaskyError::InvalidInput { message },
                ) && message@ == "설명은 1000자를 초과할 수 없습니다."@))
                &&& (r is Ok <==> 1 <= tt.len() <= 200 && dok)
                &&& (r matches Err(e) ==> (e matches TaskyError::EmptyTitle || e
                    matches TaskyError::InvalidInput { message: _ }))
            }),
    {
        let t = trim_str(todo.title.as_str());
        if t.as_str().unicode_len() == 0 {
            return Err(TaskyError::EmptyTitle);
        }
        if t.as_str().unicode_len() > 200 {
            return Err(
                TaskyError::InvalidInput {
                    message: "제목은 200자를 초과할 수 없습니다.".to_owned(),
                },
            );
        }
        match &todo.description {
            Some(d) => {
                let dt = trim_str(d.as_str());
                if dt.as_str().unicode_len() > 1000 {
                    return Err(
                        TaskyError::InvalidInput {
                            message: "설명은 1000자를 초과할 수 없습니다.".to_owned(),
                        },
                    );
                }
            },
            None => (),
        }
        Ok(())
    }

    /// Reject a patch whose present title is empty after trimming or over
    /// 200 characters, or whose present description is over 1000 characters
    /// after trimming.
    fn validate_update_todo(&self, todo: &UpdateTodo) -> (r: Result<()>)
        ensures
            ({
                let tok = match todo.title {
                    Some(t) => 1 <= trimmed(t@).len() <= 200,
                    None => true,
                };
                let tempty = match todo.title {
                    Some(t) => trimmed(t@).len() == 0,
                    None => false,
                };
                let tlong = match todo.title {
                    Some(t) => trimmed(t@).len() > 200,
                    None => false,
                };
                let dok = match todo.description {
                    Some(d) => trimmed(d@).len() <= 1000,
                    None => true,
                };
                &&& (r matches Err(TaskyError::EmptyTitle) <==> tempty)
                &&& (tlong ==> (r matches Err(TaskyError::InvalidInput { message }) && message@
                    == "제목은 200자를 초과할 수 없습니다."@))
                &&& (tok && !dok ==> (r matches Err(TaskyError::InvalidInput { message })
                    && message@ == "설명은 1000자를 초과할 수 없습니다."@))
                &&& (r is Ok <==> tok && dok)
                &&& (r matches Err(e) ==> (e matches TaskyError::EmptyTitle || e
                    matches TaskyError::InvalidInput { message: _ }))
            }),
    {
        match &todo.title {
            Some(title) => {
                let t = trim_str(title.as_str());
                if t.as_str().unicode_len() == 0 {
                    return Err(TaskyError::EmptyTitle);
                }
                if t.as_str().unicode_len() > 200 {
                    return Err(
                        TaskyError::InvalidInput {
                            message: "제목은 200자를 초과할 수 없습니다.".to_owned(),
                        },
                    );
                }
            },
            None => (),
        }
        match &todo.description {
            Some(d) => {
                let dt = trim_str(d.as_str());
                if dt.as_str().unicode_len() > 1000 {
                    return Err(
                        TaskyError::InvalidInput {
                            message: "설명은 1000자를 초과할 수 없습니다.".to_owned(),
                        },
                    );
                }
            },
            None => (),
        }
        Ok(())
    }

    /// Create a todo: validate, trim the title and description, and insert.
    /// A whitespace-only title is rejected with `EmptyTitle` before the
    /// store is touched, so no row is persisted for it.
    pub fn create_todo(&self, create_todo: CreateTodo) -> (r: Result<Todo>)
        ensures
            ({
                let tt = trimmed(create_todo.title@);
                let dok = match create_todo.description {
                    Some(d) => trimmed(d@).len() <= 1000,
                    None => true,
                };
                &&& (r matches Err(TaskyError::EmptyTitle) <==> tt.len() == 0)
                &&& (tt.len() > 200 ==> (r matches Err(TaskyError::InvalidInput { message })
                    && message@ == "제목은 200자를 초과할 수 없습니다."@))
                &&& (1 <= tt.len() <= 200 && !dok ==> (r matches Err(
                    TaskyError::InvalidInput { message },
                ) && message@ == "설명은 1000자를 초과할 수 없습니다."@))
                &&& (r matches Ok(t) ==> ({
                    &&& 1 <= tt.len() <= 200 && dok
                    &&& t.title@ == tt
                    &&& (create_todo.description matches Some(d) ==> t.description matches Some(ds)
                        && ds@ == trimmed(d@))
                    &&& (create_todo.description is None ==> t.description is None)
                    &&& t.priority == create_todo.priority
                    &&& t.status == Status::Pending
                    &&& t.created_at == t.updated_at
                    &&& t.id is Some
                    &&& wf_todo(t)
                }))
                &&& (1 <= tt.len() <= 200 && dok ==> (r is Ok || (r matches Err(e) && e
                    matches TaskyError::Database(_))))
            }),
    {
        match self.validate_create_todo(&create_todo) {
            Ok(_) => (),
            Err(e) => {
                return Err(e);
            },
        }
        let title = trim_str(create_todo.title.as_str());
        let description = match &create_todo.description {
            Some(d) => Some(trim_str(d.as_str())),
            None => None,
        };
        let normalized = CreateTodo {
            title,
            description,
            priority: create_todo.priority,
            due_date: create_todo.due_date,
        };
        let repo = SqliteTodoRepository::new(self.db.conn());
        repo.create(&normalized)
    }

    /// Look a todo up by id; a missing id is `TodoNotFound` carrying that
    /// id (per `ok_or_not_found`), distinct from every store failure, and a
    /// found todo carries its stored id.
    pub fn get_todo_by_id(&self, id: i64) -> (r: Result<Todo>)
        ensures
            r matches Ok(t) ==> wf_todo(t) && t.id is Some,
            r matches Err(TaskyError::TodoNotFound { id: j }) ==> j == id,
            r matches Err(e) ==> (e matches TaskyError::TodoNotFound { id: _ } || store_failure(
                e,
            )),
    {
        let repo = SqliteTodoRepository::new(self.db.conn());
        match repo.find_by_id(id) {
            Ok(found) => ok_or_not_found(found, id),
            Err(e) => Err(e),
        }
    }

    /// List todos under an optional filter and ordering; absent descriptors
    /// fall back to their defaults (no constraint, newest first).
    pub fn list_todos(
        &self,
        filter: Option<TodoFilter>,
        sort_by: Option<SortBy>,
        sort_order: Option<SortOrder>,
    ) -> (r: Result<Vec<Todo>>)
        ensures
            r matches Ok(ts) ==> forall|i: int|
                0 <= i < ts@.len() ==> wf_todo(#[trigger] ts@[i]),
            r matches Err(e) ==> store_failure(e),
    {
        let repo = SqliteTodoRepository::new(self.db.conn());
        let filter = match filter {
            Some(f) => f,
            None => TodoFilter::default(),
        };
        let sort_by = match sort_by {
            Some(s) => s,
            None => SortBy::default(),
        };
        let sort_order = match sort_order {
            Some(o) => o,
            None => SortOrder::default(),
        };
        repo.find_all(&filter, sort_by, sort_order)
    }

    /// Update a todo: validate the patch, trim its present texts, overlay it
    /// on the current row, and write back. A missing id is `TodoNotFound`
    /// carrying that id; every present patch field is reflected in the
    /// result.
    pub fn update_todo(&self, id: i64, update_todo: UpdateTodo) -> (r: Result<Todo>)
        ensures
            ({
                let tempty = match update_todo.title {
                    Some(t) => trimmed(t@).len() == 0,
                    None => false,
                };
                let tlong = match update_todo.title {
                    Some(t) => trimmed(t@).len() > 200,
                    None => false,
                };
                let tok = match update_todo.title {
                    Some(t) => 1 <= trimmed(t@).len() <= 200,
                    None => true,
                };
                let dok = match update_todo.description {
                    Some(d) => trimmed(d@).len() <= 1000,
                    None => true,
                };
                &&& (r matches Err(TaskyError::EmptyTitle) <==> tempty)
                &&& (tlong ==> (r matches Err(TaskyError::InvalidInput { message }) && message@
                    == "제목은 200자를 초과할 수 없습니다."@))
                &&& (tok && !dok ==> (r matches Err(TaskyError::InvalidInput { message })
                    && message@ == "설명은 1000자를 초과할 수 없습니다."@))
                &&& (r matches Err(TaskyError::TodoNotFound { id: j }) ==> j == id)
                &&& (!(tok && dok) || r is Ok || (r matches Err(e) && (e
                    matches TaskyError::TodoNotFound { id: _ } || store_failure(e))))
                &&& (r matches Ok(t) ==> ({
                    &&& tok && dok
                    &&& wf_todo(t)
                    &&& t.id is Some
                    &&& t.updated_at >= t.created_at
                    &&& (update_todo.title matches Some(ti) ==> t.title@ == trimmed(ti@))
                    &&& (update_todo.description matches Some(d) ==> t.description matches Some(ds)
                        && ds@ == trimmed(d@))
                    &&& (update_todo.priority matches Some(p) ==> t.priority == p)
                    &&& (update_todo.status matches Some(st) ==> t.status == st)
                    &&& (update_todo.due_date matches Some(d) ==> t.due_date matches Some(c) && c
                        as int == crate::dates::clamped(d as int))
                }))
            }),
    {
        match self.validate_update_todo(&update_todo) {
            Ok(_) => (),
            Err(e) => {
                return Err(e);
            },
        }
        let title = match &update_todo.title {
            Some(t) => Some(trim_str(t.as_str())),
            None => None,
        };
        let description = match &update_todo.description {
            Some(d) => Some(trim_str(d.as_str())),
            None => None,
        };
        let patch = UpdateTodo {
            title,
            description,
            priority: update_todo.priority,
            status: update_todo.status,
            due_date: update_todo.due_date,
        };
        let repo = SqliteTodoRepository::new(self.db.conn());
        match repo.update(id, &patch) {
            Ok(updated) => ok_or_not_found(updated, id),
            Err(e) => Err(e),
        }
    }

    /// Delete a todo; a missed id is `TodoNotFound` carrying that id (per
    /// `deleted_or_not_found`), so success always means a row was removed.
    pub fn delete_todo(&self, id: i64) -> (r: Result<bool>)
        ensures
            r matches Ok(b) ==> b,
            r matches Err(TaskyError::TodoNotFound { id: j }) ==> j == id,
            r matches Err(e) ==> (e matches TaskyError::TodoNotFound { id: _ } || store_failure(
                e,
            )),
    {
        let repo = SqliteTodoRepository::new(self.db.conn());
        match repo.delete(id) {
            Ok(deleted) => deleted_or_not_found(deleted, id),
            Err(e) => Err(e),
        }
    }

    /// Mark a todo done, through the same patch path as any other update, so
    /// it gets the same validation and update-time stamping.
    pub fn complete_todo(&self, id: i64) -> (r: Result<Todo>)
        ensures
            r matches Ok(t) ==> t.status == Status::Done && wf_todo(t),
            r matches Err(TaskyError::TodoNotFound { id: j }) ==> j == id,
            r matches Err(e) ==> (e matches TaskyError::TodoNotFound { id: _ } || store_failure(
                e,
            )),
    {
        let mut update = UpdateTodo::default();
        update.status = Some(Status::Done);
        self.update_todo(id, update)
    }

    /// Mark a todo pending again, through the same patch path.
    pub fn uncomplete_todo(&self, id: i64) -> (r: Result<Todo>)
        ensures
            r matches Ok(t) ==> t.status == Status::Pending && wf_todo(t),
            r matches Err(TaskyError::TodoNotFound { id: j }) ==> j == id,
            r matches Err(e) ==> (e matches TaskyError::TodoNotFound { id: _ } || store_failure(
                e,
            )),
    {
        let mut update = UpdateTodo::default();
        update.status = Some(Status::Pending);
        self.update_todo(id, update)
    }

    /// Complete several todos, isolating per-item failures: one missing id
    /// does not abort the rest. The successes and the failures together
    /// account for every requested id.
    pub fn complete_many(&self, ids: &Vec<i64>) -> (r: (usize, Vec<(i64, TaskyError)>))
        ensures
            r.0 + r.1@.len() == ids@.len(),
            forall|k: int|
                0 <= k < r.1@.len() ==> !((#[trigger] r.1@[k]).1 matches TaskyError::EmptyTitle),
    {
        let mut completed: usize = 0;
        let mut errors: Vec<(i64, TaskyError)> = Vec::new();
        let mut i: usize = 0;
        while i < ids.len()
            invariant
                i <= ids@.len(),
                completed + errors@.len() == i,
                forall|k: int|
                    0 <= k < errors@.len() ==> !((#[trigger] errors@[k]).1
                        matches TaskyError::EmptyTitle),
            decreases ids@.len() - i,
        {
            match self.complete_todo(ids[i]) {
                Ok(_) => {
                    completed = completed + 1;
                },
                Err(e) => {
                    errors.push((ids[i], e));
                },
            }
            i = i + 1;
        }
        (completed, errors)
    }

    /// Aggregate statistics of the whole table, drawn from one snapshot so
    /// the tallies are mutually consistent: pending and completed sum to the
    /// total, and the completion rate never divides by zero.
    pub fn get_stats(&self) -> (r: Result<TodoStats>)
        ensures
            r matches Ok(st) ==> ({
                &&& st.total_todos >= 0
                &&& st.pending_todos + st.completed_todos == st.total_todos
                &&& 0 <= st.pending_todos
                &&& 0 <= st.completed_todos
                &&& 0 <= st.high_priority_todos <= st.total_todos
                &&& 0 <= st.overdue_todos <= st.pending_todos
                &&& st.completion_rate_tenths == crate::repository::completion_tenths(
                    st.completed_todos as int,
                    st.total_todos as int,
                )
                &&& 0 <= st.completion_rate_tenths <= 1000
            }),
    {
        let repo = SqliteTodoRepository::new(self.db.conn());
        repo.get_stats()
    }

    /// Todos due today: the query `today_view_query` pins — due date within
    /// today's local day inclusively, soonest first.
    pub fn get_today_todos(&self) -> (r: Result<Vec<Todo>>)
        ensures
            r matches Ok(ts) ==> forall|i: int|
                0 <= i < ts@.len() ==> wf_todo(#[trigger] ts@[i]),
            r matches Err(e) ==> store_failure(e),
    {
        let start = crate::dates::today_start();
        let end = crate::dates::today_end();
        let (filter, sort_by, sort_order) = today_view_query(start, end);
        self.list_todos(Some(filter), Some(sort_by), Some(sort_order))
    }

    /// Urgent todos: the query `urgent_view_query` pins — still pending and
    /// of high priority, soonest first.
    pub fn get_urgent_todos(&self) -> (r: Result<Vec<Todo>>)
        ensures
            r matches Ok(ts) ==> forall|i: int|
                0 <= i < ts@.len() ==> wf_todo(#[trigger] ts@[i]),
            r matches Err(e) ==> store_failure(e),
    {
        let (filter, sort_by, sort_order) = urgent_view_query();
        self.list_todos(Some(filter), Some(sort_by), Some(sort_order))
    }

    /// Overdue todos: the query `overdue_view_query` pins — still pending
    /// with a due date before today's local midnight, soonest first.
    pub fn get_overdue_todos(&self) -> (r: Result<Vec<Todo>>)
        ensures
            r matches Ok(ts) ==> forall|i: int|
                0 <= i < ts@.len() ==> wf_todo(#[trigger] ts@[i]),
            r matches Err(e) ==> store_failure(e),
    {
        let cutoff = crate::dates::today_start();
        let (filter, sort_by, sort_order) = overdue_view_query(cutoff);
        self.list_todos(Some(filter), Some(sort_by), Some(sort_order))
    }
}

} // verus!
