use tasky::models::CreateTodo;
use tasky::models::Priority;
use tasky::models::SortBy;
use tasky::models::SortOrder;
use tasky::models::Status;
use tasky::models::TodoFilter;
use tasky::models::UpdateTodo;
use tasky::repository::build_filter_clause;
use tasky::repository::build_order_clause;
use tasky::repository::SqliteTodoRepository;
use tasky::store::run_migrations;
use tasky::store::Database;
use tasky::store::SqlParam;

#[test]
fn test_in_memory_database() {
    let db = Database::in_memory();
    assert!(db.is_ok());
}

#[test]
fn test_create_todos_table() {
    let conn = rusqlite::Connection::open_in_memory().unwrap();
    let result = run_migrations(&conn);
    assert!(result.is_ok());

    let count: i32 = conn
        .query_row(
            "SELECT COUNT(*) FROM sqlite_master WHERE type='table' AND name='todos'",
            [],
            |row| row.get(0),
        )
        .unwrap();
    assert_eq!(count, 1);
}

#[test]
fn test_run_migrations() {
    let conn = rusqlite::Connection::open_in_memory().unwrap();
    let result = run_migrations(&conn);
    assert!(result.is_ok());

    // running the migrations again must not fail
    let result = run_migrations(&conn);
    assert!(result.is_ok());
}

#[test]
fn test_initialize_is_idempotent() {
    let db = Database::in_memory().unwrap();
    assert!(db.initialize().is_ok());
    assert!(db.is_initialized());
    assert!(db.initialize().is_ok());
    assert!(db.is_initialized());
}

#[test]
fn test_reinitialize_in_place() {
    let db = Database::in_memory().unwrap();
    db.initialize().unwrap();
    let repo = SqliteTodoRepository::new(db.conn());
    repo.create(&CreateTodo::new("남을 리 없는 할일".to_string())).unwrap();
    assert!(db.reinitialize_in_place().is_ok());
    assert!(db.is_initialized());
    let stats = repo.get_stats().unwrap();
    assert_eq!(stats.total_todos, 0);
}

#[test]
fn test_create_and_find() {
    let db = Database::in_memory().unwrap();
    db.initialize().unwrap();
    let repo = SqliteTodoRepository::new(db.conn());

    let create_todo = CreateTodo::new("테스트 할일".to_string());
    let created = repo.create(&create_todo).unwrap();

    assert!(created.id.is_some());
    assert_eq!(created.title, "테스트 할일");

    let found = repo.find_by_id(created.id.unwrap()).unwrap();
    assert!(found.is_some());
    assert_eq!(found.unwrap().title, "테스트 할일");
}

#[test]
fn test_update() {
    let db = Database::in_memory().unwrap();
    db.initialize().unwrap();
    let repo = SqliteTodoRepository::new(db.conn());

    let create_todo = CreateTodo::new("원래 제목".to_string());
    let created = repo.create(&create_todo).unwrap();
    let id = created.id.unwrap();

    let mut update_todo = UpdateTodo::default();
    update_todo.title = Some("수정된 제목".to_string());

    let updated = repo.update(id, &update_todo).unwrap();
    assert!(updated.is_some());
    assert_eq!(updated.unwrap().title, "수정된 제목");
}

#[test]
fn test_delete() {
    let db = Database::in_memory().unwrap();
    db.initialize().unwrap();
    let repo = SqliteTodoRepository::new(db.conn());

    let create_todo = CreateTodo::new("삭제될 할일".to_string());
    let created = repo.create(&create_todo).unwrap();
    let id = created.id.unwrap();

    let deleted = repo.delete(id).unwrap();
    assert!(deleted);

    let found = repo.find_by_id(id).unwrap();
    assert!(found.is_none());
}

#[test]
fn test_create_preserves_fields() {
    let db = Database::in_memory().unwrap();
    db.initialize().unwrap();
    let repo = SqliteTodoRepository::new(db.conn());

    let request = CreateTodo::new("현장 점검".to_string())
        .with_description("작업 목록 확인".to_string())
        .with_priority(Priority::High)
        .with_due_date(1_700_000_000);
    let created = repo.create(&request).unwrap();
    assert!(created.id.is_some());
    assert_eq!(created.title, "현장 점검");
    assert_eq!(created.description.as_deref(), Some("작업 목록 확인"));
    assert_eq!(created.priority, Priority::High);
    assert_eq!(created.status, Status::Pending);
    assert_eq!(created.due_date, Some(1_700_000_000));
    assert_eq!(created.created_at, created.updated_at);

    // and the same row comes back from the store, field for field
    let found = repo.find_by_id(created.id.unwrap()).unwrap().unwrap();
    assert_eq!(found.id, created.id);
    assert_eq!(found.title, created.title);
    assert_eq!(found.description, created.description);
    assert_eq!(found.priority, created.priority);
    assert_eq!(found.status, created.status);
    assert_eq!(found.created_at, created.created_at);
    assert_eq!(found.updated_at, created.updated_at);
    assert_eq!(found.due_date, created.due_date);
}

#[test]
fn test_create_assigns_fresh_ids() {
    let db = Database::in_memory().unwrap();
    db.initialize().unwrap();
    let repo = SqliteTodoRepository::new(db.conn());
    let a = repo.create(&CreateTodo::new("하나".to_string())).unwrap().id.unwrap();
    let b = repo.create(&CreateTodo::new("둘".to_string())).unwrap().id.unwrap();
    let c = repo.create(&CreateTodo::new("셋".to_string())).unwrap().id.unwrap();
    assert!(a != b && b != c && a != c);
    // AUTOINCREMENT never reuses an id, even after a delete
    assert!(repo.delete(c).unwrap());
    let d = repo.create(&CreateTodo::new("넷".to_string())).unwrap().id.unwrap();
    assert!(d != a && d != b && d != c);
}

#[test]
fn test_update_preserves_unpatched_fields() {
    let db = Database::in_memory().unwrap();
    db.initialize().unwrap();
    let repo = SqliteTodoRepository::new(db.conn());
    let created = repo
        .create(
            &CreateTodo::new("바꾸기 전".to_string())
                .with_description("그대로".to_string())
                .with_priority(Priority::Low)
                .with_due_date(1_700_000_000),
        )
        .unwrap();
    let id = created.id.unwrap();

    let mut patch = UpdateTodo::default();
    patch.title = Some("바꾼 후".to_string());
    let after = repo.update(id, &patch).unwrap().unwrap();
    assert_eq!(after.title, "바꾼 후");
    assert_eq!(after.description, created.description);
    assert_eq!(after.priority, created.priority);
    assert_eq!(after.status, created.status);
    assert_eq!(after.created_at, created.created_at);
    assert_eq!(after.due_date, created.due_date);
    assert!(after.updated_at >= created.updated_at);
    assert!(after.updated_at >= after.created_at);
}

#[test]
fn test_update_missing_id_is_none() {
    let db = Database::in_memory().unwrap();
    db.initialize().unwrap();
    let repo = SqliteTodoRepository::new(db.conn());
    let mut patch = UpdateTodo::default();
    patch.title = Some("없는 할일".to_string());
    assert!(repo.update(424_242, &patch).unwrap().is_none());
    assert!(!repo.delete(424_242).unwrap());
}

#[test]
fn test_filter_clause_text() {
    let mut filter = TodoFilter::default();
    let (clause, params) = build_filter_clause(&filter);
    assert_eq!(clause, "");
    assert!(params.is_empty());

    filter.status = Some(Status::Pending);
    filter.priority = Some(Priority::High);
    let (clause, params) = build_filter_clause(&filter);
    assert_eq!(clause, "WHERE status = ? AND priority = ?");
    assert_eq!(params.len(), 2);
    assert!(matches!(params[0], SqlParam::Int(0)));
    assert!(matches!(params[1], SqlParam::Int(2)));

    filter.due_before = Some(0);
    let (clause, params) = build_filter_clause(&filter);
    assert_eq!(clause, "WHERE status = ? AND priority = ? AND due_date < ?");
    assert_eq!(params.len(), 3);
    match &params[2] {
        SqlParam::Text(s) => assert_eq!(s, "1970-01-01 00:00:00"),
        other => panic!("unexpected: {:?}", other),
    }
}

#[test]
fn test_order_clause_text() {
    assert_eq!(build_order_clause(SortBy::CreatedAt, SortOrder::Desc), "ORDER BY created_at DESC");
    assert_eq!(build_order_clause(SortBy::Title, SortOrder::Asc), "ORDER BY title ASC");
    assert_eq!(build_order_clause(SortBy::DueDate, SortOrder::Asc), "ORDER BY due_date ASC");
    assert_eq!(build_order_clause(SortBy::Priority, SortOrder::Desc), "ORDER BY priority DESC");
    assert_eq!(build_order_clause(SortBy::UpdatedAt, SortOrder::Asc), "ORDER BY updated_at ASC");
}

#[test]
fn test_filtered_queries_hit_the_store() {
    let db = Database::in_memory().unwrap();
    db.initialize().unwrap();
    let repo = SqliteTodoRepository::new(db.conn());
    repo.create(&CreateTodo::new("급한 일".to_string()).with_priority(Priority::High)).unwrap();
    repo.create(&CreateTodo::new("느긋한 일".to_string()).with_priority(Priority::Low)).unwrap();

    let mut filter = TodoFilter::default();
    filter.priority = Some(Priority::High);
    let found = repo.find_all(&filter, SortBy::CreatedAt, SortOrder::Desc).unwrap();
    assert_eq!(found.len(), 1);
    assert_eq!(found[0].title, "급한 일");

    let all = repo.find_all(&TodoFilter::default(), SortBy::Title, SortOrder::Asc).unwrap();
    assert_eq!(all.len(), 2);
}
