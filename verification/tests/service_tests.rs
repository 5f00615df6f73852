use tasky::dates::current_instant;
use tasky::models::CreateTodo;
use tasky::models::Priority;
use tasky::models::SortBy;
use tasky::models::SortOrder;
use tasky::models::Status;
use tasky::service::overdue_view_query;
use tasky::service::today_view_query;
use tasky::service::urgent_view_query;
use tasky::service::DefaultTodoService;
use tasky::service::trim_str;
use tasky::models::UpdateTodo;
use tasky::TaskyError;

#[test]
fn test_create_todo() {
    let service = DefaultTodoService::in_memory().unwrap();

    let create = CreateTodo::new("테스트 할일".to_string());
    let todo = service.create_todo(create).unwrap();

    assert_eq!(todo.title, "테스트 할일");
    assert_eq!(todo.status, Status::Pending);
    assert_eq!(todo.priority, Priority::Medium);
}

#[test]
fn test_complete_todo() {
    let service = DefaultTodoService::in_memory().unwrap();

    let create = CreateTodo::new("완료할 할일".to_string());
    let todo = service.create_todo(create).unwrap();
    let id = todo.id.unwrap();

    let completed = service.complete_todo(id).unwrap();
    assert_eq!(completed.status, Status::Done);

    let uncompleted = service.uncomplete_todo(id).unwrap();
    assert_eq!(uncompleted.status, Status::Pending);
}

#[test]
fn test_validate_empty_title() {
    let service = DefaultTodoService::in_memory().unwrap();

    let create = CreateTodo::new("   ".to_string());
    let result = service.create_todo(create);

    assert!(result.is_err());
    assert!(matches!(result.unwrap_err(), TaskyError::EmptyTitle));
}

#[test]
fn test_delete_todo() {
    let service = DefaultTodoService::in_memory().unwrap();

    let create = CreateTodo::new("삭제할 할일".to_string());
    let todo = service.create_todo(create).unwrap();
    let id = todo.id.unwrap();

    let deleted = service.delete_todo(id).unwrap();
    assert!(deleted);

    let result = service.get_todo_by_id(id);
    assert!(result.is_err());
}

#[test]
fn test_get_stats() {
    let service = DefaultTodoService::in_memory().unwrap();

    service
        .create_todo(CreateTodo::new("할일 1".to_string()).with_priority(Priority::High))
        .unwrap();

    service.create_todo(CreateTodo::new("할일 2".to_string())).unwrap();

    let todo3 = service.create_todo(CreateTodo::new("할일 3".to_string())).unwrap();
    service.complete_todo(todo3.id.unwrap()).unwrap();

    let stats = service.get_stats().unwrap();
    assert_eq!(stats.total_todos, 3);
    assert_eq!(stats.pending_todos, 2);
    assert_eq!(stats.completed_todos, 1);
    assert_eq!(stats.high_priority_todos, 1);
}

#[test]
fn test_overdue_todos() {
    let service = DefaultTodoService::in_memory().unwrap();

    // a todo due yesterday
    let yesterday = current_instant() - 86_400;
    let create_overdue = CreateTodo::new("늦은 할일".to_string()).with_due_date(yesterday);
    service.create_todo(create_overdue).unwrap();

    // a todo due today (must not count as overdue)
    let today = tasky::dates::today_start();
    let create_today = CreateTodo::new("오늘 할일".to_string()).with_due_date(today);
    service.create_todo(create_today).unwrap();

    // a todo due tomorrow (must not count as overdue)
    let tomorrow = current_instant() + 86_400;
    let create_future = CreateTodo::new("내일 할일".to_string()).with_due_date(tomorrow);
    service.create_todo(create_future).unwrap();

    // only yesterday's todo is overdue
    let overdue = service.get_overdue_todos().unwrap();
    assert_eq!(overdue.len(), 1);
    assert_eq!(overdue[0].title, "늦은 할일");

    // only today's todo is due today
    let today_todos = service.get_today_todos().unwrap();
    assert_eq!(today_todos.len(), 1);
    assert_eq!(today_todos[0].title, "오늘 할일");
}

#[test]
fn test_completion_rate() {
    let service = DefaultTodoService::in_memory().unwrap();
    let stats = service.get_stats().unwrap();
    assert_eq!(stats.total_todos, 0);
    assert_eq!(stats.completion_rate_tenths, 0);

    service.create_todo(CreateTodo::new("하나".to_string())).unwrap();
    service.create_todo(CreateTodo::new("둘".to_string())).unwrap();
    let third = service.create_todo(CreateTodo::new("셋".to_string())).unwrap();
    service.complete_todo(third.id.unwrap()).unwrap();

    let stats = service.get_stats().unwrap();
    // one of three complete: 33.3 percent, carried as tenths
    assert_eq!(stats.completion_rate_tenths, 333);
    assert_eq!(stats.pending_todos + stats.completed_todos, stats.total_todos);
}

#[test]
fn test_whitespace_title_persists_nothing() {
    let service = DefaultTodoService::in_memory().unwrap();
    let result = service.create_todo(CreateTodo::new("\t  \n".to_string()));
    assert!(matches!(result, Err(TaskyError::EmptyTitle)));
    let stats = service.get_stats().unwrap();
    assert_eq!(stats.total_todos, 0);
}

#[test]
fn test_create_trims_title_and_description() {
    let service = DefaultTodoService::in_memory().unwrap();
    let create = CreateTodo::new("  여백 있는 제목  ".to_string())
        .with_description("  여백 있는 설명  ".to_string());
    let todo = service.create_todo(create).unwrap();
    assert_eq!(todo.title, "여백 있는 제목");
    assert_eq!(todo.description.as_deref(), Some("여백 있는 설명"));
}

#[test]
fn test_title_length_limit() {
    let service = DefaultTodoService::in_memory().unwrap();
    let just_fits = "a".repeat(200);
    assert!(service.create_todo(CreateTodo::new(just_fits)).is_ok());
    let too_long = "a".repeat(201);
    match service.create_todo(CreateTodo::new(too_long)) {
        Err(TaskyError::InvalidInput { message }) => {
            assert_eq!(message, "제목은 200자를 초과할 수 없습니다.")
        },
        other => panic!("unexpected: {:?}", other),
    }
}

#[test]
fn test_description_length_limit() {
    let service = DefaultTodoService::in_memory().unwrap();
    let create = CreateTodo::new("제목".to_string()).with_description("b".repeat(1001));
    match service.create_todo(create) {
        Err(TaskyError::InvalidInput { message }) => {
            assert_eq!(message, "설명은 1000자를 초과할 수 없습니다.")
        },
        other => panic!("unexpected: {:?}", other),
    }
    let create = CreateTodo::new("제목".to_string()).with_description("b".repeat(1000));
    assert!(service.create_todo(create).is_ok());
}

#[test]
fn test_update_rejects_empty_title() {
    let service = DefaultTodoService::in_memory().unwrap();
    let todo = service.create_todo(CreateTodo::new("제목".to_string())).unwrap();
    let mut patch = UpdateTodo::default();
    patch.title = Some(" ".to_string());
    let result = service.update_todo(todo.id.unwrap(), patch);
    assert!(matches!(result, Err(TaskyError::EmptyTitle)));
}

#[test]
fn test_missing_id_reports_not_found() {
    let service = DefaultTodoService::in_memory().unwrap();
    match service.get_todo_by_id(999) {
        Err(TaskyError::TodoNotFound { id }) => assert_eq!(id, 999),
        other => panic!("unexpected: {:?}", other),
    }
    match service.delete_todo(999) {
        Err(TaskyError::TodoNotFound { id }) => assert_eq!(id, 999),
        other => panic!("unexpected: {:?}", other),
    }
    match service.complete_todo(999) {
        Err(TaskyError::TodoNotFound { id }) => assert_eq!(id, 999),
        other => panic!("unexpected: {:?}", other),
    }
}

#[test]
fn test_delete_then_find_is_gone() {
    let service = DefaultTodoService::in_memory().unwrap();
    let mut ids = Vec::new();
    for title in ["하나", "둘", "셋"] {
        ids.push(service.create_todo(CreateTodo::new(title.to_string())).unwrap().id.unwrap());
    }
    for id in &ids {
        service.delete_todo(*id).unwrap();
    }
    for id in &ids {
        assert!(matches!(service.get_todo_by_id(*id), Err(TaskyError::TodoNotFound { .. })));
    }
    assert_eq!(service.get_stats().unwrap().total_todos, 0);
}

#[test]
fn test_empty_filter_lists_everything() {
    let service = DefaultTodoService::in_memory().unwrap();
    for title in ["나", "가", "다"] {
        service.create_todo(CreateTodo::new(title.to_string())).unwrap();
    }
    let all = service.list_todos(None, None, None).unwrap();
    assert_eq!(all.len(), 3);

    // and the requested sort order is honored
    let by_title = service
        .list_todos(None, Some(SortBy::Title), Some(SortOrder::Asc))
        .unwrap();
    let titles: Vec<&str> = by_title.iter().map(|t| t.title.as_str()).collect();
    assert_eq!(titles, ["가", "나", "다"]);
    let by_title_desc = service
        .list_todos(None, Some(SortBy::Title), Some(SortOrder::Desc))
        .unwrap();
    let titles: Vec<&str> = by_title_desc.iter().map(|t| t.title.as_str()).collect();
    assert_eq!(titles, ["다", "나", "가"]);
}

#[test]
fn test_urgent_todos() {
    let service = DefaultTodoService::in_memory().unwrap();
    service
        .create_todo(CreateTodo::new("급함".to_string()).with_priority(Priority::High))
        .unwrap();
    let done_urgent = service
        .create_todo(CreateTodo::new("급했음".to_string()).with_priority(Priority::High))
        .unwrap();
    service.complete_todo(done_urgent.id.unwrap()).unwrap();
    service.create_todo(CreateTodo::new("느긋함".to_string())).unwrap();

    let urgent = service.get_urgent_todos().unwrap();
    assert_eq!(urgent.len(), 1);
    assert_eq!(urgent[0].title, "급함");
}

#[test]
fn test_complete_many_isolates_failures() {
    let service = DefaultTodoService::in_memory().unwrap();
    let a = service.create_todo(CreateTodo::new("하나".to_string())).unwrap().id.unwrap();
    let b = service.create_todo(CreateTodo::new("둘".to_string())).unwrap().id.unwrap();
    let ids = vec![a, 12_345, b];
    let (completed, errors) = service.complete_many(&ids);
    assert_eq!(completed, 2);
    assert_eq!(errors.len(), 1);
    assert_eq!(errors[0].0, 12_345);
    assert!(matches!(errors[0].1, TaskyError::TodoNotFound { id: 12_345 }));
    assert_eq!(service.get_stats().unwrap().completed_todos, 2);
}

#[test]
fn test_update_due_date_and_status_together() {
    let service = DefaultTodoService::in_memory().unwrap();
    let todo = service.create_todo(CreateTodo::new("제목".to_string())).unwrap();
    let mut patch = UpdateTodo::default();
    patch.status = Some(Status::Done);
    patch.due_date = Some(1_700_000_000);
    patch.priority = Some(Priority::Low);
    let after = service.update_todo(todo.id.unwrap(), patch).unwrap();
    assert_eq!(after.status, Status::Done);
    assert_eq!(after.due_date, Some(1_700_000_000));
    assert_eq!(after.priority, Priority::Low);
    assert_eq!(after.title, "제목");
}

#[test]
fn test_trim_str() {
    assert_eq!(trim_str("  hello  "), "hello");
    assert_eq!(trim_str("\t\n안녕 하세요 \r\n"), "안녕 하세요");
    assert_eq!(trim_str("   "), "");
    assert_eq!(trim_str(""), "");
    assert_eq!(trim_str("no-spaces"), "no-spaces");
}

#[test]
fn test_view_queries() {
    let (f, by, order) = urgent_view_query();
    assert_eq!(f.status, Some(Status::Pending));
    assert_eq!(f.priority, Some(Priority::High));
    assert_eq!(f.due_before, None);
    assert_eq!(f.due_after, None);
    assert_eq!(by, SortBy::DueDate);
    assert_eq!(order, SortOrder::Asc);

    let (f, by, order) = overdue_view_query(1_700_000_000);
    assert_eq!(f.status, Some(Status::Pending));
    assert_eq!(f.priority, None);
    assert_eq!(f.due_before, Some(1_700_000_000));
    assert_eq!(f.due_after, None);
    assert_eq!(by, SortBy::DueDate);
    assert_eq!(order, SortOrder::Asc);

    // the bounds widen by one second, making the day range inclusive
    let (f, by, order) = today_view_query(1_700_000_000, 1_700_086_399);
    assert_eq!(f.status, None);
    assert_eq!(f.priority, None);
    assert_eq!(f.due_after, Some(1_699_999_999));
    assert_eq!(f.due_before, Some(1_700_086_400));
    assert_eq!(by, SortBy::DueDate);
    assert_eq!(order, SortOrder::Asc);
}
