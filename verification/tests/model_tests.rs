use tasky::models::CreateTodo;
use tasky::models::Priority;
use tasky::models::SortBy;
use tasky::models::SortOrder;
use tasky::models::Status;
use tasky::models::Todo;
use tasky::models::UpdateTodo;
use tasky::TaskyError;

#[test]
fn test_priority_from_str() {
    assert!(matches!(Priority::from_str("low"), Ok(Priority::Low)));
    assert!(matches!(Priority::from_str("LOW"), Ok(Priority::Low)));
    assert!(matches!(Priority::from_str("l"), Ok(Priority::Low)));
    assert!(matches!(Priority::from_str("낮음"), Ok(Priority::Low)));
    assert!(matches!(Priority::from_str("medium"), Ok(Priority::Medium)));
    assert!(matches!(Priority::from_str("보통"), Ok(Priority::Medium)));
    assert!(matches!(Priority::from_str("M"), Ok(Priority::Medium)));
    assert!(matches!(Priority::from_str("High"), Ok(Priority::High)));
    assert!(matches!(Priority::from_str("높음"), Ok(Priority::High)));
    assert!(matches!(Priority::from_str("h"), Ok(Priority::High)));
    match Priority::from_str("banana") {
        Err(TaskyError::InvalidPriority { priority }) => assert_eq!(priority, "banana"),
        other => panic!("unexpected: {:?}", other),
    }
}

#[test]
fn test_priority_display() {
    assert_eq!(Priority::Low.to_display_string(), "낮음");
    assert_eq!(Priority::Medium.to_display_string(), "보통");
    assert_eq!(Priority::High.to_display_string(), "높음");
    assert_eq!(Priority::Low.to_emoji(), "🟢");
    assert_eq!(Priority::Medium.to_emoji(), "🟡");
    assert_eq!(Priority::High.to_emoji(), "🔴");
    assert_eq!(Priority::default(), Priority::Medium);
}

#[test]
fn test_priority_codes() {
    assert_eq!(Priority::Low.code(), 0);
    assert_eq!(Priority::Medium.code(), 1);
    assert_eq!(Priority::High.code(), 2);
    assert_eq!(Priority::from_code(0), Priority::Low);
    assert_eq!(Priority::from_code(1), Priority::Medium);
    assert_eq!(Priority::from_code(2), Priority::High);
    // out-of-range integers decode defensively to the default
    assert_eq!(Priority::from_code(99), Priority::Medium);
    assert_eq!(Priority::from_code(-1), Priority::Medium);
}

#[test]
fn test_status_from_str() {
    assert!(matches!(Status::from_str("pending"), Ok(Status::Pending)));
    assert!(matches!(Status::from_str("대기"), Ok(Status::Pending)));
    assert!(matches!(Status::from_str("P"), Ok(Status::Pending)));
    assert!(matches!(Status::from_str("done"), Ok(Status::Done)));
    assert!(matches!(Status::from_str("완료"), Ok(Status::Done)));
    assert!(matches!(Status::from_str("D"), Ok(Status::Done)));
    match Status::from_str("nope") {
        Err(TaskyError::InvalidStatus { status }) => assert_eq!(status, "nope"),
        other => panic!("unexpected: {:?}", other),
    }
}

#[test]
fn test_status_display() {
    assert_eq!(Status::Pending.to_display_string(), "대기중");
    assert_eq!(Status::Done.to_display_string(), "완료");
    assert_eq!(Status::Pending.to_emoji(), "⏳");
    assert_eq!(Status::Done.to_emoji(), "✅");
    assert_eq!(Status::default(), Status::Pending);
    assert_eq!(Status::from_code(1), Status::Done);
    assert_eq!(Status::from_code(5), Status::Pending);
}

#[test]
fn test_sort_by_from_str() {
    assert!(matches!(SortBy::from_str("created"), Ok(SortBy::CreatedAt)));
    assert!(matches!(SortBy::from_str("created_at"), Ok(SortBy::CreatedAt)));
    assert!(matches!(SortBy::from_str("updated"), Ok(SortBy::UpdatedAt)));
    assert!(matches!(SortBy::from_str("due"), Ok(SortBy::DueDate)));
    assert!(matches!(SortBy::from_str("priority"), Ok(SortBy::Priority)));
    assert!(matches!(SortBy::from_str("Title"), Ok(SortBy::Title)));
    match SortBy::from_str("height") {
        Err(TaskyError::InvalidSortBy { sort_by }) => assert_eq!(sort_by, "height"),
        other => panic!("unexpected: {:?}", other),
    }
    assert_eq!(SortBy::default(), SortBy::CreatedAt);
}

#[test]
fn test_sort_order_from_str() {
    assert!(matches!(SortOrder::from_str("asc"), Ok(SortOrder::Asc)));
    assert!(matches!(SortOrder::from_str("ascending"), Ok(SortOrder::Asc)));
    assert!(matches!(SortOrder::from_str("desc"), Ok(SortOrder::Desc)));
    // anything unrecognized means descending rather than an error
    assert!(matches!(SortOrder::from_str("sideways"), Ok(SortOrder::Desc)));
    assert_eq!(SortOrder::default(), SortOrder::Desc);
}

#[test]
fn test_create_todo_builder() {
    let c = CreateTodo::new("장보기".to_string())
        .with_description("우유, 달걀".to_string())
        .with_priority(Priority::High)
        .with_due_date(1_700_000_000);
    assert_eq!(c.title, "장보기");
    assert_eq!(c.description.as_deref(), Some("우유, 달걀"));
    assert_eq!(c.priority, Priority::High);
    assert_eq!(c.due_date, Some(1_700_000_000));
}

#[test]
fn test_apply_patch_changes_only_present_fields() {
    let current = Todo {
        id: Some(7),
        title: "원래 제목".to_string(),
        description: Some("설명".to_string()),
        priority: Priority::Low,
        status: Status::Pending,
        created_at: 1_700_000_000,
        updated_at: 1_700_000_000,
        due_date: Some(1_700_086_400),
    };
    let mut patch = UpdateTodo::default();
    patch.title = Some("새 제목".to_string());
    let after = patch.apply_to(&current, 1_700_172_800);
    assert_eq!(after.id, Some(7));
    assert_eq!(after.title, "새 제목");
    assert_eq!(after.description.as_deref(), Some("설명"));
    assert_eq!(after.priority, Priority::Low);
    assert_eq!(after.status, Status::Pending);
    assert_eq!(after.created_at, 1_700_000_000);
    assert_eq!(after.updated_at, 1_700_172_800);
    assert_eq!(after.due_date, Some(1_700_086_400));
}

#[test]
fn test_apply_empty_patch_restamps_only_updated_at() {
    let current = Todo {
        id: Some(1),
        title: "t".to_string(),
        description: None,
        priority: Priority::Medium,
        status: Status::Done,
        created_at: 100,
        updated_at: 200,
        due_date: None,
    };
    let patch = UpdateTodo::default();
    let after = patch.apply_to(&current, 300);
    assert_eq!(after.title, "t");
    assert_eq!(after.status, Status::Done);
    assert_eq!(after.updated_at, 300);
    assert_eq!(after.created_at, 100);
    assert_eq!(after.due_date, None);
}

#[test]
fn test_is_overdue_at() {
    let t = Todo {
        id: Some(1),
        title: "t".to_string(),
        description: None,
        priority: Priority::Medium,
        status: Status::Pending,
        created_at: 0,
        updated_at: 0,
        due_date: Some(1000),
    };
    assert!(t.is_overdue_at(1001));
    assert!(!t.is_overdue_at(1000));
    assert!(!t.is_overdue_at(999));
    let done = Todo { status: Status::Done, ..t.clone() };
    assert!(!done.is_overdue_at(1001));
    let undated = Todo { due_date: None, ..t };
    assert!(!undated.is_overdue_at(1001));
}

#[test]
fn test_days_until_due_at() {
    let t = Todo {
        id: Some(1),
        title: "t".to_string(),
        description: None,
        priority: Priority::Medium,
        status: Status::Pending,
        created_at: 0,
        updated_at: 0,
        due_date: Some(200_000),
    };
    // 200000 seconds away is 2 whole days, truncated toward zero
    assert_eq!(t.days_until_due_at(0), Some(2));
    assert_eq!(t.days_until_due_at(200_000), Some(0));
    // 2.3 days past due rounds to -2
    assert_eq!(t.days_until_due_at(400_000), Some(-2));
    let undated = Todo { due_date: None, ..t };
    assert_eq!(undated.days_until_due_at(0), None);
}
