use study_planner::calendar::parse_date;
use study_planner::model::{
    EngineError, PlanGenerateRequest, RegenerateRequest, TaskStatus, TaskUpdateRequest,
};
use study_planner::plan_service::build_plan;
use study_planner::store::Store;

const USER: u128 = 42;

fn stored_week(start: &str, subjects: &[&str]) -> Store {
    let req = PlanGenerateRequest {
        user_id: USER,
        subjects: subjects.iter().map(|s| s.to_string()).collect(),
        goals: String::new(),
        study_hours_per_day: 4,
        difficulty_level: "beginner".to_string(),
        start_date: start.to_string(),
    };
    let ids: Vec<u128> = (1000..1021).collect();
    let plan = build_plan(&req, parse_date(start).unwrap(), 9, &ids, 5_000);
    let mut store = Store::new();
    store.insert_plan(plan).unwrap();
    store
}

fn update(status: &str, actual: Option<u32>) -> TaskUpdateRequest {
    TaskUpdateRequest { status: status.to_string(), actual_duration: actual, notes: Some("done".to_string()) }
}

#[test]
fn insert_plan_stores_pending_tasks() {
    let store = stored_week("2026-02-01", &["Math"]);
    assert_eq!(store.plans.len(), 1);
    assert_eq!(store.daily_plans.len(), 7);
    assert_eq!(store.tasks.len(), 21);
    assert!(store.tasks.iter().all(|t| t.status == TaskStatus::Pending && t.user_id == USER));
    assert_eq!(store.tasks[3].plan_date, "2026-02-02");
    assert_eq!(store.tasks[3].task.id, 1003);
    assert_eq!(store.tasks[3].updated_at, 5_000);
}

#[test]
fn completing_a_pending_task() {
    let mut store = stored_week("2026-02-01", &["Math"]);
    let stored = store.update_task(1004, &update("completed", Some(75)), 9_000).unwrap();
    assert_eq!(stored.status, TaskStatus::Completed);
    assert_eq!(stored.actual_duration, Some(75));
    assert_eq!(stored.completed_at, Some(9_000));
    assert_eq!(stored.updated_at, 9_000);
    assert_eq!(stored.notes.as_deref(), Some("done"));
    assert_eq!(store.tasks[4].status, TaskStatus::Completed);
    assert_eq!(store.tasks[4].actual_duration, Some(75));
    assert_eq!(store.task_status(1004), Some(TaskStatus::Completed));
    assert_eq!(store.task_status(1005), Some(TaskStatus::Pending));
}

#[test]
fn other_statuses_clear_completion() {
    let mut store = stored_week("2026-02-01", &["Math"]);
    store.update_task(1000, &update("completed", Some(10)), 1).unwrap();
    let stored = store.update_task(1000, &update("in_progress", None), 2).unwrap();
    assert_eq!(stored.status, TaskStatus::InProgress);
    assert_eq!(stored.completed_at, None);
    let stored = store.update_task(1000, &update("skipped", None), 3).unwrap();
    assert_eq!(stored.status, TaskStatus::Skipped);
}

#[test]
fn unknown_task_is_not_found() {
    let mut store = stored_week("2026-02-01", &["Math"]);
    assert_eq!(store.update_task(77, &update("completed", None), 1).unwrap_err(), EngineError::NotFound);
    assert_eq!(store.update_task(77, &update("bogus", None), 1).unwrap_err(), EngineError::NotFound);
}

#[test]
fn bogus_status_is_rejected_and_changes_nothing() {
    let mut store = stored_week("2026-02-01", &["Math"]);
    let err = store.update_task(1001, &update("bogus", Some(5)), 1).unwrap_err();
    assert_eq!(err, EngineError::InvalidStatus);
    assert!(err.is_validation());
    assert_eq!(store.tasks[1].status, TaskStatus::Pending);
    assert_eq!(store.tasks[1].actual_duration, None);
    assert_eq!(store.tasks[1].updated_at, 5_000);
}

#[test]
fn status_texts() {
    assert_eq!(TaskStatus::parse("in_progress"), Some(TaskStatus::InProgress));
    assert_eq!(TaskStatus::parse("Completed"), None);
    assert_eq!(TaskStatus::Skipped.as_text(), "skipped");
}

#[test]
fn overdue_scan_excludes_completed_and_current() {
    let mut store = stored_week("2026-02-01", &["Math"]);
    store.update_task(1000, &update("completed", Some(80)), 1).unwrap();
    let as_of = parse_date("2026-02-03").unwrap();
    let overdue = store.get_overdue_tasks(USER, as_of);
    let ids: Vec<u128> = overdue.iter().map(|o| o.task_id).collect();
    assert_eq!(ids, vec![1001, 1002, 1003, 1004, 1005]);
    assert_eq!(overdue[0].days_overdue, 2);
    assert_eq!(overdue[3].days_overdue, 1);
    assert_eq!(overdue[0].due_date, "2026-02-01");
    for o in &overdue {
        assert_ne!(o.status, TaskStatus::Completed);
        assert!(parse_date(&o.due_date).unwrap() < as_of);
    }
    assert!(store.get_overdue_tasks(USER + 1, as_of).is_empty());
    assert!(store.get_overdue_tasks(USER, parse_date("2026-02-01").unwrap()).is_empty());
}

#[test]
fn overdue_scan_skips_unparsable_due_dates() {
    let mut store = stored_week("2026-02-01", &["Math"]);
    store.tasks[1].task.due_date = "someday".to_string();
    let overdue = store.get_overdue_tasks(USER, parse_date("2026-02-02").unwrap());
    let ids: Vec<u128> = overdue.iter().map(|o| o.task_id).collect();
    assert_eq!(ids, vec![1000, 1002]);
}

#[test]
fn regenerate_without_completed_drops_them() {
    let mut store = stored_week("2026-02-01", &["Math"]);
    store.update_task(1001, &update("completed", Some(80)), 1).unwrap();
    let req = RegenerateRequest { user_id: USER, adjustments: "lighter day".to_string(), keep_completed: false };
    let r = store.regenerate_daily("2026-02-01", &req);
    let ids: Vec<u128> = r.daily_plan.tasks.iter().map(|t| t.id).collect();
    assert_eq!(ids, vec![1000, 1002]);
    assert_eq!(r.daily_plan.total_study_time, 160);
    assert_eq!(r.daily_plan.day, "Sun");
    assert_eq!(r.changes, "Applied adjustments: lighter day");
    assert_eq!(store.daily_plans[0].plan.tasks.len(), 3);
}

#[test]
fn regenerate_keeping_completed_keeps_all() {
    let mut store = stored_week("2026-02-01", &["Math"]);
    store.update_task(1001, &update("completed", Some(80)), 1).unwrap();
    let req = RegenerateRequest { user_id: USER, adjustments: String::new(), keep_completed: true };
    let r = store.regenerate_daily("2026-02-01", &req);
    let ids: Vec<u128> = r.daily_plan.tasks.iter().map(|t| t.id).collect();
    assert_eq!(ids, vec![1000, 1001, 1002]);
    assert_eq!(r.daily_plan.total_study_time, 240);
    assert_eq!(r.daily_plan.breaks.len(), 2);
}

#[test]
fn regenerate_without_a_plan_starts_empty() {
    let store = stored_week("2026-02-01", &["Math"]);
    let req = RegenerateRequest { user_id: USER, adjustments: "x".to_string(), keep_completed: false };
    let r = store.regenerate_daily("2026-03-01", &req);
    assert!(r.daily_plan.tasks.is_empty());
    assert_eq!(r.daily_plan.date, "2026-03-01");
    assert_eq!(r.daily_plan.day, "Sun");
    assert_eq!(r.daily_plan.total_study_time, 0);
    let r = store.regenerate_daily("not a date", &req);
    assert_eq!(r.daily_plan.day, "Mon");
    let other = RegenerateRequest { user_id: USER + 1, adjustments: "x".to_string(), keep_completed: true };
    assert!(store.regenerate_daily("2026-02-01", &other).daily_plan.tasks.is_empty());
}

#[test]
fn latest_plan_for_a_day_wins() {
    let mut store = stored_week("2026-02-01", &["Math"]);
    let req = PlanGenerateRequest {
        user_id: USER,
        subjects: vec!["Chemistry".to_string()],
        goals: String::new(),
        study_hours_per_day: 2,
        difficulty_level: String::new(),
        start_date: "2026-02-01".to_string(),
    };
    let ids: Vec<u128> = (2000..2021).collect();
    store.insert_plan(build_plan(&req, parse_date("2026-02-01").unwrap(), 10, &ids, 6_000)).unwrap();
    let day = store.get_daily_plan(USER, "2026-02-01").unwrap();
    assert_eq!(day.tasks[0].subject, "Chemistry");
    assert!(store.get_daily_plan(USER, "2026-02-09").is_none());
}

#[test]
fn daily_view_lists_completed_and_tools() {
    let mut store = stored_week("2026-02-01", &["Math"]);
    store.update_task(1002, &update("completed", Some(80)), 1).unwrap();
    let view = store.daily_plan_response(USER, "2026-02-01").unwrap();
    assert_eq!(view.tasks.len(), 3);
    assert_eq!(view.completed_tasks, vec![1002]);
    assert!(view.suggested_tools.is_empty());
    assert_eq!(store.get_completed_tasks(USER, "2026-02-02"), Vec::<u128>::new());
    assert_eq!(store.daily_plan_response(USER, "02/01/2026").unwrap_err(), EngineError::InvalidDate);
    assert!(store.daily_plan_response(USER, "2026-05-05").unwrap().tasks.is_empty());
}

#[test]
fn task_owner_lookup() {
    let store = stored_week("2026-02-01", &["Math"]);
    assert_eq!(store.get_task_user_id(1010), Some(USER));
    assert_eq!(store.get_task_user_id(5), None);
    assert_eq!(store.find_task(1010), Some(10));
}

fn week_request() -> PlanGenerateRequest {
    PlanGenerateRequest {
        user_id: USER,
        subjects: vec!["Art".to_string()],
        goals: String::new(),
        study_hours_per_day: 2,
        difficulty_level: String::new(),
        start_date: "2026-04-01".to_string(),
    }
}

#[test]
fn plan_with_a_stored_task_id_is_refused_whole() {
    let mut store = stored_week("2026-02-01", &["Math"]);
    let mut ids: Vec<u128> = (3000..3021).collect();
    ids[20] = 1005;
    let plan = build_plan(&week_request(), parse_date("2026-04-01").unwrap(), 11, &ids, 7_000);
    assert_eq!(store.insert_plan(plan).unwrap_err(), EngineError::DuplicateId);
    assert_eq!(store.plans.len(), 1);
    assert_eq!(store.daily_plans.len(), 7);
    assert_eq!(store.tasks.len(), 21);
    assert!(store.get_daily_plan(USER, "2026-04-01").is_none());
}

#[test]
fn plan_repeating_an_id_is_refused() {
    let mut store = Store::new();
    let mut ids: Vec<u128> = (3000..3021).collect();
    ids[7] = 3002;
    let plan = build_plan(&week_request(), parse_date("2026-04-01").unwrap(), 11, &ids, 7_000);
    assert_eq!(store.insert_plan(plan).unwrap_err(), EngineError::DuplicateId);
    assert!(store.tasks.is_empty());
    assert!(store.daily_plans.is_empty());
    assert!(store.plans.is_empty());
}

#[test]
fn day_texts_read_back() {
    for start in ["2026-02-01", "0001-01-01", "9999-12-28", "-0044-03-15", "+262142-12-25", "-262143-01-01"] {
        let ids: Vec<u128> = (0..21).collect();
        let req = PlanGenerateRequest { start_date: start.to_string(), ..week_request() };
        let base = parse_date(start).unwrap();
        let plan = build_plan(&req, base, 1, &ids, 0);
        for (i, day) in plan.weekly_plan.daily_plans.iter().enumerate() {
            assert_eq!(parse_date(&day.date), Some(base + i as i32));
        }
        assert_eq!(parse_date(&plan.weekly_plan.week_end), Some(base + 6));
    }
}
