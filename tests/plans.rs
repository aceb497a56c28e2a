use study_planner::calendar::parse_date;
use study_planner::model::{EngineError, PlanGenerateRequest, Priority};
use study_planner::plan_service::{build_plan, PlanService};

fn request(subjects: &[&str], hours: u32, start: &str) -> PlanGenerateRequest {
    PlanGenerateRequest {
        user_id: 1,
        subjects: subjects.iter().map(|s| s.to_string()).collect(),
        goals: "Exam prep".to_string(),
        study_hours_per_day: hours,
        difficulty_level: "beginner".to_string(),
        start_date: start.to_string(),
    }
}

#[test]
fn generate_plan_returns_plan() {
    let req = PlanGenerateRequest {
        user_id: 0x0000_0000_0000_0000_0000_0000_0000_0001,
        subjects: vec!["Math".to_string()],
        goals: "Exam prep".to_string(),
        study_hours_per_day: 4,
        difficulty_level: "beginner".to_string(),
        start_date: "2026-02-01".to_string(),
    };
    let plan = PlanService::generate_plan(&req).unwrap();
    assert_eq!(plan.user_id, 1);
    assert_eq!(plan.weekly_plan.daily_plans.len(), 7);
    let other = PlanService::generate_plan(&req).unwrap();
    assert_ne!(plan.plan_id, other.plan_id);
}

#[test]
fn example_week_from_sunday() {
    let plan = PlanService::generate_plan(&request(&["Math", "Physics"], 4, "2026-02-01")).unwrap();
    let week = &plan.weekly_plan;
    assert_eq!(week.week_start, "2026-02-01");
    assert_eq!(week.week_end, "2026-02-07");
    assert_eq!(week.subjects, vec!["Math".to_string(), "Physics".to_string()]);
    assert_eq!(week.daily_plans.len(), 7);
    let dates = ["2026-02-01", "2026-02-02", "2026-02-03", "2026-02-04", "2026-02-05", "2026-02-06", "2026-02-07"];
    let days = ["Sun", "Mon", "Tue", "Wed", "Thu", "Fri", "Sat"];
    for (i, day) in week.daily_plans.iter().enumerate() {
        assert_eq!(day.date, dates[i]);
        assert_eq!(day.day, days[i]);
        assert_eq!(day.tasks.len(), 3);
        assert_eq!(day.total_study_time, 240);
        assert_eq!(day.breaks, vec!["11:00".to_string(), "15:00".to_string()]);
        for task in &day.tasks {
            assert_eq!(task.duration_minutes, 80);
            assert_eq!(task.due_date, dates[i]);
        }
        assert_eq!(day.tasks[0].priority, Priority::High);
        assert_eq!(day.tasks[1].priority, Priority::Medium);
        assert_eq!(day.tasks[2].priority, Priority::Medium);
    }
    assert_eq!(week.daily_plans[0].tasks[0].subject, "Math");
    assert_eq!(week.daily_plans[1].tasks[0].subject, "Physics");
    assert_eq!(week.daily_plans[2].tasks[0].subject, "Math");
    assert_eq!(plan.ai_rationale, "Plan focuses on consistent daily progress.");
}

#[test]
fn task_texts_follow_the_session() {
    let plan = PlanService::generate_plan(&request(&["Math"], 4, "2026-02-01")).unwrap();
    let tasks = &plan.weekly_plan.daily_plans[0].tasks;
    assert_eq!(tasks[0].topic, "Math - session 1");
    assert_eq!(tasks[2].topic, "Math - session 3");
    assert_eq!(tasks[0].start_time, "09:00");
    assert_eq!(tasks[1].start_time, "12:00");
    assert_eq!(tasks[2].start_time, "15:00");
    assert_eq!(tasks[1].resources, vec!["Core textbook".to_string(), "Math practice set 2".to_string()]);
    assert_eq!(tasks[0].ai_notes, "Focus on Math fundamentals.");
}

#[test]
fn study_time_is_sum_of_durations() {
    for hours in [2u32, 3, 5, 8] {
        let plan = PlanService::generate_plan(&request(&["Art"], hours, "2026-03-10")).unwrap();
        for day in &plan.weekly_plan.daily_plans {
            let sum: u32 = day.tasks.iter().map(|t| t.duration_minutes).sum();
            assert_eq!(day.total_study_time, sum);
            assert_eq!(day.total_study_time, hours * 60);
        }
    }
}

#[test]
fn short_days_lengthen_sessions() {
    let plan = PlanService::generate_plan(&request(&["Art"], 0, "2026-03-10")).unwrap();
    let day = &plan.weekly_plan.daily_plans[0];
    assert_eq!(day.total_study_time, 60);
    assert!(day.tasks.iter().all(|t| t.duration_minutes == 30));
    let plan = PlanService::generate_plan(&request(&["Art"], 1, "2026-03-10")).unwrap();
    assert_eq!(plan.weekly_plan.daily_plans[0].total_study_time, 60);
    assert_eq!(plan.weekly_plan.daily_plans[0].tasks[0].duration_minutes, 30);
}

#[test]
fn huge_hours_saturate() {
    let plan = PlanService::generate_plan(&request(&["Art"], u32::MAX, "2026-03-10")).unwrap();
    let day = &plan.weekly_plan.daily_plans[0];
    assert_eq!(day.total_study_time, u32::MAX);
    assert_eq!(day.tasks[0].duration_minutes, u32::MAX / 3);
}

#[test]
fn subjects_rotate_by_day() {
    let plan = PlanService::generate_plan(&request(&["A", "B", "C"], 3, "2026-01-01")).unwrap();
    let got: Vec<&str> = plan.weekly_plan.daily_plans.iter().map(|d| d.tasks[0].subject.as_str()).collect();
    assert_eq!(got, vec!["A", "B", "C", "A", "B", "C", "A"]);
    for day in &plan.weekly_plan.daily_plans {
        assert!(day.tasks.iter().all(|t| t.subject == day.tasks[0].subject));
    }
}

#[test]
fn empty_subjects_fall_back_to_general() {
    let plan = PlanService::generate_plan(&request(&[], 3, "2026-01-01")).unwrap();
    for day in &plan.weekly_plan.daily_plans {
        for task in &day.tasks {
            assert_eq!(task.subject, "General");
        }
    }
    assert_eq!(plan.weekly_plan.daily_plans[0].tasks[0].topic, "General - session 1");
}

#[test]
fn unparsable_start_uses_today() {
    let plan = PlanService::generate_plan(&request(&["Math"], 2, "next monday")).unwrap();
    assert_eq!(plan.weekly_plan.week_start, "next monday");
    assert_eq!(plan.weekly_plan.daily_plans.len(), 7);
    let first = parse_date(&plan.weekly_plan.daily_plans[0].date).unwrap();
    let end = parse_date(&plan.weekly_plan.week_end).unwrap();
    assert_eq!(end, first + 6);
}

#[test]
fn week_past_the_last_date_is_refused() {
    let day = parse_date("+262142-12-30").unwrap();
    assert_eq!(day + 1, study_planner::calendar::LAST_DAY);
    let req = request(&["Math"], 2, "+262142-12-30");
    assert_eq!(PlanService::generate_plan(&req).unwrap_err(), EngineError::DateOutOfRange);
    let ok = PlanService::generate_plan(&request(&["Math"], 2, "+262142-12-25")).unwrap();
    assert_eq!(ok.weekly_plan.week_end, "+262142-12-31");
}

#[test]
fn build_plan_uses_given_identifiers() {
    let ids: Vec<u128> = (100..121).collect();
    let base = parse_date("2026-02-01").unwrap();
    let plan = build_plan(&request(&["Math"], 4, "2026-02-01"), base, 7, &ids, 1234);
    assert_eq!(plan.plan_id, 7);
    assert_eq!(plan.generated_at, 1234);
    assert_eq!(plan.weekly_plan.daily_plans[0].tasks[0].id, 100);
    assert_eq!(plan.weekly_plan.daily_plans[1].tasks[2].id, 105);
    assert_eq!(plan.weekly_plan.daily_plans[6].tasks[2].id, 120);
}

#[test]
fn calendar_conversions() {
    assert_eq!(parse_date("1970-01-01"), Some(0));
    assert_eq!(parse_date("2026-02-01"), Some(20485));
    assert_eq!(parse_date("1969-12-31"), Some(-1));
    assert_eq!(parse_date("2026-02-30"), None);
    assert_eq!(parse_date("soon"), None);
    assert_eq!(parse_date("-262143-01-01"), Some(study_planner::calendar::FIRST_DAY));
    assert_eq!(parse_date("-262144-12-31"), None);
    assert_eq!(parse_date("+262143-01-01"), None);
    let plan = PlanService::generate_plan(&request(&["Math"], 2, "-262143-01-01")).unwrap();
    assert_eq!(plan.weekly_plan.daily_plans[0].date, "-262143-01-01");
    let plan = PlanService::generate_plan(&request(&["Math"], 2, "1969-12-31")).unwrap();
    assert_eq!(plan.weekly_plan.daily_plans[0].date, "1969-12-31");
    assert_eq!(plan.weekly_plan.daily_plans[0].day, "Wed");
    assert_eq!(plan.weekly_plan.daily_plans[1].date, "1970-01-01");
    assert_eq!(plan.weekly_plan.daily_plans[1].day, "Thu");
    assert_eq!(plan.weekly_plan.week_end, "1970-01-06");
}
