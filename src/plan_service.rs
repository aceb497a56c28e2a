//! Generation of a seven-day study plan from a request.
use vstd::prelude::*;
use crate::calendar::{
    day_in_range, day_of_text, format_day, parse_date, text_of_day, today, weekday_name,
    weekday_of_day, LAST_DAY,
};
use crate::clock::{new_id, now_millis};
use crate::model::{
    texts_view, DailyPlan, EngineError, Plan, PlanGenerateRequest, Priority, Task, TaskView,
    WeeklyPlan,
};
use crate::text::{concat3, copy_texts, digit_char, digit_text};

verus! {

/// Days in a generated plan.
pub const DAYS_PER_PLAN: u32 = 7;

/// Study sessions in each generated day.
pub const SESSIONS_PER_DAY: u32 = 3;

/// Tasks in a generated plan: one per session of each day.
pub const TASKS_PER_PLAN: usize = 21;

/// Minutes of study a day: the hours asked for (saturating at `u32::MAX`
/// minutes), and never under an hour.
pub open spec fn minutes_per_day(hours: u32) -> int {
    let m = if hours * 60 > u32::MAX { u32::MAX as int } else { hours * 60 };
    if m < 60 { 60 } else { m }
}

/// Minutes of one session: a third of the day, rounded down, at least 30.
pub open spec fn session_minutes(hours: u32) -> int {
    let m = minutes_per_day(hours) / 3;
    if m < 30 { 30 } else { m }
}

/// The subject of day `i`: the subjects taken in turn, or `General` when there are none.
pub open spec fn subject_for_day(subjects: Seq<Seq<char>>, i: int) -> Seq<char> {
    if subjects.len() == 0 { "General"@ } else { subjects[i % (subjects.len() as int)] }
}

/// The hour at which session `k` starts: 09:00 and three hours more per session,
/// kept within 06:00 and 21:00.
pub open spec fn start_hour(k: int) -> int {
    let h = 9 + 3 * k;
    if h < 6 { 6 } else if h > 21 { 21 } else { h }
}

/// `HH:00` for an hour below 100.
pub open spec fn hour_text(h: int) -> Seq<char> {
    seq![digit_char(h / 10), digit_char(h % 10)] + ":00"@
}

/// Everything that a generated task of session `k` of a day holds.
pub open spec fn task_shape(
    t: TaskView,
    id: u128,
    subject: Seq<char>,
    k: int,
    date: Seq<char>,
    minutes: int,
) -> bool {
    &&& t.id == id
    &&& t.subject == subject
    &&& t.topic == subject + " - session "@ + seq![digit_char(k + 1)]
    &&& t.duration_minutes == minutes
    &&& t.start_time == hour_text(start_hour(k))
    &&& t.due_date == date
    &&& t.priority == (if k == 0 { Priority::High } else { Priority::Medium })
    &&& t.resources == seq![
        "Core textbook"@,
        subject + " practice set "@ + seq![digit_char(k + 1)],
    ]
    &&& t.ai_notes == "Focus on "@ + subject + " fundamentals."@
}

/// Everything that day `i` of a plan generated from `req` with first day `base` holds;
/// its tasks carry the identifiers `ids[3 * i ..]`.
pub open spec fn day_shape(
    d: DailyPlan,
    req: PlanGenerateRequest,
    base: int,
    i: int,
    ids: Seq<u128>,
) -> bool {
    &&& d@.date == text_of_day(base + i)
    &&& day_of_text(d@.date) == Some(base + i)
    &&& d@.day == weekday_of_day(base + i)
    &&& d@.tasks.len() == SESSIONS_PER_DAY
    &&& forall|k: int|
        0 <= k < SESSIONS_PER_DAY ==> #[trigger] task_shape(
            d@.tasks[k],
            ids[3 * i + k],
            subject_for_day(texts_view(req.subjects@), i),
            k,
            text_of_day(base + i),
            session_minutes(req.study_hours_per_day),
        )
    &&& d@.total_study_time == minutes_per_day(req.study_hours_per_day)
    &&& d@.breaks == seq!["11:00"@, "15:00"@]
}

/// Everything that a plan generated from `req`, with first day `base`, holds
/// apart from its identifiers and its timestamp.
pub open spec fn plan_shape(p: Plan, req: PlanGenerateRequest, base: int, ids: Seq<u128>) -> bool {
    &&& p.user_id == req.user_id
    &&& p.weekly_plan.week_start@ == req.start_date@
    &&& p.weekly_plan.week_end@ == text_of_day(base + 6)
    &&& day_of_text(p.weekly_plan.week_end@) == Some(base + 6)
    &&& texts_view(p.weekly_plan.subjects@) == texts_view(req.subjects@)
    &&& p.weekly_plan.daily_plans@.len() == DAYS_PER_PLAN
    &&& forall|i: int|
        0 <= i < DAYS_PER_PLAN ==> #[trigger] day_shape(
            p.weekly_plan.daily_plans@[i],
            req,
            base,
            i,
            ids,
        )
    &&& p.ai_rationale@ == "Plan focuses on consistent daily progress."@
}

/// `p` is a plan generated from `req` with first day `base`, whatever its identifiers.
pub open spec fn generated_from(p: Plan, req: PlanGenerateRequest, base: int) -> bool {
    day_in_range(base) && base + 6 <= LAST_DAY && plan_shape(p, req, base, plan_task_ids(p))
}

/// `p` is a plan generated from `req` with some first day.
pub open spec fn generated_from_some_day(p: Plan, req: PlanGenerateRequest) -> bool {
    exists|d: int| #[trigger] generated_from(p, req, d)
}

/// The identifiers of a plan's tasks, day by day and session by session.
pub open spec fn plan_task_ids(p: Plan) -> Seq<u128> {
    Seq::new(
        TASKS_PER_PLAN as nat,
        |j: int| p.weekly_plan.daily_plans@[j / 3]@.tasks[j % 3].id,
    )
}

/// The `HH:00` text of an hour.
fn hour_label(h: u32) -> (r: String)
    requires
        h < 100,
    ensures
        r@ == hour_text(h as int),
{
    let tens = digit_text(h / 10);
    let ones = digit_text(h % 10);
    concat3(tens.as_str(), ones.as_str(), ":00")
}

/// Builds the task of session `k` of a day.
pub fn build_task(id: u128, subject: &String, k: u32, date: &String, minutes: u32) -> (t: Task)
    requires
        k < SESSIONS_PER_DAY,
    ensures
        task_shape(t@, id, subject@, k as int, date@, minutes as int),
{
    let number = digit_text(k + 1);
    let topic = concat3(subject.as_str(), " - session ", number.as_str());
    let hour: u32 = if 9 + 3 * k < 6 {
        6
    } else if 9 + 3 * k > 21 {
        21
    } else {
        9 + 3 * k
    };
    let start_time = hour_label(hour);
    let practice = concat3(subject.as_str(), " practice set ", number.as_str());
    let resources = vec![String::from_str("Core textbook"), practice];
    let ai_notes = concat3("Focus on ", subject.as_str(), " fundamentals.");
    let t = Task {
        id,
        subject: subject.clone(),
        topic,
        duration_minutes: minutes,
        start_time,
        due_date: date.clone(),
        priority: if k == 0 { Priority::High } else { Priority::Medium },
        resources,
        ai_notes,
    };
    assert(t@.resources =~= seq![
        "Core textbook"@,
        subject@ + " practice set "@ + seq![digit_char(k + 1)],
    ]);
    t
}

/// Builds day `i` of a plan generated from `req` with first day `base`.
fn build_day(req: &PlanGenerateRequest, base: i32, i: u32, ids: &Vec<u128>) -> (d: DailyPlan)
    requires
        i < DAYS_PER_PLAN,
        day_in_range(base as int),
        base + 6 <= LAST_DAY,
        ids@.len() == TASKS_PER_PLAN,
    ensures
        day_shape(d, *req, base as int, i as int, ids@),
{
    let day_number: i32 = base + i as i32;
    let date = format_day(day_number);
    let day = weekday_name(day_number);
    let subject = if req.subjects.len() == 0 {
        String::from_str("General")
    } else {
        req.subjects[i as usize % req.subjects.len()].clone()
    };
    assert(subject@ == subject_for_day(texts_view(req.subjects@), i as int));
    let hours = req.study_hours_per_day;
    let capped: u32 = if hours > u32::MAX / 60 { u32::MAX } else { hours * 60 };
    let per_day: u32 = if capped < 60 { 60 } else { capped };
    let per_session: u32 = if per_day / SESSIONS_PER_DAY < 30 { 30 } else { per_day / SESSIONS_PER_DAY };
    let mut tasks: Vec<Task> = Vec::new();
    for k in 0..SESSIONS_PER_DAY
        invariant
            tasks@.len() == k,
            ids@.len() == TASKS_PER_PLAN,
            i < DAYS_PER_PLAN,
            per_session == session_minutes(req.study_hours_per_day),
            date@ == text_of_day(base + i),
            day_of_text(date@) == Some(base + i),
            forall|j: int|
                0 <= j < k ==> #[trigger] task_shape(
                    tasks@[j]@,
                    ids@[3 * i + j],
                    subject@,
                    j,
                    date@,
                    per_session as int,
                ),
    {
        let t = build_task(ids[(3 * i + k) as usize], &subject, k, &date, per_session);
        tasks.push(t);
    }
    let breaks = vec![String::from_str("11:00"), String::from_str("15:00")];
    let d = DailyPlan { date, day, tasks, total_study_time: per_day, breaks };
    assert(d@.breaks =~= seq!["11:00"@, "15:00"@]);
    d
}

/// Builds the plan that `req` asks for, with first day `base`, the given
/// identifiers (one per task, day by day) and timestamp.
pub fn build_plan(
    req: &PlanGenerateRequest,
    base: i32,
    plan_id: u128,
    task_ids: &Vec<u128>,
    generated_at: i64,
) -> (p: Plan)
    requires
        day_in_range(base as int),
        base + 6 <= LAST_DAY,
        task_ids@.len() == TASKS_PER_PLAN,
    ensures
        plan_shape(p, *req, base as int, task_ids@),
        p.plan_id == plan_id,
        p.generated_at == generated_at,
{
    let mut daily_plans: Vec<DailyPlan> = Vec::new();
    for i in 0..DAYS_PER_PLAN
        invariant
            daily_plans@.len() == i,
            day_in_range(base as int),
            base + 6 <= LAST_DAY,
            task_ids@.len() == TASKS_PER_PLAN,
            forall|j: int|
                0 <= j < i ==> #[trigger] day_shape(daily_plans@[j], *req, base as int, j, task_ids@),
    {
        let d = build_day(req, base, i, task_ids);
        daily_plans.push(d);
    }
    let week_end = format_day(base + 6);
    Plan {
        plan_id,
        user_id: req.user_id,
        weekly_plan: WeeklyPlan {
            week_start: req.start_date.clone(),
            week_end,
            subjects: copy_texts(&req.subjects),
            daily_plans,
        },
        ai_rationale: String::from_str("Plan focuses on consistent daily progress."),
        generated_at,
    }
}

/// Plan generation.
pub struct PlanService;

impl PlanService {
    /// Generates a week of study from `request`, with fresh identifiers and the
    /// current time as its timestamp.
    ///
    /// The first day is the request's start date, or today where that text is
    /// not a `YYYY-MM-DD` date. The plan is refused with `DateOutOfRange` only
    /// where its week would run past the last date that can be represented.
    pub fn generate_plan(request: &PlanGenerateRequest) -> (r: Result<Plan, EngineError>)
        ensures
            day_of_text(request.start_date@) matches Some(d) ==> (r is Ok <==> d + 6 <= LAST_DAY),
            r matches Ok(p) ==> (day_of_text(request.start_date@) matches Some(d) ==> plan_shape(
                p,
                *request,
                d,
                plan_task_ids(p),
            )),
            r matches Ok(p) ==> generated_from_some_day(p, *request),
            r matches Err(e) ==> e == EngineError::DateOutOfRange,
    {
        let base = match parse_date(request.start_date.as_str()) {
            Some(d) => d,
            None => today(),
        };
        if base > LAST_DAY - 6 {
            return Err(EngineError::DateOutOfRange);
        }
        let mut task_ids: Vec<u128> = Vec::new();
        for j in 0..TASKS_PER_PLAN
            invariant
                task_ids@.len() == j,
        {
            task_ids.push(new_id());
        }
        let plan_id = new_id();
        let p = build_plan(request, base, plan_id, &task_ids, now_millis());
        proof {
            lemma_plan_task_ids(p, *request, base as int, task_ids@);
            assert(generated_from(p, *request, base as int));
        }
        Ok(p)
    }
}

/// The identifiers that a plan's tasks carry are the ones it was built with.
proof fn lemma_plan_task_ids(p: Plan, req: PlanGenerateRequest, base: int, ids: Seq<u128>)
    requires
        plan_shape(p, req, base, ids),
        ids.len() == TASKS_PER_PLAN,
    ensures
        plan_task_ids(p) == ids,
{
    assert forall|j: int| 0 <= j < TASKS_PER_PLAN implies #[trigger] plan_task_ids(p)[j] == ids[j] by {
        let i = j / 3;
        let k = j % 3;
        assert(day_shape(p.weekly_plan.daily_plans@[i], req, base, i, ids));
        assert(task_shape(
            p.weekly_plan.daily_plans@[i]@.tasks[k],
            ids[3 * i + k],
            subject_for_day(texts_view(req.subjects@), i),
            k,
            text_of_day(base + i),
            session_minutes(req.study_hours_per_day),
        ));
    }
    assert(plan_task_ids(p) =~= ids);
}

/// The sum of the durations of a list of tasks, in minutes.
pub open spec fn total_duration(tasks: Seq<TaskView>) -> int
    decreases tasks.len(),
{
    if tasks.len() == 0 {
        0
    } else {
        total_duration(tasks.drop_last()) + tasks.last().duration_minutes
    }
}

/// A plan generated from a request whose start date is a date has seven days,
/// dated one after another from that day, and its week ends six days after the
/// day that its start text names, as the end text reads back. (`generate_plan`
/// returns such a plan whenever that week lies within the calendar's range, and
/// refuses with `DateOutOfRange` otherwise.) Where
/// at least two hours a day are asked for, each day's study time is the sum of
/// its tasks' durations (below that, sessions are lengthened to 30 minutes and
/// the day's study time stays at 60).
pub proof fn law_generated_week(p: Plan, req: PlanGenerateRequest, base: int)
    requires
        day_of_text(req.start_date@) == Some(base),
        plan_shape(p, req, base, plan_task_ids(p)),
    ensures
        p.weekly_plan.daily_plans@.len() == 7,
        day_of_text(p.weekly_plan.week_start@) == Some(base),
        p.weekly_plan.week_end@ == text_of_day(base + 6),
        day_of_text(p.weekly_plan.week_end@) == Some(base + 6),
        forall|i: int|
            0 <= i < 7 ==> day_of_text((#[trigger] p.weekly_plan.daily_plans@[i])@.date) == Some(base + i),
        req.study_hours_per_day >= 2 ==> forall|i: int|
            0 <= i < 7 ==> (#[trigger] p.weekly_plan.daily_plans@[i])@.total_study_time
                == total_duration(p.weekly_plan.daily_plans@[i]@.tasks),
{
    assert forall|i: int| 0 <= i < 7 implies day_of_text((#[trigger] p.weekly_plan.daily_plans@[i])@.date) == Some(base + i) by {
        assert(day_shape(p.weekly_plan.daily_plans@[i], req, base, i, plan_task_ids(p)));
    }
    if req.study_hours_per_day >= 2 {
        let h = req.study_hours_per_day;
        let m = if h * 60 > u32::MAX { u32::MAX as int } else { h * 60 };
        assert(m % 3 == 0) by (nonlinear_arith)
            requires
                m == (if h * 60 > u32::MAX { u32::MAX as int } else { h * 60 }),
        ;
        assert(m >= 120) by (nonlinear_arith)
            requires
                h >= 2,
                m == (if h * 60 > u32::MAX { u32::MAX as int } else { h * 60 }),
        ;
        assert(session_minutes(h) * 3 == minutes_per_day(h));
        assert forall|i: int| 0 <= i < 7 implies (#[trigger] p.weekly_plan.daily_plans@[i])@.total_study_time
            == total_duration(p.weekly_plan.daily_plans@[i]@.tasks) by {
            let ts = p.weekly_plan.daily_plans@[i]@.tasks;
            assert(day_shape(p.weekly_plan.daily_plans@[i], req, base, i, plan_task_ids(p)));
            let subject = subject_for_day(texts_view(req.subjects@), i);
            assert(task_shape(ts[0], plan_task_ids(p)[3 * i + 0], subject, 0, text_of_day(base + i), session_minutes(h)));
            assert(task_shape(ts[1], plan_task_ids(p)[3 * i + 1], subject, 1, text_of_day(base + i), session_minutes(h)));
            assert(task_shape(ts[2], plan_task_ids(p)[3 * i + 2], subject, 2, text_of_day(base + i), session_minutes(h)));
            let t2 = ts.drop_last();
            let t1 = t2.drop_last();
            let t0 = t1.drop_last();
            assert(t0.len() == 0);
            assert(t1.last() == ts[0] && t2.last() == ts[1]);
            assert(total_duration(t1) == total_duration(t0) + ts[0].duration_minutes);
            assert(total_duration(t2) == total_duration(t1) + ts[1].duration_minutes);
            assert(total_duration(ts) == total_duration(t2) + ts[2].duration_minutes);
        }
    }
}

/// With a non-empty subject list of length `n`, every task of day `i` of a
/// generated plan studies `subjects[i mod n]`.
pub proof fn law_subjects_rotate(p: Plan, req: PlanGenerateRequest, base: int, i: int)
    requires
        plan_shape(p, req, base, plan_task_ids(p)),
        req.subjects@.len() > 0,
        0 <= i < 7,
    ensures
        forall|k: int|
            0 <= k < p.weekly_plan.daily_plans@[i]@.tasks.len() ==> (
            #[trigger] p.weekly_plan.daily_plans@[i]@.tasks[k]).subject
                == req.subjects@[i % (req.subjects@.len() as int)]@,
{
    assert(day_shape(p.weekly_plan.daily_plans@[i], req, base, i, plan_task_ids(p)));
    assert forall|k: int| 0 <= k < p.weekly_plan.daily_plans@[i]@.tasks.len() implies (
        #[trigger] p.weekly_plan.daily_plans@[i]@.tasks[k]).subject
            == req.subjects@[i % (req.subjects@.len() as int)]@ by {
        assert(task_shape(
            p.weekly_plan.daily_plans@[i]@.tasks[k],
            plan_task_ids(p)[3 * i + k],
            subject_for_day(texts_view(req.subjects@), i),
            k,
            text_of_day(base + i),
            session_minutes(req.study_hours_per_day),
        ));
    }
}

/// With an empty subject list, every task of a generated plan studies `General`.
pub proof fn law_empty_subjects_fall_back(p: Plan, req: PlanGenerateRequest, base: int)
    requires
        plan_shape(p, req, base, plan_task_ids(p)),
        req.subjects@.len() == 0,
    ensures
        forall|i: int, k: int|
            0 <= i < 7 && 0 <= k < p.weekly_plan.daily_plans@[i]@.tasks.len() ==> (
            #[trigger] p.weekly_plan.daily_plans@[i]@.tasks[k]).subject == "General"@,
{
    assert forall|i: int, k: int|
        0 <= i < 7 && 0 <= k < p.weekly_plan.daily_plans@[i]@.tasks.len() implies (
        #[trigger] p.weekly_plan.daily_plans@[i]@.tasks[k]).subject == "General"@ by {
        assert(day_shape(p.weekly_plan.daily_plans@[i], req, base, i, plan_task_ids(p)));
        assert(task_shape(
            p.weekly_plan.daily_plans@[i]@.tasks[k],
            plan_task_ids(p)[3 * i + k],
            subject_for_day(texts_view(req.subjects@), i),
            k,
            text_of_day(base + i),
            session_minutes(req.study_hours_per_day),
        ));
    }
}

} // verus!
