//! The in-process store of plans, tasks and reminders, and the operations of
//! the task lifecycle, overdue detection and daily regeneration on it.
//!
//! Records keep the order in which they were stored. Task and reminder
//! identifiers are unique (`Store::well_formed`): an empty store has the
//! property, storing refuses a record whose identifier is in use, and every
//! operation keeps it. The contracts are stated for any store all the same: an
//! operation on an identifier acts on every record that carries it, and lookups
//! report the earliest one.
use vstd::prelude::*;
use crate::calendar::{day_of_text, parse_date, weekday_name, weekday_of_day};
use crate::model::{
    opt_text_view, task_status_of, tasks_view, DailyPlan, DailyPlanView, EngineError,
    OverdueTask, Plan, Priority, RegenerateRequest, RegenerateResponse, Reminder, StoredTask,
    StoredTaskView, Task, TaskStatus, TaskUpdateRequest, TaskView,
};
use crate::plan_service::total_duration;
use crate::tools::Tool;
use crate::users::UserProfile;
use crate::text::{concat2, copy_opt_text, copy_texts, same_text};

verus! {

/// A day of a stored plan, with the user who owns the plan.
#[derive(Debug)]
pub struct DailyEntry {
    pub user_id: u128,
    pub plan: DailyPlan,
}

/// Every record that the engine keeps.
#[derive(Debug)]
pub struct Store {
    pub plans: Vec<Plan>,
    pub daily_plans: Vec<DailyEntry>,
    pub tasks: Vec<StoredTask>,
    pub reminders: Vec<Reminder>,
    pub tools: Vec<Tool>,
    pub users: Vec<UserProfile>,
}

pub open spec fn stored_view(s: Seq<StoredTask>) -> Seq<StoredTaskView> {
    s.map_values(|t: StoredTask| t@)
}

pub open spec fn daily_view(s: Seq<DailyEntry>) -> Seq<(u128, DailyPlanView)> {
    s.map_values(|e: DailyEntry| (e.user_id, e.plan@))
}

/// The record that a newly stored task of day `day` of plan `p` starts as.
pub open spec fn new_record(p: Plan, day: DailyPlanView, t: TaskView) -> StoredTaskView {
    StoredTaskView {
        task: t,
        status: TaskStatus::Pending,
        actual_duration: None,
        notes: None,
        updated_at: p.generated_at,
        completed_at: None,
        user_id: p.user_id,
        plan_date: day.date,
    }
}

/// The records of the tasks of day `i` of plan `p`.
pub open spec fn day_records(p: Plan, i: int) -> Seq<StoredTaskView> {
    let day = p.weekly_plan.daily_plans@[i]@;
    day.tasks.map_values(|t: TaskView| new_record(p, day, t))
}

/// The records of the tasks of the first `n` days of plan `p`.
pub open spec fn plan_records(p: Plan, n: int) -> Seq<StoredTaskView>
    decreases n,
{
    if n <= 0 {
        Seq::empty()
    } else {
        plan_records(p, n - 1) + day_records(p, n - 1)
    }
}

/// The days of plan `p`, each with its owner.
pub open spec fn plan_days(p: Plan) -> Seq<(u128, DailyPlanView)> {
    p.weekly_plan.daily_plans@.map_values(|d: DailyPlan| (p.user_id, d@))
}

/// The most recently stored day of `user` dated `date`.
pub open spec fn latest_daily(
    entries: Seq<(u128, DailyPlanView)>,
    user: u128,
    date: Seq<char>,
) -> Option<DailyPlanView>
    decreases entries.len(),
{
    if entries.len() == 0 {
        None
    } else if entries.last().0 == user && entries.last().1.date == date {
        Some(entries.last().1)
    } else {
        latest_daily(entries.drop_last(), user, date)
    }
}

/// The earliest stored task record with identifier `id`.
pub open spec fn first_task(tasks: Seq<StoredTask>, id: u128) -> Option<StoredTask>
    decreases tasks.len(),
{
    if tasks.len() == 0 {
        None
    } else if tasks[0].task.id == id {
        Some(tasks[0])
    } else {
        first_task(tasks.drop_first(), id)
    }
}

/// The status of the task with identifier `id`, if one is stored.
pub open spec fn status_of(tasks: Seq<StoredTask>, id: u128) -> Option<TaskStatus> {
    match first_task(tasks, id) {
        Some(t) => Some(t.status),
        None => None,
    }
}

/// A task record after a status update to `status` at instant `now`.
pub open spec fn updated_record(
    t: StoredTaskView,
    status: TaskStatus,
    req: TaskUpdateRequest,
    now: i64,
) -> StoredTaskView {
    StoredTaskView {
        task: t.task,
        status,
        actual_duration: req.actual_duration,
        notes: opt_text_view(req.notes),
        updated_at: now,
        completed_at: if status == TaskStatus::Completed { Some(now) } else { None },
        user_id: t.user_id,
        plan_date: t.plan_date,
    }
}

/// The task records after a status update of every record with identifier `id`.
pub open spec fn apply_update(
    tasks: Seq<StoredTaskView>,
    id: u128,
    status: TaskStatus,
    req: TaskUpdateRequest,
    now: i64,
) -> Seq<StoredTaskView> {
    tasks.map_values(
        |t: StoredTaskView|
            if t.task.id == id {
                updated_record(t, status, req, now)
            } else {
                t
            },
    )
}

pub ghost struct OverdueView {
    pub task_id: u128,
    pub subject: Seq<char>,
    pub topic: Seq<char>,
    pub due_date: Seq<char>,
    pub days_overdue: int,
    pub priority: Priority,
    pub status: TaskStatus,
}

impl View for OverdueTask {
    type V = OverdueView;

    open spec fn view(&self) -> OverdueView {
        OverdueView {
            task_id: self.task_id,
            subject: self.subject@,
            topic: self.topic@,
            due_date: self.due_date@,
            days_overdue: self.days_overdue as int,
            priority: self.priority,
            status: self.status,
        }
    }
}

/// The overdue entry of a task record of `user` as of day `as_of`: a task not
/// completed whose due date is a date before `as_of`.
pub open spec fn overdue_entry(t: StoredTask, user: u128, as_of: int) -> Option<OverdueView> {
    if t.user_id == user && t.status != TaskStatus::Completed {
        match day_of_text(t.task.due_date@) {
            Some(d) => if d < as_of {
                Some(
                    OverdueView {
                        task_id: t.task.id,
                        subject: t.task.subject@,
                        topic: t.task.topic@,
                        due_date: t.task.due_date@,
                        days_overdue: as_of - d,
                        priority: t.task.priority,
                        status: t.status,
                    },
                )
            } else {
                None
            },
            None => None,
        }
    } else {
        None
    }
}

/// The overdue entries of `user` as of day `as_of`, in the order of the records.
pub open spec fn overdue_entries(tasks: Seq<StoredTask>, user: u128, as_of: int) -> Seq<OverdueView> {
    tasks.filter_map(|t: StoredTask| overdue_entry(t, user, as_of))
}

/// The identifiers of the completed tasks of `user` on the day dated `date`.
pub open spec fn completed_ids(tasks: Seq<StoredTask>, user: u128, date: Seq<char>) -> Seq<u128> {
    tasks.filter_map(
        |t: StoredTask|
            if t.user_id == user && t.plan_date@ == date && t.status == TaskStatus::Completed {
                Some(t.task.id)
            } else {
                None
            },
    )
}

/// The tasks of a day that a regeneration keeps: all of them, or, unless
/// completed work is kept, those whose stored status is not `completed`.
pub open spec fn kept_tasks(
    tasks: Seq<TaskView>,
    stored: Seq<StoredTask>,
    keep_completed: bool,
) -> Seq<TaskView> {
    if keep_completed {
        tasks
    } else {
        tasks.filter_map(
            |t: TaskView|
                if status_of(stored, t.id) == Some(TaskStatus::Completed) {
                    None
                } else {
                    Some(t)
                },
        )
    }
}

/// The sum of the durations of tasks, saturating at `u32::MAX`.
pub open spec fn capped_total(tasks: Seq<TaskView>) -> int {
    let t = total_duration(tasks);
    if t > u32::MAX { u32::MAX as int } else { t }
}

/// The weekday name of a day with no stored plan: its weekday where the date
/// text is a date, else the placeholder `Mon` (in the same short form).
pub open spec fn empty_day_name(date: Seq<char>) -> Seq<char> {
    match day_of_text(date) {
        Some(d) => weekday_of_day(d),
        None => "Mon"@,
    }
}

/// No two task records carry the same identifier.
pub open spec fn unique_task_ids(s: Seq<StoredTaskView>) -> bool {
    forall|i: int, j: int|
        0 <= i < s.len() && 0 <= j < s.len() && i != j ==> #[trigger] s[i].task.id != #[trigger] s[j].task.id
}

/// No two reminders carry the same identifier.
pub open spec fn unique_reminder_ids(s: Seq<Reminder>) -> bool {
    forall|i: int, j: int|
        0 <= i < s.len() && 0 <= j < s.len() && i != j ==> #[trigger] s[i].reminder_id != #[trigger] s[j].reminder_id
}

/// The records of the first `m` days of a plan begin the records of its first `n` days.
pub proof fn lemma_plan_records_prefix(p: Plan, m: int, n: int)
    requires
        0 <= m <= n,
    ensures
        plan_records(p, m).len() <= plan_records(p, n).len(),
        plan_records(p, n).subrange(0, plan_records(p, m).len() as int) == plan_records(p, m),
    decreases n - m,
{
    if m < n {
        lemma_plan_records_prefix(p, m, n - 1);
        assert(plan_records(p, n) == plan_records(p, n - 1) + day_records(p, n - 1));
    }
    assert(plan_records(p, n).subrange(0, plan_records(p, m).len() as int) =~= plan_records(p, m));
}

impl Store {
    /// Identifiers are unique among the task records and among the reminders.
    pub open spec fn well_formed(&self) -> bool {
        &&& unique_task_ids(stored_view(self.tasks@))
        &&& unique_reminder_ids(self.reminders@)
    }

    /// An empty store.
    pub fn new() -> (r: Store)
        ensures
            r.plans@.len() == 0,
            r.daily_plans@.len() == 0,
            r.tasks@.len() == 0,
            r.reminders@.len() == 0,
            r.tools@.len() == 0,
            r.users@.len() == 0,
            r.well_formed(),
    {
        Store {
            plans: Vec::new(),
            daily_plans: Vec::new(),
            tasks: Vec::new(),
            reminders: Vec::new(),
            tools: Vec::new(),
            users: Vec::new(),
        }
    }

    /// Stores a plan with all of its days and tasks, every task pending, as one
    /// unit. Fails with `DuplicateId`, storing nothing, where a task of the plan
    /// carries the identifier of a stored task or of an earlier task of the plan.
    pub fn insert_plan(&mut self, plan: Plan) -> (r: Result<(), EngineError>)
        ensures
            r is Ok ==> {
                &&& final(self).plans@ == old(self).plans@.push(plan)
                &&& daily_view(final(self).daily_plans@) == daily_view(old(self).daily_plans@) + plan_days(plan)
                &&& stored_view(final(self).tasks@) == stored_view(old(self).tasks@) + plan_records(
                    plan,
                    plan.weekly_plan.daily_plans@.len() as int,
                )
            },
            r is Err ==> {
                &&& r == Err::<(), EngineError>(EngineError::DuplicateId)
                &&& final(self).plans == old(self).plans
                &&& final(self).daily_plans@ == old(self).daily_plans@
                &&& final(self).tasks@ == old(self).tasks@
            },
            old(self).well_formed() ==> (r is Ok <==> unique_task_ids(
                stored_view(old(self).tasks@) + plan_records(plan, plan.weekly_plan.daily_plans@.len() as int),
            )),
            old(self).well_formed() ==> final(self).well_formed(),
            final(self).reminders == old(self).reminders,
            final(self).tools == old(self).tools,
            final(self).users == old(self).users,
    {
        let days = &plan.weekly_plan.daily_plans;
        let task_count = self.tasks.len();
        let day_count = self.daily_plans.len();
        let ghost n = days@.len() as int;
        let ghost all = stored_view(old(self).tasks@) + plan_records(plan, n);
        assert(plan_days(plan).subrange(0, 0) =~= Seq::<(u128, DailyPlanView)>::empty());
        assert(daily_view(self.daily_plans@) + plan_days(plan).subrange(0, 0) =~= daily_view(self.daily_plans@));
        assert(stored_view(self.tasks@) + plan_records(plan, 0) =~= stored_view(self.tasks@));
        assert(self.tasks@.subrange(0, task_count as int) =~= old(self).tasks@);
        assert(self.daily_plans@.subrange(0, day_count as int) =~= old(self).daily_plans@);
        for i in 0..days.len()
            invariant
                days == &plan.weekly_plan.daily_plans,
                n == days@.len(),
                all == stored_view(old(self).tasks@) + plan_records(plan, n),
                task_count == old(self).tasks@.len(),
                day_count == old(self).daily_plans@.len(),
                self.plans == old(self).plans,
                self.reminders == old(self).reminders,
                self.tools == old(self).tools,
                self.users == old(self).users,
                self.tasks@.len() >= task_count,
                self.tasks@.subrange(0, task_count as int) == old(self).tasks@,
                self.daily_plans@.len() >= day_count,
                self.daily_plans@.subrange(0, day_count as int) == old(self).daily_plans@,
                daily_view(self.daily_plans@) == daily_view(old(self).daily_plans@) + plan_days(plan).subrange(0, i as int),
                stored_view(self.tasks@) == stored_view(old(self).tasks@) + plan_records(plan, i as int),
                old(self).well_formed() ==> unique_task_ids(stored_view(self.tasks@)),
        {
            let day = &days[i];
            let ghost prev = self.daily_plans@;
            let entry = DailyEntry { user_id: plan.user_id, plan: day.copy() };
            self.daily_plans.push(entry);
            assert(self.daily_plans@.subrange(0, day_count as int) =~= prev.subrange(0, day_count as int));
            assert(daily_view(self.daily_plans@) =~= daily_view(prev).push((plan.user_id, day@)));
            assert(plan_days(plan).subrange(0, i + 1) =~= plan_days(plan).subrange(0, i as int).push((plan.user_id, day@)));
            assert(daily_view(self.daily_plans@) =~= daily_view(old(self).daily_plans@) + plan_days(plan).subrange(0, i + 1));
            let ghost before = stored_view(self.tasks@);
            assert(before + day_records(plan, i as int).subrange(0, 0) =~= before);
            proof {
                lemma_plan_records_prefix(plan, i + 1, n);
            }
            for k in 0..day.tasks.len()
                invariant
                    day == &plan.weekly_plan.daily_plans@[i as int],
                    i < plan.weekly_plan.daily_plans@.len(),
                    n == plan.weekly_plan.daily_plans@.len(),
                    all == stored_view(old(self).tasks@) + plan_records(plan, n),
                    before == stored_view(old(self).tasks@) + plan_records(plan, i as int),
                    plan_records(plan, i + 1).len() <= plan_records(plan, n).len(),
                    plan_records(plan, n).subrange(0, plan_records(plan, i + 1).len() as int) == plan_records(plan, i + 1),
                    task_count == old(self).tasks@.len(),
                    day_count == old(self).daily_plans@.len(),
                    self.plans == old(self).plans,
                    self.reminders == old(self).reminders,
                    self.tools == old(self).tools,
                    self.users == old(self).users,
                    self.tasks@.len() >= task_count,
                    self.tasks@.subrange(0, task_count as int) == old(self).tasks@,
                    self.daily_plans@.len() >= day_count,
                    self.daily_plans@.subrange(0, day_count as int) == old(self).daily_plans@,
                    daily_view(self.daily_plans@) == daily_view(old(self).daily_plans@) + plan_days(plan).subrange(0, i + 1),
                    stored_view(self.tasks@) == before + day_records(plan, i as int).subrange(0, k as int),
                    old(self).well_formed() ==> unique_task_ids(stored_view(self.tasks@)),
            {
                let ghost rec = new_record(plan, day@, day@.tasks[k as int]);
                let ghost cur = stored_view(self.tasks@);
                proof {
                    assert(day_records(plan, i as int)[k as int] == rec);
                    assert(plan_records(plan, i + 1) =~= plan_records(plan, i as int) + day_records(plan, i as int));
                    let ghost old_len = stored_view(old(self).tasks@).len() as int;
                    let ghost big = plan_records(plan, n);
                    let ghost upto = plan_records(plan, i + 1);
                    assert(day_records(plan, i as int).len() == day.tasks@.len());
                    assert forall|t: int| 0 <= t < cur.len() + 1 implies #[trigger] all[t] == cur.push(rec)[t] by {
                        if t >= old_len {
                            let u = t - old_len;
                            assert(big.subrange(0, upto.len() as int)[u] == big[u]);
                            assert(upto[u] == (plan_records(plan, i as int) + day_records(plan, i as int))[u]);
                        }
                    }
                    assert(all.subrange(0, cur.len() as int + 1) =~= cur.push(rec));
                }
                if let Some(j) = self.find_task(day.tasks[k].id) {
                    proof {
                        assert(cur[j as int].task.id == rec.task.id);
                        assert(all[j as int] == cur[j as int]);
                        assert(all[cur.len() as int] == rec);
                        assert(!unique_task_ids(all));
                    }
                    self.tasks.truncate(task_count);
                    self.daily_plans.truncate(day_count);
                    return Err(EngineError::DuplicateId);
                }
                let record = StoredTask {
                    task: day.tasks[k].copy(),
                    status: TaskStatus::Pending,
                    actual_duration: None,
                    notes: None,
                    updated_at: plan.generated_at,
                    completed_at: None,
                    user_id: plan.user_id,
                    plan_date: day.date.clone(),
                };
                let ghost prev_tasks = self.tasks@;
                proof {
                    assert(record@ == new_record(plan, day@, day.tasks@[k as int]@));
                }
                self.tasks.push(record);
                assert(self.tasks@.subrange(0, task_count as int) =~= prev_tasks.subrange(0, task_count as int));
                assert(stored_view(self.tasks@) =~= cur.push(rec));
                assert(stored_view(self.tasks@) =~= before + day_records(plan, i as int).subrange(0, k + 1));
            }
            assert(day_records(plan, i as int).subrange(0, day.tasks@.len() as int) =~= day_records(plan, i as int));
            assert(stored_view(self.tasks@) =~= stored_view(old(self).tasks@) + plan_records(plan, i + 1));
        }
        assert(plan_days(plan).subrange(0, days@.len() as int) =~= plan_days(plan));
        self.plans.push(plan);
        Ok(())
    }

    /// The most recently stored day of `user` dated `date`.
    pub fn get_daily_plan(&self, user_id: u128, date: &str) -> (r: Option<DailyPlan>)
        ensures
            match r {
                Some(d) => latest_daily(daily_view(self.daily_plans@), user_id, date@) == Some(d@),
                None => latest_daily(daily_view(self.daily_plans@), user_id, date@) is None,
            },
    {
        let mut i = self.daily_plans.len();
        assert(daily_view(self.daily_plans@).subrange(0, i as int) =~= daily_view(self.daily_plans@));
        while i > 0
            invariant
                i <= self.daily_plans@.len(),
                latest_daily(daily_view(self.daily_plans@), user_id, date@)
                    == latest_daily(daily_view(self.daily_plans@).subrange(0, i as int), user_id, date@),
            decreases i,
        {
            i = i - 1;
            let entry = &self.daily_plans[i];
            let ghost prefix = daily_view(self.daily_plans@).subrange(0, i + 1);
            assert(prefix.drop_last() =~= daily_view(self.daily_plans@).subrange(0, i as int));
            if entry.user_id == user_id && same_text(entry.plan.date.as_str(), date) {
                return Some(entry.plan.copy());
            }
        }
        None
    }

    /// The position of the earliest stored task with identifier `id`.
    pub fn find_task(&self, id: u128) -> (r: Option<usize>)
        ensures
            match r {
                Some(i) => i < self.tasks@.len() && self.tasks@[i as int].task.id == id && first_task(self.tasks@, id) == Some(self.tasks@[i as int]),
                None => first_task(self.tasks@, id) is None
                    && forall|j: int| 0 <= j < self.tasks@.len() ==> stored_view(self.tasks@)[j].task.id != id,
            },
    {
        assert(self.tasks@.subrange(0, self.tasks@.len() as int) =~= self.tasks@);
        for i in 0..self.tasks.len()
            invariant
                forall|j: int| 0 <= j < i ==> stored_view(self.tasks@)[j].task.id != id,
                first_task(self.tasks@, id) == first_task(self.tasks@.subrange(i as int, self.tasks@.len() as int), id),
        {
            let ghost rest = self.tasks@.subrange(i as int, self.tasks@.len() as int);
            assert(rest.drop_first() =~= self.tasks@.subrange(i + 1, self.tasks@.len() as int));
            if self.tasks[i].task.id == id {
                return Some(i);
            }
        }
        None
    }

    /// Sets the status, actual duration and notes of the task with identifier
    /// `task_id` at instant `now`, and returns its record.
    ///
    /// Fails with `NotFound` where no such task is stored and with
    /// `InvalidStatus` where the status text names no task status; the store
    /// is then left as it was. A completion instant is recorded exactly when
    /// the new status is `completed`.
    pub fn update_task(
        &mut self,
        task_id: u128,
        req: &TaskUpdateRequest,
        now: i64,
    ) -> (r: Result<StoredTask, EngineError>)
        ensures
            first_task(old(self).tasks@, task_id) is None ==> r == Err::<StoredTask, EngineError>(
                EngineError::NotFound,
            ) && *final(self) == *old(self),
            first_task(old(self).tasks@, task_id) is Some && task_status_of(req.status@) is None
                ==> r == Err::<StoredTask, EngineError>(EngineError::InvalidStatus) && *final(self)
                == *old(self),
            first_task(old(self).tasks@, task_id) matches Some(t) ==> (task_status_of(req.status@) matches Some(st)
                ==> {
                &&& r matches Ok(u) && u@ == updated_record(t@, st, *req, now)
                &&& stored_view(final(self).tasks@) == apply_update(
                    stored_view(old(self).tasks@),
                    task_id,
                    st,
                    *req,
                    now,
                )
                &&& final(self).plans == old(self).plans
                &&& final(self).daily_plans == old(self).daily_plans
                &&& final(self).reminders == old(self).reminders
                &&& final(self).tools == old(self).tools
                &&& final(self).users == old(self).users
            }),
            old(self).well_formed() ==> final(self).well_formed(),
    {
        let first = match self.find_task(task_id) {
            Some(i) => i,
            None => return Err(EngineError::NotFound),
        };
        let status = match TaskStatus::parse(req.status.as_str()) {
            Some(st) => st,
            None => return Err(EngineError::InvalidStatus),
        };
        let completed_at = if status == TaskStatus::Completed { Some(now) } else { None };
        let n = self.tasks.len();
        for i in 0..n
            invariant
                n == old(self).tasks@.len(),
                self.tasks@.len() == n,
                self.plans == old(self).plans,
                self.daily_plans == old(self).daily_plans,
                self.reminders == old(self).reminders,
                self.tools == old(self).tools,
                self.users == old(self).users,
                task_status_of(req.status@) == Some(status),
                completed_at == (if status == TaskStatus::Completed { Some(now) } else { None::<i64> }),
                forall|j: int| 0 <= j < i ==> #[trigger] self.tasks@[j]@ == (if old(self).tasks@[j].task.id == task_id {
                    updated_record(old(self).tasks@[j]@, status, *req, now)
                } else {
                    old(self).tasks@[j]@
                }),
                forall|j: int| i <= j < n ==> #[trigger] self.tasks@[j] == old(self).tasks@[j],
        {
            if self.tasks[i].task.id == task_id {
                let record = StoredTask {
                    task: self.tasks[i].task.copy(),
                    status,
                    actual_duration: req.actual_duration,
                    notes: copy_opt_text(&req.notes),
                    updated_at: now,
                    completed_at,
                    user_id: self.tasks[i].user_id,
                    plan_date: self.tasks[i].plan_date.clone(),
                };
                self.tasks[i] = record;
            }
        }
        assert(stored_view(self.tasks@) =~= apply_update(stored_view(old(self).tasks@), task_id, status, *req, now));
        assert forall|j: int| 0 <= j < n implies #[trigger] stored_view(self.tasks@)[j].task.id == stored_view(old(self).tasks@)[j].task.id by {
            assert(stored_view(self.tasks@)[j] == self.tasks@[j]@);
            assert(stored_view(old(self).tasks@)[j] == old(self).tasks@[j]@);
        }
        assert(self.tasks@[first as int]@ == updated_record(old(self).tasks@[first as int]@, status, *req, now));
        let u = self.tasks[first].copy();
        Ok(u)
    }

    /// The tasks of `user` that are overdue as of day `as_of`: not completed,
    /// with a due date that is a date before `as_of`, and how many days overdue
    /// each is. Tasks whose due date is no date are left out.
    pub fn get_overdue_tasks(&self, user_id: u128, as_of: i32) -> (r: Vec<OverdueTask>)
        ensures
            r@.map_values(|o: OverdueTask| o@) == overdue_entries(self.tasks@, user_id, as_of as int),
    {
        let mut r: Vec<OverdueTask> = Vec::new();
        for i in 0..self.tasks.len()
            invariant
                r@.map_values(|o: OverdueTask| o@) == overdue_entries(self.tasks@.subrange(0, i as int), user_id, as_of as int),
        {
            let t = &self.tasks[i];
            let ghost prefix = self.tasks@.subrange(0, i + 1);
            assert(prefix.drop_last() =~= self.tasks@.subrange(0, i as int));
            let ghost before = r@;
            if t.user_id == user_id && t.status != TaskStatus::Completed {
                if let Some(due) = parse_date(t.task.due_date.as_str()) {
                    if due < as_of {
                        r.push(OverdueTask {
                            task_id: t.task.id,
                            subject: t.task.subject.clone(),
                            topic: t.task.topic.clone(),
                            due_date: t.task.due_date.clone(),
                            days_overdue: as_of as i64 - due as i64,
                            priority: t.task.priority,
                            status: t.status,
                        });
                    }
                }
            }
            assert(r@.map_values(|o: OverdueTask| o@) =~= overdue_entries(prefix, user_id, as_of as int));
        }
        assert(self.tasks@.subrange(0, self.tasks@.len() as int) =~= self.tasks@);
        r
    }

    /// The identifiers of the completed tasks of `user` on the day dated `date`.
    pub fn get_completed_tasks(&self, user_id: u128, date: &str) -> (r: Vec<u128>)
        ensures
            r@ == completed_ids(self.tasks@, user_id, date@),
    {
        let mut r: Vec<u128> = Vec::new();
        for i in 0..self.tasks.len()
            invariant
                r@ == completed_ids(self.tasks@.subrange(0, i as int), user_id, date@),
        {
            let t = &self.tasks[i];
            let ghost prefix = self.tasks@.subrange(0, i + 1);
            assert(prefix.drop_last() =~= self.tasks@.subrange(0, i as int));
            if t.user_id == user_id && same_text(t.plan_date.as_str(), date) && t.status == TaskStatus::Completed {
                r.push(t.task.id);
            }
            assert(r@ =~= completed_ids(prefix, user_id, date@));
        }
        assert(self.tasks@.subrange(0, self.tasks@.len() as int) =~= self.tasks@);
        r
    }

    /// The stored status of the task with identifier `id`, if one is stored.
    pub fn task_status(&self, id: u128) -> (r: Option<TaskStatus>)
        ensures
            r == status_of(self.tasks@, id),
    {
        match self.find_task(id) {
            Some(i) => Some(self.tasks[i].status),
            None => None,
        }
    }

    /// The tasks of a list whose stored status is not `completed`.
    fn drop_completed(&self, tasks: &Vec<Task>) -> (r: Vec<Task>)
        ensures
            tasks_view(r@) == kept_tasks(tasks_view(tasks@), self.tasks@, false),
    {
        let ghost all = tasks_view(tasks@);
        let mut r: Vec<Task> = Vec::new();
        for i in 0..tasks.len()
            invariant
                all == tasks_view(tasks@),
                tasks_view(r@) == kept_tasks(all.subrange(0, i as int), self.tasks@, false),
        {
            let ghost prefix = all.subrange(0, i + 1);
            assert(prefix.drop_last() =~= all.subrange(0, i as int));
            let ghost before = r@;
            let status = self.task_status(tasks[i].id);
            if status != Some(TaskStatus::Completed) {
                r.push(tasks[i].copy());
                assert(tasks_view(r@) =~= tasks_view(before).push(tasks@[i as int]@));
            }
            assert(tasks_view(r@) =~= kept_tasks(prefix, self.tasks@, false));
        }
        assert(all.subrange(0, all.len() as int) =~= all);
        r
    }

    /// Recomputes the day of `req.user_id` dated `date`.
    ///
    /// Starts from the most recently stored such day, or from an empty day
    /// (whose weekday is the placeholder `Mon` where the date text is no date);
    /// drops the tasks stored as completed unless `req.keep_completed`; and sets
    /// the study time to the sum of the remaining durations, saturating at
    /// `u32::MAX`. Nothing is stored: committing the result is up to the caller.
    ///
    /// A date text that is no date is not refused here: it simply matches no
    /// stored day, and regeneration yields the empty placeholder day. Reading a
    /// stored day (`daily_plan_response`) does refuse such a text, with
    /// `InvalidDate`, since there the date is the key of what is asked for.
    pub fn regenerate_daily(&self, date: &str, req: &RegenerateRequest) -> (r: RegenerateResponse)
        ensures
            match latest_daily(daily_view(self.daily_plans@), req.user_id, date@) {
                Some(b) => {
                    &&& r.daily_plan@.date == b.date
                    &&& r.daily_plan@.day == b.day
                    &&& r.daily_plan@.breaks == b.breaks
                    &&& r.daily_plan@.tasks == kept_tasks(b.tasks, self.tasks@, req.keep_completed)
                },
                None => {
                    &&& r.daily_plan@.date == date@
                    &&& r.daily_plan@.day == empty_day_name(date@)
                    &&& r.daily_plan@.tasks.len() == 0
                    &&& r.daily_plan@.breaks.len() == 0
                },
            },
            r.daily_plan@.total_study_time == capped_total(r.daily_plan@.tasks),
            r.changes@ == "Applied adjustments: "@ + req.adjustments@,
    {
        let base = match self.get_daily_plan(req.user_id, date) {
            Some(d) => d,
            None => {
                let day = match parse_date(date) {
                    Some(n) => weekday_name(n),
                    None => String::from_str("Mon"),
                };
                DailyPlan {
                    date: String::from_str(date),
                    day,
                    tasks: Vec::new(),
                    total_study_time: 0,
                    breaks: Vec::new(),
                }
            },
        };
        let tasks = if req.keep_completed {
            copy_tasks_of(&base)
        } else {
            self.drop_completed(&base.tasks)
        };
        let total = capped_sum(&tasks);
        let daily_plan = DailyPlan {
            date: base.date.clone(),
            day: base.day.clone(),
            tasks,
            total_study_time: total,
            breaks: copy_texts(&base.breaks),
        };
        assert(daily_plan@.breaks == base@.breaks);
        RegenerateResponse {
            daily_plan,
            changes: concat2("Applied adjustments: ", req.adjustments.as_str()),
        }
    }

    /// The owner of the task with identifier `id`, if one is stored.
    pub fn get_task_user_id(&self, task_id: u128) -> (r: Option<u128>)
        ensures
            match first_task(self.tasks@, task_id) {
                Some(t) => r == Some(t.user_id),
                None => r is None,
            },
    {
        match self.find_task(task_id) {
            Some(i) => Some(self.tasks[i].user_id),
            None => None,
        }
    }
}

/// A copy of the tasks of a day.
fn copy_tasks_of(d: &DailyPlan) -> (r: Vec<Task>)
    ensures
        tasks_view(r@) == d@.tasks,
{
    crate::model::copy_tasks(&d.tasks)
}

/// The sum of the durations of tasks, saturating at `u32::MAX`.
fn capped_sum(tasks: &Vec<Task>) -> (r: u32)
    ensures
        r == capped_total(tasks_view(tasks@)),
{
    let ghost all = tasks_view(tasks@);
    let mut sum: u32 = 0;
    for i in 0..tasks.len()
        invariant
            all == tasks_view(tasks@),
            sum == capped_total(all.subrange(0, i as int)),
    {
        let ghost prefix = all.subrange(0, i + 1);
        assert(prefix.drop_last() =~= all.subrange(0, i as int));
        assert(total_duration(prefix) == total_duration(all.subrange(0, i as int)) + tasks@[i as int].duration_minutes);
        let d = tasks[i].duration_minutes;
        sum = if sum as u64 + d as u64 > u32::MAX as u64 { u32::MAX } else { sum + d };
    }
    assert(all.subrange(0, all.len() as int) =~= all);
    sum
}

/// Every overdue entry is of a task that is not completed and whose due date
/// is a date strictly before the day the scan is made as of.
pub proof fn law_overdue_entries_are_past_due(tasks: Seq<StoredTask>, user: u128, as_of: int)
    ensures
        forall|k: int|
            0 <= k < overdue_entries(tasks, user, as_of).len() ==> {
                let e = #[trigger] overdue_entries(tasks, user, as_of)[k];
                &&& e.status != TaskStatus::Completed
                &&& day_of_text(e.due_date) matches Some(d) && d < as_of
            },
    decreases tasks.len(),
{
    if tasks.len() > 0 {
        law_overdue_entries_are_past_due(tasks.drop_last(), user, as_of);
    }
}

/// Each overdue entry comes from a stored record with its identifier and status.
proof fn lemma_overdue_entry_source(tasks: Seq<StoredTask>, user: u128, as_of: int, k: int)
    requires
        0 <= k < overdue_entries(tasks, user, as_of).len(),
    ensures
        exists|j: int|
            0 <= j < tasks.len() && #[trigger] tasks[j].task.id == overdue_entries(tasks, user, as_of)[k].task_id
                && tasks[j].status == overdue_entries(tasks, user, as_of)[k].status,
    decreases tasks.len(),
{
    let rest = tasks.drop_last();
    if k < overdue_entries(rest, user, as_of).len() {
        lemma_overdue_entry_source(rest, user, as_of, k);
        let j = choose|j: int|
            0 <= j < rest.len() && #[trigger] rest[j].task.id == overdue_entries(rest, user, as_of)[k].task_id
                && rest[j].status == overdue_entries(rest, user, as_of)[k].status;
        assert(tasks[j] == rest[j]);
    } else {
        let j = tasks.len() - 1;
        assert(tasks[j] == tasks.last());
    }
}

/// With unique identifiers, the earliest record with a record's identifier is that record.
proof fn lemma_first_task_is_the_record(tasks: Seq<StoredTask>, j: int)
    requires
        unique_task_ids(stored_view(tasks)),
        0 <= j < tasks.len(),
    ensures
        first_task(tasks, tasks[j].task.id) == Some(tasks[j]),
    decreases tasks.len(),
{
    assert(stored_view(tasks)[0].task.id == tasks[0].task.id);
    assert(stored_view(tasks)[j].task.id == tasks[j].task.id);
    if j > 0 {
        let rest = tasks.drop_first();
        assert forall|a: int, b: int|
            0 <= a < rest.len() && 0 <= b < rest.len() && a != b implies #[trigger] stored_view(rest)[a].task.id
            != #[trigger] stored_view(rest)[b].task.id by {
            assert(stored_view(rest)[a] == stored_view(tasks)[a + 1]);
            assert(stored_view(rest)[b] == stored_view(tasks)[b + 1]);
        }
        lemma_first_task_is_the_record(rest, j - 1);
        assert(rest[j - 1] == tasks[j]);
    }
}

/// Where task identifiers are unique, no overdue entry names a task whose
/// stored status is `completed`.
pub proof fn law_overdue_tasks_not_completed_in_store(tasks: Seq<StoredTask>, user: u128, as_of: int)
    requires
        unique_task_ids(stored_view(tasks)),
    ensures
        forall|k: int|
            0 <= k < overdue_entries(tasks, user, as_of).len() ==> status_of(
                tasks,
                (#[trigger] overdue_entries(tasks, user, as_of)[k]).task_id,
            ) != Some(TaskStatus::Completed),
{
    law_overdue_entries_are_past_due(tasks, user, as_of);
    assert forall|k: int| 0 <= k < overdue_entries(tasks, user, as_of).len() implies status_of(
        tasks,
        (#[trigger] overdue_entries(tasks, user, as_of)[k]).task_id,
    ) != Some(TaskStatus::Completed) by {
        lemma_overdue_entry_source(tasks, user, as_of, k);
        let e = overdue_entries(tasks, user, as_of)[k];
        let j = choose|j: int| 0 <= j < tasks.len() && #[trigger] tasks[j].task.id == e.task_id && tasks[j].status == e.status;
        lemma_first_task_is_the_record(tasks, j);
    }
}

/// A regeneration that does not keep completed work holds no task whose
/// stored status is `completed`; one that keeps it holds the day's whole task
/// list, in order.
pub proof fn law_regeneration_drops_completed(tasks: Seq<TaskView>, stored: Seq<StoredTask>)
    ensures
        forall|k: int|
            0 <= k < kept_tasks(tasks, stored, false).len() ==> status_of(
                stored,
                (#[trigger] kept_tasks(tasks, stored, false)[k]).id,
            ) != Some(TaskStatus::Completed),
        kept_tasks(tasks, stored, true) == tasks,
    decreases tasks.len(),
{
    if tasks.len() > 0 {
        law_regeneration_drops_completed(tasks.drop_last(), stored);
        assert(kept_tasks(tasks.drop_last(), stored, false) == tasks.drop_last().filter_map(
            |t: TaskView|
                if status_of(stored, t.id) == Some(TaskStatus::Completed) {
                    None
                } else {
                    Some(t)
                },
        ));
    }
}

} // verus!
