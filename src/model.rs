//! The data of the engine: tasks, daily and weekly plans, stored task state,
//! reminders, and the closed sets of statuses and priorities.
//!
//! Identifiers are 128-bit values, instants are milliseconds since the Unix
//! epoch, and calendar dates are `YYYY-MM-DD` texts (see `calendar`).
use vstd::prelude::*;
use crate::text::{copy_opt_text, copy_texts, same_text};

verus! {

/// How urgent a task is.
#[derive(Clone, Copy, Debug, PartialEq, Eq, Structural)]
pub enum Priority {
    High,
    Medium,
    Low,
}

/// Where a task stands in its lifecycle.
#[derive(Clone, Copy, Debug, PartialEq, Eq, Structural)]
pub enum TaskStatus {
    Pending,
    InProgress,
    Completed,
    Skipped,
}

/// Where a reminder stands in its lifecycle.
#[derive(Clone, Copy, Debug, PartialEq, Eq, Structural)]
pub enum ReminderStatus {
    Pending,
    Sent,
    Dismissed,
}

/// The task status that a text names, if any.
pub open spec fn task_status_of(s: Seq<char>) -> Option<TaskStatus> {
    if s == "pending"@ {
        Some(TaskStatus::Pending)
    } else if s == "in_progress"@ {
        Some(TaskStatus::InProgress)
    } else if s == "completed"@ {
        Some(TaskStatus::Completed)
    } else if s == "skipped"@ {
        Some(TaskStatus::Skipped)
    } else {
        None
    }
}

/// The reminder status that a text names, if any.
pub open spec fn reminder_status_of(s: Seq<char>) -> Option<ReminderStatus> {
    if s == "pending"@ {
        Some(ReminderStatus::Pending)
    } else if s == "sent"@ {
        Some(ReminderStatus::Sent)
    } else if s == "dismissed"@ {
        Some(ReminderStatus::Dismissed)
    } else {
        None
    }
}

impl TaskStatus {
    /// Reads a status from its text (`pending`, `in_progress`, `completed`, `skipped`).
    pub fn parse(s: &str) -> (r: Option<TaskStatus>)
        ensures
            r == task_status_of(s@),
    {
        if same_text(s, "pending") {
            Some(TaskStatus::Pending)
        } else if same_text(s, "in_progress") {
            Some(TaskStatus::InProgress)
        } else if same_text(s, "completed") {
            Some(TaskStatus::Completed)
        } else if same_text(s, "skipped") {
            Some(TaskStatus::Skipped)
        } else {
            None
        }
    }

    /// The text of a status.
    pub fn as_text(&self) -> (r: &'static str)
        ensures
            task_status_of(r@) == Some(*self),
    {
        proof {
            reveal_strlit("pending");
            reveal_strlit("in_progress");
            reveal_strlit("completed");
            reveal_strlit("skipped");
            assert("pending"@[0] == 'p' && "in_progress"@[0] == 'i');
            assert("completed"@[0] == 'c' && "skipped"@[0] == 's');
        }
        match self {
            TaskStatus::Pending => "pending",
            TaskStatus::InProgress => "in_progress",
            TaskStatus::Completed => "completed",
            TaskStatus::Skipped => "skipped",
        }
    }
}

impl ReminderStatus {
    /// Reads a status from its text (`pending`, `sent`, `dismissed`).
    pub fn parse(s: &str) -> (r: Option<ReminderStatus>)
        ensures
            r == reminder_status_of(s@),
    {
        if same_text(s, "pending") {
            Some(ReminderStatus::Pending)
        } else if same_text(s, "sent") {
            Some(ReminderStatus::Sent)
        } else if same_text(s, "dismissed") {
            Some(ReminderStatus::Dismissed)
        } else {
            None
        }
    }

    /// The text of a status.
    pub fn as_text(&self) -> (r: &'static str)
        ensures
            reminder_status_of(r@) == Some(*self),
    {
        proof {
            reveal_strlit("pending");
            reveal_strlit("sent");
            reveal_strlit("dismissed");
            assert("pending"@[0] == 'p' && "sent"@[0] == 's' && "dismissed"@[0] == 'd');
        }
        match self {
            ReminderStatus::Pending => "pending",
            ReminderStatus::Sent => "sent",
            ReminderStatus::Dismissed => "dismissed",
        }
    }
}

impl Priority {
    /// The text of a priority (`high`, `medium`, `low`).
    pub fn as_text(&self) -> (r: &'static str)
        ensures
            *self is High ==> r@ == "high"@,
            *self is Medium ==> r@ == "medium"@,
            *self is Low ==> r@ == "low"@,
    {
        match self {
            Priority::High => "high",
            Priority::Medium => "medium",
            Priority::Low => "low",
        }
    }
}

/// Why an operation was refused.
#[derive(Clone, Copy, Debug, PartialEq, Eq, Structural)]
pub enum EngineError {
    /// A status text outside the closed set of its kind.
    InvalidStatus,
    /// A reminder status change that the transition table forbids.
    InvalidTransition,
    /// A reminder whose time is not after the moment of creation.
    ReminderNotInFuture,
    /// A reminder for a task that is not stored.
    UnknownTask,
    /// A plan whose week would run past the last representable date.
    DateOutOfRange,
    /// A date text that is not a `YYYY-MM-DD` date.
    InvalidDate,
    /// A new record carries the identifier of a stored one.
    DuplicateId,
    /// The referenced task or reminder is not stored.
    NotFound,
}

impl EngineError {
    /// Whether the error is a validation error (everything but `NotFound`).
    pub fn is_validation(&self) -> (r: bool)
        ensures
            r == !(*self is NotFound),
    {
        !matches!(self, EngineError::NotFound)
    }

    /// The HTTP status that reports the error: 404 for `NotFound`, else 400.
    pub fn http_status(&self) -> (r: u16)
        ensures
            r == (if *self is NotFound { 404u16 } else { 400u16 }),
    {
        match self {
            EngineError::NotFound => 404,
            _ => 400,
        }
    }

    /// The error code that reports the error: `NOT_FOUND` or `VALIDATION_ERROR`.
    pub fn code(&self) -> (r: &'static str)
        ensures
            *self is NotFound ==> r@ == "NOT_FOUND"@,
            !(*self is NotFound) ==> r@ == "VALIDATION_ERROR"@,
    {
        match self {
            EngineError::NotFound => "NOT_FOUND",
            _ => "VALIDATION_ERROR",
        }
    }
}

/// A schedulable unit of study work.
#[derive(Debug)]
pub struct Task {
    pub id: u128,
    pub subject: String,
    pub topic: String,
    pub duration_minutes: u32,
    pub start_time: String,
    pub due_date: String,
    pub priority: Priority,
    pub resources: Vec<String>,
    pub ai_notes: String,
}

pub ghost struct TaskView {
    pub id: u128,
    pub subject: Seq<char>,
    pub topic: Seq<char>,
    pub duration_minutes: u32,
    pub start_time: Seq<char>,
    pub due_date: Seq<char>,
    pub priority: Priority,
    pub resources: Seq<Seq<char>>,
    pub ai_notes: Seq<char>,
}

pub open spec fn texts_view(v: Seq<String>) -> Seq<Seq<char>> {
    v.map_values(|s: String| s@)
}

impl View for Task {
    type V = TaskView;

    open spec fn view(&self) -> TaskView {
        TaskView {
            id: self.id,
            subject: self.subject@,
            topic: self.topic@,
            duration_minutes: self.duration_minutes,
            start_time: self.start_time@,
            due_date: self.due_date@,
            priority: self.priority,
            resources: texts_view(self.resources@),
            ai_notes: self.ai_notes@,
        }
    }
}

pub open spec fn tasks_view(v: Seq<Task>) -> Seq<TaskView> {
    v.map_values(|t: Task| t@)
}

impl Task {
    /// A copy of the task.
    pub fn copy(&self) -> (r: Task)
        ensures
            r@ == self@,
    {
        let resources = copy_texts(&self.resources);
        Task {
            id: self.id,
            subject: self.subject.clone(),
            topic: self.topic.clone(),
            duration_minutes: self.duration_minutes,
            start_time: self.start_time.clone(),
            due_date: self.due_date.clone(),
            priority: self.priority,
            resources,
            ai_notes: self.ai_notes.clone(),
        }
    }
}

/// A copy of a list of tasks.
pub fn copy_tasks(v: &Vec<Task>) -> (r: Vec<Task>)
    ensures
        tasks_view(r@) == tasks_view(v@),
{
    let mut r: Vec<Task> = Vec::new();
    for i in 0..v.len()
        invariant
            r@.len() == i,
            forall|j: int| 0 <= j < i ==> #[trigger] r@[j]@ == v@[j]@,
    {
        r.push(v[i].copy());
    }
    assert(tasks_view(r@) =~= tasks_view(v@));
    r
}

/// One calendar day of a plan.
#[derive(Debug)]
pub struct DailyPlan {
    pub date: String,
    pub day: String,
    pub tasks: Vec<Task>,
    pub total_study_time: u32,
    pub breaks: Vec<String>,
}

pub ghost struct DailyPlanView {
    pub date: Seq<char>,
    pub day: Seq<char>,
    pub tasks: Seq<TaskView>,
    pub total_study_time: u32,
    pub breaks: Seq<Seq<char>>,
}

impl View for DailyPlan {
    type V = DailyPlanView;

    open spec fn view(&self) -> DailyPlanView {
        DailyPlanView {
            date: self.date@,
            day: self.day@,
            tasks: tasks_view(self.tasks@),
            total_study_time: self.total_study_time,
            breaks: texts_view(self.breaks@),
        }
    }
}

impl DailyPlan {
    /// A copy of the daily plan.
    pub fn copy(&self) -> (r: DailyPlan)
        ensures
            r@ == self@,
    {
        DailyPlan {
            date: self.date.clone(),
            day: self.day.clone(),
            tasks: copy_tasks(&self.tasks),
            total_study_time: self.total_study_time,
            breaks: copy_texts(&self.breaks),
        }
    }
}

/// The seven days of a generated plan.
#[derive(Debug)]
pub struct WeeklyPlan {
    pub week_start: String,
    pub week_end: String,
    pub subjects: Vec<String>,
    pub daily_plans: Vec<DailyPlan>,
}

/// A generated week of study for one user.
#[derive(Debug)]
pub struct Plan {
    pub plan_id: u128,
    pub user_id: u128,
    pub weekly_plan: WeeklyPlan,
    pub ai_rationale: String,
    pub generated_at: i64,
}

/// What a plan is generated from.
#[derive(Debug)]
pub struct PlanGenerateRequest {
    pub user_id: u128,
    pub subjects: Vec<String>,
    pub goals: String,
    pub study_hours_per_day: u32,
    pub difficulty_level: String,
    pub start_date: String,
}

/// A task together with its lifecycle state.
#[derive(Debug)]
pub struct StoredTask {
    pub task: Task,
    pub status: TaskStatus,
    pub actual_duration: Option<u32>,
    pub notes: Option<String>,
    pub updated_at: i64,
    pub completed_at: Option<i64>,
    pub user_id: u128,
    pub plan_date: String,
}

pub ghost struct StoredTaskView {
    pub task: TaskView,
    pub status: TaskStatus,
    pub actual_duration: Option<u32>,
    pub notes: Option<Seq<char>>,
    pub updated_at: i64,
    pub completed_at: Option<i64>,
    pub user_id: u128,
    pub plan_date: Seq<char>,
}

pub open spec fn opt_text_view(v: Option<String>) -> Option<Seq<char>> {
    match v {
        Some(s) => Some(s@),
        None => None,
    }
}

impl View for StoredTask {
    type V = StoredTaskView;

    open spec fn view(&self) -> StoredTaskView {
        StoredTaskView {
            task: self.task@,
            status: self.status,
            actual_duration: self.actual_duration,
            notes: opt_text_view(self.notes),
            updated_at: self.updated_at,
            completed_at: self.completed_at,
            user_id: self.user_id,
            plan_date: self.plan_date@,
        }
    }
}

impl StoredTask {
    /// A copy of the stored task.
    pub fn copy(&self) -> (r: StoredTask)
        ensures
            r@ == self@,
    {
        StoredTask {
            task: self.task.copy(),
            status: self.status,
            actual_duration: self.actual_duration,
            notes: copy_opt_text(&self.notes),
            updated_at: self.updated_at,
            completed_at: self.completed_at,
            user_id: self.user_id,
            plan_date: self.plan_date.clone(),
        }
    }
}

/// A requested change of a task's status.
#[derive(Debug)]
pub struct TaskUpdateRequest {
    pub status: String,
    pub actual_duration: Option<u32>,
    pub notes: Option<String>,
}

/// What a daily regeneration asks for.
#[derive(Debug)]
pub struct RegenerateRequest {
    pub user_id: u128,
    pub adjustments: String,
    pub keep_completed: bool,
}

/// A recomputed daily plan and a summary of what was applied.
#[derive(Debug)]
pub struct RegenerateResponse {
    pub daily_plan: DailyPlan,
    pub changes: String,
}

/// A stored task whose due date has passed.
#[derive(Debug)]
pub struct OverdueTask {
    pub task_id: u128,
    pub subject: String,
    pub topic: String,
    pub due_date: String,
    pub days_overdue: i64,
    pub priority: Priority,
    pub status: TaskStatus,
}

/// A scheduled notification tied to a task.
#[derive(Debug)]
pub struct Reminder {
    pub reminder_id: u128,
    pub user_id: u128,
    pub task_id: u128,
    pub reminder_time: i64,
    pub message: String,
    pub notification_type: String,
    pub status: ReminderStatus,
    pub created_at: i64,
}

impl Reminder {
    /// A copy of the reminder.
    pub fn copy(&self) -> (r: Reminder)
        ensures
            r == *self,
    {
        Reminder {
            reminder_id: self.reminder_id,
            user_id: self.user_id,
            task_id: self.task_id,
            reminder_time: self.reminder_time,
            message: self.message.clone(),
            notification_type: self.notification_type.clone(),
            status: self.status,
            created_at: self.created_at,
        }
    }
}

/// What a reminder is created from.
#[derive(Debug)]
pub struct ReminderCreateRequest {
    pub task_id: u128,
    pub reminder_time: i64,
    pub message: String,
    pub notification_type: String,
}

/// A requested change of a reminder's status.
#[derive(Debug)]
pub struct ReminderUpdateRequest {
    pub status: String,
}

/// The outcome of deleting a reminder.
#[derive(Debug)]
pub struct ReminderDeleteResponse {
    pub success: bool,
    pub message: String,
}

/// A reminder due within a window, with the whole minutes left until it.
#[derive(Debug)]
pub struct UpcomingReminder {
    pub reminder: Reminder,
    pub minutes_until: i64,
}

} // verus!
