//! The reminder lifecycle: creation, the status transition table, deletion,
//! and the queries by user, status, date and upcoming window.
use vstd::prelude::*;
use vstd::arithmetic::div_mod::lemma_fundamental_div_mod_converse;
use crate::calendar::{day_of_text, parse_date};
use crate::clock::{new_id, now_millis};
use crate::model::{
    reminder_status_of, EngineError, Reminder, ReminderCreateRequest, ReminderStatus,
    UpcomingReminder,
};
use crate::store::{first_task, unique_reminder_ids, Store};

verus! {

/// Milliseconds in a minute.
pub const MILLIS_PER_MINUTE: i64 = 60_000;

/// Milliseconds in an hour.
pub const MILLIS_PER_HOUR: i64 = 3_600_000;

/// Milliseconds in a day.
pub const MILLIS_PER_DAY: i64 = 86_400_000;

/// The reminder that a request creates for `user` with identifier `id` at instant `now`.
pub open spec fn new_reminder(user: u128, req: ReminderCreateRequest, id: u128, now: i64) -> Reminder {
    Reminder {
        reminder_id: id,
        user_id: user,
        task_id: req.task_id,
        reminder_time: req.reminder_time,
        message: req.message,
        notification_type: req.notification_type,
        status: ReminderStatus::Pending,
        created_at: now,
    }
}

/// The transition table of reminder statuses: from every status, only
/// `dismissed` may follow (a second dismissal is accepted and changes nothing).
/// `sent` is never reached through it; a notifier outside the engine sets it.
pub open spec fn reminder_transition_allowed(from: ReminderStatus, to: ReminderStatus) -> bool {
    match from {
        ReminderStatus::Pending => to == ReminderStatus::Dismissed,
        ReminderStatus::Sent => to == ReminderStatus::Dismissed,
        ReminderStatus::Dismissed => to == ReminderStatus::Dismissed,
    }
}

/// The earliest stored reminder with identifier `id`.
pub open spec fn first_reminder(rs: Seq<Reminder>, id: u128) -> Option<Reminder>
    decreases rs.len(),
{
    if rs.len() == 0 {
        None
    } else if rs[0].reminder_id == id {
        Some(rs[0])
    } else {
        first_reminder(rs.drop_first(), id)
    }
}

/// A reminder with its status set to `to`.
pub open spec fn with_status(x: Reminder, to: ReminderStatus) -> Reminder {
    Reminder { status: to, ..x }
}

/// The reminders after every one with identifier `id` is set to `to`.
pub open spec fn apply_reminder_status(rs: Seq<Reminder>, id: u128, to: ReminderStatus) -> Seq<Reminder> {
    rs.map_values(|x: Reminder| if x.reminder_id == id { with_status(x, to) } else { x })
}

/// The day (from January 1, 1970) in which an instant falls, in UTC.
pub open spec fn day_of_instant(ms: int) -> int {
    ms / (MILLIS_PER_DAY as int)
}

/// The bound that an optional date text sets: none where it is absent or no date.
pub open spec fn date_bound(t: Option<String>) -> Option<int> {
    match t {
        Some(s) => day_of_text(s@),
        None => None,
    }
}

/// Whether a reminder belongs in a listing of `user`, by status text and by
/// an inclusive range of days.
pub open spec fn listed(
    x: Reminder,
    user: u128,
    status: Option<String>,
    from: Option<String>,
    to: Option<String>,
) -> bool {
    &&& x.user_id == user
    &&& status matches Some(s) ==> reminder_status_of(s@) == Some(x.status)
    &&& date_bound(from) matches Some(f) ==> day_of_instant(x.reminder_time as int) >= f
    &&& date_bound(to) matches Some(t) ==> day_of_instant(x.reminder_time as int) <= t
}

pub open spec fn listing(
    rs: Seq<Reminder>,
    user: u128,
    status: Option<String>,
    from: Option<String>,
    to: Option<String>,
) -> Seq<Reminder> {
    rs.filter_map(|x: Reminder| if listed(x, user, status, from, to) { Some(x) } else { None })
}

pub ghost struct UpcomingView {
    pub reminder: Reminder,
    pub minutes_until: int,
}

impl View for UpcomingReminder {
    type V = UpcomingView;

    open spec fn view(&self) -> UpcomingView {
        UpcomingView { reminder: self.reminder, minutes_until: self.minutes_until as int }
    }
}

/// The upcoming entry of a reminder of `user`: one due in `[now, now + hours)`,
/// with the whole minutes left until it.
pub open spec fn upcoming_entry(x: Reminder, user: u128, hours: int, now: int) -> Option<UpcomingView> {
    if x.user_id == user && now <= x.reminder_time && x.reminder_time < now + hours * MILLIS_PER_HOUR {
        Some(UpcomingView { reminder: x, minutes_until: (x.reminder_time - now) / (MILLIS_PER_MINUTE as int) })
    } else {
        None
    }
}

pub open spec fn upcoming_entries(rs: Seq<Reminder>, user: u128, hours: int, now: int) -> Seq<UpcomingView> {
    rs.filter_map(|x: Reminder| upcoming_entry(x, user, hours, now))
}

impl ReminderStatus {
    /// Whether the transition table lets a reminder go from this status to `to`.
    pub fn can_become(&self, to: ReminderStatus) -> (r: bool)
        ensures
            r == reminder_transition_allowed(*self, to),
    {
        to == ReminderStatus::Dismissed
    }
}

/// Reminder creation.
pub struct ReminderService;

impl ReminderService {
    /// The reminder that `request` creates for `user_id`, with identifier
    /// `reminder_id`, at instant `now`.
    pub fn build(user_id: u128, request: &ReminderCreateRequest, reminder_id: u128, now: i64) -> (r: Reminder)
        ensures
            r == new_reminder(user_id, *request, reminder_id, now),
    {
        Reminder {
            reminder_id,
            user_id,
            task_id: request.task_id,
            reminder_time: request.reminder_time,
            message: request.message.clone(),
            notification_type: request.notification_type.clone(),
            status: ReminderStatus::Pending,
            created_at: now,
        }
    }

    /// The reminder that `request` creates for `user_id`, with a fresh
    /// identifier and the current instant.
    pub fn create(user_id: u128, request: &ReminderCreateRequest) -> (r: Reminder)
        ensures
            r == new_reminder(user_id, *request, r.reminder_id, r.created_at),
    {
        let id = new_id();
        let now = now_millis();
        Self::build(user_id, request, id, now)
    }

    /// Whether an instant is strictly after `now`.
    pub fn is_future_at(time: i64, now: i64) -> (r: bool)
        ensures
            r == (time > now),
    {
        time > now
    }

    /// Whether an instant is strictly after the current instant.
    pub fn is_future(time: i64) -> bool {
        Self::is_future_at(time, now_millis())
    }
}

/// The day (from January 1, 1970) in which an instant falls, in UTC.
pub fn day_of_millis(ms: i64) -> (r: i64)
    ensures
        r == day_of_instant(ms as int),
{
    if ms >= 0 {
        (ms as u64 / MILLIS_PER_DAY as u64) as i64
    } else {
        let back = (-(ms + 1)) as u64;
        let q = back / MILLIS_PER_DAY as u64;
        proof {
            let d = MILLIS_PER_DAY as int;
            let rem = back as int % d;
            assert(back as int == q as int * d + rem);
            lemma_fundamental_div_mod_converse(ms as int, d, -(q as int) - 1, d - 1 - rem);
        }
        -(q as i64) - 1
    }
}

impl Store {
    /// Creates a pending reminder for the task `req.task_id`, owned by the
    /// task's owner, with identifier `reminder_id`, at instant `now`.
    ///
    /// Fails with `UnknownTask` where the task is not stored, with
    /// `ReminderNotInFuture` where the reminder time is not after `now`, and
    /// with `DuplicateId` where a reminder with identifier `reminder_id` is
    /// stored; the store is then left as it was.
    pub fn create_reminder(&mut self, req: &ReminderCreateRequest, reminder_id: u128, now: i64) -> (r: Result<Reminder, EngineError>)
        ensures
            req.reminder_time <= now ==> r is Err && *final(self) == *old(self),
            first_task(old(self).tasks@, req.task_id) is None ==> r == Err::<Reminder, EngineError>(
                EngineError::UnknownTask,
            ) && *final(self) == *old(self),
            first_task(old(self).tasks@, req.task_id) is Some && req.reminder_time <= now ==> r
                == Err::<Reminder, EngineError>(EngineError::ReminderNotInFuture),
            first_task(old(self).tasks@, req.task_id) is Some && req.reminder_time > now && first_reminder(
                old(self).reminders@,
                reminder_id,
            ) is Some ==> r == Err::<Reminder, EngineError>(EngineError::DuplicateId) && *final(self) == *old(self),
            old(self).well_formed() ==> final(self).well_formed(),
            first_task(old(self).tasks@, req.task_id) matches Some(t) ==> (req.reminder_time > now && first_reminder(
                old(self).reminders@,
                reminder_id,
            ) is None ==> {
                &&& r == Ok::<Reminder, EngineError>(new_reminder(t.user_id, *req, reminder_id, now))
                &&& final(self).reminders@ == old(self).reminders@.push(
                    new_reminder(t.user_id, *req, reminder_id, now),
                )
                &&& final(self).plans == old(self).plans
                &&& final(self).daily_plans == old(self).daily_plans
                &&& final(self).tasks == old(self).tasks
                &&& final(self).tools == old(self).tools
                &&& final(self).users == old(self).users
            }),
    {
        let owner = match self.get_task_user_id(req.task_id) {
            Some(u) => u,
            None => return Err(EngineError::UnknownTask),
        };
        if !ReminderService::is_future_at(req.reminder_time, now) {
            return Err(EngineError::ReminderNotInFuture);
        }
        if self.find_reminder(reminder_id).is_some() {
            return Err(EngineError::DuplicateId);
        }
        let stored = ReminderService::build(owner, req, reminder_id, now);
        let returned = stored.copy();
        let ghost before = self.reminders@;
        self.reminders.push(stored);
        assert(forall|j: int| 0 <= j < before.len() ==> before[j].reminder_id != reminder_id);
        assert(self.reminders@ == before.push(returned));
        Ok(returned)
    }

    /// The position of the earliest stored reminder with identifier `id`.
    fn find_reminder(&self, id: u128) -> (r: Option<usize>)
        ensures
            match r {
                Some(i) => i < self.reminders@.len() && self.reminders@[i as int].reminder_id == id
                    && first_reminder(self.reminders@, id) == Some(self.reminders@[i as int]),
                None => first_reminder(self.reminders@, id) is None
                    && forall|j: int| 0 <= j < self.reminders@.len() ==> self.reminders@[j].reminder_id != id,
            },
    {
        assert(self.reminders@.subrange(0, self.reminders@.len() as int) =~= self.reminders@);
        for i in 0..self.reminders.len()
            invariant
                forall|j: int| 0 <= j < i ==> self.reminders@[j].reminder_id != id,
                first_reminder(self.reminders@, id) == first_reminder(
                    self.reminders@.subrange(i as int, self.reminders@.len() as int),
                    id,
                ),
        {
            let ghost rest = self.reminders@.subrange(i as int, self.reminders@.len() as int);
            assert(rest.drop_first() =~= self.reminders@.subrange(i + 1, self.reminders@.len() as int));
            if self.reminders[i].reminder_id == id {
                return Some(i);
            }
        }
        None
    }

    /// The earliest stored reminder with identifier `id`.
    pub fn get_reminder(&self, id: u128) -> (r: Option<Reminder>)
        ensures
            r == first_reminder(self.reminders@, id),
    {
        match self.find_reminder(id) {
            Some(i) => Some(self.reminders[i].copy()),
            None => None,
        }
    }

    /// Writes the status that `status` names to every reminder with identifier
    /// `reminder_id`, with no check of the transition table, and returns whether
    /// there was such a reminder. This is how a notifier outside the engine marks
    /// a reminder sent. Fails with `InvalidStatus`, changing nothing, where the
    /// text names no reminder status.
    pub fn update_reminder_status(&mut self, reminder_id: u128, status: &str) -> (r: Result<bool, EngineError>)
        ensures
            reminder_status_of(status@) is None ==> r == Err::<bool, EngineError>(EngineError::InvalidStatus)
                && *final(self) == *old(self),
            reminder_status_of(status@) matches Some(to) ==> {
                &&& r == Ok::<bool, EngineError>(
                    exists|j: int| 0 <= j < old(self).reminders@.len() && old(self).reminders@[j].reminder_id == reminder_id,
                )
                &&& final(self).reminders@ == apply_reminder_status(old(self).reminders@, reminder_id, to)
                &&& final(self).plans == old(self).plans
                &&& final(self).daily_plans == old(self).daily_plans
                &&& final(self).tasks == old(self).tasks
                &&& final(self).tools == old(self).tools
                &&& final(self).users == old(self).users
            },
            old(self).well_formed() ==> final(self).well_formed(),
    {
        let to = match ReminderStatus::parse(status) {
            Some(st) => st,
            None => return Err(EngineError::InvalidStatus),
        };
        let n = self.reminders.len();
        let mut found = false;
        for i in 0..n
            invariant
                n == old(self).reminders@.len(),
                self.reminders@.len() == n,
                self.plans == old(self).plans,
                self.daily_plans == old(self).daily_plans,
                self.tasks == old(self).tasks,
                self.tools == old(self).tools,
                self.users == old(self).users,
                found == exists|j: int| 0 <= j < i && old(self).reminders@[j].reminder_id == reminder_id,
                forall|j: int| 0 <= j < i ==> #[trigger] self.reminders@[j] == (if old(self).reminders@[j].reminder_id == reminder_id {
                    with_status(old(self).reminders@[j], to)
                } else {
                    old(self).reminders@[j]
                }),
                forall|j: int| i <= j < n ==> #[trigger] self.reminders@[j] == old(self).reminders@[j],
        {
            if self.reminders[i].reminder_id == reminder_id {
                let mut x = self.reminders[i].copy();
                x.status = to;
                self.reminders[i] = x;
                found = true;
            }
        }
        assert(self.reminders@ =~= apply_reminder_status(old(self).reminders@, reminder_id, to));
        Ok(found)
    }

    /// Moves the reminder with identifier `reminder_id` to the status that
    /// `status` names, as the transition table allows, and returns that status.
    ///
    /// Fails with `NotFound` where no such reminder is stored, with
    /// `InvalidStatus` where the text names no reminder status, and with
    /// `InvalidTransition` where the table forbids the change (so a pending
    /// reminder can never be marked sent here); the store is then left as it was.
    pub fn update_reminder(&mut self, reminder_id: u128, status: &str) -> (r: Result<ReminderStatus, EngineError>)
        ensures
            first_reminder(old(self).reminders@, reminder_id) is None ==> r == Err::<ReminderStatus, EngineError>(
                EngineError::NotFound,
            ) && *final(self) == *old(self),
            first_reminder(old(self).reminders@, reminder_id) is Some && reminder_status_of(status@) is None
                ==> r == Err::<ReminderStatus, EngineError>(EngineError::InvalidStatus) && *final(self) == *old(self),
            first_reminder(old(self).reminders@, reminder_id) matches Some(x) ==> (reminder_status_of(status@) matches Some(to) ==> {
                &&& !reminder_transition_allowed(x.status, to) ==> r == Err::<ReminderStatus, EngineError>(
                    EngineError::InvalidTransition,
                ) && *final(self) == *old(self)
                &&& reminder_transition_allowed(x.status, to) ==> {
                    &&& r == Ok::<ReminderStatus, EngineError>(to)
                    &&& final(self).reminders@ == apply_reminder_status(old(self).reminders@, reminder_id, to)
                    &&& final(self).plans == old(self).plans
                    &&& final(self).daily_plans == old(self).daily_plans
                    &&& final(self).tasks == old(self).tasks
                    &&& final(self).tools == old(self).tools
                    &&& final(self).users == old(self).users
                }
            }),
            first_reminder(old(self).reminders@, reminder_id) matches Some(x) && x.status == ReminderStatus::Pending
                && status@ == "sent"@ ==> r == Err::<ReminderStatus, EngineError>(EngineError::InvalidTransition)
                && *final(self) == *old(self),
            old(self).well_formed() ==> final(self).well_formed(),
    {
        proof {
            reveal_strlit("sent");
            reveal_strlit("pending");
            assert("sent"@.len() == 4 && "pending"@.len() == 7);
        }
        let first = match self.find_reminder(reminder_id) {
            Some(i) => i,
            None => return Err(EngineError::NotFound),
        };
        let to = match ReminderStatus::parse(status) {
            Some(st) => st,
            None => return Err(EngineError::InvalidStatus),
        };
        if !self.reminders[first].status.can_become(to) {
            return Err(EngineError::InvalidTransition);
        }
        let written = self.update_reminder_status(reminder_id, status);
        assert(written is Ok);
        Ok(to)
    }

    /// Deletes every reminder with identifier `reminder_id`; whether there was one.
    pub fn delete_reminder(&mut self, reminder_id: u128) -> (r: bool)
        ensures
            r == exists|j: int| 0 <= j < old(self).reminders@.len() && old(self).reminders@[j].reminder_id == reminder_id,
            final(self).reminders@ == old(self).reminders@.filter_map(
                |x: Reminder| if x.reminder_id == reminder_id { None } else { Some(x) },
            ),
            final(self).plans == old(self).plans,
            final(self).daily_plans == old(self).daily_plans,
            final(self).tasks == old(self).tasks,
            final(self).tools == old(self).tools,
            final(self).users == old(self).users,
            old(self).well_formed() ==> final(self).well_formed(),
    {
        let ghost all = self.reminders@;
        let mut kept: Vec<Reminder> = Vec::new();
        let mut removed = false;
        for i in 0..self.reminders.len()
            invariant
                all == self.reminders@,
                forall|k: int| 0 <= k < kept@.len() ==> exists|j: int| 0 <= j < i && #[trigger] kept@[k] == all[j],
                old(self).well_formed() ==> unique_reminder_ids(kept@),
                self.reminders == old(self).reminders,
                removed == exists|j: int| 0 <= j < i && all[j].reminder_id == reminder_id,
                kept@ == all.subrange(0, i as int).filter_map(
                    |x: Reminder| if x.reminder_id == reminder_id { None } else { Some(x) },
                ),
        {
            let ghost prefix = all.subrange(0, i + 1);
            assert(prefix.drop_last() =~= all.subrange(0, i as int));
            let ghost prev_kept = kept@;
            if self.reminders[i].reminder_id == reminder_id {
                removed = true;
            } else {
                kept.push(self.reminders[i].copy());
                proof {
                    assert(kept@ == prev_kept.push(all[i as int]));
                    if old(self).well_formed() {
                        assert forall|k: int| 0 <= k < prev_kept.len() implies #[trigger] prev_kept[k].reminder_id != all[i as int].reminder_id by {
                            let j = choose|j: int| 0 <= j < i && prev_kept[k] == all[j];
                            assert(all[j].reminder_id != all[i as int].reminder_id);
                        }
                    }
                    assert forall|k: int| 0 <= k < kept@.len() implies exists|j: int| 0 <= j < i + 1 && #[trigger] kept@[k] == all[j] by {
                        if k < prev_kept.len() {
                            let j = choose|j: int| 0 <= j < i && prev_kept[k] == all[j];
                            assert(kept@[k] == all[j]);
                        } else {
                            assert(kept@[k] == all[i as int]);
                        }
                    }
                }
            }
            assert(kept@ =~= prefix.filter_map(|x: Reminder| if x.reminder_id == reminder_id { None } else { Some(x) }));
        }
        assert(all.subrange(0, all.len() as int) =~= all);
        self.reminders = kept;
        removed
    }

    /// The reminders of `user_id`, optionally only those whose status text is
    /// `status` and those that fall within an inclusive range of days; a bound
    /// that is no date is ignored.
    pub fn list_reminders(
        &self,
        user_id: u128,
        status: &Option<String>,
        from_date: &Option<String>,
        to_date: &Option<String>,
    ) -> (r: Vec<Reminder>)
        ensures
            r@ == listing(self.reminders@, user_id, *status, *from_date, *to_date),
    {
        let from = match from_date {
            Some(s) => parse_date(s.as_str()),
            None => None,
        };
        let to = match to_date {
            Some(s) => parse_date(s.as_str()),
            None => None,
        };
        let mut r: Vec<Reminder> = Vec::new();
        for i in 0..self.reminders.len()
            invariant
                match from {
                    Some(f) => date_bound(*from_date) == Some(f as int),
                    None => date_bound(*from_date) is None,
                },
                match to {
                    Some(t) => date_bound(*to_date) == Some(t as int),
                    None => date_bound(*to_date) is None,
                },
                r@ == listing(self.reminders@.subrange(0, i as int), user_id, *status, *from_date, *to_date),
        {
            let x = &self.reminders[i];
            let ghost prefix = self.reminders@.subrange(0, i + 1);
            assert(prefix.drop_last() =~= self.reminders@.subrange(0, i as int));
            let status_ok = match status {
                Some(s) => match ReminderStatus::parse(s.as_str()) {
                    Some(st) => st == x.status,
                    None => false,
                },
                None => true,
            };
            let day = day_of_millis(x.reminder_time);
            let from_ok = match from {
                Some(f) => day >= f as i64,
                None => true,
            };
            let to_ok = match to {
                Some(t) => day <= t as i64,
                None => true,
            };
            if x.user_id == user_id && status_ok && from_ok && to_ok {
                r.push(x.copy());
            }
            assert(r@ =~= listing(prefix, user_id, *status, *from_date, *to_date));
        }
        assert(self.reminders@.subrange(0, self.reminders@.len() as int) =~= self.reminders@);
        r
    }

    /// The reminders of `user_id` due in `[now, now + window_hours)`, each with
    /// the whole minutes left until it.
    pub fn list_upcoming(&self, user_id: u128, window_hours: i64, now: i64) -> (r: Vec<UpcomingReminder>)
        ensures
            r@.map_values(|u: UpcomingReminder| u@) == upcoming_entries(
                self.reminders@,
                user_id,
                window_hours as int,
                now as int,
            ),
    {
        let end: i128 = now as i128 + window_hours as i128 * MILLIS_PER_HOUR as i128;
        let mut r: Vec<UpcomingReminder> = Vec::new();
        for i in 0..self.reminders.len()
            invariant
                end == now + window_hours * MILLIS_PER_HOUR,
                r@.map_values(|u: UpcomingReminder| u@) == upcoming_entries(
                    self.reminders@.subrange(0, i as int),
                    user_id,
                    window_hours as int,
                    now as int,
                ),
        {
            let x = &self.reminders[i];
            let ghost prefix = self.reminders@.subrange(0, i + 1);
            assert(prefix.drop_last() =~= self.reminders@.subrange(0, i as int));
            if x.user_id == user_id && x.reminder_time >= now && (x.reminder_time as i128) < end {
                let ahead = (x.reminder_time as i128 - now as i128) as u64;
                let minutes = (ahead / MILLIS_PER_MINUTE as u64) as i64;
                r.push(UpcomingReminder { reminder: x.copy(), minutes_until: minutes });
            }
            assert(r@.map_values(|u: UpcomingReminder| u@) =~= upcoming_entries(
                prefix,
                user_id,
                window_hours as int,
                now as int,
            ));
        }
        assert(self.reminders@.subrange(0, self.reminders@.len() as int) =~= self.reminders@);
        r
    }
}

} // verus!
