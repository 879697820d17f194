use crate::calendar::{MAX_DAY, MIN_DAY};
use crate::commands::{
    Reply, add_command, add_outcome, delete_command, delete_outcome, edit_command, edit_outcome,
    log_reply, new_week_command, new_week_outcome, press_button, press_outcome, report_reply,
    text_view, week_reply,
};
use crate::model::WeeklyAttendance;
use crate::render::{attendance_report, log_report};
use std::sync::Arc;
use vstd::prelude::*;
use vstd::rwlock::{ReadHandle, RwLock, RwLockPredicate, WriteHandle};

verus! {

/// The predicate of the shared lock: every week it holds is well-formed.
pub struct WellFormedWeek;

impl RwLockPredicate<WeeklyAttendance> for WellFormedWeek {
    open spec fn inv(self, v: WeeklyAttendance) -> bool {
        v.wf()
    }
}

/// The week shared by every handler: one reader/writer lock behind a reference count.
/// Writers hold it alone, readers together; a week put back must be well-formed.
#[derive(Clone)]
pub struct SharedState(pub Arc<RwLock<WeeklyAttendance, WellFormedWeek>>);

impl SharedState {
    /// Shares `initial` behind a lock that only ever holds well-formed weeks.
    pub fn new(initial: WeeklyAttendance) -> (r: SharedState)
        requires
            initial.wf(),
        ensures
            (*r.0).pred() == WellFormedWeek,
            forall|w: WeeklyAttendance| (*r.0).inv(w) <==> w.wf(),
    {
        SharedState(Arc::new(RwLock::new(initial, Ghost(WellFormedWeek))))
    }

    /// Shared access: the handle borrows a well-formed week until `release_read`.
    pub fn read(&self) -> (r: ReadHandle<'_, WeeklyAttendance, WellFormedWeek>)
        ensures
            r.rwlock() == *self.0,
            r.view().wf(),
    {
        self.0.acquire_read()
    }

    /// Exclusive access: the week, taken out of the lock, and the handle that puts a
    /// well-formed week back with `release_write`.
    pub fn write(&self) -> (r: (WeeklyAttendance, WriteHandle<'_, WeeklyAttendance, WellFormedWeek>))
        ensures
            r.0.wf(),
            r.1.rwlock() == *self.0,
    {
        self.0.acquire_write()
    }

    /// A deep copy of the current week, taken under a short shared access.
    pub fn snapshot(&self) -> (r: WeeklyAttendance)
        ensures
            r.wf(),
    {
        let handle = self.read();
        let copy = handle.borrow().snapshot();
        handle.release_read();
        copy
    }

    /// `new_week` under one exclusive access: the dates move and every attendee list is
    /// emptied together, so no reader sees one change without the other.
    pub fn handle_new_week(&self, today: i32) -> (r: Reply)
        requires
            MIN_DAY <= today <= MAX_DAY - 13,
        ensures
            exists|old: WeeklyAttendance, new: WeeklyAttendance|
                old.wf() && new.wf() && #[trigger] new_week_outcome(old, new, today as int, r),
    {
        let (mut week, handle) = self.write();
        let ghost old = week;
        let reply = new_week_command(&mut week, today);
        let ghost new = week;
        handle.release_write(week);
        assert(old.wf() && new.wf() && new_week_outcome(old, new, today as int, reply));
        reply
    }

    /// `add` under one exclusive access.
    pub fn handle_add(&self, raw_args: &str) -> (r: Reply)
        ensures
            exists|old: WeeklyAttendance, new: WeeklyAttendance|
                old.wf() && new.wf() && #[trigger] add_outcome(old, new, raw_args@, r),
    {
        let (mut week, handle) = self.write();
        let ghost old = week;
        let reply = add_command(&mut week, raw_args);
        let ghost new = week;
        handle.release_write(week);
        assert(old.wf() && new.wf() && add_outcome(old, new, raw_args@, reply));
        reply
    }

    /// `edit` under one exclusive access.
    pub fn handle_edit(&self, raw_args: &str) -> (r: Reply)
        ensures
            exists|old: WeeklyAttendance, new: WeeklyAttendance|
                old.wf() && new.wf() && #[trigger] edit_outcome(old, new, raw_args@, r),
    {
        let (mut week, handle) = self.write();
        let ghost old = week;
        let reply = edit_command(&mut week, raw_args);
        let ghost new = week;
        handle.release_write(week);
        assert(old.wf() && new.wf() && edit_outcome(old, new, raw_args@, reply));
        reply
    }

    /// `delete` under one exclusive access.
    pub fn handle_delete(&self, order: usize) -> (r: Reply)
        ensures
            exists|old: WeeklyAttendance, new: WeeklyAttendance|
                old.wf() && new.wf() && #[trigger] delete_outcome(old, new, order as nat, r),
    {
        let (mut week, handle) = self.write();
        let ghost old = week;
        let reply = delete_command(&mut week, order);
        let ghost new = week;
        handle.release_write(week);
        assert(old.wf() && new.wf() && delete_outcome(old, new, order as nat, reply));
        reply
    }

    /// A button press under one exclusive access.
    pub fn handle_press(&self, data: Option<&str>, user_id: u64, alias: String) -> (r: Reply)
        ensures
            exists|old: WeeklyAttendance, new: WeeklyAttendance|
                old.wf() && new.wf() && #[trigger] press_outcome(
                    old,
                    new,
                    text_view(data),
                    user_id,
                    alias,
                    r,
                ),
    {
        let (mut week, handle) = self.write();
        let ghost old = week;
        let reply = press_button(&mut week, data, user_id, alias);
        let ghost new = week;
        handle.release_write(week);
        assert(old.wf() && new.wf() && press_outcome(old, new, text_view(data), user_id, alias, reply));
        reply
    }

    /// The attendance report with its controls, under a shared access.
    pub fn handle_history(&self) -> (r: Reply)
        ensures
            exists|w: WeeklyAttendance| w.wf() && #[trigger] week_reply(r, attendance_report(w), w),
    {
        let handle = self.read();
        let reply = report_reply(handle.borrow());
        let ghost w = handle.view();
        handle.release_read();
        assert(w.wf() && week_reply(reply, attendance_report(w), w));
        reply
    }

    /// The log report with its controls, under a shared access.
    pub fn handle_log(&self) -> (r: Reply)
        ensures
            exists|w: WeeklyAttendance| w.wf() && #[trigger] week_reply(r, log_report(w), w),
    {
        let handle = self.read();
        let reply = log_reply(handle.borrow());
        let ghost w = handle.view();
        handle.release_read();
        assert(w.wf() && week_reply(reply, log_report(w), w));
        reply
    }
}

} // verus!
