use crate::model::{
    Attendee, TrainingSession, UserProfile, WeeklyAttendance, all_registered, ids_unique,
    users_unique,
};
use crate::render::{alias_of, alias_text, attendance_report, session_block};
use crate::store::with_roster;
use std::collections::HashMap;
use vstd::prelude::*;

verus! {

/// One record written to storage: a user who attends a session, with the alias shown.
pub struct AttendanceRow {
    pub session_id: u8,
    pub user_id: u64,
    pub alias: String,
}

impl AttendanceRow {
    /// The row as plain values.
    pub open spec fn model(&self) -> (u8, u64, Seq<char>) {
        (self.session_id, self.user_id, self.alias@)
    }
}

/// The rows of one session: its active attendees in list order, each with its alias.
pub open spec fn active_rows(
    registry: Map<u64, UserProfile>,
    session_id: u8,
    attendees: Seq<Attendee>,
) -> Seq<(u8, u64, Seq<char>)>
    decreases attendees.len(),
{
    if attendees.len() == 0 {
        Seq::empty()
    } else {
        let a = attendees.last();
        let prev = active_rows(registry, session_id, attendees.drop_last());
        if a.cancelled {
            prev
        } else {
            prev.push((session_id, a.user_id, alias_of(registry, a.user_id)))
        }
    }
}

/// The rows of a list of sessions, session by session in list order.
pub open spec fn sessions_rows(
    registry: Map<u64, UserProfile>,
    sessions: Seq<TrainingSession>,
) -> Seq<(u8, u64, Seq<char>)>
    decreases sessions.len(),
{
    if sessions.len() == 0 {
        Seq::empty()
    } else {
        sessions_rows(registry, sessions.drop_last()) + active_rows(
            registry,
            sessions.last().id,
            sessions.last().attendees@,
        )
    }
}

/// Appends the rows of one session.
fn push_session_rows(
    rows: &mut Vec<AttendanceRow>,
    registry: &HashMap<u64, UserProfile>,
    s: &TrainingSession,
)
    ensures
        final(rows)@.map_values(|r: AttendanceRow| r.model()) == old(rows)@.map_values(
            |r: AttendanceRow| r.model(),
        ) + active_rows(registry@, s.id, s.attendees@),
{
    let ghost start = old(rows)@.map_values(|r: AttendanceRow| r.model());
    let mut k: usize = 0;
    while k < s.attendees.len()
        invariant
            0 <= k <= s.attendees@.len(),
            rows@.map_values(|r: AttendanceRow| r.model()) == start + active_rows(
                registry@,
                s.id,
                s.attendees@.take(k as int),
            ),
        decreases s.attendees@.len() - k,
    {
        assert(s.attendees@.take(k + 1).drop_last() == s.attendees@.take(k as int));
        let a = s.attendees[k];
        if !a.cancelled {
            let ghost before = rows@;
            rows.push(AttendanceRow { session_id: s.id, user_id: a.user_id, alias: alias_text(registry, a.user_id) });
            assert(rows@.map_values(|r: AttendanceRow| r.model()) == before.map_values(
                |r: AttendanceRow| r.model(),
            ).push(rows@.last().model()));
        }
        k += 1;
    }
    assert(s.attendees@.take(k as int) == s.attendees@);
}

impl TrainingSession {
    /// A deep copy of the session.
    pub fn duplicate(&self) -> (r: TrainingSession)
        ensures
            with_roster(*self, r, self.attendees@),
    {
        let mut attendees: Vec<Attendee> = Vec::new();
        let mut k: usize = 0;
        while k < self.attendees.len()
            invariant
                0 <= k <= self.attendees@.len(),
                attendees@ == self.attendees@.take(k as int),
            decreases self.attendees@.len() - k,
        {
            attendees.push(self.attendees[k]);
            k += 1;
        }
        assert(self.attendees@.take(k as int) == self.attendees@);
        TrainingSession {
            id: self.id,
            activity: self.activity.clone(),
            location: self.location.clone(),
            day: self.day.clone(),
            attendees,
            time: self.time.clone(),
        }
    }
}

impl WeeklyAttendance {
    /// The rows that storage holds for this week: each session's active attendees,
    /// session by session in list order, with the alias that the registry gives
    /// (`Unknown` where it has none).
    pub fn attendance_rows(&self) -> (r: Vec<AttendanceRow>)
        ensures
            r@.map_values(|row: AttendanceRow| row.model()) == sessions_rows(
                self.user_registry@,
                self.sessions@,
            ),
    {
        let mut rows: Vec<AttendanceRow> = Vec::new();
        let mut i: usize = 0;
        assert(rows@.map_values(|row: AttendanceRow| row.model()) == Seq::<(u8, u64, Seq<char>)>::empty());
        while i < self.sessions.len()
            invariant
                0 <= i <= self.sessions@.len(),
                rows@.map_values(|row: AttendanceRow| row.model()) == sessions_rows(
                    self.user_registry@,
                    self.sessions@.take(i as int),
                ),
            decreases self.sessions@.len() - i,
        {
            assert(self.sessions@.take(i + 1).drop_last() == self.sessions@.take(i as int));
            push_session_rows(&mut rows, &self.user_registry, &self.sessions[i]);
            i += 1;
        }
        assert(self.sessions@.take(i as int) == self.sessions@);
        rows
    }

    /// A deep copy of the week, to hand on without holding the lock. It holds the
    /// same dates, sessions and registry, and renders the same report.
    pub fn snapshot(&self) -> (r: WeeklyAttendance)
        ensures
            r.start_date == self.start_date,
            r.end_date == self.end_date,
            r.user_registry@ == self.user_registry@,
            r.sessions@.len() == self.sessions@.len(),
            forall|i: int|
                0 <= i < self.sessions@.len() ==> with_roster(
                    self.sessions@[i],
                    #[trigger] r.sessions@[i],
                    self.sessions@[i].attendees@,
                ),
            self.wf() ==> r.wf(),
            attendance_report(r) == attendance_report(*self),
    {
        let mut sessions: Vec<TrainingSession> = Vec::new();
        let mut i: usize = 0;
        while i < self.sessions.len()
            invariant
                0 <= i <= self.sessions@.len(),
                sessions@.len() == i,
                forall|j: int|
                    0 <= j < i ==> with_roster(
                        self.sessions@[j],
                        #[trigger] sessions@[j],
                        self.sessions@[j].attendees@,
                    ),
            decreases self.sessions@.len() - i,
        {
            sessions.push(self.sessions[i].duplicate());
            i += 1;
        }
        let r = WeeklyAttendance {
            start_date: self.start_date.clone(),
            end_date: self.end_date.clone(),
            sessions,
            user_registry: self.user_registry.clone(),
        };
        proof {
            let reg = self.user_registry@;
            if self.wf() {
                assert(ids_unique(r.sessions@)) by {
                    assert forall|a: int, b: int|
                        0 <= a < r.sessions@.len() && 0 <= b < r.sessions@.len() && a != b
                            implies #[trigger] r.sessions@[a].id != #[trigger] r.sessions@[b].id by {
                        assert(self.sessions@[a].id != self.sessions@[b].id);
                    }
                }
                assert forall|j: int| 0 <= j < r.sessions@.len() implies users_unique(
                    #[trigger] r.sessions@[j].roster(),
                ) && all_registered(r.sessions@[j].roster(), r.registry()) by {
                    assert(r.sessions@[j].roster() == self.sessions@[j].roster());
                    assert(all_registered(self.sessions@[j].roster(), self.registry()));
                }
            }
            assert(r.sessions@.map_values(|s: TrainingSession| session_block(reg, s))
                =~= self.sessions@.map_values(|s: TrainingSession| session_block(reg, s)));
        }
        r
    }
}

} // verus!
