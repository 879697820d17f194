use crate::model::{
    Attendee, StoreError, TrainingSession, UserProfile, WeeklyAttendance, all_registered,
    has_session, has_user, ids_unique, max_id, users_unique,
};
use crate::calendar::{MAX_DAY, MIN_DAY, day_month_text, next_week_labels, week_end, week_start};
use std::collections::HashMap;
use vstd::prelude::*;

verus! {

/// The position of the session with id `id`; meaningful when `has_session(sessions, id)`.
pub open spec fn session_pos(sessions: Seq<TrainingSession>, id: u8) -> int {
    choose|i: int| 0 <= i < sessions.len() && #[trigger] sessions[i].id == id
}

/// The position of `user_id` in the attendee list; meaningful when `has_user(attendees, user_id)`.
pub open spec fn user_pos(attendees: Seq<Attendee>, user_id: u64) -> int {
    choose|k: int| 0 <= k < attendees.len() && #[trigger] attendees[k].user_id == user_id
}

/// The attendee list after `user_id` toggles: a present user flips `cancelled`,
/// an absent one is appended as active.
pub open spec fn toggled(attendees: Seq<Attendee>, user_id: u64) -> Seq<Attendee> {
    if has_user(attendees, user_id) {
        let k = user_pos(attendees, user_id);
        attendees.update(k, Attendee { user_id, cancelled: !attendees[k].cancelled })
    } else {
        attendees.push(Attendee { user_id, cancelled: false })
    }
}

/// `b` is `a` with its attendee list replaced by `roster`; every other field is kept.
pub open spec fn with_roster(a: TrainingSession, b: TrainingSession, roster: Seq<Attendee>) -> bool {
    &&& b.id == a.id
    &&& b.activity == a.activity
    &&& b.location == a.location
    &&& b.day == a.day
    &&& b.time == a.time
    &&& b.attendees@ == roster
}

/// Where `add_session` puts a new session: before the 1-indexed position `order` when
/// it names an existing session, else at the end.
pub open spec fn insert_pos(order: int, len: nat) -> int {
    if 1 <= order <= len {
        order - 1
    } else {
        len as int
    }
}

/// `s` is a newly created session with the given fields and no attendees.
pub open spec fn fresh_session(
    s: TrainingSession,
    id: u8,
    day: Seq<char>,
    activity: Seq<char>,
    location: Seq<char>,
    time: Seq<char>,
) -> bool {
    &&& s.id == id
    &&& s.day@ == day
    &&& s.activity@ == activity
    &&& s.location@ == location
    &&& s.time@ == time
    &&& s.attendees@.len() == 0
}

/// `b` is `a` with day, activity, location and time replaced; id and attendees are kept.
pub open spec fn with_details(
    a: TrainingSession,
    b: TrainingSession,
    day: Seq<char>,
    activity: Seq<char>,
    location: Seq<char>,
    time: Seq<char>,
) -> bool {
    &&& b.id == a.id
    &&& b.attendees@ == a.attendees@
    &&& b.day@ == day
    &&& b.activity@ == activity
    &&& b.location@ == location
    &&& b.time@ == time
}

/// Every id in the list is at most `max_id`.
pub proof fn lemma_max_id_bounds(sessions: Seq<TrainingSession>)
    ensures
        forall|i: int| 0 <= i < sessions.len() ==> #[trigger] sessions[i].id <= max_id(sessions),
        max_id(sessions) <= 255,
    decreases sessions.len(),
{
    if sessions.len() > 0 {
        lemma_max_id_bounds(sessions.drop_last());
        assert forall|i: int| 0 <= i < sessions.len() implies #[trigger] sessions[i].id <= max_id(
            sessions,
        ) by {
            if i < sessions.len() - 1 {
                assert(sessions[i] == sessions.drop_last()[i]);
            }
        }
    }
}

/// `new` is `old` after `user_id`, shown as `alias`, toggled its attendance in the
/// session with id `session_id`: the alias is recorded, and that session's attendee
/// list, if the session exists, is `toggled`; all else is kept.
pub open spec fn attendance_toggled(
    old: WeeklyAttendance,
    new: WeeklyAttendance,
    session_id: u8,
    user_id: u64,
    alias: String,
) -> bool {
    let p = session_pos(old.sessions@, session_id);
    &&& new.registry() == old.registry().insert(user_id, UserProfile { alias })
    &&& new.start_date == old.start_date
    &&& new.end_date == old.end_date
    &&& has_session(old.sessions@, session_id) ==> {
        &&& new.sessions@.len() == old.sessions@.len()
        &&& forall|j: int|
            0 <= j < old.sessions@.len() && j != p ==> #[trigger] new.sessions@[j]
                == old.sessions@[j]
        &&& with_roster(old.sessions@[p], new.sessions@[p], toggled(old.sessions@[p].roster(), user_id))
    }
    &&& !has_session(old.sessions@, session_id) ==> new.sessions@ == old.sessions@
}

/// `new` is `old` after the session `id` was created with the given fields, before the
/// 1-indexed position `order` (see `insert_pos`); all else is kept.
pub open spec fn session_added(
    old: WeeklyAttendance,
    new: WeeklyAttendance,
    order: int,
    id: u8,
    day: Seq<char>,
    activity: Seq<char>,
    location: Seq<char>,
    time: Seq<char>,
) -> bool {
    let old_s = old.sessions@;
    let new_s = new.sessions@;
    let pos = insert_pos(order, old_s.len());
    &&& new.start_date == old.start_date
    &&& new.end_date == old.end_date
    &&& new.user_registry == old.user_registry
    &&& new_s.len() == old_s.len() + 1
    &&& fresh_session(new_s[pos], id, day, activity, location, time)
    &&& forall|j: int| 0 <= j < pos ==> #[trigger] new_s[j] == old_s[j]
    &&& forall|j: int| pos < j < new_s.len() ==> #[trigger] new_s[j] == old_s[j - 1]
}

/// `new` is `old` with the details of the session at the 1-indexed position `order`
/// replaced; all else is kept.
pub open spec fn session_edited(
    old: WeeklyAttendance,
    new: WeeklyAttendance,
    order: int,
    day: Seq<char>,
    activity: Seq<char>,
    location: Seq<char>,
    time: Seq<char>,
) -> bool {
    let p = order - 1;
    &&& new.start_date == old.start_date
    &&& new.end_date == old.end_date
    &&& new.user_registry == old.user_registry
    &&& new.sessions@.len() == old.sessions@.len()
    &&& forall|j: int|
        0 <= j < old.sessions@.len() && j != p ==> #[trigger] new.sessions@[j] == old.sessions@[j]
    &&& with_details(old.sessions@[p], new.sessions@[p], day, activity, location, time)
}

/// `new` is `old` without the session at the 1-indexed position `order`; all else is kept.
pub open spec fn session_removed(old: WeeklyAttendance, new: WeeklyAttendance, order: int) -> bool {
    &&& new.start_date == old.start_date
    &&& new.end_date == old.end_date
    &&& new.user_registry == old.user_registry
    &&& new.sessions@ == old.sessions@.remove(order - 1)
}

/// `new` is `old` with the dates written as `start` and `end` and every attendee list
/// emptied; sessions' ids, details and order and the registry are kept.
pub open spec fn week_started(
    old: WeeklyAttendance,
    new: WeeklyAttendance,
    start: Seq<char>,
    end: Seq<char>,
) -> bool {
    &&& new.start_date@ == start
    &&& new.end_date@ == end
    &&& new.user_registry == old.user_registry
    &&& new.sessions@.len() == old.sessions@.len()
    &&& forall|i: int|
        0 <= i < old.sessions@.len() ==> with_roster(
            old.sessions@[i],
            #[trigger] new.sessions@[i],
            Seq::empty(),
        )
}

impl TrainingSession {
    /// Flips `cancelled` for `user_id` if present, else appends it as active.
    pub fn toggle_attendee(&mut self, user_id: u64)
        requires
            users_unique(old(self).roster()),
        ensures
            with_roster(*old(self), *final(self), toggled(old(self).roster(), user_id)),
            users_unique(final(self).roster()),
    {
        let mut k: usize = 0;
        while k < self.attendees.len()
            invariant
                0 <= k <= self.attendees@.len(),
                users_unique(self.attendees@),
                self.attendees@ == old(self).attendees@,
                self.id == old(self).id,
                self.activity == old(self).activity,
                self.location == old(self).location,
                self.day == old(self).day,
                self.time == old(self).time,
                forall|j: int| 0 <= j < k ==> #[trigger] self.attendees@[j].user_id != user_id,
            decreases self.attendees@.len() - k,
        {
            if self.attendees[k].user_id == user_id {
                let ghost p = user_pos(self.attendees@, user_id);
                assert(has_user(self.attendees@, user_id));
                assert(self.attendees@[p].user_id == self.attendees@[k as int].user_id);
                let flipped = !self.attendees[k].cancelled;
                self.attendees.set(k, Attendee { user_id, cancelled: flipped });
                assert(self.attendees@ == toggled(old(self).roster(), user_id));
                assert(users_unique(self.attendees@)) by {
                    assert forall|a: int, b: int|
                        0 <= a < self.attendees@.len() && 0 <= b < self.attendees@.len() && a != b
                            implies #[trigger] self.attendees@[a].user_id
                            != #[trigger] self.attendees@[b].user_id by {
                        assert(old(self).attendees@[a].user_id != old(self).attendees@[b].user_id);
                    }
                }
                return;
            }
            k += 1;
        }
        assert(!has_user(self.attendees@, user_id));
        self.attendees.push(Attendee { user_id, cancelled: false });
        assert(self.attendees@ == toggled(old(self).roster(), user_id));
    }
}

impl WeeklyAttendance {
    /// A week with the given dates, no sessions and an empty registry.
    pub fn new(start_date: String, end_date: String) -> (r: WeeklyAttendance)
        ensures
            r.wf(),
            r.start_date == start_date,
            r.end_date == end_date,
            r.sessions@.len() == 0,
            r.registry() == Map::<u64, UserProfile>::empty(),
    {
        WeeklyAttendance { start_date, end_date, sessions: Vec::new(), user_registry: HashMap::new() }
    }

    /// The position of the session with id `session_id`, if any.
    pub fn find_session(&self, session_id: u8) -> (r: Option<usize>)
        requires
            ids_unique(self.sessions@),
        ensures
            r.is_some() == has_session(self.sessions@, session_id),
            r.is_some() ==> r.unwrap() == session_pos(self.sessions@, session_id),
    {
        let mut i: usize = 0;
        while i < self.sessions.len()
            invariant
                0 <= i <= self.sessions@.len(),
                ids_unique(self.sessions@),
                forall|j: int| 0 <= j < i ==> #[trigger] self.sessions@[j].id != session_id,
            decreases self.sessions@.len() - i,
        {
            if self.sessions[i].id == session_id {
                let ghost p = session_pos(self.sessions@, session_id);
                assert(has_session(self.sessions@, session_id));
                assert(self.sessions@[p].id == self.sessions@[i as int].id);
                return Some(i);
            }
            i += 1;
        }
        None
    }

    /// The session with id `session_id`, for mutation in place.
    pub fn get_session_mut(&mut self, session_id: u8) -> (r: Option<&mut TrainingSession>)
        requires
            ids_unique(old(self).sessions@),
        ensures
            r.is_some() == has_session(old(self).sessions@, session_id),
            match r {
                Some(s) => {
                    let p = session_pos(old(self).sessions@, session_id);
                    &&& *s == old(self).sessions@[p]
                    &&& final(self).sessions@ == old(self).sessions@.update(p, *final(s))
                    &&& final(self).start_date == old(self).start_date
                    &&& final(self).end_date == old(self).end_date
                    &&& final(self).user_registry == old(self).user_registry
                },
                None => *final(self) == *old(self),
            },
    {
        match self.find_session(session_id) {
            Some(i) => Some(&mut self.sessions[i]),
            None => None,
        }
    }

    /// Records `display_alias` for `user_id` and toggles the user's attendance in the
    /// session with id `session_id`. A missing session leaves the sessions untouched;
    /// the result says whether the session was found.
    pub fn toggle_attendance(&mut self, session_id: u8, user_id: u64, display_alias: String) -> (found: bool)
        requires
            old(self).wf(),
        ensures
            final(self).wf(),
            attendance_toggled(*old(self), *final(self), session_id, user_id, display_alias),
            found == has_session(old(self).sessions@, session_id),
    {
        self.user_registry.insert(user_id, UserProfile { alias: display_alias });
        assert forall|i: int| 0 <= i < self.sessions@.len() implies all_registered(
            #[trigger] self.sessions@[i].roster(),
            self.registry(),
        ) by {
            assert(all_registered(old(self).sessions@[i].roster(), old(self).registry()));
        }
        match self.find_session(session_id) {
            Some(i) => {
                let ghost before = self.sessions@;
                let s = &mut self.sessions[i];
                s.toggle_attendee(user_id);
                proof {
                    let after = self.sessions@;
                    assert(ids_unique(after)) by {
                        assert forall|a: int, b: int|
                            0 <= a < after.len() && 0 <= b < after.len() && a != b
                                implies #[trigger] after[a].id != #[trigger] after[b].id by {
                            assert(before[a].id != before[b].id);
                        }
                    }
                    assert forall|j: int| 0 <= j < after.len() implies users_unique(
                        #[trigger] after[j].roster(),
                    ) && all_registered(after[j].roster(), self.registry()) by {
                        if j != i {
                            assert(after[j] == before[j]);
                        } else {
                            let r = before[j].roster();
                            assert forall|k: int| 0 <= k < after[j].roster().len()
                                implies self.registry().contains_key(
                                #[trigger] after[j].roster()[k].user_id,
                            ) by {
                                if k < r.len() {
                                    assert(after[j].roster()[k].user_id == r[k].user_id);
                                }
                            }
                        }
                    }
                }
                true
            },
            None => false,
        }
    }

    /// The largest session id, or 0 when there are no sessions.
    pub fn max_session_id(&self) -> (m: u8)
        ensures
            m as nat == max_id(self.sessions@),
    {
        let mut m: u8 = 0;
        let mut i: usize = 0;
        while i < self.sessions.len()
            invariant
                0 <= i <= self.sessions@.len(),
                m as nat == max_id(self.sessions@.take(i as int)),
            decreases self.sessions@.len() - i,
        {
            assert(self.sessions@.take(i + 1).drop_last() == self.sessions@.take(i as int));
            if self.sessions[i].id > m {
                m = self.sessions[i].id;
            }
            i += 1;
        }
        assert(self.sessions@.take(i as int) == self.sessions@);
        m
    }

    /// Creates a session with id one above the largest (1 in an empty week) and no
    /// attendees, before the 1-indexed position `order` when `1 <= order <= len`, else
    /// at the end. Fails, changing nothing, when the largest id is already 255.
    pub fn add_session(
        &mut self,
        order: usize,
        day: String,
        activity: String,
        location: String,
        time: String,
    ) -> (r: Result<u8, StoreError>)
        requires
            old(self).wf(),
        ensures
            final(self).wf(),
            r is Err <==> max_id(old(self).sessions@) == 255,
            r is Err ==> r == Err::<u8, StoreError>(StoreError::IdsExhausted) && *final(self)
                == *old(self),
            r matches Ok(id) ==> id == max_id(old(self).sessions@) + 1 && session_added(
                *old(self),
                *final(self),
                order as int,
                id,
                day@,
                activity@,
                location@,
                time@,
            ),
    {
        let m = self.max_session_id();
        if m == 255 {
            return Err(StoreError::IdsExhausted);
        }
        let id: u8 = m + 1;
        let session = TrainingSession { id, activity, location, day, attendees: Vec::new(), time };
        let ghost before = self.sessions@;
        proof {
            lemma_max_id_bounds(before);
        }
        let len = self.sessions.len();
        if order >= 1 && order <= len {
            self.sessions.insert(order - 1, session);
        } else {
            self.sessions.push(session);
        }
        proof {
            let after = self.sessions@;
            let pos = insert_pos(order as int, before.len());
            assert forall|j: int| 0 <= j < after.len() && j != pos implies (#[trigger] after[j]).id
                < id by {
                if j < pos {
                    assert(after[j] == before[j]);
                } else {
                    assert(after[j] == before[j - 1]);
                }
            }
            assert(ids_unique(after)) by {
                assert forall|a: int, b: int|
                    0 <= a < after.len() && 0 <= b < after.len() && a != b
                        implies #[trigger] after[a].id != #[trigger] after[b].id by {
                    if a != pos && b != pos {
                        let oa = if a < pos { a } else { a - 1 };
                        let ob = if b < pos { b } else { b - 1 };
                        assert(after[a] == before[oa]);
                        assert(after[b] == before[ob]);
                    }
                }
            }
            assert forall|j: int| 0 <= j < after.len() implies users_unique(
                #[trigger] after[j].roster(),
            ) && all_registered(after[j].roster(), self.registry()) by {
                if j < pos {
                    assert(after[j] == before[j]);
                } else if j > pos {
                    assert(after[j] == before[j - 1]);
                }
            }
        }
        Ok(id)
    }

    /// Replaces day, activity, location and time of the session at the 1-indexed
    /// position `order`, keeping its id and attendees. Fails with `NotFound`, changing
    /// nothing, when `order` is outside `1..=len`.
    pub fn edit_session(
        &mut self,
        order: usize,
        day: String,
        activity: String,
        location: String,
        time: String,
    ) -> (r: Result<(), StoreError>)
        requires
            old(self).wf(),
        ensures
            final(self).wf(),
            r is Ok <==> 1 <= order <= old(self).sessions@.len(),
            r is Err ==> r == Err::<(), StoreError>(StoreError::NotFound) && *final(self)
                == *old(self),
            r is Ok ==> session_edited(
                *old(self),
                *final(self),
                order as int,
                day@,
                activity@,
                location@,
                time@,
            ),
    {
        if order < 1 || order > self.sessions.len() {
            return Err(StoreError::NotFound);
        }
        let ghost before = self.sessions@;
        let s = &mut self.sessions[order - 1];
        s.day = day;
        s.activity = activity;
        s.location = location;
        s.time = time;
        proof {
            let after = self.sessions@;
            assert(ids_unique(after)) by {
                assert forall|a: int, b: int|
                    0 <= a < after.len() && 0 <= b < after.len() && a != b
                        implies #[trigger] after[a].id != #[trigger] after[b].id by {
                    assert(before[a].id != before[b].id);
                }
            }
            assert forall|j: int| 0 <= j < after.len() implies users_unique(
                #[trigger] after[j].roster(),
            ) && all_registered(after[j].roster(), self.registry()) by {
                assert(after[j].roster() == before[j].roster());
            }
        }
        Ok(())
    }

    /// Removes the session at the 1-indexed position `order`, with its attendee list;
    /// later sessions move up by one. Fails with `NotFound`, changing nothing, when
    /// `order` is outside `1..=len`. The registry is kept as it is.
    pub fn delete_session(&mut self, order: usize) -> (r: Result<(), StoreError>)
        requires
            old(self).wf(),
        ensures
            final(self).wf(),
            r is Ok <==> 1 <= order <= old(self).sessions@.len(),
            r is Err ==> r == Err::<(), StoreError>(StoreError::NotFound) && *final(self)
                == *old(self),
            r is Ok ==> session_removed(*old(self), *final(self), order as int),
    {
        if order < 1 || order > self.sessions.len() {
            return Err(StoreError::NotFound);
        }
        let ghost before = self.sessions@;
        self.sessions.remove(order - 1);
        proof {
            let after = self.sessions@;
            let p = order - 1;
            assert(ids_unique(after)) by {
                assert forall|a: int, b: int|
                    0 <= a < after.len() && 0 <= b < after.len() && a != b
                        implies #[trigger] after[a].id != #[trigger] after[b].id by {
                    let oa = if a < p { a } else { a + 1 };
                    let ob = if b < p { b } else { b + 1 };
                    assert(after[a] == before[oa]);
                    assert(after[b] == before[ob]);
                }
            }
            assert forall|j: int| 0 <= j < after.len() implies users_unique(
                #[trigger] after[j].roster(),
            ) && all_registered(after[j].roster(), self.registry()) by {
                let oj = if j < p { j } else { j + 1 };
                assert(after[j] == before[oj]);
            }
        }
        Ok(())
    }

    /// Opens a new week: sets both dates and empties every attendee list, keeping the
    /// sessions' ids, details and order, and the registry.
    pub fn start_week(&mut self, start_date: String, end_date: String)
        requires
            old(self).wf(),
        ensures
            final(self).wf(),
            final(self).start_date == start_date,
            final(self).end_date == end_date,
            week_started(*old(self), *final(self), start_date@, end_date@),
    {
        self.start_date = start_date;
        self.end_date = end_date;
        let mut i: usize = 0;
        while i < self.sessions.len()
            invariant
                0 <= i <= self.sessions@.len(),
                self.sessions@.len() == old(self).sessions@.len(),
                self.start_date == start_date,
                self.end_date == end_date,
                self.user_registry == old(self).user_registry,
                forall|j: int|
                    0 <= j < i ==> with_roster(
                        old(self).sessions@[j],
                        #[trigger] self.sessions@[j],
                        Seq::empty(),
                    ),
                forall|j: int| i <= j < self.sessions@.len() ==> #[trigger] self.sessions@[j] == old(self).sessions@[j],
            decreases self.sessions@.len() - i,
        {
            let s = &mut self.sessions[i];
            s.attendees.clear();
            i += 1;
        }
        proof {
            let before = old(self).sessions@;
            let after = self.sessions@;
            assert(ids_unique(after)) by {
                assert forall|a: int, b: int|
                    0 <= a < after.len() && 0 <= b < after.len() && a != b
                        implies #[trigger] after[a].id != #[trigger] after[b].id by {
                    assert(before[a].id != before[b].id);
                }
            }
            assert forall|j: int| 0 <= j < after.len() implies users_unique(
                #[trigger] after[j].roster(),
            ) && all_registered(after[j].roster(), self.registry()) by {
                assert(after[j].roster().len() == 0);
            }
        }
    }

    /// Rolls the week forward from `today` (a day number, see `MIN_DAY`): the dates
    /// become the next Monday strictly after `today` and the Sunday after it, written
    /// `%d/%m`, and every attendee list is emptied. Ids, details and order of the
    /// sessions and the registry are kept.
    pub fn reset_week(&mut self, today: i32)
        requires
            old(self).wf(),
            MIN_DAY <= today <= MAX_DAY - 13,
        ensures
            final(self).wf(),
            week_started(
                *old(self),
                *final(self),
                day_month_text(week_start(today as int)),
                day_month_text(week_end(today as int)),
            ),
    {
        let (start, end) = next_week_labels(today);
        self.start_week(start, end);
    }
}

} // verus!
