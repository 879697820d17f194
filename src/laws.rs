use crate::model::{
    Attendee, WeeklyAttendance, all_registered, has_session, has_user, ids_unique, users_unique,
};
use crate::render::alias_of;
use crate::store::{
    attendance_toggled, fresh_session, session_added, session_pos, session_removed, toggled,
    user_pos,
};
use vstd::prelude::*;

verus! {

/// The attendee list after `user_id` toggled `n` times in a row.
pub open spec fn toggled_times(attendees: Seq<Attendee>, user_id: u64, n: nat) -> Seq<Attendee>
    decreases n,
{
    if n == 0 {
        attendees
    } else {
        toggled(toggled_times(attendees, user_id, (n - 1) as nat), user_id)
    }
}

/// Toggling keeps each user at most once in an attendee list.
pub proof fn law_toggle_keeps_users_unique(attendees: Seq<Attendee>, user_id: u64)
    requires
        users_unique(attendees),
    ensures
        users_unique(toggled(attendees, user_id)),
{
    let t = toggled(attendees, user_id);
    if has_user(attendees, user_id) {
        let k = user_pos(attendees, user_id);
        assert forall|a: int, b: int| 0 <= a < t.len() && 0 <= b < t.len() && a != b implies #[trigger] t[a].user_id
            != #[trigger] t[b].user_id by {
            assert(attendees[a].user_id != attendees[b].user_id);
        }
    } else {
        assert forall|a: int, b: int| 0 <= a < t.len() && 0 <= b < t.len() && a != b implies #[trigger] t[a].user_id
            != #[trigger] t[b].user_id by {
            if a < attendees.len() && b < attendees.len() {
                assert(attendees[a].user_id != attendees[b].user_id);
            } else if a < attendees.len() {
                assert(t[a] == attendees[a]);
            } else {
                assert(t[b] == attendees[b]);
            }
        }
    }
}

/// A toggle of a well-formed week gives a well-formed week: session ids stay unique,
/// each user stays at most once per session, and every attendee stays registered.
pub proof fn law_toggle_keeps_week_valid(
    old: WeeklyAttendance,
    new: WeeklyAttendance,
    session_id: u8,
    user_id: u64,
    alias: String,
)
    requires
        old.wf(),
        attendance_toggled(old, new, session_id, user_id, alias),
    ensures
        new.wf(),
{
    let before = old.sessions@;
    let after = new.sessions@;
    if has_session(before, session_id) {
        let p = session_pos(before, session_id);
        assert(ids_unique(after)) by {
            assert forall|a: int, b: int| 0 <= a < after.len() && 0 <= b < after.len() && a != b implies #[trigger] after[a].id
                != #[trigger] after[b].id by {
                assert(before[a].id != before[b].id);
            }
        }
        assert forall|j: int| 0 <= j < after.len() implies users_unique(#[trigger] after[j].roster())
            && all_registered(after[j].roster(), new.registry()) by {
            assert(all_registered(before[j].roster(), old.registry()));
            if j != p {
                assert(after[j] == before[j]);
            } else {
                let r = before[j].roster();
                law_toggle_keeps_users_unique(r, user_id);
                assert forall|k: int| 0 <= k < after[j].roster().len() implies new.registry().contains_key(
                    #[trigger] after[j].roster()[k].user_id,
                ) by {
                    if k < r.len() {
                        assert(after[j].roster()[k].user_id == r[k].user_id);
                    }
                }
            }
        }
    } else {
        assert forall|j: int| 0 <= j < after.len() implies users_unique(#[trigger] after[j].roster())
            && all_registered(after[j].roster(), new.registry()) by {
            assert(all_registered(before[j].roster(), old.registry()));
        }
    }
}

/// Whatever sequence of toggles is applied to a well-formed week, no user ever appears
/// twice in one session's attendee list.
pub proof fn law_toggles_keep_users_unique(weeks: Seq<WeeklyAttendance>, calls: Seq<(u8, u64, String)>)
    requires
        weeks.len() == calls.len() + 1,
        weeks[0].wf(),
        forall|i: int|
            0 <= i < calls.len() ==> attendance_toggled(
                #[trigger] weeks[i],
                weeks[i + 1],
                calls[i].0,
                calls[i].1,
                calls[i].2,
            ),
    ensures
        forall|k: int, i: int|
            0 <= k < weeks.len() && 0 <= i < weeks[k].sessions@.len() ==> users_unique(
                #[trigger] weeks[k].sessions@[i].roster(),
            ),
    decreases calls.len(),
{
    if calls.len() > 0 {
        let n = calls.len() - 1;
        law_toggles_keep_users_unique(weeks.drop_last(), calls.drop_last());
        assert(weeks.drop_last()[n] == weeks[n]);
        assert(attendance_toggled(weeks[n], weeks[n + 1], calls[n].0, calls[n].1, calls[n].2));
        lemma_prefix_valid(weeks, calls, n);
        law_toggle_keeps_week_valid(weeks[n], weeks[n + 1], calls[n].0, calls[n].1, calls[n].2);
        assert forall|k: int, i: int|
            0 <= k < weeks.len() && 0 <= i < weeks[k].sessions@.len() implies users_unique(
                #[trigger] weeks[k].sessions@[i].roster(),
            ) by {
            if k < n + 1 {
                assert(weeks.drop_last()[k] == weeks[k]);
            }
        }
    }
}

/// Every week reached by the first `n` toggles is well-formed.
proof fn lemma_prefix_valid(weeks: Seq<WeeklyAttendance>, calls: Seq<(u8, u64, String)>, n: int)
    requires
        weeks.len() == calls.len() + 1,
        0 <= n <= calls.len(),
        weeks[0].wf(),
        forall|i: int|
            0 <= i < calls.len() ==> attendance_toggled(
                #[trigger] weeks[i],
                weeks[i + 1],
                calls[i].0,
                calls[i].1,
                calls[i].2,
            ),
    ensures
        weeks[n].wf(),
    decreases n,
{
    if n > 0 {
        lemma_prefix_valid(weeks, calls, n - 1);
        assert(attendance_toggled(weeks[n - 1], weeks[n], calls[n - 1].0, calls[n - 1].1, calls[n - 1].2));
        law_toggle_keeps_week_valid(weeks[n - 1], weeks[n], calls[n - 1].0, calls[n - 1].1, calls[n - 1].2);
    }
}

/// A user not yet in an attendee list who toggles `n >= 1` times in a row stands in it
/// exactly once, after the others, cancelled when `n` is even and active when it is odd.
pub proof fn law_toggle_parity(attendees: Seq<Attendee>, user_id: u64, n: nat)
    requires
        users_unique(attendees),
        !has_user(attendees, user_id),
        n >= 1,
    ensures
        toggled_times(attendees, user_id, n).len() == attendees.len() + 1,
        toggled_times(attendees, user_id, n).drop_last() == attendees,
        toggled_times(attendees, user_id, n).last() == (Attendee {
            user_id,
            cancelled: n % 2 == 0,
        }),
    decreases n,
{
    if n == 1 {
        assert(toggled_times(attendees, user_id, 0) == attendees);
    } else {
        law_toggle_parity(attendees, user_id, (n - 1) as nat);
        let prev = toggled_times(attendees, user_id, (n - 1) as nat);
        let last = attendees.len() as int;
        assert(prev[last].user_id == user_id);
        assert(has_user(prev, user_id));
        assert forall|k: int| 0 <= k < prev.len() && prev[k].user_id == user_id implies k == last by {
            if k < last {
                assert(prev[k] == attendees[k]);
            }
        }
        assert(user_pos(prev, user_id) == last);
    }
}

/// Adding a session before an existing position `order` puts the new session there and
/// moves the session that stood there, and every later one, down by one.
pub proof fn law_add_keeps_order(
    old: WeeklyAttendance,
    new: WeeklyAttendance,
    order: int,
    id: u8,
    day: Seq<char>,
    activity: Seq<char>,
    location: Seq<char>,
    time: Seq<char>,
)
    requires
        1 <= order <= old.sessions@.len(),
        session_added(old, new, order, id, day, activity, location, time),
    ensures
        new.sessions@.len() == old.sessions@.len() + 1,
        fresh_session(new.sessions@[order - 1], id, day, activity, location, time),
        forall|j: int| 0 <= j < order - 1 ==> #[trigger] new.sessions@[j] == old.sessions@[j],
        forall|j: int| order - 1 <= j < old.sessions@.len() ==> new.sessions@[j + 1] == #[trigger] old.sessions@[j],
{
    assert forall|j: int| order - 1 <= j < old.sessions@.len() implies new.sessions@[j + 1]
        == #[trigger] old.sessions@[j] by {
        assert(new.sessions@[j + 1] == old.sessions@[(j + 1) - 1]);
    }
}

/// A user's alias outlives the session that the user attended: after a toggle that
/// records it and the removal of a session, the registry still gives that alias.
pub proof fn law_registry_survives_removal(
    w0: WeeklyAttendance,
    w1: WeeklyAttendance,
    w2: WeeklyAttendance,
    session_id: u8,
    user_id: u64,
    alias: String,
    order: int,
)
    requires
        attendance_toggled(w0, w1, session_id, user_id, alias),
        session_removed(w1, w2, order),
    ensures
        w2.registry().contains_key(user_id),
        alias_of(w2.registry(), user_id) == alias@,
{
}

/// Toggles keep every session at its position: the session with id `session_id` stands
/// where it stood before.
proof fn lemma_toggle_keeps_position(
    old: WeeklyAttendance,
    new: WeeklyAttendance,
    session_id: u8,
    user_id: u64,
    alias: String,
)
    requires
        old.wf(),
        has_session(old.sessions@, session_id),
        attendance_toggled(old, new, session_id, user_id, alias),
    ensures
        new.wf(),
        has_session(new.sessions@, session_id),
        session_pos(new.sessions@, session_id) == session_pos(old.sessions@, session_id),
{
    law_toggle_keeps_week_valid(old, new, session_id, user_id, alias);
    let p = session_pos(old.sessions@, session_id);
    assert(new.sessions@[p].id == session_id);
    let q = session_pos(new.sessions@, session_id);
    assert(new.sessions@[q].id == new.sessions@[p].id);
}

/// Three toggles in a row by a user who is not in a session: after the first the user
/// is listed once and active, after the second cancelled, after the third active again.
pub proof fn law_toggle_twice_cancels(
    w0: WeeklyAttendance,
    w1: WeeklyAttendance,
    w2: WeeklyAttendance,
    w3: WeeklyAttendance,
    session_id: u8,
    user_id: u64,
    alias: String,
)
    requires
        w0.wf(),
        has_session(w0.sessions@, session_id),
        !has_user(w0.sessions@[session_pos(w0.sessions@, session_id)].roster(), user_id),
        attendance_toggled(w0, w1, session_id, user_id, alias),
        attendance_toggled(w1, w2, session_id, user_id, alias),
        attendance_toggled(w2, w3, session_id, user_id, alias),
    ensures
        ({
            let p = session_pos(w0.sessions@, session_id);
            let r0 = w0.sessions@[p].roster();
            &&& w1.sessions@[p].roster() == r0.push(Attendee { user_id, cancelled: false })
            &&& w2.sessions@[p].roster() == r0.push(Attendee { user_id, cancelled: true })
            &&& w3.sessions@[p].roster() == r0.push(Attendee { user_id, cancelled: false })
        }),
{
    let p = session_pos(w0.sessions@, session_id);
    let r0 = w0.sessions@[p].roster();
    lemma_toggle_keeps_position(w0, w1, session_id, user_id, alias);
    lemma_toggle_keeps_position(w1, w2, session_id, user_id, alias);
    law_toggle_parity(r0, user_id, 1);
    law_toggle_parity(r0, user_id, 2);
    law_toggle_parity(r0, user_id, 3);
    assert(toggled_times(r0, user_id, 0) == r0);
    let t1 = toggled_times(r0, user_id, 1);
    let t2 = toggled_times(r0, user_id, 2);
    let t3 = toggled_times(r0, user_id, 3);
    assert(t1 =~= r0.push(Attendee { user_id, cancelled: false }));
    assert(t2 =~= r0.push(Attendee { user_id, cancelled: true }));
    assert(t3 =~= r0.push(Attendee { user_id, cancelled: false }));
}

} // verus!
