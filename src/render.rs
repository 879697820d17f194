use crate::model::{Attendee, TrainingSession, UserProfile, WeeklyAttendance, active_count};
use std::collections::HashMap;
use vstd::prelude::*;

verus! {

/// The decimal digit `d` (0 to 9) as a character.
pub open spec fn digit_char(d: nat) -> char {
    if d == 0 {
        '0'
    } else if d == 1 {
        '1'
    } else if d == 2 {
        '2'
    } else if d == 3 {
        '3'
    } else if d == 4 {
        '4'
    } else if d == 5 {
        '5'
    } else if d == 6 {
        '6'
    } else if d == 7 {
        '7'
    } else if d == 8 {
        '8'
    } else {
        '9'
    }
}

/// `n` written in decimal, without leading zeros.
pub open spec fn decimal(n: nat) -> Seq<char>
    decreases n,
{
    if n < 10 {
        seq![digit_char(n)]
    } else {
        decimal(n / 10).push(digit_char(n % 10))
    }
}

/// The parts written one after another with `sep` between each two.
pub open spec fn join(parts: Seq<Seq<char>>, sep: Seq<char>) -> Seq<char>
    decreases parts.len(),
{
    if parts.len() == 0 {
        Seq::empty()
    } else if parts.len() == 1 {
        parts[0]
    } else {
        join(parts.drop_last(), sep) + sep + parts.last()
    }
}

/// The alias recorded for `user_id`, or `Unknown` when the registry has none.
pub open spec fn alias_of(registry: Map<u64, UserProfile>, user_id: u64) -> Seq<char> {
    if registry.contains_key(user_id) {
        registry[user_id].alias@
    } else {
        "Unknown"@
    }
}

/// One line of a session's attendee list; a cancelled attendee is struck through.
pub open spec fn attendee_line(registry: Map<u64, UserProfile>, a: Attendee) -> Seq<char> {
    if a.cancelled {
        "<s>"@ + alias_of(registry, a.user_id) + "</s>"@
    } else {
        alias_of(registry, a.user_id)
    }
}

/// The attendee list of a session, one line per attendee, or a placeholder when empty.
pub open spec fn roster_text(registry: Map<u64, UserProfile>, attendees: Seq<Attendee>) -> Seq<char> {
    if attendees.len() == 0 {
        "<i>No one yet</i>"@
    } else {
        join(attendees.map_values(|a: Attendee| attendee_line(registry, a)), "\n"@)
    }
}

/// The summary line of a session: day, activity, location and active attendee count.
pub open spec fn summary_line(s: TrainingSession) -> Seq<char> {
    "<b>"@ + s.day@ + " "@ + s.activity@ + "</b> @ "@ + s.location@ + " ("@ + decimal(
        active_count(s.attendees@),
    ) + " 👥)\n"@
}

/// A session's block in the attendance report: summary line, then its attendee list.
pub open spec fn session_block(registry: Map<u64, UserProfile>, s: TrainingSession) -> Seq<char> {
    summary_line(s) + roster_text(registry, s.attendees@) + "\n"@
}

/// The attendance report: a header with the week's dates, then one block per session
/// in list order, separated by blank lines.
pub open spec fn attendance_report(w: WeeklyAttendance) -> Seq<char> {
    "📅 <b>Training Attendance "@ + w.start_date@ + " to "@ + w.end_date@ + "</b>\n\n"@ + join(
        w.sessions@.map_values(|s: TrainingSession| session_block(w.user_registry@, s)),
        "\n"@,
    )
}

/// The log report: a header with the week's dates, then each session's summary line.
pub open spec fn log_report(w: WeeklyAttendance) -> Seq<char> {
    "📅 <b>Training Log "@ + w.start_date@ + " to "@ + w.end_date@ + "</b>\n\n"@ + join(
        w.sessions@.map_values(|s: TrainingSession| summary_line(s)),
        "\n"@,
    )
}

/// The digit `d` as text.
fn digit_text(d: usize) -> (r: &'static str)
    requires
        d < 10,
    ensures
        r@ == seq![digit_char(d as nat)],
{
    proof {
        reveal_strlit("0");
        reveal_strlit("1");
        reveal_strlit("2");
        reveal_strlit("3");
        reveal_strlit("4");
        reveal_strlit("5");
        reveal_strlit("6");
        reveal_strlit("7");
        reveal_strlit("8");
        reveal_strlit("9");
    }
    if d == 0 {
        "0"
    } else if d == 1 {
        "1"
    } else if d == 2 {
        "2"
    } else if d == 3 {
        "3"
    } else if d == 4 {
        "4"
    } else if d == 5 {
        "5"
    } else if d == 6 {
        "6"
    } else if d == 7 {
        "7"
    } else if d == 8 {
        "8"
    } else {
        "9"
    }
}

/// `n` in decimal.
pub fn decimal_text(n: usize) -> (r: String)
    ensures
        r@ == decimal(n as nat),
    decreases n,
{
    if n < 10 {
        String::from_str(digit_text(n))
    } else {
        let mut s = decimal_text(n / 10);
        s.append(digit_text(n % 10));
        s
    }
}

/// The number of attendees that have not cancelled.
pub fn count_active(attendees: &Vec<Attendee>) -> (r: usize)
    ensures
        r as nat == active_count(attendees@),
{
    let mut n: usize = 0;
    let mut i: usize = 0;
    while i < attendees.len()
        invariant
            0 <= i <= attendees@.len(),
            n as nat == active_count(attendees@.take(i as int)),
            n <= i,
        decreases attendees@.len() - i,
    {
        assert(attendees@.take(i + 1).drop_last() == attendees@.take(i as int));
        if !attendees[i].cancelled {
            n += 1;
        }
        i += 1;
    }
    assert(attendees@.take(i as int) == attendees@);
    n
}

/// The alias recorded for `user_id`, or `Unknown`.
pub fn alias_text(registry: &HashMap<u64, UserProfile>, user_id: u64) -> (r: String)
    ensures
        r@ == alias_of(registry@, user_id),
{
    match registry.get(&user_id) {
        Some(p) => p.alias.clone(),
        None => String::from_str("Unknown"),
    }
}

/// The summary line of one session.
pub fn render_summary_line(s: &TrainingSession) -> (r: String)
    ensures
        r@ == summary_line(*s),
{
    let mut out = String::from_str("<b>");
    out.append(s.day.as_str());
    out.append(" ");
    out.append(s.activity.as_str());
    out.append("</b> @ ");
    out.append(s.location.as_str());
    out.append(" (");
    let count = decimal_text(count_active(&s.attendees));
    out.append(count.as_str());
    out.append(" 👥)\n");
    out
}

/// The attendee list of one session.
pub fn render_roster(registry: &HashMap<u64, UserProfile>, attendees: &Vec<Attendee>) -> (r: String)
    ensures
        r@ == roster_text(registry@, attendees@),
{
    if attendees.len() == 0 {
        return String::from_str("<i>No one yet</i>");
    }
    let ghost lines = attendees@.map_values(|a: Attendee| attendee_line(registry@, a));
    let mut out = String::new();
    let mut i: usize = 0;
    while i < attendees.len()
        invariant
            0 <= i <= attendees@.len(),
            lines == attendees@.map_values(|a: Attendee| attendee_line(registry@, a)),
            out@ == join(lines.take(i as int), "\n"@),
        decreases attendees@.len() - i,
    {
        assert(lines.take(i + 1).drop_last() == lines.take(i as int));
        if i > 0 {
            out.append("\n");
        }
        let a = attendees[i];
        let name = alias_text(registry, a.user_id);
        if a.cancelled {
            out.append("<s>");
            out.append(name.as_str());
            out.append("</s>");
        } else {
            out.append(name.as_str());
        }
        i += 1;
    }
    assert(lines.take(i as int) == lines);
    out
}

/// The attendance report of the week: a header with its dates, then for each session
/// its summary line and its attendee list, looked up in the registry.
pub fn render_attendance(state: &WeeklyAttendance) -> (r: String)
    ensures
        r@ == attendance_report(*state),
{
    let ghost blocks = state.sessions@.map_values(
        |s: TrainingSession| session_block(state.user_registry@, s),
    );
    let mut body = String::new();
    let mut i: usize = 0;
    while i < state.sessions.len()
        invariant
            0 <= i <= state.sessions@.len(),
            blocks == state.sessions@.map_values(
                |s: TrainingSession| session_block(state.user_registry@, s),
            ),
            body@ == join(blocks.take(i as int), "\n"@),
        decreases state.sessions@.len() - i,
    {
        assert(blocks.take(i + 1).drop_last() == blocks.take(i as int));
        if i > 0 {
            body.append("\n");
        }
        let s = &state.sessions[i];
        let line = render_summary_line(s);
        body.append(line.as_str());
        let roster = render_roster(&state.user_registry, &s.attendees);
        body.append(roster.as_str());
        body.append("\n");
        i += 1;
    }
    assert(blocks.take(i as int) == blocks);
    let mut out = String::from_str("📅 <b>Training Attendance ");
    out.append(state.start_date.as_str());
    out.append(" to ");
    out.append(state.end_date.as_str());
    out.append("</b>\n\n");
    out.append(body.as_str());
    out
}

/// The log report of the week: a header with its dates, then each session's summary
/// line, without names.
pub fn render_log(state: &WeeklyAttendance) -> (r: String)
    ensures
        r@ == log_report(*state),
{
    let ghost lines = state.sessions@.map_values(|s: TrainingSession| summary_line(s));
    let mut body = String::new();
    let mut i: usize = 0;
    while i < state.sessions.len()
        invariant
            0 <= i <= state.sessions@.len(),
            lines == state.sessions@.map_values(|s: TrainingSession| summary_line(s)),
            body@ == join(lines.take(i as int), "\n"@),
        decreases state.sessions@.len() - i,
    {
        assert(lines.take(i + 1).drop_last() == lines.take(i as int));
        if i > 0 {
            body.append("\n");
        }
        let line = render_summary_line(&state.sessions[i]);
        body.append(line.as_str());
        i += 1;
    }
    assert(lines.take(i as int) == lines);
    let mut out = String::from_str("📅 <b>Training Log ");
    out.append(state.start_date.as_str());
    out.append(" to ");
    out.append(state.end_date.as_str());
    out.append("</b>\n\n");
    out.append(body.as_str());
    out
}

} // verus!
