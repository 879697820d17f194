use crate::calendar::{MAX_DAY, MIN_DAY, day_month_text, week_end, week_start};
use crate::controls::{controls_match, render_controls};
use crate::model::{WeeklyAttendance, max_id};
use crate::parse::{order_of, parse_checkin_token, parse_session_args, split, token_session, trim};
use crate::render::{attendance_report, decimal, decimal_text, log_report, render_attendance, render_log};
use crate::store::{attendance_toggled, session_added, session_edited, session_removed, week_started};
use teloxide::types::InlineKeyboardButton;
use vstd::prelude::*;

verus! {

/// The text of the help command.
pub const HELP_TEXT: &'static str = "<b>🔱 Aquathallyon Bot Help</b>\n\n<b>👥 Member Commands</b>\n/history - View your training logs\n/log - Record a personal workout\n\n<b>🛠️ Management (EXCO)</b>\n/new_week - Reset all lists for next week\n/add - Create a new training session\n/edit - Modify an existing session\n/delete - Remove a session\n/save - Sync current data to Turso\n\n<i>Tip: Use commas to separate arguments for /add and /edit. \n The format is /(command) (order), (day), (activity), (location), (time)</i>";

/// The reply to an `add` command with too few fields.
pub const ADD_FORMAT: &'static str = "❌ Format: /add order, day, activity, location, time";

/// The reply to an `edit` command with too few fields.
pub const EDIT_FORMAT: &'static str = "❌ Format: /edit order, day, activity, location, time";

/// The reply to an `add` command when no session id is left.
pub const NO_ID_LEFT: &'static str = "⚠️ No session id is left: delete a session first.";

/// What a command or a button press sends back: the text, whether it is HTML, and the
/// control layout to show under it, if any.
pub struct Reply {
    pub text: String,
    pub html: bool,
    pub controls: Option<Vec<Vec<InlineKeyboardButton>>>,
}

/// `r` is plain text `text`, with no controls.
pub open spec fn plain_reply(r: Reply, text: Seq<char>) -> bool {
    &&& r.text@ == text
    &&& !r.html
    &&& r.controls is None
}

/// `r` is the HTML text `text` with the control layout of the week `w`.
pub open spec fn week_reply(r: Reply, text: Seq<char>, w: WeeklyAttendance) -> bool {
    &&& r.text@ == text
    &&& r.html
    &&& r.controls matches Some(c) && controls_match(c@, w.sessions@)
}

/// The text of a successful `edit`.
pub open spec fn edited_text(order: nat, w: WeeklyAttendance) -> Seq<char> {
    "📝 <b>Session #"@ + decimal(order) + " updated.</b>\n\n"@ + attendance_report(w)
}

/// The text of an `edit` whose position names no session.
pub open spec fn edit_missing_text(order: nat) -> Seq<char> {
    "⚠️ Session #"@ + decimal(order) + " not found."@
}

/// The text of a successful `delete`.
pub open spec fn deleted_text(order: nat, w: WeeklyAttendance) -> Seq<char> {
    "🗑️ <b>Session at order #"@ + decimal(order) + " deleted.</b>\n\n"@ + attendance_report(w)
}

/// The text of a `delete` whose position names no session.
pub open spec fn delete_missing_text(order: nat) -> Seq<char> {
    "⚠️ Order #"@ + decimal(order) + " not found. Check the list and try again."@
}

/// The outcome of `new_week` on `old` from `today`: the week rolled forward, and its report.
pub open spec fn new_week_outcome(old: WeeklyAttendance, new: WeeklyAttendance, today: int, r: Reply) -> bool {
    &&& week_started(old, new, day_month_text(week_start(today)), day_month_text(week_end(today)))
    &&& week_reply(r, attendance_report(new), new)
}

/// The outcome of `add` with the arguments `raw` on `old`.
pub open spec fn add_outcome(old: WeeklyAttendance, new: WeeklyAttendance, raw: Seq<char>, r: Reply) -> bool {
    let parts = split(raw, ',');
    if parts.len() < 5 {
        new == old && plain_reply(r, ADD_FORMAT@)
    } else if max_id(old.sessions@) == 255 {
        new == old && plain_reply(r, NO_ID_LEFT@)
    } else {
        &&& session_added(
            old,
            new,
            order_of(parts[0], 1) as int,
            (max_id(old.sessions@) + 1) as u8,
            trim(parts[1]),
            trim(parts[2]),
            trim(parts[3]),
            trim(parts[4]),
        )
        &&& week_reply(r, attendance_report(new), new)
    }
}

/// The outcome of `edit` with the arguments `raw` on `old`.
pub open spec fn edit_outcome(old: WeeklyAttendance, new: WeeklyAttendance, raw: Seq<char>, r: Reply) -> bool {
    let parts = split(raw, ',');
    let order = order_of(parts[0], 0);
    if parts.len() < 5 {
        new == old && plain_reply(r, EDIT_FORMAT@)
    } else if 1 <= order <= old.sessions@.len() {
        &&& session_edited(
            old,
            new,
            order as int,
            trim(parts[1]),
            trim(parts[2]),
            trim(parts[3]),
            trim(parts[4]),
        )
        &&& week_reply(r, edited_text(order, new), new)
    } else {
        new == old && plain_reply(r, edit_missing_text(order))
    }
}

/// The outcome of `delete` of the position `order` on `old`.
pub open spec fn delete_outcome(old: WeeklyAttendance, new: WeeklyAttendance, order: nat, r: Reply) -> bool {
    if 1 <= order <= old.sessions@.len() {
        &&& session_removed(old, new, order as int)
        &&& week_reply(r, deleted_text(order, new), new)
    } else {
        new == old && plain_reply(r, delete_missing_text(order))
    }
}

/// The outcome of a button press carrying `data` by `user_id`, shown as `alias`, on `old`.
pub open spec fn press_outcome(
    old: WeeklyAttendance,
    new: WeeklyAttendance,
    data: Option<Seq<char>>,
    user_id: u64,
    alias: String,
    r: Reply,
) -> bool {
    &&& match data {
        Some(d) => match token_session(d) {
            Some(id) => attendance_toggled(old, new, id as u8, user_id, alias),
            None => new == old,
        },
        None => new == old,
    }
    &&& week_reply(r, attendance_report(new), new)
}

/// The view of an optional text.
pub open spec fn text_view(data: Option<&str>) -> Option<Seq<char>> {
    match data {
        Some(d) => Some(d@),
        None => None,
    }
}

/// `prefix`, the number `n` and `suffix`, one after another.
fn framed_number(prefix: &str, n: usize, suffix: &str) -> (r: String)
    ensures
        r@ == prefix@ + decimal(n as nat) + suffix@,
{
    let mut out = String::from_str(prefix);
    let digits = decimal_text(n);
    out.append(digits.as_str());
    out.append(suffix);
    out
}

/// The attendance report of `week` with its controls.
pub fn report_reply(week: &WeeklyAttendance) -> (r: Reply)
    ensures
        week_reply(r, attendance_report(*week), *week),
{
    Reply { text: render_attendance(week), html: true, controls: Some(render_controls(&week.sessions)) }
}

/// The log report of `week` with its controls.
pub fn log_reply(week: &WeeklyAttendance) -> (r: Reply)
    ensures
        week_reply(r, log_report(*week), *week),
{
    Reply { text: render_log(week), html: true, controls: Some(render_controls(&week.sessions)) }
}

/// The help text, as HTML without controls.
pub fn help_reply() -> (r: Reply)
    ensures
        r.text@ == HELP_TEXT@,
        r.html,
        r.controls is None,
{
    Reply { text: String::from_str(HELP_TEXT), html: true, controls: None }
}

/// `new_week`: rolls the week forward from `today` and shows the new report.
pub fn new_week_command(week: &mut WeeklyAttendance, today: i32) -> (r: Reply)
    requires
        old(week).wf(),
        MIN_DAY <= today <= MAX_DAY - 13,
    ensures
        final(week).wf(),
        new_week_outcome(*old(week), *final(week), today as int, r),
{
    week.reset_week(today);
    report_reply(week)
}

/// `add <order>, <day>, <activity>, <location>, <time>`: creates a session. Too few
/// fields give the format reply; a first field that is no number stands for 1.
pub fn add_command(week: &mut WeeklyAttendance, raw_args: &str) -> (r: Reply)
    requires
        old(week).wf(),
    ensures
        final(week).wf(),
        add_outcome(*old(week), *final(week), raw_args@, r),
{
    match parse_session_args(raw_args, 1) {
        Err(_) => Reply { text: String::from_str(ADD_FORMAT), html: false, controls: None },
        Ok(args) => match week.add_session(args.order, args.day, args.activity, args.location, args.time) {
            Ok(_) => report_reply(week),
            Err(_) => Reply { text: String::from_str(NO_ID_LEFT), html: false, controls: None },
        },
    }
}

/// `edit <order>, <day>, <activity>, <location>, <time>`: replaces a session's details.
/// Too few fields give the format reply; a first field that is no number stands for 0,
/// which names no session.
pub fn edit_command(week: &mut WeeklyAttendance, raw_args: &str) -> (r: Reply)
    requires
        old(week).wf(),
    ensures
        final(week).wf(),
        edit_outcome(*old(week), *final(week), raw_args@, r),
{
    match parse_session_args(raw_args, 0) {
        Err(_) => Reply { text: String::from_str(EDIT_FORMAT), html: false, controls: None },
        Ok(args) => {
            let order = args.order;
            match week.edit_session(order, args.day, args.activity, args.location, args.time) {
                Ok(_) => {
                    let mut text = framed_number("📝 <b>Session #", order, " updated.</b>\n\n");
                    let report = render_attendance(week);
                    text.append(report.as_str());
                    Reply { text, html: true, controls: Some(render_controls(&week.sessions)) }
                },
                Err(_) => Reply {
                    text: framed_number("⚠️ Session #", order, " not found."),
                    html: false,
                    controls: None,
                },
            }
        },
    }
}

/// `delete <order>`: removes the session at that 1-indexed position.
pub fn delete_command(week: &mut WeeklyAttendance, order: usize) -> (r: Reply)
    requires
        old(week).wf(),
    ensures
        final(week).wf(),
        delete_outcome(*old(week), *final(week), order as nat, r),
{
    match week.delete_session(order) {
        Ok(_) => {
            let mut text = framed_number("🗑️ <b>Session at order #", order, " deleted.</b>\n\n");
            let report = render_attendance(week);
            text.append(report.as_str());
            Reply { text, html: true, controls: Some(render_controls(&week.sessions)) }
        },
        Err(_) => Reply {
            text: framed_number("⚠️ Order #", order, " not found. Check the list and try again."),
            html: false,
            controls: None,
        },
    }
}

/// A button press by `user_id`, shown as `alias`, carrying the action token `data`. A
/// `checkin_{id}` token toggles the user's attendance in that session (a stale id
/// still records the alias); any other token, or none, changes nothing. The reply is
/// the week's report with its controls.
pub fn press_button(week: &mut WeeklyAttendance, data: Option<&str>, user_id: u64, alias: String) -> (r: Reply)
    requires
        old(week).wf(),
    ensures
        final(week).wf(),
        press_outcome(*old(week), *final(week), text_view(data), user_id, alias, r),
{
    let session_id = match data {
        Some(d) => parse_checkin_token(d),
        None => None,
    };
    match session_id {
        Some(id) => {
            week.toggle_attendance(id, user_id, alias);
        },
        None => {},
    }
    report_reply(week)
}

} // verus!
