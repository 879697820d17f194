use aquatallyon::controls::render_controls;
use aquatallyon::render::{alias_text, count_active, decimal_text, render_attendance, render_log};
use aquatallyon::{Attendee, WeeklyAttendance};
use teloxide::types::InlineKeyboardButtonKind;

fn s(text: &str) -> String {
    String::from(text)
}

fn two_sessions() -> WeeklyAttendance {
    let mut w = WeeklyAttendance::new(s("02/02"), s("08/02"));
    w.add_session(0, s("Monday"), s("Swim"), s("USC Pool"), s("5:00 PM")).unwrap();
    w.add_session(0, s("Tuesday"), s("Run"), s("NUS Track"), s("6:00 PM")).unwrap();
    w.toggle_attendance(1, 42, s("alice"));
    w.toggle_attendance(1, 7, s("bob"));
    w.toggle_attendance(1, 7, s("bob"));
    w
}

#[test]
fn attendance_report_exact_text() {
    let w = two_sessions();
    assert_eq!(
        render_attendance(&w),
        "📅 <b>Training Attendance 02/02 to 08/02</b>\n\n<b>Monday Swim</b> @ USC Pool (1 👥)\nalice\n<s>bob</s>\n\n<b>Tuesday Run</b> @ NUS Track (0 👥)\n<i>No one yet</i>\n"
    );
}

#[test]
fn log_report_exact_text() {
    let w = two_sessions();
    assert_eq!(
        render_log(&w),
        "📅 <b>Training Log 02/02 to 08/02</b>\n\n<b>Monday Swim</b> @ USC Pool (1 👥)\n\n<b>Tuesday Run</b> @ NUS Track (0 👥)\n"
    );
}

#[test]
fn empty_week_reports_header_only() {
    let w = WeeklyAttendance::new(s("26/10"), s("01/11"));
    assert_eq!(render_attendance(&w), "📅 <b>Training Attendance 26/10 to 01/11</b>\n\n");
    assert_eq!(render_log(&w), "📅 <b>Training Log 26/10 to 01/11</b>\n\n");
    assert!(render_controls(&w.sessions).is_empty());
}

#[test]
fn unregistered_attendee_is_unknown() {
    let mut w = two_sessions();
    w.sessions[1].attendees.push(Attendee { user_id: 99, cancelled: false });
    assert_eq!(alias_text(&w.user_registry, 99), "Unknown");
    assert_eq!(alias_text(&w.user_registry, 42), "alice");
    assert!(render_attendance(&w).ends_with("(1 👥)\nUnknown\n"));
}

#[test]
fn rendering_is_deterministic() {
    let w = two_sessions();
    assert_eq!(render_attendance(&w), render_attendance(&w));
    assert_eq!(render_attendance(&w.snapshot()), render_attendance(&w));
    assert_eq!(render_log(&w.snapshot()), render_log(&w));
}

#[test]
fn decimal_digits() {
    assert_eq!(decimal_text(0), "0");
    assert_eq!(decimal_text(7), "7");
    assert_eq!(decimal_text(10), "10");
    assert_eq!(decimal_text(255), "255");
    assert_eq!(decimal_text(1234567890), "1234567890");
}

#[test]
fn active_count_skips_cancelled() {
    let v = vec![
        Attendee { user_id: 1, cancelled: false },
        Attendee { user_id: 2, cancelled: true },
        Attendee { user_id: 3, cancelled: false },
    ];
    assert_eq!(count_active(&v), 2);
    assert_eq!(count_active(&Vec::new()), 0);
}

#[test]
fn controls_one_button_per_session() {
    let mut w = two_sessions();
    w.add_session(1, s("Saturday"), s("Bricks"), s("Palawan Beach"), s("8:30 AM")).unwrap();
    let rows = render_controls(&w.sessions);
    assert_eq!(rows.len(), 3);
    let expected = [
        ("Saturday: Bricks @ Palawan Beach", "checkin_3"),
        ("Monday: Swim @ USC Pool", "checkin_1"),
        ("Tuesday: Run @ NUS Track", "checkin_2"),
    ];
    for (row, (label, token)) in rows.iter().zip(expected) {
        assert_eq!(row.len(), 1);
        assert_eq!(row[0].text, label);
        assert_eq!(row[0].kind, InlineKeyboardButtonKind::CallbackData(s(token)));
    }
}

#[test]
fn make_button_label_and_token() {
    let w = two_sessions();
    let b = w.sessions[1].make_button();
    assert_eq!(b.text, "Tuesday: Run @ NUS Track");
    assert_eq!(b.kind, InlineKeyboardButtonKind::CallbackData(s("checkin_2")));
    assert_eq!(w.sessions[0].control_label(), "Monday: Swim @ USC Pool");
    assert_eq!(w.sessions[0].control_token(), "checkin_1");
}

#[test]
fn snapshot_is_a_deep_copy() {
    let mut w = two_sessions();
    let copy = w.snapshot();
    w.toggle_attendance(2, 5, s("carol"));
    w.start_week(s("a"), s("b"));
    assert_eq!(copy.start_date, "02/02");
    assert_eq!(copy.sessions[0].attendees.len(), 2);
    assert!(copy.sessions[1].attendees.is_empty());
    assert!(copy.user_registry.get(&5).is_none());
}

#[test]
fn attendance_rows_list_active_attendees_in_order() {
    let mut w = two_sessions();
    w.toggle_attendance(2, 8, s("dan"));
    w.toggle_attendance(2, 42, s("alice"));
    w.sessions[1].attendees.push(Attendee { user_id: 77, cancelled: false });
    let rows: Vec<(u8, u64, String)> =
        w.attendance_rows().into_iter().map(|r| (r.session_id, r.user_id, r.alias)).collect();
    assert_eq!(
        rows,
        vec![(1, 42, s("alice")), (2, 8, s("dan")), (2, 42, s("alice")), (2, 77, s("Unknown"))]
    );
    assert!(WeeklyAttendance::new(s("a"), s("b")).attendance_rows().is_empty());
}
