use aquatallyon::calendar::{MAX_DAY, MIN_DAY};
use aquatallyon::{StoreError, WeeklyAttendance};
use chrono::{Datelike, NaiveDate};

fn s(text: &str) -> String {
    String::from(text)
}

fn day_number(y: i32, m: u32, d: u32) -> i32 {
    NaiveDate::from_ymd_opt(y, m, d).unwrap().num_days_from_ce()
}

fn week_with(n: usize) -> WeeklyAttendance {
    let mut w = WeeklyAttendance::new(s("02/02"), s("08/02"));
    let days = ["Monday", "Tuesday", "Wednesday", "Thursday", "Friday", "Saturday"];
    for i in 0..n {
        w.add_session(0, s(days[i % 6]), s("Swim"), s("USC Pool"), s("5:00 PM")).unwrap();
    }
    w
}

fn ids(w: &WeeklyAttendance) -> Vec<u8> {
    w.sessions.iter().map(|x| x.id).collect()
}

#[test]
fn toggle_twice_cancels_and_third_restores() {
    let mut w = week_with(1);
    assert!(w.toggle_attendance(1, 42, s("alice")));
    assert_eq!(w.sessions[0].attendees.len(), 1);
    assert!(!w.sessions[0].attendees[0].cancelled);
    assert!(w.toggle_attendance(1, 42, s("alice")));
    assert_eq!(w.sessions[0].attendees.len(), 1);
    assert!(w.sessions[0].attendees[0].cancelled);
    assert!(w.toggle_attendance(1, 42, s("alice")));
    assert_eq!(w.sessions[0].attendees.len(), 1);
    assert!(!w.sessions[0].attendees[0].cancelled);
}

#[test]
fn toggles_never_duplicate_a_user() {
    let mut w = week_with(3);
    let calls: [(u8, u64); 9] = [(1, 7), (2, 7), (1, 8), (1, 7), (3, 9), (1, 7), (2, 8), (2, 7), (1, 8)];
    for (sid, uid) in calls {
        w.toggle_attendance(sid, uid, format!("user{}", uid));
        for session in &w.sessions {
            let mut seen: Vec<u64> = session.attendees.iter().map(|a| a.user_id).collect();
            let before = seen.len();
            seen.sort();
            seen.dedup();
            assert_eq!(seen.len(), before);
        }
    }
    assert_eq!(w.sessions[0].attendees.len(), 2);
    assert!(!w.sessions[0].attendees[0].cancelled);
    assert!(w.sessions[0].attendees[1].cancelled);
    assert_eq!(w.sessions[1].attendees.len(), 2);
    assert_eq!(w.sessions[2].attendees.len(), 1);
}

#[test]
fn toggle_of_missing_session_only_records_alias() {
    let mut w = week_with(2);
    assert!(!w.toggle_attendance(9, 5, s("eve")));
    assert!(w.sessions.iter().all(|x| x.attendees.is_empty()));
    assert_eq!(w.user_registry.get(&5).unwrap().alias, "eve");
}

#[test]
fn toggle_refreshes_alias() {
    let mut w = week_with(1);
    w.toggle_attendance(1, 42, s("alice"));
    w.toggle_attendance(1, 42, s("alice b"));
    assert_eq!(w.user_registry.get(&42).unwrap().alias, "alice b");
}

#[test]
fn add_in_the_middle_keeps_order() {
    let mut w = week_with(3);
    let former_second = w.sessions[1].id;
    let id = w.add_session(2, s("Sunday"), s("Bricks"), s("Palawan Beach"), s("8:30 AM")).unwrap();
    assert_eq!(id, 4);
    assert_eq!(w.sessions.len(), 4);
    assert_eq!(w.sessions[1].id, 4);
    assert_eq!(w.sessions[1].day, "Sunday");
    assert_eq!(w.sessions[1].activity, "Bricks");
    assert_eq!(w.sessions[1].location, "Palawan Beach");
    assert_eq!(w.sessions[1].time, "8:30 AM");
    assert!(w.sessions[1].attendees.is_empty());
    assert_eq!(w.sessions[2].id, former_second);
    assert_eq!(ids(&w), vec![1, 4, 2, 3]);
}

#[test]
fn add_outside_range_appends() {
    let mut w = week_with(2);
    assert_eq!(w.add_session(0, s("a"), s("b"), s("c"), s("d")), Ok(3));
    assert_eq!(w.add_session(9, s("a"), s("b"), s("c"), s("d")), Ok(4));
    assert_eq!(w.add_session(5, s("a"), s("b"), s("c"), s("d")), Ok(5));
    assert_eq!(ids(&w), vec![1, 2, 3, 4, 5]);
    assert_eq!(w.add_session(1, s("a"), s("b"), s("c"), s("d")), Ok(6));
    assert_eq!(ids(&w), vec![6, 1, 2, 3, 4, 5]);
}

#[test]
fn add_first_session_gets_id_one() {
    let mut w = WeeklyAttendance::new(s("a"), s("b"));
    assert_eq!(w.add_session(1, s("Monday"), s("Swim"), s("Pool"), s("5 PM")), Ok(1));
    assert_eq!(w.max_session_id(), 1);
}

#[test]
fn add_after_delete_uses_max_plus_one() {
    let mut w = week_with(3);
    w.delete_session(2).unwrap();
    assert_eq!(ids(&w), vec![1, 3]);
    assert_eq!(w.add_session(0, s("a"), s("b"), s("c"), s("d")), Ok(4));
}

#[test]
fn add_fails_when_ids_run_out() {
    let mut w = week_with(255);
    assert_eq!(w.max_session_id(), 255);
    assert_eq!(w.add_session(1, s("a"), s("b"), s("c"), s("d")), Err(StoreError::IdsExhausted));
    assert_eq!(w.sessions.len(), 255);
}

#[test]
fn edit_replaces_details_only() {
    let mut w = week_with(2);
    w.toggle_attendance(2, 11, s("bob"));
    assert_eq!(w.edit_session(2, s("Friday"), s("Run"), s("NUS Track"), s("6:00 PM")), Ok(()));
    let e = &w.sessions[1];
    assert_eq!((e.id, e.day.as_str(), e.activity.as_str(), e.location.as_str(), e.time.as_str()), (2, "Friday", "Run", "NUS Track", "6:00 PM"));
    assert_eq!(e.attendees.len(), 1);
    assert_eq!(w.sessions[0].day, "Monday");
}

#[test]
fn edit_out_of_range_is_not_found() {
    let mut w = week_with(2);
    assert_eq!(w.edit_session(0, s("a"), s("b"), s("c"), s("d")), Err(StoreError::NotFound));
    assert_eq!(w.edit_session(3, s("a"), s("b"), s("c"), s("d")), Err(StoreError::NotFound));
    assert_eq!(w.sessions[0].day, "Monday");
    assert_eq!(w.sessions[1].day, "Tuesday");
}

#[test]
fn delete_shifts_later_sessions() {
    let mut w = week_with(3);
    assert_eq!(w.delete_session(1), Ok(()));
    assert_eq!(ids(&w), vec![2, 3]);
    assert_eq!(w.delete_session(3), Err(StoreError::NotFound));
    assert_eq!(w.delete_session(0), Err(StoreError::NotFound));
    assert_eq!(ids(&w), vec![2, 3]);
}

#[test]
fn registry_outlives_deleted_session() {
    let mut w = week_with(2);
    w.toggle_attendance(1, 42, s("alice"));
    w.toggle_attendance(2, 42, s("alice"));
    w.delete_session(1).unwrap();
    assert_eq!(w.user_registry.get(&42).unwrap().alias, "alice");
    let report = aquatallyon::render::render_attendance(&w);
    assert!(report.ends_with("<b>Tuesday Swim</b> @ USC Pool (1 👥)\nalice\n"));
}

#[test]
fn seeded_week_scenario() {
    let mut w = WeeklyAttendance::new(s("02/02"), s("08/02"));
    w.add_session(1, s("Monday"), s("Swim"), s("USC Pool"), s("5:00 PM")).unwrap();
    assert_eq!(w.sessions[0].id, 1);
    w.toggle_attendance(1, 42, s("alice"));
    assert_eq!(aquatallyon::render::count_active(&w.sessions[0].attendees), 1);
    assert!(!w.sessions[0].attendees[0].cancelled);
    w.toggle_attendance(1, 42, s("alice"));
    assert_eq!(aquatallyon::render::count_active(&w.sessions[0].attendees), 0);
    assert_eq!(w.sessions[0].attendees.len(), 1);
    let report = aquatallyon::render::render_attendance(&w);
    assert!(report.contains("<s>alice</s>"));
    assert!(report.contains("(0 👥)"));
    assert_eq!(w.delete_session(1), Ok(()));
    assert!(w.sessions.is_empty());
    assert_eq!(w.delete_session(1), Err(StoreError::NotFound));
}

#[test]
fn find_and_get_session_by_id() {
    let mut w = week_with(3);
    w.delete_session(1).unwrap();
    assert_eq!(w.find_session(3), Some(1));
    assert_eq!(w.find_session(1), None);
    let session = w.get_session_mut(2).unwrap();
    session.activity = s("Run");
    assert_eq!(w.sessions[0].activity, "Run");
    assert!(w.get_session_mut(7).is_none());
}

#[test]
fn reset_week_clears_and_moves_dates() {
    let mut w = week_with(2);
    w.toggle_attendance(1, 1, s("a"));
    w.toggle_attendance(2, 2, s("b"));
    w.reset_week(day_number(2026, 10, 21));
    assert_eq!(w.start_date, "26/10");
    assert_eq!(w.end_date, "01/11");
    assert!(w.sessions.iter().all(|x| x.attendees.is_empty()));
    assert_eq!(ids(&w), vec![1, 2]);
    assert_eq!(w.sessions[1].day, "Tuesday");
    assert_eq!(w.user_registry.len(), 2);
}

#[test]
fn reset_on_monday_rolls_a_full_week() {
    let mut w = week_with(1);
    w.reset_week(day_number(2026, 10, 19));
    assert_eq!(w.start_date, "26/10");
    assert_eq!(w.end_date, "01/11");
    w.reset_week(day_number(2026, 10, 25));
    assert_eq!(w.start_date, "26/10");
    w.reset_week(day_number(2026, 12, 28));
    assert_eq!(w.start_date, "04/01");
    assert_eq!(w.end_date, "10/01");
}

#[test]
fn start_week_sets_given_labels() {
    let mut w = week_with(2);
    w.toggle_attendance(2, 3, s("c"));
    w.start_week(s("09/02"), s("15/02"));
    assert_eq!(w.start_date, "09/02");
    assert_eq!(w.end_date, "15/02");
    assert!(w.sessions[1].attendees.is_empty());
}

#[test]
fn next_monday_of_each_weekday() {
    let monday = day_number(2026, 10, 19);
    for k in 0..7 {
        let m = aquatallyon::calendar::next_monday(monday + k);
        assert_eq!(m, monday + 7);
    }
    assert_eq!(aquatallyon::calendar::next_monday(1), 8);
    assert_eq!(aquatallyon::calendar::next_monday(0), 1);
}

#[test]
fn next_week_labels_of_a_thursday() {
    let (a, b) = aquatallyon::calendar::next_week_labels(day_number(2026, 2, 26));
    assert_eq!(a, "02/03");
    assert_eq!(b, "08/03");
}

#[test]
fn day_bounds_match_chrono() {
    assert!(NaiveDate::from_num_days_from_ce_opt(MAX_DAY).is_some());
    assert!(NaiveDate::from_num_days_from_ce_opt(MAX_DAY + 1).is_none());
    assert!(NaiveDate::from_num_days_from_ce_opt(MIN_DAY).is_some());
    assert!(NaiveDate::from_num_days_from_ce_opt(MIN_DAY - 1).is_none());
    assert_eq!(aquatallyon::calendar::next_monday(MAX_DAY - 13) - (MAX_DAY - 13) <= 7, true);
    let (a, b) = aquatallyon::calendar::next_week_labels(MAX_DAY - 13);
    assert_eq!(a.len(), 5);
    assert_eq!(b.len(), 5);
    let m = aquatallyon::calendar::next_monday(MIN_DAY);
    assert_eq!(NaiveDate::from_num_days_from_ce_opt(m).unwrap().weekday(), chrono::Weekday::Mon);
}
