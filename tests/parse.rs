use aquatallyon::StoreError;
use aquatallyon::parse::{
    parse_checkin_token, parse_session_args, parse_unsigned, split_text, strip_prefix_text,
    trim_text,
};

#[test]
fn split_keeps_empty_pieces() {
    assert_eq!(split_text("a,b,,c", ','), vec!["a", "b", "", "c"]);
    assert_eq!(split_text("", ','), vec![""]);
    assert_eq!(split_text(",", ','), vec!["", ""]);
    assert_eq!(split_text("abc", ','), vec!["abc"]);
}

#[test]
fn trim_removes_unicode_space() {
    assert_eq!(trim_text("  Swim \t"), "Swim");
    assert_eq!(trim_text("\u{3000}Pool\u{a0}"), "Pool");
    assert_eq!(trim_text("   "), "");
    assert_eq!(trim_text("a b"), "a b");
    for t in ["\u{85}x\u{2028}", " \n x y \r", "", "\u{200b}z"] {
        assert_eq!(trim_text(t), t.trim());
    }
}

#[test]
fn unsigned_parse_matches_std() {
    for t in ["0", "7", "+7", "007", "255", "256", "", "+", "-1", "1a", " 1", "18446744073709551615", "18446744073709551616"] {
        assert_eq!(parse_unsigned(t, u64::MAX), t.parse::<u64>().ok(), "{}", t);
        assert_eq!(parse_unsigned(t, 255).map(|v| v as u8), t.parse::<u8>().ok(), "{}", t);
    }
}

#[test]
fn session_args_trimmed_in_order() {
    let a = parse_session_args(" 2 , Monday,  Swim , USC Pool ,5:00 PM ", 1).unwrap();
    assert_eq!(a.order, 2);
    assert_eq!((a.day.as_str(), a.activity.as_str(), a.location.as_str(), a.time.as_str()), ("Monday", "Swim", "USC Pool", "5:00 PM"));
}

#[test]
fn session_args_need_five_fields() {
    assert_eq!(parse_session_args("2, Monday, Swim, Pool", 1).err(), Some(StoreError::Validation));
    assert_eq!(parse_session_args("", 1).err(), Some(StoreError::Validation));
    let a = parse_session_args("1,a,b,c,d,extra", 0).unwrap();
    assert_eq!(a.time, "d");
}

#[test]
fn session_args_order_defaults() {
    assert_eq!(parse_session_args("x, a, b, c, d", 1).unwrap().order, 1);
    assert_eq!(parse_session_args("x, a, b, c, d", 0).unwrap().order, 0);
    assert_eq!(parse_session_args("-3, a, b, c, d", 0).unwrap().order, 0);
    assert_eq!(parse_session_args("99999999999999999999999, a, b, c, d", 1).unwrap().order, 1);
    assert_eq!(parse_session_args("+4, a, b, c, d", 1).unwrap().order, 4);
}

#[test]
fn checkin_tokens() {
    assert_eq!(parse_checkin_token("checkin_3"), Some(3));
    assert_eq!(parse_checkin_token("checkin_255"), Some(255));
    assert_eq!(parse_checkin_token("checkin_007"), Some(7));
    assert_eq!(parse_checkin_token("checkin_256"), None);
    assert_eq!(parse_checkin_token("checkin_"), None);
    assert_eq!(parse_checkin_token("checkout_1"), None);
    assert_eq!(parse_checkin_token("checkin"), None);
    assert_eq!(parse_checkin_token(""), None);
    assert_eq!(parse_checkin_token("checkin_1x"), None);
}

#[test]
fn prefix_stripping() {
    assert_eq!(strip_prefix_text("checkin_12", "checkin_"), Some("12"));
    assert_eq!(strip_prefix_text("check", "checkin_"), None);
    assert_eq!(strip_prefix_text("abc", ""), Some("abc"));
}
