use crate::model::StoreError;
use vstd::prelude::*;
use vstd::string::*;

verus! {

/// Unicode's White_Space characters, the ones that `str::trim` removes.
pub open spec fn is_space(c: char) -> bool {
    ||| '\u{9}' <= c <= '\u{d}'
    ||| c == ' '
    ||| c == '\u{85}'
    ||| c == '\u{a0}'
    ||| c == '\u{1680}'
    ||| '\u{2000}' <= c <= '\u{200a}'
    ||| c == '\u{2028}'
    ||| c == '\u{2029}'
    ||| c == '\u{202f}'
    ||| c == '\u{205f}'
    ||| c == '\u{3000}'
}

/// `s` without its leading white space.
pub open spec fn trim_start(s: Seq<char>) -> Seq<char>
    decreases s.len(),
{
    if s.len() > 0 && is_space(s[0]) {
        trim_start(s.drop_first())
    } else {
        s
    }
}

/// `s` without its trailing white space.
pub open spec fn trim_end(s: Seq<char>) -> Seq<char>
    decreases s.len(),
{
    if s.len() > 0 && is_space(s.last()) {
        trim_end(s.drop_last())
    } else {
        s
    }
}

/// `s` without leading and trailing white space.
pub open spec fn trim(s: Seq<char>) -> Seq<char> {
    trim_end(trim_start(s))
}

/// The pieces of `s` between occurrences of `sep`; there is always at least one.
pub open spec fn split(s: Seq<char>, sep: char) -> Seq<Seq<char>>
    decreases s.len(),
{
    if s.len() == 0 {
        seq![Seq::empty()]
    } else {
        let prev = split(s.drop_last(), sep);
        if s.last() == sep {
            prev.push(Seq::empty())
        } else {
            prev.update(prev.len() - 1, prev.last().push(s.last()))
        }
    }
}

/// Whether `c` is an ASCII decimal digit.
pub open spec fn is_digit(c: char) -> bool {
    '0' <= c <= '9'
}

/// The value of the decimal digits `s`.
pub open spec fn digits_value(s: Seq<char>) -> nat
    decreases s.len(),
{
    if s.len() == 0 {
        0
    } else {
        digits_value(s.drop_last()) * 10 + ((s.last() as u32) - ('0' as u32)) as nat
    }
}

/// `s` without one leading `+`, if it has one.
pub open spec fn unsigned_digits(s: Seq<char>) -> Seq<char> {
    if s.len() > 0 && s[0] == '+' {
        s.drop_first()
    } else {
        s
    }
}

/// How Rust parses `s` as an unsigned integer of largest value `max`: an optional `+`,
/// then one or more decimal digits whose value is at most `max`.
pub open spec fn parse_unsigned_spec(s: Seq<char>, max: nat) -> Option<nat> {
    let d = unsigned_digits(s);
    if d.len() > 0 && (forall|i: int| 0 <= i < d.len() ==> is_digit(#[trigger] d[i]))
        && digits_value(d) <= max {
        Some(digits_value(d))
    } else {
        None
    }
}

/// The character at position `i` of `s`.
fn char_at(s: &str, i: usize) -> (c: char)
    requires
        i < s@.len(),
    ensures
        c == s@[i as int],
{
    s.get_char(i)
}

/// Parses `s` as an unsigned integer no larger than `max`, as Rust's `str::parse` does
/// for an unsigned integer type whose largest value is `max`.
pub fn parse_unsigned(s: &str, max: u64) -> (r: Option<u64>)
    ensures
        r matches Some(v) ==> parse_unsigned_spec(s@, max as nat) == Some(v as nat),
        r is None ==> parse_unsigned_spec(s@, max as nat) is None,
{
    let len = s.unicode_len();
    let mut start: usize = 0;
    if len > 0 && char_at(s, 0) == '+' {
        start = 1;
    }
    let ghost d = unsigned_digits(s@);
    assert(d == s@.subrange(start as int, len as int));
    if start == len {
        return None;
    }
    let mut v: u64 = 0;
    let mut i: usize = start;
    while i < len
        invariant
            start <= i <= len,
            len == s@.len(),
            d == s@.subrange(start as int, len as int),
            d == unsigned_digits(s@),
            forall|k: int| 0 <= k < i - start ==> is_digit(#[trigger] d[k]),
            v as nat == digits_value(d.take(i - start)),
            v <= max,
        decreases len - i,
    {
        let c = char_at(s, i);
        assert(d[i - start] == s@[i as int]);
        if !('0' <= c && c <= '9') {
            assert(!is_digit(d[i - start]));
            return None;
        }
        let digit: u64 = ((c as u32) - ('0' as u32)) as u64;
        assert(d.take(i - start + 1).drop_last() == d.take(i - start));
        if digit > max || v > (max - digit) / 10 {
            assert(v * 10 + digit > max) by (nonlinear_arith)
                requires
                    digit > max || v > (max - digit) / 10,
            ;
            proof {
                if forall|k: int| 0 <= k < d.len() ==> is_digit(#[trigger] d[k]) {
                    lemma_digits_monotone(d, (i - start + 1) as int);
                }
            }
            return None;
        }
        v = v * 10 + digit;
        i += 1;
    }
    assert(d.take(len - start) == d);
    Some(v)
}

/// A prefix's value never exceeds that of a longer digit string.
proof fn lemma_digits_monotone(d: Seq<char>, k: int)
    requires
        0 <= k <= d.len(),
        forall|i: int| 0 <= i < d.len() ==> is_digit(#[trigger] d[i]),
    ensures
        digits_value(d.take(k)) <= digits_value(d),
    decreases d.len() - k,
{
    if k == d.len() {
        assert(d.take(k) == d);
    } else {
        lemma_digits_monotone(d, k + 1);
        assert(d.take(k + 1).drop_last() == d.take(k));
        assert(d.take(k + 1).last() == d[k]);
        assert(is_digit(d[k]));
    }
}

/// Whether `c` is white space, as `char::is_whitespace` decides.
pub fn is_space_char(c: char) -> (r: bool)
    ensures
        r == is_space(c),
{
    ('\u{9}' <= c && c <= '\u{d}') || c == ' ' || c == '\u{85}' || c == '\u{a0}' || c == '\u{1680}'
        || ('\u{2000}' <= c && c <= '\u{200a}') || c == '\u{2028}' || c == '\u{2029}' || c
        == '\u{202f}' || c == '\u{205f}' || c == '\u{3000}'
}

/// `s` without leading and trailing white space.
pub fn trim_text(s: &str) -> (r: &str)
    ensures
        r@ == trim(s@),
{
    let len = s.unicode_len();
    let mut a: usize = 0;
    assert(s@.subrange(0, len as int) == s@);
    while a < len && is_space_char(char_at(s, a))
        invariant
            0 <= a <= len,
            len == s@.len(),
            trim_start(s@.subrange(a as int, len as int)) == trim_start(s@),
        decreases len - a,
    {
        assert(s@.subrange(a as int, len as int).drop_first() == s@.subrange(a + 1, len as int));
        a += 1;
    }
    assert(trim_start(s@.subrange(a as int, len as int)) == s@.subrange(a as int, len as int));
    let mut b: usize = len;
    while b > a && is_space_char(char_at(s, b - 1))
        invariant
            a <= b <= len,
            len == s@.len(),
            trim_end(s@.subrange(a as int, b as int)) == trim(s@),
        decreases b - a,
    {
        assert(s@.subrange(a as int, b as int).drop_last() == s@.subrange(a as int, b - 1));
        b -= 1;
    }
    s.substring_char(a, b)
}

/// The pieces of `s` between occurrences of `sep`.
pub fn split_text(s: &str, sep: char) -> (r: Vec<String>)
    ensures
        r@.len() == split(s@, sep).len(),
        forall|k: int| 0 <= k < r@.len() ==> (#[trigger] r@[k])@ == split(s@, sep)[k],
{
    let len = s.unicode_len();
    let mut fields: Vec<String> = Vec::new();
    let mut start: usize = 0;
    let mut i: usize = 0;
    while i < len
        invariant
            0 <= start <= i <= len,
            len == s@.len(),
            fields@.len() + 1 == split(s@.take(i as int), sep).len(),
            forall|k: int|
                0 <= k < fields@.len() ==> (#[trigger] fields@[k])@ == split(
                    s@.take(i as int),
                    sep,
                )[k],
            split(s@.take(i as int), sep).last() == s@.subrange(start as int, i as int),
        decreases len - i,
    {
        let ghost prev = split(s@.take(i as int), sep);
        assert(s@.take(i + 1).drop_last() == s@.take(i as int));
        assert(s@.take(i + 1).last() == s@[i as int]);
        if char_at(s, i) == sep {
            let piece = s.substring_char(start, i);
            fields.push(piece.to_owned());
            start = i + 1;
            assert(s@.subrange(start as int, start as int) == Seq::<char>::empty());
        } else {
            assert(s@.subrange(start as int, i + 1) == s@.subrange(start as int, i as int).push(
                s@[i as int],
            ));
        }
        i += 1;
    }
    assert(s@.take(len as int) == s@);
    let piece = s.substring_char(start, len);
    fields.push(piece.to_owned());
    fields
}

/// The fields of an `add` or `edit` command: `order, day, activity, location, time`.
pub struct SessionArgs {
    pub order: usize,
    pub day: String,
    pub activity: String,
    pub location: String,
    pub time: String,
}

/// The position that the first field names, or `default_order` when it is no number.
pub open spec fn order_of(field: Seq<char>, default_order: usize) -> nat {
    match parse_unsigned_spec(trim(field), usize::MAX as nat) {
        Some(v) => v,
        None => default_order as nat,
    }
}

/// Splits `raw` at commas and trims each piece. Fewer than five pieces is a
/// `Validation` error; pieces after the fifth are ignored. The first piece is read as
/// a position, `default_order` standing in when it is no number.
pub fn parse_session_args(raw: &str, default_order: usize) -> (r: Result<SessionArgs, StoreError>)
    ensures
        r is Err <==> split(raw@, ',').len() < 5,
        r is Err ==> r->Err_0 == StoreError::Validation,
        r matches Ok(a) ==> {
            let parts = split(raw@, ',');
            &&& a.order as nat == order_of(parts[0], default_order)
            &&& a.day@ == trim(parts[1])
            &&& a.activity@ == trim(parts[2])
            &&& a.location@ == trim(parts[3])
            &&& a.time@ == trim(parts[4])
        },
{
    let parts = split_text(raw, ',');
    if parts.len() < 5 {
        return Err(StoreError::Validation);
    }
    let order = match parse_unsigned(trim_text(parts[0].as_str()), usize::MAX as u64) {
        Some(v) => v as usize,
        None => default_order,
    };
    Ok(
        SessionArgs {
            order,
            day: trim_text(parts[1].as_str()).to_owned(),
            activity: trim_text(parts[2].as_str()).to_owned(),
            location: trim_text(parts[3].as_str()).to_owned(),
            time: trim_text(parts[4].as_str()).to_owned(),
        },
    )
}

/// Whether `s` begins with `prefix`.
pub open spec fn starts_with(s: Seq<char>, prefix: Seq<char>) -> bool {
    prefix.len() <= s.len() && s.subrange(0, prefix.len() as int) == prefix
}

/// `s` after `prefix`, when it begins with it.
pub fn strip_prefix_text<'a>(s: &'a str, prefix: &str) -> (r: Option<&'a str>)
    ensures
        r is Some <==> starts_with(s@, prefix@),
        r matches Some(rest) ==> rest@ == s@.subrange(prefix@.len() as int, s@.len() as int),
{
    let n = prefix.unicode_len();
    let len = s.unicode_len();
    if n > len {
        return None;
    }
    let mut i: usize = 0;
    while i < n
        invariant
            0 <= i <= n <= len,
            n == prefix@.len(),
            len == s@.len(),
            forall|k: int| 0 <= k < i ==> #[trigger] s@[k] == prefix@[k],
        decreases n - i,
    {
        if char_at(s, i) != char_at(prefix, i) {
            assert(s@.subrange(0, n as int)[i as int] != prefix@[i as int]);
            return None;
        }
        i += 1;
    }
    assert(s@.subrange(0, n as int) == prefix@);
    Some(s.substring_char(n, len))
}

/// The session id that a button's action token `checkin_{id}` names.
pub open spec fn token_session(data: Seq<char>) -> Option<nat> {
    if starts_with(data, "checkin_"@) {
        parse_unsigned_spec(data.subrange("checkin_"@.len() as int, data.len() as int), 255)
    } else {
        None
    }
}

/// Reads a button's action token: `checkin_` followed by a session id. Any other
/// token gives `None`.
pub fn parse_checkin_token(data: &str) -> (r: Option<u8>)
    ensures
        r matches Some(id) ==> token_session(data@) == Some(id as nat),
        r is None ==> token_session(data@) is None,
{
    match strip_prefix_text(data, "checkin_") {
        Some(rest) => match parse_unsigned(rest, 255) {
            Some(v) => Some(v as u8),
            None => None,
        },
        None => None,
    }
}

} // verus!
