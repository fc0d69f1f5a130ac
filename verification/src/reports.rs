//! Reports: hours worked from sign-in sessions within a period, and the
//! money figures of partners' clients, which are stored as free text.
use vstd::prelude::*;
use crate::chat::opt_view;
use crate::errors::CrmError;
use crate::numbering::{decimal, decimal_string, is_digit};
use crate::text::{concat, concat3, lex_lt, push_char, str_lt};

verus! {

/// What `chrono::NaiveDateTime::parse_from_str` gives for a text and a
/// format, as seconds since 1970-01-01 00:00:00 of that naive time (no time
/// zone is involved); `None` when the text does not match.  It depends on
/// nothing but the two texts.
pub uninterp spec fn datetime_seconds(raw: Seq<char>, format: Seq<char>) -> Option<i64>;

/// Calls `NaiveDateTime::parse_from_str`, then counts its seconds with
/// `and_utc().timestamp()`.
#[verifier::external_body]
fn parse_datetime(raw: &str, format: &str) -> (r: Option<i64>)
    ensures
        r == datetime_seconds(raw@, format@),
{
    chrono::NaiveDateTime::parse_from_str(raw, format).ok().map(|t| t.and_utc().timestamp())
}

/// The format of the store's timestamps.
pub open spec fn stamp_format() -> Seq<char> {
    "%Y-%m-%d %H:%M:%S"@
}

/// A stored timestamp in seconds: `YYYY-MM-DD HH:MM:SS`, or a bare date
/// taken as its midnight.
pub open spec fn stamp_seconds(raw: Seq<char>) -> Option<i64> {
    match datetime_seconds(raw, stamp_format()) {
        Some(t) => Some(t),
        None => datetime_seconds(raw + " 00:00:00"@, stamp_format()),
    }
}

/// Reads a stored timestamp.
pub fn parse_stamp(raw: &str) -> (r: Option<i64>)
    ensures
        r == stamp_seconds(raw@),
{
    match parse_datetime(raw, "%Y-%m-%d %H:%M:%S") {
        Some(t) => Some(t),
        None => {
            let with_time = concat(raw, " 00:00:00");
            parse_datetime(with_time.as_str(), "%Y-%m-%d %H:%M:%S")
        },
    }
}

/// The bounds of a report period given as two dates: from the first
/// second of the first day to the last second of the last day.
pub fn period_bounds(period_start: &str, period_end: &str) -> (r: Result<(i64, i64), CrmError>)
    ensures
        match stamp_seconds(period_start@ + " 00:00:00"@) {
            None => r == Err::<(i64, i64), CrmError>(CrmError::BadPeriodStart),
            Some(s) => match stamp_seconds(period_end@ + " 23:59:59"@) {
                None => r == Err::<(i64, i64), CrmError>(CrmError::BadPeriodEnd),
                Some(e) => r == Ok::<(i64, i64), CrmError>((s, e)),
            },
        },
{
    let start_text = concat(period_start, " 00:00:00");
    let end_text = concat(period_end, " 23:59:59");
    let s = match parse_stamp(start_text.as_str()) {
        Some(s) => s,
        None => return Err(CrmError::BadPeriodStart),
    };
    let e = match parse_stamp(end_text.as_str()) {
        Some(e) => e,
        None => return Err(CrmError::BadPeriodEnd),
    };
    Ok((s, e))
}

/// The seconds of one session that fall within the period: the session runs
/// from sign-in to sign-out (or to now while open), cut to the period; a
/// session whose sign-in cannot be read counts nothing.
pub open spec fn overlap_seconds(
    login: Option<i64>,
    logout: Option<i64>,
    period_start: i64,
    period_end: i64,
    now: i64,
) -> int {
    match login {
        None => 0,
        Some(l) => {
            let end = match logout {
                Some(o) => o,
                None => now,
            };
            let s = if l > period_start { l } else { period_start };
            let e = if end < period_end { end } else { period_end };
            if e > s { e - s } else { 0 }
        },
    }
}

/// A sign-in session as stored.
#[derive(Clone, Debug)]
pub struct StoredSession {
    pub login_at: String,
    pub logout_at: Option<String>,
}

/// The seconds a session counts towards the period.
pub open spec fn session_seconds(s: StoredSession, period_start: i64, period_end: i64, now: i64) -> int {
    overlap_seconds(
        stamp_seconds(s.login_at@),
        match s.logout_at {
            Some(o) => stamp_seconds(o@),
            None => None,
        },
        period_start,
        period_end,
        now,
    )
}

/// The seconds all sessions count towards the period.
pub open spec fn total_seconds(sessions: Seq<StoredSession>, period_start: i64, period_end: i64, now: i64) -> int
    decreases sessions.len(),
{
    if sessions.len() == 0 {
        0
    } else {
        total_seconds(sessions.drop_last(), period_start, period_end, now) + session_seconds(
            sessions.last(),
            period_start,
            period_end,
            now,
        )
    }
}

proof fn lemma_total_nonneg(sessions: Seq<StoredSession>, a: i64, b: i64, now: i64)
    ensures
        total_seconds(sessions, a, b, now) >= 0,
    decreases sessions.len(),
{
    if sessions.len() > 0 {
        lemma_total_nonneg(sessions.drop_last(), a, b, now);
    }
}

/// The seconds worked within the period over all sessions (sessions still
/// open count up to `now`; a sign-out that cannot be read counts as still
/// open).  The sum stops at the largest `i64`.
pub fn worked_seconds(sessions: &Vec<StoredSession>, period_start: i64, period_end: i64, now: i64) -> (r:
    i64)
    ensures
        r == (if total_seconds(sessions@, period_start, period_end, now) > i64::MAX {
            i64::MAX as int
        } else {
            total_seconds(sessions@, period_start, period_end, now)
        }),
        r >= 0,
{
    let mut total: i64 = 0;
    let mut i: usize = 0;
    while i < sessions.len()
        invariant
            0 <= i <= sessions@.len(),
            total == (if total_seconds(sessions@.subrange(0, i as int), period_start, period_end, now)
                > i64::MAX {
                i64::MAX as int
            } else {
                total_seconds(sessions@.subrange(0, i as int), period_start, period_end, now)
            }),
        decreases sessions@.len() - i,
    {
        let s = &sessions[i];
        let login = parse_stamp(s.login_at.as_str());
        let logout = match &s.logout_at {
            Some(o) => parse_stamp(o.as_str()),
            None => None,
        };
        let d: i128 = match login {
            None => 0,
            Some(l) => {
                let end = match logout {
                    Some(t) => t,
                    None => now,
                };
                let st = if l > period_start { l } else { period_start };
                let en = if end < period_end { end } else { period_end };
                if en > st {
                    (en as i128) - (st as i128)
                } else {
                    0
                }
            },
        };
        proof {
            let prefix = sessions@.subrange(0, i + 1);
            assert(prefix.drop_last() =~= sessions@.subrange(0, i as int));
            assert(prefix.last() == sessions@[i as int]);
            assert(d == session_seconds(sessions@[i as int], period_start, period_end, now));
            lemma_total_nonneg(sessions@.subrange(0, i as int), period_start, period_end, now);
        }
        if (total as i128) + d > (i64::MAX as i128) {
            total = i64::MAX;
        } else {
            total = ((total as i128) + d) as i64;
        }
        i = i + 1;
    }
    proof {
        assert(sessions@.subrange(0, sessions@.len() as int) =~= sessions@);
        lemma_total_nonneg(sessions@, period_start, period_end, now);
    }
    total
}

/// The decimal digits of `s`, in order, all else dropped.
pub open spec fn digits_of_upto(s: Seq<char>, n: int) -> Seq<char>
    decreases n,
{
    if n <= 0 || n > s.len() {
        Seq::empty()
    } else if is_digit(s[n - 1]) {
        digits_of_upto(s, n - 1).push(s[n - 1])
    } else {
        digits_of_upto(s, n - 1)
    }
}

/// The digits of a money figure typed as free text (`5 000 000 сум` gives
/// `5000000`, `10%` gives `10`); `None` when there are none (`договорная`).
pub open spec fn amount_digits_spec(s: Seq<char>) -> Option<Seq<char>> {
    let d = digits_of_upto(s, s.len() as int);
    if d.len() == 0 { None } else { Some(d) }
}

/// Picks the digits out of a money figure.
pub fn amount_digits(raw: &str) -> (r: Option<String>)
    ensures
        match (r, amount_digits_spec(raw@)) {
            (Some(a), Some(b)) => a@ == b,
            (None, None) => true,
            _ => false,
        },
{
    let n = raw.unicode_len();
    let mut d = String::new();
    let mut i: usize = 0;
    while i < n
        invariant
            n == raw@.len(),
            0 <= i <= n,
            d@ == digits_of_upto(raw@, i as int),
        decreases n - i,
    {
        let c = raw.get_char(i);
        if '0' <= c && c <= '9' {
            push_char(&mut d, c);
        }
        i = i + 1;
    }
    if d.as_str().is_empty() {
        None
    } else {
        Some(d)
    }
}

/// Whether a timestamp falls within a period given by its two bounds (both
/// included, compared as text); with a bound missing everything counts.
pub open spec fn within_period(value: Seq<char>, start: Option<Seq<char>>, end: Option<Seq<char>>) -> bool {
    match (start, end) {
        (Some(s), Some(e)) => !lex_lt(value, s) && !lex_lt(e, value),
        _ => true,
    }
}

/// Whether a timestamp falls within the period.
pub fn in_period(value: &str, start: Option<&str>, end: Option<&str>) -> (r: bool)
    ensures
        r == within_period(value@, opt_view(start), opt_view(end)),
{
    match (start, end) {
        (Some(s), Some(e)) => !str_lt(value, s) && !str_lt(e, value),
        _ => true,
    }
}

/// The bounds of an optional report period: from the first second of its
/// first day to the last second of its last day.
pub fn period_text_bounds(start: Option<&str>, end: Option<&str>) -> (r: (Option<String>, Option<String>))
    ensures
        opt_text(r.0) == (match start { Some(s) => Some(s@ + " 00:00:00"@), None => None }),
        opt_text(r.1) == (match end { Some(e) => Some(e@ + " 23:59:59"@), None => None }),
{
    let a = match start {
        Some(s) => Some(concat(s, " 00:00:00")),
        None => None,
    };
    let b = match end {
        Some(e) => Some(concat(e, " 23:59:59")),
        None => None,
    };
    (a, b)
}

/// The text of an optional string.
pub open spec fn opt_text(s: Option<String>) -> Option<Seq<char>> {
    match s {
        Some(x) => Some(x@),
        None => None,
    }
}

/// What a partner's money figures come to: the figures as typed, the digits
/// of those that have any (to be added up), and whether some figure had
/// digits and whether some had none.
#[derive(Clone, Debug)]
pub struct DealSummary {
    pub raw_values: Vec<String>,
    pub amounts: Vec<String>,
    pub any_parsed: bool,
    pub any_unparsed: bool,
}

/// The figures present among `deal_values`.
pub open spec fn present(v: Seq<Option<String>>) -> Seq<Seq<char>>
    decreases v.len(),
{
    if v.len() == 0 {
        Seq::empty()
    } else {
        let rest = present(v.drop_last());
        match v.last() {
            Some(x) => rest.push(x@),
            None => rest,
        }
    }
}

/// The digits of the present figures that have any.
pub open spec fn parsed_amounts(v: Seq<Seq<char>>) -> Seq<Seq<char>>
    decreases v.len(),
{
    if v.len() == 0 {
        Seq::empty()
    } else {
        let rest = parsed_amounts(v.drop_last());
        match amount_digits_spec(v.last()) {
            Some(d) => rest.push(d),
            None => rest,
        }
    }
}

/// Sums up the money figures of a partner's clients.
pub fn summarize_deals(deal_values: &Vec<Option<String>>) -> (r: DealSummary)
    ensures
        r.raw_values@.map_values(|x: String| x@) == present(deal_values@),
        r.amounts@.map_values(|x: String| x@) == parsed_amounts(present(deal_values@)),
        r.any_parsed == (parsed_amounts(present(deal_values@)).len() > 0),
        r.any_unparsed == (parsed_amounts(present(deal_values@)).len() < present(deal_values@).len()),
{
    let mut raw_values: Vec<String> = Vec::new();
    let mut amounts: Vec<String> = Vec::new();
    let mut i: usize = 0;
    while i < deal_values.len()
        invariant
            0 <= i <= deal_values@.len(),
            raw_values@.map_values(|x: String| x@) == present(deal_values@.subrange(0, i as int)),
            amounts@.map_values(|x: String| x@) == parsed_amounts(
                present(deal_values@.subrange(0, i as int)),
            ),
            parsed_amounts(present(deal_values@.subrange(0, i as int))).len() <= present(
                deal_values@.subrange(0, i as int),
            ).len(),
        decreases deal_values@.len() - i,
    {
        let ghost prev = deal_values@.subrange(0, i as int);
        proof {
            let next = deal_values@.subrange(0, i + 1);
            assert(next.drop_last() =~= prev);
            assert(next.last() == deal_values@[i as int]);
        }
        match &deal_values[i] {
            Some(v) => {
                let ghost pr = present(prev);
                raw_values.push(v.clone());
                proof {
                    assert(present(deal_values@.subrange(0, i + 1)) == pr.push(v@));
                    assert(pr.push(v@).drop_last() =~= pr);
                    assert(raw_values@.map_values(|x: String| x@) =~= pr.push(v@));
                }
                match amount_digits(v.as_str()) {
                    Some(d) => {
                        amounts.push(d);
                        proof {
                            assert(amounts@.map_values(|x: String| x@) =~= parsed_amounts(pr).push(
                                amount_digits_spec(v@)->0,
                            ));
                        }
                    },
                    None => {},
                }
            },
            None => {},
        }
        i = i + 1;
    }
    proof {
        assert(deal_values@.subrange(0, deal_values@.len() as int) =~= deal_values@);
    }
    let any_parsed = amounts.len() > 0;
    let any_unparsed = amounts.len() < raw_values.len();
    DealSummary { raw_values, amounts, any_parsed, any_unparsed }
}

/// An integer written in decimal, with a leading `-` when negative.
pub open spec fn int_text(n: int) -> Seq<char> {
    if n < 0 {
        seq!['-'] + decimal((-n) as nat)
    } else {
        decimal(n as nat)
    }
}

/// Writes an integer in decimal.
pub fn int_string(n: i64) -> (s: String)
    ensures
        s@ == int_text(n as int),
{
    if n >= 0 {
        decimal_string(n as u64)
    } else {
        let m: u64 = if n == i64::MIN {
            9223372036854775808
        } else {
            (0 - n) as u64
        };
        let d = decimal_string(m);
        let s = concat("-", d.as_str());
        proof {
            reveal_strlit("-");
        }
        s
    }
}

/// One kind of absence in the report: `kind: count`.
pub open spec fn absence_part(kind: Seq<char>, count: i64) -> Seq<char> {
    kind + ": "@ + int_text(count as int)
}

/// The parts of the absence counts, joined by `, `.
pub open spec fn joined_absences(counts: Seq<(String, i64)>) -> Seq<char>
    decreases counts.len(),
{
    if counts.len() == 0 {
        Seq::empty()
    } else if counts.len() == 1 {
        absence_part(counts[0].0@, counts[0].1)
    } else {
        joined_absences(counts.drop_last()) + ", "@ + absence_part(counts.last().0@, counts.last().1)
    }
}

/// The report's cell for an employee's absences: `—` when there were none,
/// otherwise each kind with its count.
pub open spec fn absence_summary_text(counts: Seq<(String, i64)>) -> Seq<char> {
    if counts.len() == 0 {
        "—"@
    } else {
        joined_absences(counts)
    }
}

/// Writes the report's absence cell.
pub fn absence_summary(counts: &Vec<(String, i64)>) -> (s: String)
    ensures
        s@ == absence_summary_text(counts@),
{
    if counts.len() == 0 {
        return "—".to_owned();
    }
    let mut s = String::new();
    let mut i: usize = 0;
    while i < counts.len()
        invariant
            0 <= i <= counts@.len(),
            counts@.len() > 0,
            s@ == joined_absences(counts@.subrange(0, i as int)),
        decreases counts@.len() - i,
    {
        let c = &counts[i];
        let part = concat3(c.0.as_str(), ": ", int_string(c.1).as_str());
        let ghost before = s@;
        if i > 0 {
            s.append(", ");
        }
        s.append(part.as_str());
        proof {
            reveal_strlit(": ");
            reveal_strlit(", ");
            let t = counts@.subrange(0, i + 1);
            assert(t.drop_last() =~= counts@.subrange(0, i as int));
            assert(t.last() == counts@[i as int]);
            if i == 0 {
                assert(t.len() == 1);
                assert(t[0] == counts@[0]);
                assert(s@ =~= absence_part(t[0].0@, t[0].1));
            } else {
                assert(s@ =~= before + ", "@ + absence_part(t.last().0@, t.last().1));
            }
        }
        i = i + 1;
    }
    proof {
        assert(counts@.subrange(0, counts@.len() as int) =~= counts@);
    }
    s
}

/// A report cell for text that may be missing: the text, or `—`.
pub fn text_or_dash(v: Option<&str>) -> (s: String)
    ensures
        s@ == (match v {
            Some(t) => t@,
            None => "—"@,
        }),
{
    match v {
        Some(t) => t.to_owned(),
        None => "—".to_owned(),
    }
}

/// The note beside a partner's financial total: a warning when some deal
/// amounts could not be read, else nothing.
pub fn partial_total_note(partial: bool) -> (s: &'static str)
    ensures
        s@ == (if partial { "Не все суммы удалось распознать"@ } else { ""@ }),
{
    if partial {
        "Не все суммы удалось распознать"
    } else {
        ""
    }
}

} // verus!
