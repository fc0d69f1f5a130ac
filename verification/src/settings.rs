//! Application settings kept as text in the key/value store: how each record
//! is read back from the stored texts (with its defaults), what may be
//! saved, and when the scheduled report export fires.
use vstd::prelude::*;
use crate::chat::{opt_view, opt_view_string};
use crate::errors::CrmError;
use crate::numbering::{
    all_digits, decimal, decimal_string, digits_number, is_digit, lemma_decimal_reads_back, parse_digits,
};
use crate::records::{ReportExportSettingsRecord, ServerSettingsRecord, TelegramBotSettingsRecord};
use crate::text::{concat, concat3, str_eq};

verus! {

/// The optional sign that integer parsing in Rust accepts: gives whether the
/// number is negative and the digits after the sign.
pub open spec fn split_sign(s: Seq<char>, signed: bool) -> (bool, Seq<char>) {
    if s.len() > 0 && s[0] == '+' {
        (false, s.drop_first())
    } else if signed && s.len() > 0 && s[0] == '-' {
        (true, s.drop_first())
    } else {
        (false, s)
    }
}

/// What `str::parse::<u16>` gives: an optional `+`, then decimal digits with
/// a value that fits.
pub open spec fn parsed_u16(s: Seq<char>) -> Option<u16> {
    match digits_number(split_sign(s, false).1, 65535) {
        Some(v) => Some(v as u16),
        None => None,
    }
}

/// What `str::parse::<i64>` gives: an optional sign, then decimal digits
/// with a value that fits.
pub open spec fn parsed_i64(s: Seq<char>) -> Option<i64> {
    let (neg, digits) = split_sign(s, true);
    if neg {
        match digits_number(digits, 0x8000_0000_0000_0000) {
            Some(v) => Some((0 - v) as i64),
            None => None,
        }
    } else {
        match digits_number(digits, 0x7fff_ffff_ffff_ffff) {
            Some(v) => Some(v as i64),
            None => None,
        }
    }
}

/// Reads a `u16` as `str::parse` does.
pub fn parse_u16(s: &str) -> (r: Option<u16>)
    ensures
        r == parsed_u16(s@),
{
    let n = s.unicode_len();
    let body = if n > 0 && s.get_char(0) == '+' {
        s.substring_char(1, n)
    } else {
        s
    };
    proof {
        if n > 0 && s@[0] == '+' {
            assert(body@ =~= s@.drop_first());
        }
    }
    match parse_digits(body, 65535) {
        Some(v) => Some(v as u16),
        None => None,
    }
}

/// Reads an `i64` as `str::parse` does.
pub fn parse_i64(s: &str) -> (r: Option<i64>)
    ensures
        r == parsed_i64(s@),
{
    let n = s.unicode_len();
    let first = if n > 0 { s.get_char(0) } else { ' ' };
    let neg = n > 0 && first == '-';
    let body = if n > 0 && (first == '+' || first == '-') {
        s.substring_char(1, n)
    } else {
        s
    };
    proof {
        if n > 0 && (s@[0] == '+' || s@[0] == '-') {
            assert(body@ =~= s@.drop_first());
        }
    }
    if neg {
        match parse_digits(body, 0x8000_0000_0000_0000) {
            Some(v) => {
                if v == 0x8000_0000_0000_0000 {
                    Some(i64::MIN)
                } else {
                    Some(0 - (v as i64))
                }
            },
            None => None,
        }
    } else {
        match parse_digits(body, 0x7fff_ffff_ffff_ffff) {
            Some(v) => Some(v as i64),
            None => None,
        }
    }
}

/// The port the server uses when none is stored.
pub const DEFAULT_SERVER_PORT: u16 = 8778;

/// The server settings from the stored texts: enabled when the flag is
/// `1`; the stored port when it reads as a port number, else 8778.
pub fn server_settings_from(enabled: Option<&str>, port: Option<&str>) -> (r: ServerSettingsRecord)
    ensures
        r.enabled == (opt_view(enabled) == Some("1"@)),
        r.port == (match port {
            Some(p) => match parsed_u16(p@) {
                Some(v) => v,
                None => 8778,
            },
            None => 8778,
        }),
{
    let enabled = match enabled {
        Some(e) => str_eq(e, "1"),
        None => false,
    };
    let port = match port {
        Some(p) => match parse_u16(p) {
            Some(v) => v,
            None => DEFAULT_SERVER_PORT,
        },
        None => DEFAULT_SERVER_PORT,
    };
    ServerSettingsRecord { enabled, port }
}

/// Saving the server settings: administrators only, and the port must be
/// 1024 or above.
pub fn check_server_settings(actor_is_admin: bool, port: u16) -> (r: Result<(), CrmError>)
    ensures
        r == (if !actor_is_admin {
            Err(CrmError::Forbidden)
        } else if port < 1024 {
            Err(CrmError::PortTooLow)
        } else {
            Ok(())
        }),
{
    if !actor_is_admin {
        Err(CrmError::Forbidden)
    } else if port < 1024 {
        Err(CrmError::PortTooLow)
    } else {
        Ok(())
    }
}

/// The stored text of a flag.
pub fn flag_text(on: bool) -> (r: &'static str)
    ensures
        r@ == (if on { "1"@ } else { "0"@ }),
{
    if on {
        "1"
    } else {
        "0"
    }
}

/// The store keys of a Telegram bot's settings: `tg_<role>_enabled` and
/// `tg_<role>_token`.
pub fn telegram_keys(role: &str) -> (r: (String, String))
    ensures
        r.0@ == "tg_"@ + role@ + "_enabled"@,
        r.1@ == "tg_"@ + role@ + "_token"@,
{
    (concat3("tg_", role, "_enabled"), concat3("tg_", role, "_token"))
}

/// A Telegram bot's settings from the stored texts: enabled when the flag
/// is `1`; the token unless missing or empty.
pub fn telegram_settings_from(enabled: Option<&str>, token: Option<String>) -> (r:
    TelegramBotSettingsRecord)
    ensures
        r.enabled == (opt_view(enabled) == Some("1"@)),
        opt_view_string(r.token) == (match token {
            Some(t) => if t@.len() == 0 { None } else { Some(t@) },
            None => None,
        }),
{
    let enabled = match enabled {
        Some(e) => str_eq(e, "1"),
        None => false,
    };
    let token = match token {
        Some(t) => if t.as_str().is_empty() {
            None
        } else {
            Some(t)
        },
        None => None,
    };
    TelegramBotSettingsRecord { enabled, token }
}

/// The day read back from its stored text: the number it reads as, else 1.
pub open spec fn read_day(fixed_day: Option<Seq<char>>) -> i64 {
    match fixed_day {
        Some(f) => match parsed_i64(f) {
            Some(v) => v,
            None => 1,
        },
        None => 1,
    }
}

/// The report export settings read from the stored texts, as (enabled, day
/// mode, day, time, folder).
pub open spec fn read_report_export(
    enabled: Option<Seq<char>>,
    day_mode: Option<Seq<char>>,
    fixed_day: Option<Seq<char>>,
    time_hhmm: Option<Seq<char>>,
    folder: Option<Seq<char>>,
) -> (bool, Seq<char>, i64, Seq<char>, Seq<char>) {
    (
        enabled == Some("1"@),
        match day_mode { Some(d) => d, None => "last_day"@ },
        read_day(fixed_day),
        match time_hhmm { Some(t) => t, None => "20:00"@ },
        match folder { Some(f) => f, None => Seq::<char>::empty() },
    )
}

/// The report export settings from the stored texts: enabled when the flag
/// is `1`; day mode `last_day`, day 1 and time `20:00` unless stored (a day
/// that does not read as a number counts as 1); folder empty unless stored.
pub fn report_export_settings_from(
    enabled: Option<&str>,
    day_mode: Option<String>,
    fixed_day: Option<&str>,
    time_hhmm: Option<String>,
    folder: Option<String>,
) -> (r: ReportExportSettingsRecord)
    ensures
        r.enabled == (opt_view(enabled) == Some("1"@)),
        r.day_mode@ == (match day_mode { Some(d) => d@, None => "last_day"@ }),
        r.fixed_day == (match fixed_day {
            Some(f) => match parsed_i64(f@) {
                Some(v) => v,
                None => 1,
            },
            None => 1,
        }),
        r.time_hhmm@ == (match time_hhmm { Some(t) => t@, None => "20:00"@ }),
        r.folder@ == (match folder { Some(f) => f@, None => Seq::<char>::empty() }),
        (r.enabled, r.day_mode@, r.fixed_day, r.time_hhmm@, r.folder@) == read_report_export(
            opt_view(enabled),
            opt_view_string(day_mode),
            opt_view(fixed_day),
            opt_view_string(time_hhmm),
            opt_view_string(folder),
        ),
{
    ReportExportSettingsRecord {
        enabled: match enabled {
            Some(e) => str_eq(e, "1"),
            None => false,
        },
        day_mode: match day_mode {
            Some(d) => d,
            None => "last_day".to_owned(),
        },
        fixed_day: match fixed_day {
            Some(f) => match parse_i64(f) {
                Some(v) => v,
                None => 1,
            },
            None => 1,
        },
        time_hhmm: match time_hhmm {
            Some(t) => t,
            None => "20:00".to_owned(),
        },
        folder: match folder {
            Some(f) => f,
            None => String::new(),
        },
    }
}

/// Saving the report export settings: administrators only, and the day mode
/// must be `last_day` or `fixed_day`.  Gives the day to store, brought into
/// 1..=31.
pub fn check_report_export_settings(actor_is_admin: bool, day_mode: &str, fixed_day: i64) -> (r:
    Result<i64, CrmError>)
    ensures
        !actor_is_admin ==> r == Err::<i64, CrmError>(CrmError::Forbidden),
        actor_is_admin && day_mode@ != "last_day"@ && day_mode@ != "fixed_day"@ ==> r == Err::<
            i64,
            CrmError,
        >(CrmError::InvalidDayMode),
        actor_is_admin && (day_mode@ == "last_day"@ || day_mode@ == "fixed_day"@) ==> r == Ok::<
            i64,
            CrmError,
        >(if fixed_day < 1 { 1 } else if fixed_day > 31 { 31 } else { fixed_day }),
{
    if !actor_is_admin {
        return Err(CrmError::Forbidden);
    }
    if !(str_eq(day_mode, "last_day") || str_eq(day_mode, "fixed_day")) {
        return Err(CrmError::InvalidDayMode);
    }
    let day = if fixed_day < 1 {
        1
    } else if fixed_day > 31 {
        31
    } else {
        fixed_day
    };
    Ok(day)
}

/// A day brought into 1..=31.
pub open spec fn clamp_day(d: i64) -> i64 {
    if d < 1 { 1 } else if d > 31 { 31 } else { d }
}

/// The texts saved for the report export settings, key by key: the flag,
/// the day mode, the day (brought into 1..=31, in decimal), the time, the
/// folder, and (only when the export is switched on) the administrator in
/// whose name the scheduled export runs.
pub struct ReportExportWrites {
    pub enabled: String,
    pub day_mode: String,
    pub fixed_day: String,
    pub time_hhmm: String,
    pub folder: String,
    pub admin_id: Option<String>,
}

/// The saved texts as (flag, day mode, day, time, folder, administrator).
pub open spec fn planned_report_export_writes(
    admin_id: Seq<char>,
    enabled: bool,
    day_mode: Seq<char>,
    fixed_day: i64,
    time_hhmm: Seq<char>,
    folder: Seq<char>,
) -> (Seq<char>, Seq<char>, Seq<char>, Seq<char>, Seq<char>, Option<Seq<char>>) {
    (
        if enabled { "1"@ } else { "0"@ },
        day_mode,
        decimal(clamp_day(fixed_day) as nat),
        time_hhmm,
        folder,
        if enabled { Some(admin_id) } else { None },
    )
}

/// What saving the report export settings writes (after
/// `check_report_export_settings` let it through).
pub fn report_export_writes(
    admin_id: &str,
    enabled: bool,
    day_mode: &str,
    fixed_day: i64,
    time_hhmm: &str,
    folder: &str,
) -> (w: ReportExportWrites)
    ensures
        (w.enabled@, w.day_mode@, w.fixed_day@, w.time_hhmm@, w.folder@, opt_view_string(w.admin_id))
            == planned_report_export_writes(admin_id@, enabled, day_mode@, fixed_day, time_hhmm@, folder@),
{
    let day: u64 = if fixed_day < 1 {
        1
    } else if fixed_day > 31 {
        31
    } else {
        fixed_day as u64
    };
    ReportExportWrites {
        enabled: flag_text(enabled).to_owned(),
        day_mode: day_mode.to_owned(),
        fixed_day: decimal_string(day),
        time_hhmm: time_hhmm.to_owned(),
        folder: folder.to_owned(),
        admin_id: if enabled { Some(admin_id.to_owned()) } else { None },
    }
}

/// The value stored under `key`, if any.
pub open spec fn meta_get(meta: Map<Seq<char>, Seq<char>>, key: Seq<char>) -> Option<Seq<char>> {
    if meta.contains_key(key) { Some(meta[key]) } else { None }
}

/// The key/value store after the saved texts are written.
pub open spec fn after_report_export_writes(
    meta: Map<Seq<char>, Seq<char>>,
    w: (Seq<char>, Seq<char>, Seq<char>, Seq<char>, Seq<char>, Option<Seq<char>>),
) -> Map<Seq<char>, Seq<char>> {
    let m = meta.insert("report_export_enabled"@, w.0).insert("report_export_day_mode"@, w.1).insert(
        "report_export_fixed_day"@,
        w.2,
    ).insert("report_export_time"@, w.3).insert("report_export_folder"@, w.4);
    match w.5 {
        Some(a) => m.insert("report_export_admin_id"@, a),
        None => m,
    }
}

/// The report export settings as read back from the store.
pub open spec fn stored_report_export(meta: Map<Seq<char>, Seq<char>>) -> (
    bool,
    Seq<char>,
    i64,
    Seq<char>,
    Seq<char>,
) {
    read_report_export(
        meta_get(meta, "report_export_enabled"@),
        meta_get(meta, "report_export_day_mode"@),
        meta_get(meta, "report_export_fixed_day"@),
        meta_get(meta, "report_export_time"@),
        meta_get(meta, "report_export_folder"@),
    )
}

/// Saved report export settings read back as saved, whatever the store held
/// before: the flag, the day mode, the day brought into 1..=31, the time and
/// the folder.  Switching the export on records the administrator who did
/// it; switching it off leaves the recorded administrator as it was.
pub proof fn law_report_export_round_trip(
    meta: Map<Seq<char>, Seq<char>>,
    admin_id: Seq<char>,
    enabled: bool,
    day_mode: Seq<char>,
    fixed_day: i64,
    time_hhmm: Seq<char>,
    folder: Seq<char>,
)
    ensures
        ({
            let after = after_report_export_writes(
                meta,
                planned_report_export_writes(admin_id, enabled, day_mode, fixed_day, time_hhmm, folder),
            );
            &&& stored_report_export(after) == (enabled, day_mode, clamp_day(fixed_day), time_hhmm, folder)
            &&& enabled ==> meta_get(after, "report_export_admin_id"@) == Some(admin_id)
            &&& !enabled ==> meta_get(after, "report_export_admin_id"@) == meta_get(
                meta,
                "report_export_admin_id"@,
            )
        }),
{
    reveal_strlit("1");
    reveal_strlit("0");
    reveal_strlit("report_export_enabled");
    reveal_strlit("report_export_day_mode");
    reveal_strlit("report_export_fixed_day");
    reveal_strlit("report_export_time");
    reveal_strlit("report_export_folder");
    reveal_strlit("report_export_admin_id");
    assert("report_export_day_mode"@[14] != "report_export_admin_id"@[14]);
    assert("report_export_enabled"@.len() == 21);
    assert("report_export_day_mode"@.len() == 22);
    assert("report_export_fixed_day"@.len() == 23);
    assert("report_export_time"@.len() == 18);
    assert("report_export_folder"@.len() == 20);
    assert("report_export_admin_id"@.len() == 22);
    assert("0"@ != "1"@) by {
        assert("0"@[0] != "1"@[0]);
    }
    let day = clamp_day(fixed_day);
    let text = decimal(day as nat);
    lemma_decimal_reads_back(day as nat);
    assert(is_digit(text[0]));
    assert(split_sign(text, true) == (false, text));
    assert(digits_number(text, 0x7fff_ffff_ffff_ffff) == Some(day as nat));
    assert(parsed_i64(text) == Some(day));
    let w = planned_report_export_writes(admin_id, enabled, day_mode, fixed_day, time_hhmm, folder);
    let after = after_report_export_writes(meta, w);
    assert(meta_get(after, "report_export_enabled"@) == Some(w.0));
    assert(meta_get(after, "report_export_day_mode"@) == Some(day_mode));
    assert(meta_get(after, "report_export_fixed_day"@) == Some(text));
    assert(meta_get(after, "report_export_time"@) == Some(time_hhmm));
    assert(meta_get(after, "report_export_folder"@) == Some(folder));
    assert(read_day(Some(text)) == day);
}

/// What the export scheduler knows about the current minute.
#[derive(Clone, Debug)]
pub struct ClockReading {
    /// Today as `YYYY-MM-DD`.
    pub today: String,
    /// This month as `YYYY-MM`.
    pub month: String,
    /// Day of the month.
    pub day: u32,
    /// Whether tomorrow falls in another month.
    pub last_day_of_month: bool,
    /// The time as `HH:MM`.
    pub time_hhmm: String,
}

/// The export fires when it is enabled, on the chosen day (the last of the
/// month, or the fixed day), at the chosen minute, not twice on one day, and
/// only when some administrator switched it on.
pub open spec fn export_due(
    s: ReportExportSettingsRecord,
    now: ClockReading,
    last_fired: Option<Seq<char>>,
    has_admin: bool,
) -> bool {
    &&& s.enabled
    &&& if s.day_mode@ == "fixed_day"@ {
        now.day as int == s.fixed_day as int
    } else {
        now.last_day_of_month
    }
    &&& now.time_hhmm@ == s.time_hhmm@
    &&& last_fired != Some(now.today@)
    &&& has_admin
}

/// Decides whether the scheduled export runs now.
pub fn export_is_due(
    s: &ReportExportSettingsRecord,
    now: &ClockReading,
    last_fired: Option<&str>,
    has_admin: bool,
) -> (r: bool)
    ensures
        r == export_due(*s, *now, opt_view(last_fired), has_admin),
{
    if !s.enabled {
        return false;
    }
    let target_day = if str_eq(s.day_mode.as_str(), "fixed_day") {
        (now.day as i64) == s.fixed_day
    } else {
        now.last_day_of_month
    };
    if !target_day || !str_eq(now.time_hhmm.as_str(), s.time_hhmm.as_str()) {
        return false;
    }
    let fired_today = match last_fired {
        Some(d) => str_eq(d, now.today.as_str()),
        None => false,
    };
    !fired_today && has_admin
}

/// The period an export covers, from the first of the month to today, and
/// the file it writes: `IB-CRM-Otchet-<YYYY-MM>.xlsx`.
pub fn export_period_and_file(now: &ClockReading) -> (r: (String, String))
    ensures
        r.0@ == now.month@ + "-01"@,
        r.1@ == "IB-CRM-Otchet-"@ + now.month@ + ".xlsx"@,
{
    (concat(now.month.as_str(), "-01"), concat3("IB-CRM-Otchet-", now.month.as_str(), ".xlsx"))
}

/// Where a task notification goes by Telegram: nowhere when people assign
/// tasks to themselves, when the bot is off or has no token, or when the
/// assignee has not linked a chat; otherwise the bot's token and the
/// assignee's chat.
pub fn telegram_task_target(
    assignee_id: &str,
    actor_id: &str,
    bot: &TelegramBotSettingsRecord,
    chat_id: Option<&str>,
) -> (r: Option<(String, String)>)
    ensures
        (assignee_id@ == actor_id@ || !bot.enabled || bot.token is None || (bot.token matches Some(
            t) && t@.len() == 0) || chat_id is None) ==> r is None,
        !(assignee_id@ == actor_id@ || !bot.enabled || bot.token is None || (bot.token matches Some(
            t) && t@.len() == 0) || chat_id is None) ==> (r matches Some(p) && p.0@
            == bot.token->0@ && p.1@ == chat_id->0@),
{
    if str_eq(assignee_id, actor_id) {
        return None;
    }
    let token = match &bot.token {
        Some(t) => if t.as_str().is_empty() || !bot.enabled {
            return None;
        } else {
            t.clone()
        },
        None => return None,
    };
    match chat_id {
        Some(c) => Some((token, c.to_owned())),
        None => None,
    }
}

} // verus!
