use ibcrm::birthdays::{birthday_notices, BirthdayPerson};
use ibcrm::errors::CrmError;
use ibcrm::paths::{installer_info, update_installer_path};
use ibcrm::records::ReportExportSettingsRecord;
use ibcrm::reports::{absence_summary, int_string, partial_total_note, text_or_dash, amount_digits, in_period, period_bounds, summarize_deals, worked_seconds, StoredSession};
use ibcrm::settings::{
    report_export_writes,
    check_report_export_settings, check_server_settings, export_is_due, parse_i64, parse_u16,
    report_export_settings_from, server_settings_from, telegram_keys, telegram_settings_from,
    ClockReading,
};

#[test]
fn stored_settings_are_read_with_defaults() {
    let s = server_settings_from(Some("1"), Some("9000"));
    assert!(s.enabled);
    assert_eq!(s.port, 9000);
    let s = server_settings_from(None, Some("99999"));
    assert!(!s.enabled);
    assert_eq!(s.port, 8778);
    assert_eq!(parse_u16("+80"), Some(80));
    assert_eq!(parse_u16("-80"), None);
    assert_eq!(parse_i64("-5"), Some(-5));
    assert_eq!(parse_i64("-9223372036854775808"), Some(i64::MIN));
    assert_eq!(parse_i64("9223372036854775808"), None);
    let r = report_export_settings_from(None, None, Some("x"), None, None);
    assert_eq!(r.day_mode, "last_day");
    assert_eq!(r.fixed_day, 1);
    assert_eq!(r.time_hhmm, "20:00");
    assert_eq!(check_server_settings(true, 80), Err(CrmError::PortTooLow));
    assert_eq!(check_report_export_settings(true, "fixed_day", 40), Ok(31));
    assert_eq!(check_report_export_settings(true, "fixed_day", -3), Ok(1));
    assert_eq!(check_report_export_settings(true, "weekly", 3), Err(CrmError::InvalidDayMode));
    assert_eq!(telegram_keys("bot"), ("tg_bot_enabled".to_string(), "tg_bot_token".to_string()));
    assert!(telegram_settings_from(Some("1"), Some(String::new())).token.is_none());
}

#[test]
fn export_schedule() {
    let s = ReportExportSettingsRecord { enabled: true, day_mode: "fixed_day".to_string(), fixed_day: 5, time_hhmm: "20:00".to_string(), folder: String::new() };
    let now = ClockReading { today: "2024-05-05".to_string(), month: "2024-05".to_string(), day: 5, last_day_of_month: false, time_hhmm: "20:00".to_string() };
    assert!(export_is_due(&s, &now, None, true));
    assert!(!export_is_due(&s, &now, Some("2024-05-05"), true));
    assert!(!export_is_due(&s, &now, None, false));
    let late = ClockReading { time_hhmm: "20:01".to_string(), ..now.clone() };
    assert!(!export_is_due(&s, &late, None, true));
    let last = ReportExportSettingsRecord { day_mode: "last_day".to_string(), ..s.clone() };
    assert!(!export_is_due(&last, &now, None, true));
    let end = ClockReading { last_day_of_month: true, ..now };
    assert!(export_is_due(&last, &end, None, true));
}

#[test]
fn hours_from_sessions() {
    let (start, end) = period_bounds("2024-05-01", "2024-05-31").ok().unwrap();
    assert_eq!(end - start, 31 * 86400 - 1);
    let sessions = vec![
        StoredSession { login_at: "2024-05-02 09:00:00".to_string(), logout_at: Some("2024-05-02 17:30:00".to_string()) },
        StoredSession { login_at: "2024-04-30 23:00:00".to_string(), logout_at: Some("2024-05-01 01:00:00".to_string()) },
        StoredSession { login_at: "garbage".to_string(), logout_at: None },
        StoredSession { login_at: "2024-05-31".to_string(), logout_at: None },
    ];
    let now = end + 100;
    let secs = worked_seconds(&sessions, start, end, now);
    assert_eq!(secs, 8 * 3600 + 1800 + 3600 + 86399);
    assert_eq!(period_bounds("bad", "2024-05-31"), Err(CrmError::BadPeriodStart));
}

#[test]
fn money_figures() {
    assert_eq!(amount_digits("5 000 000 сум"), Some("5000000".to_string()));
    assert_eq!(amount_digits("10%"), Some("10".to_string()));
    assert_eq!(amount_digits("договорная"), None);
    let d = summarize_deals(&vec![Some("100".to_string()), None, Some("договорная".to_string())]);
    assert_eq!(d.raw_values.len(), 2);
    assert_eq!(d.amounts, vec!["100".to_string()]);
    assert!(d.any_parsed && d.any_unparsed);
    assert!(in_period("2024-05-02 10:00:00", Some("2024-05-01 00:00:00"), Some("2024-05-31 23:59:59")));
    assert!(!in_period("2024-06-01 00:00:00", Some("2024-05-01 00:00:00"), Some("2024-05-31 23:59:59")));
    assert!(in_period("anything", None, Some("x")));
}

#[test]
fn birthday_greetings() {
    let people = vec![
        BirthdayPerson { employee_id: "b1".to_string(), full_name: "Аня".to_string() },
        BirthdayPerson { employee_id: "b2".to_string(), full_name: "Боря".to_string() },
    ];
    let all = vec!["b1".to_string(), "b2".to_string(), "c".to_string()];
    let n = birthday_notices("2024-05-05", Some("2024-05-04"), &people, &all).unwrap();
    assert_eq!(n.len(), 4);
    assert_eq!(n[0].recipient, "b2");
    assert_eq!(n[0].title, "Сегодня день рождения у Аня! 🎉");
    assert_eq!(n[2].about, "b2");
    assert_ne!(n[0].body, n[2].body);
    assert!(birthday_notices("2024-05-05", Some("2024-05-05"), &people, &all).is_none());
}

#[test]
fn installer_location() {
    let p = update_installer_path(std::path::Path::new("/data"));
    assert_eq!(p, std::path::Path::new("/data").join("updates").join("downloaded-installer.exe"));
    assert_eq!(p, std::path::PathBuf::from("/data/updates/downloaded-installer.exe"));
    assert_eq!(p.parent().unwrap().parent().unwrap(), std::path::Path::new("/data"));
    assert!(p.starts_with("/data"));
    let i = installer_info(Some((true, 42)));
    assert!(i.available);
    assert_eq!(i.size_bytes, 42);
    assert!(!installer_info(Some((false, 42))).available);
    assert_eq!(installer_info(None).size_bytes, 0);
}

#[test]
fn installer_path_ends_in_updates_folder() {
    for base in ["/data", "data/", "data/.", "", "/"] {
        let p = update_installer_path(std::path::Path::new(base));
        let parts: Vec<String> = p.components().map(|c| c.as_os_str().to_string_lossy().to_string()).collect();
        let n = parts.len();
        assert!(n >= 2);
        assert_eq!(parts[n - 1], "downloaded-installer.exe");
        assert_eq!(parts[n - 2], "updates");
    }
}

#[test]
fn report_export_settings_read_back_as_saved() {
    let w = report_export_writes("adm", true, "fixed_day", 45, "18:30", "/reports");
    assert_eq!(w.enabled, "1");
    assert_eq!(w.fixed_day, "31");
    assert_eq!(w.admin_id, Some("adm".to_string()));
    let r = report_export_settings_from(
        Some(w.enabled.as_str()),
        Some(w.day_mode.clone()),
        Some(w.fixed_day.as_str()),
        Some(w.time_hhmm.clone()),
        Some(w.folder.clone()),
    );
    assert!(r.enabled);
    assert_eq!(r.day_mode, "fixed_day");
    assert_eq!(r.fixed_day, 31);
    assert_eq!(r.time_hhmm, "18:30");
    assert_eq!(r.folder, "/reports");
    let off = report_export_writes("adm", false, "last_day", -3, "20:00", "");
    assert_eq!(off.enabled, "0");
    assert_eq!(off.fixed_day, "1");
    assert_eq!(off.admin_id, None);
}

#[test]
fn report_text_cells() {
    assert_eq!(absence_summary(&vec![]), "—");
    assert_eq!(absence_summary(&vec![("sick".to_string(), 2)]), "sick: 2");
    assert_eq!(
        absence_summary(&vec![("sick".to_string(), 2), ("vacation".to_string(), 10)]),
        "sick: 2, vacation: 10"
    );
    assert_eq!(int_string(0), "0");
    assert_eq!(int_string(-45), "-45");
    assert_eq!(int_string(i64::MIN), "-9223372036854775808");
    assert_eq!(text_or_dash(None), "—");
    assert_eq!(text_or_dash(Some("Отдел")), "Отдел");
    assert_eq!(partial_total_note(true), "Не все суммы удалось распознать");
    assert_eq!(partial_total_note(false), "");
}
