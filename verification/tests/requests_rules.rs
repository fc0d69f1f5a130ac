use ibcrm::absence::{
    absence_recipients, absence_request_title, can_resolve_absence, can_view_absence,
    check_absence_request, new_absence_record, resolve_absence,
};
use ibcrm::edit_requests::{check_edit_request, edit_request_title, resolve_edit_request, ProfileChange, StoredEditRequest};
use ibcrm::errors::CrmError;

#[test]
fn absence_request_validation() {
    assert_eq!(check_absence_request("vacation", "2024-05-01", "2024-05-10"), Ok(()));
    assert_eq!(check_absence_request("vacation", "2024-05-10", "2024-05-10"), Ok(()));
    assert_eq!(check_absence_request("holiday", "2024-05-01", "2024-05-10"), Err(CrmError::InvalidAbsenceType));
    assert_eq!(check_absence_request("remote_work", "2024-05-10", "2024-05-01"), Err(CrmError::EndBeforeStart));
    for t in ["dayoff_worked", "dayoff_unpaid", "vacation", "business_trip", "remote_work"] {
        assert_eq!(check_absence_request(t, "a", "b"), Ok(()));
    }
}

#[test]
fn absence_recipients_cases() {
    let r = absence_recipients(Some("m"), Some("md"), Some("dd"));
    assert_eq!(r.persons, vec!["m".to_string(), "md".to_string(), "dd".to_string()]);
    assert!(!r.all_admins);
    let r = absence_recipients(Some("m"), None, Some("m"));
    assert_eq!(r.persons, vec!["m".to_string()]);
    let r = absence_recipients(None, Some("ignored"), Some("dd"));
    assert_eq!(r.persons, vec!["dd".to_string()]);
    assert!(r.all_admins);
    assert_eq!(absence_request_title("Оля"), "Заявка на отсутствие: Оля");
}

#[test]
fn absence_deciders() {
    assert!(can_resolve_absence("x", true, None, None, None));
    assert!(can_resolve_absence("m", false, Some("m"), None, None));
    assert!(can_resolve_absence("md", false, Some("m"), Some("md"), None));
    assert!(!can_resolve_absence("md", false, None, Some("md"), None));
    assert!(can_resolve_absence("dd", false, None, None, Some("dd")));
    assert!(!can_resolve_absence("x", false, Some("m"), Some("md"), Some("dd")));
    assert_eq!(can_view_absence(false, "e", "e"), Ok(()));
    assert_eq!(can_view_absence(false, "x", "e"), Err(CrmError::Forbidden));
}

#[test]
fn absence_resolution() {
    assert!(matches!(resolve_absence(None, true, true), Err(CrmError::RequestNotFound)));
    assert!(matches!(resolve_absence(Some("approved"), true, true), Err(CrmError::RequestAlreadyProcessed)));
    assert!(matches!(resolve_absence(Some("pending"), false, true), Err(CrmError::CannotResolveAbsence)));
    let r = resolve_absence(Some("pending"), true, true).ok().unwrap();
    assert_eq!(r.new_status, "approved");
    assert_eq!(r.title, "Заявка на отсутствие одобрена");
    let r = resolve_absence(Some("pending"), true, false).ok().unwrap();
    assert_eq!(r.new_status, "rejected");
    let rec = new_absence_record("id".to_string(), "e", "E".to_string(), "vacation", "a", "b", None, Some("x"));
    assert_eq!(rec.status, "pending");
    assert_eq!(rec.makeup_slots.as_deref(), Some("x"));
}

fn stored(status: &str) -> Option<StoredEditRequest> {
    Some(StoredEditRequest {
        employee_id: "e1".to_string(),
        requested_full_name: Some("New".to_string()),
        requested_phone: None,
        status: status.to_string(),
    })
}

#[test]
fn edit_request_rules() {
    assert_eq!(check_edit_request(false, false, 0), Err(CrmError::EditFieldRequired));
    assert_eq!(check_edit_request(true, false, 1), Err(CrmError::EditRequestPending));
    assert_eq!(check_edit_request(false, true, 0), Ok(()));
    assert_eq!(edit_request_title("Оля"), "Заявка на изменение данных: Оля");
    assert!(matches!(resolve_edit_request(false, stored("pending"), "apply"), Err(CrmError::Forbidden)));
    assert!(matches!(resolve_edit_request(true, None, "apply"), Err(CrmError::RequestNotFound)));
    assert!(matches!(resolve_edit_request(true, stored("approved"), "apply"), Err(CrmError::RequestAlreadyProcessed)));
    assert!(matches!(resolve_edit_request(true, stored("pending"), "delete"), Err(CrmError::UnknownAction)));
    let r = resolve_edit_request(true, stored("pending"), "apply").ok().unwrap();
    assert_eq!(r.resolved_status, "approved");
    assert_eq!(r.notice, "Изменения применены");
    assert!(matches!(r.change, ProfileChange::Apply { full_name: Some(_), phone: None }));
    let r = resolve_edit_request(true, stored("pending"), "grant_access").ok().unwrap();
    assert_eq!(r.resolved_status, "granted");
    assert!(matches!(r.change, ProfileChange::GrantAccess { hours: 24 }));
    let r = resolve_edit_request(true, stored("pending"), "reject").ok().unwrap();
    assert_eq!(r.resolved_status, "rejected");
    assert_eq!(r.notice, "Заявка на изменение данных отклонена");
}

#[test]
fn error_texts() {
    assert_eq!(CrmError::Forbidden.message(), "Недостаточно прав");
    assert_eq!(CrmError::EndBeforeStart.message(), "Дата окончания раньше даты начала");
    assert_eq!(CrmError::CallerMismatch.message(), "Несоответствие идентификатора вызывающего");
}
