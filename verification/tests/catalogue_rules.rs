use ibcrm::agents::{
    check_mark_paid, check_new_lead, check_stage_change, conversion_notice, lead_notes,
    mask_card_number, plan_lead_conversion, plan_reregistration, redact_agent, resolve_application, split_service_ids,
};
use ibcrm::clients::{
    backfill_service,
    check_move_to_base, client_list_scope, client_visible, resolve_service_selection,
    service_history_entry_needed, CatalogueService, ClientScope,
};
use ibcrm::errors::CrmError;
use ibcrm::records::{AgentLeadRecord, AgentRecord, EmployeeRecord};
use ibcrm::workplace::department_links;

fn employee(is_admin: bool, partner: Option<&str>) -> EmployeeRecord {
    EmployeeRecord {
        id: "e".to_string(), employee_number: String::new(), login: String::new(), full_name: String::new(),
        is_admin, phone: None, position_id: None, position_title: None, manager_id: None, manager_name: None,
        deputy_id: None, deputy_name: None, department_id: None, department_name: None, self_edit_until: None,
        has_pending_edit_request: false, avatar_data: None, created_at: String::new(), is_online: false,
        last_seen_at: None, manual_status: None, manual_status_until: None, work_days: None, work_start: None,
        work_end: None, head_of_department_name: None, deputy_of_department_name: None, birth_date: None,
        is_partner: partner.is_some(), partner_id: partner.map(str::to_string), partner_name: None, is_blocked: false,
    }
}

#[test]
fn card_masking() {
    assert_eq!(mask_card_number("5561 1234 5678 9012"), "5561 •••• •••• ••••");
    assert_eq!(mask_card_number("12"), "12");
    assert_eq!(mask_card_number("5561-1234-5678-9012"), "5561-••••-••••-••••");
    assert_eq!(mask_card_number(""), "");
}

fn agent() -> AgentRecord {
    AgentRecord {
        id: "a".to_string(), agent_number: "AGT-00001".to_string(), full_name: "Агент".to_string(),
        phone: Some("+998".to_string()), address: Some("addr".to_string()), email: Some("e@x".to_string()),
        passport_photo_data: Some("img".to_string()), passport_photo_name: Some("p.jpg".to_string()),
        card_number: Some("8600 1111 2222 3333".to_string()), consent_given: true, consent_given_at: None,
        locale: "ru".to_string(), telegram_chat_id: "42".to_string(), status: "approved".to_string(),
        created_at: String::new(), resolved_at: None, resolved_by: None,
    }
}

#[test]
fn agent_redaction() {
    let a = redact_agent(agent(), true);
    assert_eq!(a.card_number.as_deref(), Some("8600 •••• •••• ••••"));
    assert_eq!(a.phone.as_deref(), Some("+998"));
    let s = redact_agent(agent(), false);
    assert!(s.phone.is_none() && s.card_number.is_none() && s.passport_photo_data.is_none());
    assert_eq!(s.full_name, "Агент");
}

#[test]
fn lead_rules() {
    assert_eq!(check_new_lead(None, "1", false, false), Err(CrmError::AgentNotFound));
    assert_eq!(check_new_lead(Some("pending"), "1", false, false), Err(CrmError::AgentNotApproved));
    assert_eq!(check_new_lead(Some("approved"), "  ", false, false), Err(CrmError::InnRequired));
    assert_eq!(check_new_lead(Some("approved"), "1", true, false), Err(CrmError::InnLeadExists));
    assert_eq!(check_new_lead(Some("approved"), "1", false, true), Err(CrmError::InnClientExists));
    assert_eq!(check_new_lead(Some("approved"), " 123 ", false, false), Ok("123".to_string()));
    assert_eq!(check_stage_change(true, "converted", Some("converted")), Err(CrmError::LeadAlreadyConverted));
    assert_eq!(check_stage_change(true, "won", Some("new")), Err(CrmError::InvalidStage));
    assert_eq!(check_stage_change(false, "new", Some("new")), Err(CrmError::Forbidden));
    assert_eq!(check_stage_change(true, "agreed", None), Err(CrmError::LeadNotFound));
    assert_eq!(check_stage_change(true, "agreed", Some("thinking")), Ok(()));
    assert_eq!(check_mark_paid(true, Some(("agreed", "unpaid"))), Err(CrmError::LeadNotConverted));
    assert_eq!(check_mark_paid(true, Some(("converted", "paid"))), Err(CrmError::PayoutAlreadyMarked));
    assert_eq!(check_mark_paid(true, Some(("converted", "unpaid"))), Ok(()));
}

#[test]
fn lead_conversion_details() {
    assert_eq!(lead_notes(Some("ООО"), Some("звонить")), Some("ООО · звонить".to_string()));
    assert_eq!(lead_notes(None, Some("n")), Some("n".to_string()));
    assert_eq!(lead_notes(Some(""), None), None);
    assert_eq!(split_service_ids(" a, ,b,"), vec!["a".to_string(), "b".to_string()]);
    assert!(split_service_ids("").is_empty());
    assert_eq!(conversion_notice("C", "A"), "Клиент «C» (агент «A») оформлен и добавлен в «Клиенты»");
    let p = plan_reregistration(true, true, Some("email")).ok().unwrap();
    assert_eq!(p.start, 3);
    assert!(p.keep_name && p.keep_phone && p.keep_address && !p.keep_email && !p.keep_passport);
    assert_eq!(plan_reregistration(true, true, Some("bogus")).ok().unwrap().start, 0);
    assert_eq!(resolve_application(true, Some("pending"), false), Ok("rejected".to_string()));
}

#[test]
fn client_scopes() {
    assert!(matches!(client_list_scope(&Some(employee(false, Some("p1"))), Some("p2")), ClientScope::OfPartner { ref partner_id } if partner_id == "p1"));
    assert!(matches!(client_list_scope(&Some(employee(true, None)), Some("p2")), ClientScope::OfPartner { ref partner_id } if partner_id == "p2"));
    assert!(matches!(client_list_scope(&Some(employee(false, None)), Some("p2")), ClientScope::Nothing));
    assert!(matches!(client_list_scope(&Some(employee(false, None)), None), ClientScope::All));
    assert!(matches!(client_list_scope(&None, None), ClientScope::Nothing));
    assert!(client_visible(&employee(false, Some("p1")), &Some("p1".to_string())));
    assert!(!client_visible(&employee(false, Some("p1")), &None));
    assert!(client_visible(&employee(false, None), &Some("p9".to_string())));
}

#[test]
fn client_service_selection() {
    let house = Some(CatalogueService { partner_id: String::new(), price: Some("100".to_string()) });
    let theirs = Some(CatalogueService { partner_id: "p1".to_string(), price: Some("50".to_string()) });
    assert!(matches!(resolve_service_selection(Some("p1"), Some("s"), Some("h"), None, &house, &theirs), Err(CrmError::BothServices)));
    let s = resolve_service_selection(None, None, Some("h"), Some("9"), &house, &None).ok().unwrap();
    assert_eq!(s.deal_value.as_deref(), Some("100"));
    assert!(matches!(resolve_service_selection(None, Some("s"), None, None, &None, &theirs), Err(CrmError::ServiceNeedsPartner)));
    assert!(matches!(resolve_service_selection(Some("p2"), Some("s"), None, None, &None, &theirs), Err(CrmError::ServiceOfOtherPartner)));
    assert!(matches!(resolve_service_selection(Some("p1"), Some("s"), None, None, &None, &None), Err(CrmError::ServiceNotFound)));
    let s = resolve_service_selection(Some("p1"), None, None, Some("free text"), &None, &None).ok().unwrap();
    assert_eq!(s.deal_value.as_deref(), Some("free text"));
    assert!(service_history_entry_needed(&Some("s".to_string()), &None, &None, &None));
    assert!(!service_history_entry_needed(&Some("s".to_string()), &None, &Some("s".to_string()), &None));
    assert!(!service_history_entry_needed(&None, &None, &Some("s".to_string()), &None));
    assert_eq!(check_move_to_base(true, Some(&None)), Err(CrmError::ClientAlreadyInBase));
    assert_eq!(check_move_to_base(true, Some(&Some("p1".to_string()))), Ok("p1".to_string()));
}

fn lead(name: &str, company: Option<&str>, note: Option<&str>, services: Option<&str>) -> AgentLeadRecord {
    AgentLeadRecord {
        id: "l1".to_string(),
        agent_id: "ag1".to_string(),
        agent_name: "Иван".to_string(),
        client_name: name.to_string(),
        client_inn: "7701".to_string(),
        client_phone: Some("+7 900".to_string()),
        company_name: company.map(str::to_string),
        note: note.map(str::to_string),
        stage: "agreed".to_string(),
        converted_client_id: None,
        converted_client_number: None,
        service_ids: services.map(str::to_string),
        payment_status: "unpaid".to_string(),
        paid_at: None,
        created_at: String::new(),
        updated_at: String::new(),
    }
}

#[test]
fn lead_conversion_makes_the_client() {
    let c = plan_lead_conversion(&lead("  ООО Ромашка ", Some("Ромашка"), Some("звонить утром"), Some(" s1, ,s2 ")), "c9").ok().unwrap();
    assert_eq!(c.client_name, "ООО Ромашка");
    assert_eq!(c.client_phone, Some("+7 900".to_string()));
    assert_eq!(c.client_notes, Some("Ромашка · звонить утром".to_string()));
    assert_eq!(c.origin_agent_id, "ag1");
    assert_eq!(c.client_inn, "7701");
    assert_eq!(c.service_ids, vec!["s1".to_string(), "s2".to_string()]);
    assert_eq!(c.lead_stage, "converted");
    assert_eq!(c.converted_client_id, "c9");
    assert_eq!(c.notice_body, "Клиент «  ООО Ромашка » (агент «Иван») оформлен и добавлен в «Клиенты»");
    let bare = plan_lead_conversion(&lead("Пётр", None, None, None), "c1").ok().unwrap();
    assert_eq!(bare.client_notes, None);
    assert!(bare.service_ids.is_empty());
    assert_eq!(plan_lead_conversion(&lead("   ", None, None, None), "c2").err(), Some(CrmError::ClientNameRequired));
}

#[test]
fn department_people_follow_the_head() {
    let l = department_links(Some("old"), true, Some("new"), Some("dep"));
    assert_eq!(l.released_head, Some("old".to_string()));
    assert_eq!(l.deputy_joins, Some("dep".to_string()));
    assert_eq!(l.deputy_manager, Some("new".to_string()));
    assert_eq!(l.head_joins, Some("new".to_string()));
    assert_eq!(department_links(Some("old"), false, Some("new"), None).released_head, None);
    assert_eq!(department_links(Some("old"), true, Some("new"), Some("old")).released_head, None);
    assert_eq!(department_links(Some("old"), true, Some("old"), None).released_head, None);
    assert_eq!(department_links(None, true, None, Some("dep")).deputy_manager, None);
}

#[test]
fn old_clients_get_one_history_entry() {
    let s = |x: &str| Some(x.to_string());
    let b = backfill_service(false, s("h1"), None, s("10 000"), s("e1"), "2024-01-02".to_string(), s("Уборка"), None).unwrap();
    assert_eq!(b.service_name, "Уборка");
    assert_eq!(b.price, s("10 000"));
    assert_eq!(b.added_by, s("e1"));
    assert_eq!(b.created_at, "2024-01-02");
    let p = backfill_service(false, None, s("p1"), None, None, "t".to_string(), None, s("Аудит")).unwrap();
    assert_eq!(p.service_name, "Аудит");
    assert!(backfill_service(true, s("h1"), None, None, None, "t".to_string(), None, None).is_none());
    assert!(backfill_service(false, None, None, None, None, "t".to_string(), None, None).is_none());
}
