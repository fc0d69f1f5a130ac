use ibcrm::chat::{check_channel_access, parse_channel, Channel, ChannelFacts};
use ibcrm::errors::CrmError;
use ibcrm::records::EmployeeRecord;

fn employee(id: &str, is_admin: bool, is_partner: bool, partner_id: Option<&str>) -> EmployeeRecord {
    EmployeeRecord {
        id: id.to_string(),
        employee_number: "EMP-00001".to_string(),
        login: id.to_string(),
        full_name: format!("Name {id}"),
        is_admin,
        phone: None,
        position_id: None,
        position_title: None,
        manager_id: None,
        manager_name: None,
        deputy_id: None,
        deputy_name: None,
        department_id: None,
        department_name: None,
        self_edit_until: None,
        has_pending_edit_request: false,
        avatar_data: Some("avatar".to_string()),
        created_at: "2024-01-01 00:00:00".to_string(),
        is_online: false,
        last_seen_at: None,
        manual_status: None,
        manual_status_until: None,
        work_days: None,
        work_start: None,
        work_end: None,
        head_of_department_name: None,
        deputy_of_department_name: None,
        birth_date: None,
        is_partner,
        partner_id: partner_id.map(str::to_string),
        partner_name: None,
        is_blocked: false,
    }
}

fn facts(first: bool, second: bool, member: bool, partner: bool) -> ChannelFacts {
    ChannelFacts { first_is_staff: first, second_is_staff: second, is_group_member: member, partner_exists: partner }
}

#[test]
fn channel_names_parse() {
    assert!(matches!(parse_channel("general"), Channel::General));
    match parse_channel("dm:a:b") {
        Channel::Direct { first, second } => {
            assert_eq!(first, "a");
            assert_eq!(second, "b");
        }
        _ => panic!("expected a direct channel"),
    }
    assert!(matches!(parse_channel("dm:a:b:c"), Channel::MalformedDirect));
    assert!(matches!(parse_channel("dm:ab"), Channel::MalformedDirect));
    match parse_channel("group:g1") {
        Channel::Group { group_id } => assert_eq!(group_id, "g1"),
        _ => panic!("expected a group"),
    }
    match parse_channel("p-42") {
        Channel::Partner { partner_id } => assert_eq!(partner_id, "p-42"),
        _ => panic!("expected a partner thread"),
    }
}

#[test]
fn partners_are_kept_out_of_staff_channels() {
    let p = Some(employee("u1", false, true, Some("p1")));
    let f = facts(true, true, true, true);
    assert_eq!(check_channel_access(&p, "u1", &parse_channel("general"), &f), Err(CrmError::PartnerNoGeneralChat));
    assert_eq!(check_channel_access(&p, "u1", &parse_channel("dm:u1:u2"), &f), Err(CrmError::PartnerNoDirectChat));
    assert_eq!(check_channel_access(&p, "u1", &parse_channel("group:g"), &f), Err(CrmError::PartnerNoGroups));
    assert_eq!(check_channel_access(&p, "u1", &parse_channel("p1"), &f), Ok(()));
    assert_eq!(check_channel_access(&p, "u1", &parse_channel("p2"), &f), Err(CrmError::Forbidden));
}

#[test]
fn direct_chat_rules() {
    let e = Some(employee("u1", false, false, None));
    assert_eq!(check_channel_access(&e, "u1", &parse_channel("dm:u1:u2"), &facts(true, true, false, false)), Ok(()));
    assert_eq!(check_channel_access(&e, "u1", &parse_channel("dm:u3:u2"), &facts(true, true, false, false)), Err(CrmError::Forbidden));
    assert_eq!(check_channel_access(&e, "u1", &parse_channel("dm:u1:u2"), &facts(true, false, false, false)), Err(CrmError::InterlocutorNotFound));
    assert_eq!(check_channel_access(&e, "u1", &parse_channel("dm:u1"), &facts(true, true, false, false)), Err(CrmError::InvalidChannel));
    assert_eq!(check_channel_access(&None, "u1", &parse_channel("general"), &facts(true, true, true, true)), Err(CrmError::EmployeeNotFound));
}

#[test]
fn group_and_partner_threads() {
    let staff = Some(employee("u1", false, false, None));
    let admin = Some(employee("a1", true, false, None));
    assert_eq!(check_channel_access(&staff, "u1", &parse_channel("group:g"), &facts(false, false, false, false)), Err(CrmError::Forbidden));
    assert_eq!(check_channel_access(&staff, "u1", &parse_channel("group:g"), &facts(false, false, true, false)), Ok(()));
    assert_eq!(check_channel_access(&staff, "u1", &parse_channel("p1"), &facts(false, false, false, true)), Err(CrmError::Forbidden));
    assert_eq!(check_channel_access(&admin, "a1", &parse_channel("p1"), &facts(false, false, false, true)), Ok(()));
    assert_eq!(check_channel_access(&admin, "a1", &parse_channel("p1"), &facts(false, false, false, false)), Err(CrmError::PartnerNotFound));
}
