use ibcrm::chat::{
    chat_audience, chat_notification_title, check_group_creation, check_group_member_add,
    check_group_member_removal, check_group_update, check_new_message, dm_other_party,
    invite_lookup_code, is_group_manager, members_with_creator, parse_channel, sent_message_record,
    ChatAudience, TypingBoard,
};
use ibcrm::errors::CrmError;
use ibcrm::records::EmployeeRecord;

fn employee(id: &str, is_admin: bool, is_partner: bool) -> EmployeeRecord {
    EmployeeRecord {
        id: id.to_string(), employee_number: "EMP-00002".to_string(), login: id.to_string(),
        full_name: "Иван Петров".to_string(), is_admin, phone: None, position_id: None,
        position_title: None, manager_id: None, manager_name: None, deputy_id: None,
        deputy_name: None, department_id: None, department_name: None, self_edit_until: None,
        has_pending_edit_request: false, avatar_data: None, created_at: String::new(),
        is_online: false, last_seen_at: None, manual_status: None, manual_status_until: None,
        work_days: None, work_start: None, work_end: None, head_of_department_name: None,
        deputy_of_department_name: None, birth_date: None, is_partner,
        partner_id: if is_partner { Some("p1".to_string()) } else { None }, partner_name: None,
        is_blocked: false,
    }
}

#[test]
fn new_message_is_trimmed_and_checked() {
    assert_eq!(check_new_message("  hi  ", "general", None, None), Ok("hi".to_string()));
    assert_eq!(check_new_message(" \n\t ", "general", None, None), Err(CrmError::EmptyMessage));
    assert_eq!(check_new_message("x", "general", Some("m1"), Some("dm:a:b")), Err(CrmError::ReplyTargetNotFound));
    assert_eq!(check_new_message("x", "general", Some("m1"), None), Err(CrmError::ReplyTargetNotFound));
    assert_eq!(check_new_message("x", "general", Some("m1"), Some("general")), Ok("x".to_string()));
}

#[test]
fn sent_message_echoes_sender() {
    let s = employee("u1", false, false);
    let m = sent_message_record("id1".to_string(), "general", "u1", &s, "hi".to_string(), None, Some("f.txt"), None);
    assert_eq!(m.sender_name, "Иван Петров");
    assert_eq!(m.attachment_name.as_deref(), Some("f.txt"));
    assert_eq!(m.created_at, "");
    assert!(!m.is_deleted);
}

#[test]
fn audience_per_channel() {
    let staff = employee("u1", false, false);
    let partner = employee("p-acc", false, true);
    match chat_audience(&parse_channel("dm:u1:u2"), "u1", &staff) {
        Some(ChatAudience::Person { employee_id }) => assert_eq!(employee_id, "u2"),
        _ => panic!(),
    }
    match chat_audience(&parse_channel("dm:u1:u2"), "u2", &staff) {
        Some(ChatAudience::Person { employee_id }) => assert_eq!(employee_id, "u1"),
        _ => panic!(),
    }
    assert!(matches!(chat_audience(&parse_channel("general"), "u1", &staff), Some(ChatAudience::StaffExcept { .. })));
    assert!(matches!(chat_audience(&parse_channel("p1"), "p-acc", &partner), Some(ChatAudience::AllAdmins)));
    match chat_audience(&parse_channel("p1"), "u1", &staff) {
        Some(ChatAudience::PartnerAccountsExcept { partner_id, sender_id }) => {
            assert_eq!(partner_id, "p1");
            assert_eq!(sender_id, "u1");
        }
        _ => panic!(),
    }
    assert!(chat_audience(&parse_channel("dm:x"), "u1", &staff).is_none());
    assert_eq!(chat_notification_title("Аня"), "Новое сообщение в чате от Аня");
}

#[test]
fn group_creation_rules() {
    let staff = Some(employee("u1", false, false));
    let admin = Some(employee("a1", true, false));
    let partner = Some(employee("p", false, true));
    let picked = vec!["u2".to_string()];
    assert_eq!(check_group_creation(&staff, "  Team ", None, false, Some(&picked)), Ok("Team".to_string()));
    assert_eq!(check_group_creation(&staff, " ", None, false, Some(&picked)), Err(CrmError::GroupNameRequired));
    assert_eq!(check_group_creation(&staff, "T", None, false, Some(&vec![])), Err(CrmError::GroupMembersRequired));
    assert_eq!(check_group_creation(&staff, "T", None, false, None), Err(CrmError::GroupMembersRequired));
    assert_eq!(check_group_creation(&staff, "T", Some("d1"), false, None), Err(CrmError::DepartmentGroupHeadOnly));
    assert_eq!(check_group_creation(&staff, "T", Some("d1"), true, None), Ok("T".to_string()));
    assert_eq!(check_group_creation(&admin, "T", Some("d1"), false, None), Ok("T".to_string()));
    assert_eq!(check_group_creation(&partner, "T", None, false, Some(&picked)), Err(CrmError::PartnerNoGroups));
    assert_eq!(check_group_creation(&None, "T", None, false, Some(&picked)), Err(CrmError::EmployeeNotFound));
}

#[test]
fn creator_joins_group_once() {
    assert_eq!(members_with_creator(vec!["a".to_string()], "me"), vec!["a".to_string(), "me".to_string()]);
    assert_eq!(members_with_creator(vec!["me".to_string(), "a".to_string()], "me"), vec!["me".to_string(), "a".to_string()]);
}

#[test]
fn group_management_rules() {
    assert!(is_group_manager("u1", false, &Some("u1".to_string())));
    assert!(is_group_manager("u1", true, &None));
    assert!(!is_group_manager("u1", false, &Some("u2".to_string())));
    assert_eq!(check_group_update(false, true, "x"), Err(CrmError::GroupNotFound));
    assert_eq!(check_group_update(true, false, "x"), Err(CrmError::Forbidden));
    assert_eq!(check_group_update(true, true, ""), Err(CrmError::GroupNameRequired));
    assert_eq!(check_group_member_add(true, true, None), Err(CrmError::EmployeeNotFound));
    assert_eq!(check_group_member_add(true, true, Some(true)), Err(CrmError::PartnerNoGroups));
    assert_eq!(check_group_member_add(true, true, Some(false)), Ok(()));
    assert_eq!(check_group_member_removal(true, "u1", "u1", false), Ok(()));
    assert_eq!(check_group_member_removal(true, "u1", "u2", false), Err(CrmError::Forbidden));
    assert_eq!(check_group_member_removal(true, "u1", "u2", true), Ok(()));
}

#[test]
fn invite_codes_are_normalised() {
    let staff = Some(employee("u1", false, false));
    assert_eq!(invite_lookup_code(&staff, "  ab12cd34 "), Ok("AB12CD34".to_string()));
    assert_eq!(invite_lookup_code(&staff, "ёж"), Ok("ЁЖ".to_string()));
    assert_eq!(invite_lookup_code(&Some(employee("p", false, true)), "x"), Err(CrmError::PartnerNoGroups));
}

#[test]
fn other_party_of_direct_channel() {
    assert_eq!(dm_other_party("dm:a:b", "a"), Some("b".to_string()));
    assert_eq!(dm_other_party("dm:a:b", "b"), Some("a".to_string()));
    assert_eq!(dm_other_party("dm:a:b:c", "a"), Some("b:c".to_string()));
    assert_eq!(dm_other_party("general", "a"), None);
    assert_eq!(dm_other_party("dm:abc", "a"), None);
}

#[test]
fn typing_marks_expire() {
    let mut board = TypingBoard::new();
    board.ping("dm:a:b", "a", 1000);
    assert!(board.other_is_typing("dm:a:b", "b", 1000));
    assert!(board.other_is_typing("dm:a:b", "b", 5999));
    assert!(!board.other_is_typing("dm:a:b", "b", 6000));
    assert!(!board.other_is_typing("dm:a:b", "a", 1000));
    assert!(!board.other_is_typing("general", "b", 1000));
}

#[test]
fn typing_marks_are_kept_per_typer() {
    let mut board = TypingBoard::new();
    board.ping("general", "a", 1000);
    board.ping("general", "b", 2000);
    assert!(board.other_is_typing("general", "b", 3000));
    assert!(board.other_is_typing("general", "a", 3000));
    assert!(!board.other_is_typing("general", "b", 6000));
    assert!(board.other_is_typing("general", "a", 6000));
    assert!(board.other_is_typing("general", "c", 6999));
    assert!(!board.other_is_typing("general", "c", 7000));
    board.ping("general", "a", 9000);
    assert!(board.other_is_typing("general", "b", 13999));
    assert!(!board.other_is_typing("general", "a", 13999));
}
