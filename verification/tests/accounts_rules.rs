use ibcrm::employees::{
    change_password, check_block, check_employee_removal, check_employee_update, check_login,
    create_admin_hash, new_employee_hash, reset_password, resolve_manager,
};
use ibcrm::errors::CrmError;
use ibcrm::session::{after_command, authorize, PayloadField, SessionTable};

#[test]
fn password_change_then_login() {
    let hash = create_admin_hash(false, "secret1").ok().unwrap();
    assert_eq!(check_login(Some(&hash), "secret1", false), Ok(()));
    assert_eq!(check_login(Some(&hash), "wrong", false), Err(CrmError::InvalidCredentials));
    assert_eq!(check_login(Some(&hash), "secret1", true), Err(CrmError::AccountBlocked));
    assert_eq!(check_login(None, "secret1", false), Err(CrmError::InvalidCredentials));
    let new_hash = change_password(Some(&hash), "secret1", "пароль").ok().unwrap();
    assert_eq!(check_login(Some(&new_hash), "пароль", false), Ok(()));
    assert_eq!(change_password(Some(&hash), "nope", "another1"), Err(CrmError::WrongCurrentPassword));
    assert_eq!(change_password(Some(&hash), "secret1", "12345"), Err(CrmError::NewPasswordTooShort));
    assert_eq!(change_password(None, "secret1", "123456"), Err(CrmError::EmployeeNotFound));
    assert_eq!(create_admin_hash(true, "x"), Err(CrmError::AdminExists));
}

#[test]
fn employee_admin_rules() {
    assert_eq!(new_employee_hash(false, "123456", false, false), Err(CrmError::EmployeeCreateForbidden));
    assert_eq!(new_employee_hash(true, "12345", false, false), Err(CrmError::PasswordTooShort));
    assert_eq!(new_employee_hash(true, "123456", true, false), Err(CrmError::PartnerRequired));
    assert!(new_employee_hash(true, "123456", true, true).is_ok());
    assert_eq!(reset_password(false, "123456"), Err(CrmError::Forbidden));
    assert_eq!(reset_password(true, "123"), Err(CrmError::NewPasswordTooShort));
    assert_eq!(reset_password(true, "абв"), Err(CrmError::NewPasswordTooShort));
    assert_eq!(new_employee_hash(true, "абвгд", false, false), Err(CrmError::PasswordTooShort));
    assert!(reset_password(true, "абвгде").is_ok());
    assert_eq!(check_employee_update(true, "e", Some("e"), None), Err(CrmError::SelfManager));
    assert_eq!(check_employee_update(true, "e", Some("m"), Some("e")), Err(CrmError::SelfManager));
    assert_eq!(check_employee_update(false, "e", None, None), Err(CrmError::EmployeeEditForbidden));
    assert_eq!(check_block(true, "a", "a", true), Err(CrmError::CannotBlockSelf));
    assert_eq!(check_block(true, "a", "a", false), Ok(()));
    assert_eq!(check_employee_removal(true, "a", "a", Some(true)), Err(CrmError::CannotDeleteSelf));
    assert_eq!(check_employee_removal(true, "a", "b", Some(false)), Err(CrmError::BlockFirst));
    assert_eq!(check_employee_removal(true, "a", "b", None), Err(CrmError::EmployeeNotFound));
    assert_eq!(check_employee_removal(true, "a", "b", Some(true)), Ok(()));
}

#[test]
fn manager_resolution() {
    assert_eq!(resolve_manager(Some("m"), Some("d"), Some(Some("h"))), Some("m".to_string()));
    assert_eq!(resolve_manager(None, Some("d"), Some(Some("h"))), Some("h".to_string()));
    assert_eq!(resolve_manager(None, Some("d"), Some(None)), None);
    assert_eq!(resolve_manager(None, None, None), None);
}

fn field(key: &str, text: Option<&str>) -> PayloadField {
    PayloadField { key: key.to_string(), text: text.map(str::to_string) }
}

#[test]
fn session_lifecycle() {
    let mut sessions = SessionTable::new();
    assert_eq!(authorize(&sessions, "list_employees", Some("t1"), None), Err(CrmError::NotSignedIn));
    assert_eq!(authorize(&sessions, "login", None, None), Ok(None));
    let issued = after_command(&mut sessions, "login", None, Some("e1"), "t1".to_string());
    assert_eq!(issued.as_deref(), Some("t1"));
    assert_eq!(authorize(&sessions, "list_employees", Some("t1"), None), Ok(Some("e1".to_string())));
    let own = vec![field("actorId", Some("e1")), field("employeeId", Some("e2"))];
    assert_eq!(authorize(&sessions, "add_project_member", Some("t1"), Some(&own)), Ok(Some("e1".to_string())));
    let foreign = vec![field("actorId", Some("e2"))];
    assert_eq!(authorize(&sessions, "send_chat_message", Some("t1"), Some(&foreign)), Err(CrmError::CallerMismatch));
    let self_service = vec![field("employeeId", Some("e2"))];
    assert_eq!(authorize(&sessions, "create_absence_request", Some("t1"), Some(&self_service)), Err(CrmError::CallerMismatch));
    let not_text = vec![field("adminId", None)];
    assert_eq!(authorize(&sessions, "delete_client", Some("t1"), Some(&not_text)), Err(CrmError::CallerMismatch));
    assert!(after_command(&mut sessions, "record_logout", Some("t1"), None, "unused".to_string()).is_none());
    assert_eq!(authorize(&sessions, "list_employees", Some("t1"), None), Err(CrmError::NotSignedIn));
    assert!(after_command(&mut sessions, "login", None, None, "t2".to_string()).is_none());
    assert_eq!(authorize(&sessions, "list_employees", Some("t2"), None), Err(CrmError::NotSignedIn));
}
