use ibcrm::backup::{check_backup_password, decrypt, encrypt, seal_backup};
use ibcrm::errors::CrmError;

fn database() -> Vec<u8> {
    let mut v = b"SQLite format 3\0".to_vec();
    v.extend_from_slice(b"rest of the database");
    v
}

#[test]
fn backup_round_trip() {
    let plain = database();
    let file = encrypt(&plain, "correct horse").ok().unwrap();
    assert_eq!(&file[0..8], b"IBCRMBK1");
    assert_eq!(file.len(), 36 + plain.len() + 16);
    assert_eq!(decrypt(&file, "correct horse").ok().unwrap(), plain);
}

#[test]
fn backup_wrong_password() {
    let file = encrypt(&database(), "correct horse").ok().unwrap();
    assert_eq!(decrypt(&file, "wrong horse"), Err(CrmError::BackupWrongPassword));
}

#[test]
fn backup_rejects_foreign_files() {
    assert_eq!(decrypt(b"short", "x"), Err(CrmError::BackupCorrupted));
    assert_eq!(decrypt(&[0u8; 64], "x"), Err(CrmError::BackupCorrupted));
    let file = encrypt(b"not a database at all", "pw1234").ok().unwrap();
    assert_eq!(decrypt(&file, "pw1234"), Err(CrmError::BackupNotDatabase));
}

#[test]
fn backup_password_length() {
    assert_eq!(check_backup_password("  12345  "), Err(CrmError::BackupPasswordTooShort));
    assert_eq!(check_backup_password("пароль"), Ok(()));
}

#[test]
fn backup_layout_from_given_salt_and_nonce() {
    let plain = database();
    let salt = [7u8; 16];
    let nonce = [9u8; 12];
    let file = seal_backup(&plain, "correct horse", &salt, &nonce).ok().unwrap();
    assert_eq!(&file[0..8], b"IBCRMBK1");
    assert_eq!(&file[8..24], &salt);
    assert_eq!(&file[24..36], &nonce);
    assert_eq!(file.len(), 36 + plain.len() + 16);
    assert_ne!(&file[36..36 + plain.len()], plain.as_slice());
    let again = seal_backup(&plain, "correct horse", &salt, &nonce).ok().unwrap();
    assert_eq!(file, again);
    assert_eq!(decrypt(&file, "correct horse").ok().unwrap(), plain);
}
