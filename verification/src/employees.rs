//! Employee accounts: signing in, passwords, creating, editing, blocking and
//! removing employees, and the partner organisations they may belong to.
use vstd::prelude::*;
use crate::chat::opt_view;
use crate::errors::CrmError;
use crate::text::{is_blank, str_eq, trimmed, trimmed_string};

verus! {

/// What `bcrypt::verify` says of a password and a stored hash: whether the
/// password, hashed with the salt and cost recorded in the hash, gives that
/// hash (`false` also when the hash is malformed).  It depends on nothing
/// but the two texts.
pub uninterp spec fn bcrypt_accepts(password: Seq<char>, hash: Seq<char>) -> bool;

/// Calls `bcrypt::verify`; an error (a malformed hash) counts as a mismatch.
#[verifier::external_body]
fn password_matches(password: &str, hash: &str) -> (b: bool)
    ensures
        b == bcrypt_accepts(password@, hash@),
{
    bcrypt::verify(password, hash).unwrap_or(false)
}

/// Calls `bcrypt::hash` with the default cost.  The salt is random, so the
/// hash itself is not stated; what is stated is that `bcrypt::verify`
/// accepts the password against it (both truncate the password the same way
/// and read the salt and cost back from the hash).  `None` when the system
/// could not supply randomness.
#[verifier::external_body]
fn hash_password(password: &str) -> (r: Option<String>)
    ensures
        r matches Some(h) ==> bcrypt_accepts(password@, h@),
{
    bcrypt::hash(password, bcrypt::DEFAULT_COST).ok()
}

/// Minimum length of a password, in characters.
pub const MIN_PASSWORD_CHARS: usize = 6;

/// The first administrator may be created only while there is none; gives
/// the password hash to store.
pub fn create_admin_hash(has_admin: bool, password: &str) -> (r: Result<String, CrmError>)
    ensures
        has_admin ==> r == Err::<String, CrmError>(CrmError::AdminExists),
        r matches Ok(h) ==> !has_admin && bcrypt_accepts(password@, h@),
        !has_admin && r is Err ==> r == Err::<String, CrmError>(CrmError::PasswordHashFailed),
{
    if has_admin {
        return Err(CrmError::AdminExists);
    }
    match hash_password(password) {
        Some(h) => Ok(h),
        None => Err(CrmError::PasswordHashFailed),
    }
}

/// Signing in: the login must exist (`stored_hash` is its password hash),
/// the password must match it, and the account must not be blocked.  Unknown
/// logins and wrong passwords get the same answer.
pub open spec fn login_check(stored_hash: Option<Seq<char>>, password: Seq<char>, is_blocked: bool) -> Result<
    (),
    CrmError,
> {
    match stored_hash {
        None => Err(CrmError::InvalidCredentials),
        Some(h) => if !bcrypt_accepts(password, h) {
            Err(CrmError::InvalidCredentials)
        } else if is_blocked {
            Err(CrmError::AccountBlocked)
        } else {
            Ok(())
        },
    }
}

/// Decides a sign-in.
pub fn check_login(stored_hash: Option<&str>, password: &str, is_blocked: bool) -> (r: Result<
    (),
    CrmError,
>)
    ensures
        r == login_check(opt_view(stored_hash), password@, is_blocked),
{
    match stored_hash {
        None => Err(CrmError::InvalidCredentials),
        Some(h) => {
            if !password_matches(password, h) {
                Err(CrmError::InvalidCredentials)
            } else if is_blocked {
                Err(CrmError::AccountBlocked)
            } else {
                Ok(())
            }
        },
    }
}

/// Changing one's own password: the employee must exist, the current
/// password must match, and the new one must be at least six characters long.
/// Gives the new hash, which the new password matches.
pub fn change_password(stored_hash: Option<&str>, current_password: &str, new_password: &str) -> (r:
    Result<String, CrmError>)
    ensures
        stored_hash is None ==> r == Err::<String, CrmError>(CrmError::EmployeeNotFound),
        stored_hash matches Some(h) && !bcrypt_accepts(current_password@, h@) ==> r == Err::<
            String,
            CrmError,
        >(CrmError::WrongCurrentPassword),
        stored_hash matches Some(h) && bcrypt_accepts(current_password@, h@)
            && new_password@.len() < 6 ==> r == Err::<String, CrmError>(
            CrmError::NewPasswordTooShort,
        ),
        r matches Ok(nh) ==> stored_hash is Some && bcrypt_accepts(current_password@, stored_hash->0@)
            && new_password@.len() >= 6 && bcrypt_accepts(new_password@, nh@),
        stored_hash matches Some(h) && bcrypt_accepts(current_password@, h@)
            && new_password@.len() >= 6 && r is Err ==> r == Err::<String, CrmError>(
            CrmError::PasswordHashFailed,
        ),
{
    let h = match stored_hash {
        None => return Err(CrmError::EmployeeNotFound),
        Some(h) => h,
    };
    if !password_matches(current_password, h) {
        return Err(CrmError::WrongCurrentPassword);
    }
    if new_password.unicode_len() < MIN_PASSWORD_CHARS {
        return Err(CrmError::NewPasswordTooShort);
    }
    match hash_password(new_password) {
        Some(nh) => Ok(nh),
        None => Err(CrmError::PasswordHashFailed),
    }
}

/// An administrator setting someone's password: only administrators, and
/// the new password must be at least six characters long.  Gives the new hash.
pub fn reset_password(actor_is_admin: bool, new_password: &str) -> (r: Result<String, CrmError>)
    ensures
        !actor_is_admin ==> r == Err::<String, CrmError>(CrmError::Forbidden),
        actor_is_admin && new_password@.len() < 6 ==> r == Err::<String, CrmError>(
            CrmError::NewPasswordTooShort,
        ),
        r matches Ok(nh) ==> actor_is_admin && new_password@.len() >= 6
            && bcrypt_accepts(new_password@, nh@),
        actor_is_admin && new_password@.len() >= 6 && r is Err ==> r == Err::<
            String,
            CrmError,
        >(CrmError::PasswordHashFailed),
{
    if !actor_is_admin {
        return Err(CrmError::Forbidden);
    }
    if new_password.unicode_len() < MIN_PASSWORD_CHARS {
        return Err(CrmError::NewPasswordTooShort);
    }
    match hash_password(new_password) {
        Some(nh) => Ok(nh),
        None => Err(CrmError::PasswordHashFailed),
    }
}

/// Creating an employee: only administrators; the password must be at least
/// six characters long; a partner account must name its partner.  Gives the
/// password hash.
pub fn new_employee_hash(actor_is_admin: bool, password: &str, is_partner: bool, has_partner_id: bool) -> (r:
    Result<String, CrmError>)
    ensures
        !actor_is_admin ==> r == Err::<String, CrmError>(CrmError::EmployeeCreateForbidden),
        actor_is_admin && password@.len() < 6 ==> r == Err::<String, CrmError>(
            CrmError::PasswordTooShort,
        ),
        actor_is_admin && password@.len() >= 6 && is_partner && !has_partner_id ==> r
            == Err::<String, CrmError>(CrmError::PartnerRequired),
        r matches Ok(h) ==> actor_is_admin && password@.len() >= 6 && (is_partner
            ==> has_partner_id) && bcrypt_accepts(password@, h@),
        actor_is_admin && password@.len() >= 6 && (is_partner ==> has_partner_id)
            && r is Err ==> r == Err::<String, CrmError>(CrmError::PasswordHashFailed),
{
    if !actor_is_admin {
        return Err(CrmError::EmployeeCreateForbidden);
    }
    if password.unicode_len() < MIN_PASSWORD_CHARS {
        return Err(CrmError::PasswordTooShort);
    }
    if is_partner && !has_partner_id {
        return Err(CrmError::PartnerRequired);
    }
    match hash_password(password) {
        Some(h) => Ok(h),
        None => Err(CrmError::PasswordHashFailed),
    }
}

/// The manager an employee gets: the one chosen; otherwise the head of the
/// employee's department (`department_head` is what the store holds for
/// that department: `None` when the department is unknown, `Some(None)` when
/// it has no head); otherwise none.
pub fn resolve_manager(
    manager_id: Option<&str>,
    department_id: Option<&str>,
    department_head: Option<Option<&str>>,
) -> (r: Option<String>)
    ensures
        manager_id matches Some(m) ==> (r matches Some(x) && x@ == m@),
        manager_id is None && department_id is Some ==> (match department_head {
            Some(Some(h)) => r matches Some(x) && x@ == h@,
            _ => r is None,
        }),
        manager_id is None && department_id is None ==> r is None,
{
    if let Some(m) = manager_id {
        return Some(m.to_owned());
    }
    if department_id.is_some() {
        return match department_head {
            Some(Some(h)) => Some(h.to_owned()),
            _ => None,
        };
    }
    None
}

/// Editing an employee: only administrators, and nobody may be their own
/// manager or deputy.
pub fn check_employee_update(
    actor_is_admin: bool,
    employee_id: &str,
    manager_id: Option<&str>,
    deputy_id: Option<&str>,
) -> (r: Result<(), CrmError>)
    ensures
        r == (if !actor_is_admin {
            Err(CrmError::EmployeeEditForbidden)
        } else if opt_view(manager_id) == Some(employee_id@) || opt_view(deputy_id) == Some(
            employee_id@,
        ) {
            Err(CrmError::SelfManager)
        } else {
            Ok(())
        }),
{
    if !actor_is_admin {
        return Err(CrmError::EmployeeEditForbidden);
    }
    let self_manager = match manager_id {
        Some(m) => str_eq(m, employee_id),
        None => false,
    };
    let self_deputy = match deputy_id {
        Some(d) => str_eq(d, employee_id),
        None => false,
    };
    if self_manager || self_deputy {
        Err(CrmError::SelfManager)
    } else {
        Ok(())
    }
}

/// Blocking or unblocking: only administrators, and an administrator cannot
/// block themselves (unblocking oneself is allowed).
pub fn check_block(actor_is_admin: bool, actor_id: &str, employee_id: &str, blocked: bool) -> (r:
    Result<(), CrmError>)
    ensures
        r == (if !actor_is_admin {
            Err(CrmError::Forbidden)
        } else if employee_id@ == actor_id@ && blocked {
            Err(CrmError::CannotBlockSelf)
        } else {
            Ok(())
        }),
{
    if !actor_is_admin {
        Err(CrmError::Forbidden)
    } else if blocked && str_eq(employee_id, actor_id) {
        Err(CrmError::CannotBlockSelf)
    } else {
        Ok(())
    }
}

/// Removing an employee: only administrators, never oneself, only an
/// existing employee (`target_is_blocked` is `None` otherwise), and only one
/// already blocked.
pub fn check_employee_removal(
    actor_is_admin: bool,
    actor_id: &str,
    employee_id: &str,
    target_is_blocked: Option<bool>,
) -> (r: Result<(), CrmError>)
    ensures
        r == (if !actor_is_admin {
            Err(CrmError::Forbidden)
        } else if employee_id@ == actor_id@ {
            Err(CrmError::CannotDeleteSelf)
        } else {
            match target_is_blocked {
                None => Err(CrmError::EmployeeNotFound),
                Some(false) => Err(CrmError::BlockFirst),
                Some(true) => Ok(()),
            }
        }),
{
    if !actor_is_admin {
        return Err(CrmError::Forbidden);
    }
    if str_eq(employee_id, actor_id) {
        return Err(CrmError::CannotDeleteSelf);
    }
    match target_is_blocked {
        None => Err(CrmError::EmployeeNotFound),
        Some(false) => Err(CrmError::BlockFirst),
        Some(true) => Ok(()),
    }
}

/// Editing one's own name and phone is allowed only while an administrator's
/// grant is in force (`grant_in_force`: the grant exists and has not
/// expired; `exists`: the employee exists).
pub fn check_self_edit(exists: bool, has_grant: bool, grant_in_force: bool) -> (r: Result<
    (),
    CrmError,
>)
    ensures
        r == (if !exists {
            Err(CrmError::EmployeeNotFound)
        } else if !has_grant || !grant_in_force {
            Err(CrmError::SelfEditExpired)
        } else {
            Ok(())
        }),
{
    if !exists {
        Err(CrmError::EmployeeNotFound)
    } else if !has_grant || !grant_in_force {
        Err(CrmError::SelfEditExpired)
    } else {
        Ok(())
    }
}

/// Setting a work schedule is for administrators.
pub fn check_schedule_change(actor_is_admin: bool) -> (r: Result<(), CrmError>)
    ensures
        r == (if actor_is_admin { Ok(()) } else { Err(CrmError::ScheduleForbidden) }),
{
    if actor_is_admin {
        Ok(())
    } else {
        Err(CrmError::ScheduleForbidden)
    }
}

/// A new position needs a title; gives it trimmed.
pub fn check_position_title(title: &str) -> (r: Result<String, CrmError>)
    ensures
        trimmed(title@).len() == 0 ==> r == Err::<String, CrmError>(CrmError::PositionTitleRequired),
        trimmed(title@).len() > 0 ==> (r matches Ok(t) && t@ == trimmed(title@)),
{
    if is_blank(title) {
        Err(CrmError::PositionTitleRequired)
    } else {
        Ok(trimmed_string(title))
    }
}

/// Creating or renaming a partner: only administrators, and the name must
/// not be blank.  Gives the trimmed name.
pub fn check_partner_name(actor_is_admin: bool, name: &str) -> (r: Result<String, CrmError>)
    ensures
        !actor_is_admin ==> r == Err::<String, CrmError>(CrmError::Forbidden),
        actor_is_admin && trimmed(name@).len() == 0 ==> r == Err::<String, CrmError>(
            CrmError::PartnerNameRequired,
        ),
        actor_is_admin && trimmed(name@).len() > 0 ==> (r matches Ok(t) && t@ == trimmed(name@)),
{
    if !actor_is_admin {
        Err(CrmError::Forbidden)
    } else if is_blank(name) {
        Err(CrmError::PartnerNameRequired)
    } else {
        Ok(trimmed_string(name))
    }
}

/// Removing a partner: only administrators, and only once no account
/// belongs to it.
pub fn check_partner_removal(actor_is_admin: bool, account_count: i64) -> (r: Result<(), CrmError>)
    ensures
        r == (if !actor_is_admin {
            Err(CrmError::Forbidden)
        } else if account_count > 0 {
            Err(CrmError::PartnerHasAccounts)
        } else {
            Ok(())
        }),
{
    if !actor_is_admin {
        Err(CrmError::Forbidden)
    } else if account_count > 0 {
        Err(CrmError::PartnerHasAccounts)
    } else {
        Ok(())
    }
}

} // verus!
