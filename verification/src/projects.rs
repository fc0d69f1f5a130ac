//! Projects: their statuses, who edits them, and handing a project over to
//! a new owner.  Their task threads follow the shared rules of `tasks`.
use vstd::prelude::*;
use crate::errors::CrmError;
use crate::text::{concat3, is_blank, str_eq, trimmed, trimmed_string};

verus! {

/// The statuses a project may have.
pub open spec fn is_project_status(s: Seq<char>) -> bool {
    s == "planning"@ || s == "active"@ || s == "on_hold"@ || s == "completed"@ || s == "cancelled"@
}

/// Saving a project: when editing, only an administrator or its owner may
/// (`may_edit`); the name must not be blank and the status must be known.
/// Gives the trimmed name.
pub open spec fn project_check(editing: bool, may_edit: bool, name: Seq<char>, status: Seq<char>) -> Result<
    Seq<char>,
    CrmError,
> {
    if editing && !may_edit {
        Err(CrmError::ProjectEditForbidden)
    } else if trimmed(name).len() == 0 {
        Err(CrmError::ProjectNameRequired)
    } else if !is_project_status(status) {
        Err(CrmError::InvalidProjectStatus)
    } else {
        Ok(trimmed(name))
    }
}

/// Checks a new project (`editing` false) or an edit of one.
pub fn check_project(editing: bool, may_edit: bool, name: &str, status: &str) -> (r: Result<
    String,
    CrmError,
>)
    ensures
        match (r, project_check(editing, may_edit, name@, status@)) {
            (Ok(a), Ok(b)) => a@ == b,
            (Err(e), Err(f)) => e == f,
            _ => false,
        },
{
    if editing && !may_edit {
        return Err(CrmError::ProjectEditForbidden);
    }
    if is_blank(name) {
        return Err(CrmError::ProjectNameRequired);
    }
    if !(str_eq(status, "planning") || str_eq(status, "active") || str_eq(status, "on_hold")
        || str_eq(status, "completed") || str_eq(status, "cancelled")) {
        return Err(CrmError::InvalidProjectStatus);
    }
    Ok(trimmed_string(name))
}

/// Handing a project over: only an administrator or its owner may, and not
/// to its current owner.
pub fn check_ownership_transfer(may_manage: bool, owner_id: &str, new_owner_id: &str) -> (r: Result<
    (),
    CrmError,
>)
    ensures
        r == (if !may_manage {
            Err(CrmError::Forbidden)
        } else if owner_id@ == new_owner_id@ {
            Err(CrmError::AlreadyProjectOwner)
        } else {
            Ok(())
        }),
{
    if !may_manage {
        Err(CrmError::Forbidden)
    } else if str_eq(owner_id, new_owner_id) {
        Err(CrmError::AlreadyProjectOwner)
    } else {
        Ok(())
    }
}

/// Title of the notification to a project's new owner.
pub fn transfer_title(project_name: &str) -> (t: String)
    ensures
        t@ == "Вам передан проект «"@ + project_name@ + "»"@,
{
    concat3("Вам передан проект «", project_name, "»")
}

/// The client history line written when a project is opened for a client.
pub fn project_created_line(project_name: &str) -> (t: String)
    ensures
        t@ == "Создан проект «"@ + project_name@ + "»"@,
{
    concat3("Создан проект «", project_name, "»")
}

} // verus!
