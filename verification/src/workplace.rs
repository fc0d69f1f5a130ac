//! Smaller rules of daily work: departments, the status an employee shows,
//! the personal notebook, the first-run tour, and the service catalogues.
use vstd::prelude::*;
use crate::chat::{opt_to_owned, opt_view, opt_view_string};
use crate::errors::CrmError;
use crate::text::{is_blank, str_eq, trim, trimmed, trimmed_string};

verus! {

/// Creating or editing a department: administrators only, and the name must
/// not be blank.  Gives the trimmed name.
pub fn check_department(actor_is_admin: bool, name: &str) -> (r: Result<String, CrmError>)
    ensures
        !actor_is_admin ==> r == Err::<String, CrmError>(CrmError::DepartmentsForbidden),
        actor_is_admin && trimmed(name@).len() == 0 ==> r == Err::<String, CrmError>(
            CrmError::DepartmentNameRequired,
        ),
        actor_is_admin && trimmed(name@).len() > 0 ==> (r matches Ok(n) && n@ == trimmed(name@)),
{
    if !actor_is_admin {
        Err(CrmError::DepartmentsForbidden)
    } else if is_blank(name) {
        Err(CrmError::DepartmentNameRequired)
    } else {
        Ok(trimmed_string(name))
    }
}

/// What saving a department does to its people.
#[derive(Clone, Debug)]
pub struct DepartmentLinks {
    /// The former head, who leaves the department (their department is
    /// cleared).
    pub released_head: Option<String>,
    /// The deputy, who joins the department ...
    pub deputy_joins: Option<String>,
    /// ... with this manager: the department's head (none when it has none).
    pub deputy_manager: Option<String>,
    /// The head, who joins the department.
    pub head_joins: Option<String>,
}

/// Saving a department with head `head` and deputy `deputy`, when it had
/// head `old_head` (`old_head_in_department`: that former head still
/// belongs to this department).  The former head leaves it only when
/// replaced, still a member, and not its new deputy; the deputy joins it
/// with the head as manager; the head joins it.
pub fn department_links(
    old_head: Option<&str>,
    old_head_in_department: bool,
    head: Option<&str>,
    deputy: Option<&str>,
) -> (r: DepartmentLinks)
    ensures
        opt_view_string(r.released_head) == (match old_head {
            Some(o) => if Some(o@) != opt_view(head) && old_head_in_department && Some(o@) != opt_view(
                deputy,
            ) {
                Some(o@)
            } else {
                None
            },
            None => None,
        }),
        opt_view_string(r.deputy_joins) == opt_view(deputy),
        opt_view_string(r.deputy_manager) == (if deputy is Some {
            opt_view(head)
        } else {
            None
        }),
        opt_view_string(r.head_joins) == opt_view(head),
{
    let released_head = match old_head {
        Some(o) => {
            let is_head = match head {
                Some(h) => str_eq(o, h),
                None => false,
            };
            let is_deputy = match deputy {
                Some(d) => str_eq(o, d),
                None => false,
            };
            if !is_head && old_head_in_department && !is_deputy {
                Some(o.to_owned())
            } else {
                None
            }
        },
        None => None,
    };
    DepartmentLinks {
        released_head,
        deputy_joins: opt_to_owned(deputy),
        deputy_manager: if deputy.is_some() {
            opt_to_owned(head)
        } else {
            None
        },
        head_joins: opt_to_owned(head),
    }
}

/// The statuses an employee may show.
pub open spec fn is_manual_status(s: Seq<char>) -> bool {
    s == "away15"@ || s == "lunch"@ || s == "vacation"@ || s == "dayoff"@
}

/// Setting one's status: none, or one of the known ones.  Gives whether the
/// status runs out by itself after 15 minutes (only `away15` does).
pub fn check_manual_status(status: Option<&str>) -> (r: Result<bool, CrmError>)
    ensures
        match status {
            None => r == Ok::<bool, CrmError>(false),
            Some(s) => if is_manual_status(s@) {
                r == Ok::<bool, CrmError>(s@ == "away15"@)
            } else {
                r == Err::<bool, CrmError>(CrmError::InvalidStatus)
            },
        },
{
    match status {
        None => Ok(false),
        Some(s) => {
            if str_eq(s, "away15") || str_eq(s, "lunch") || str_eq(s, "vacation") || str_eq(s, "dayoff") {
                Ok(str_eq(s, "away15"))
            } else {
                Err(CrmError::InvalidStatus)
            }
        },
    }
}

/// The notebook and the first-run tour belong to their employee alone.
pub fn check_owner(actor_id: &str, employee_id: &str) -> (r: Result<(), CrmError>)
    ensures
        r == (if actor_id@ == employee_id@ { Ok(()) } else { Err(CrmError::Forbidden) }),
{
    if str_eq(actor_id, employee_id) {
        Ok(())
    } else {
        Err(CrmError::Forbidden)
    }
}

/// The notebook's name as stored: trimmed, and none when blank.
pub fn notebook_name(name: Option<&str>) -> (r: Option<String>)
    ensures
        opt_view_string(r) == (match name {
            Some(n) => if trimmed(n@).len() == 0 { None } else { Some(trimmed(n@)) },
            None => None,
        }),
{
    match name {
        Some(n) => {
            let t = trim(n);
            if t.is_empty() {
                None
            } else {
                Some(t.to_owned())
            }
        },
        None => None,
    }
}

/// A note: it must exist when edited (`owner` is its owner, `None` when not
/// found), belong to the actor, and have a non-blank title (given back
/// trimmed).
pub fn check_note(actor_id: &str, owner: Option<&str>, title: &str) -> (r: Result<String, CrmError>)
    ensures
        owner is None ==> r == Err::<String, CrmError>(CrmError::NoteNotFound),
        owner is Some && owner->0@ != actor_id@ ==> r == Err::<String, CrmError>(CrmError::Forbidden),
        owner is Some && owner->0@ == actor_id@ && trimmed(title@).len() == 0 ==> r == Err::<
            String,
            CrmError,
        >(CrmError::NoteTitleRequired),
        owner is Some && owner->0@ == actor_id@ && trimmed(title@).len() > 0 ==> (r matches Ok(t)
            && t@ == trimmed(title@)),
{
    let o = match owner {
        None => return Err(CrmError::NoteNotFound),
        Some(o) => o,
    };
    if !str_eq(o, actor_id) {
        return Err(CrmError::Forbidden);
    }
    if is_blank(title) {
        return Err(CrmError::NoteTitleRequired);
    }
    Ok(trimmed_string(title))
}

/// A catalogue service (a partner's or the company's own): the actor must
/// have access to the catalogue, and the name must not be blank.  Gives the
/// trimmed name.
pub fn check_service(access: Result<(), CrmError>, name: &str) -> (r: Result<String, CrmError>)
    ensures
        access is Err ==> r == Err::<String, CrmError>(access->Err_0),
        access is Ok && trimmed(name@).len() == 0 ==> r == Err::<String, CrmError>(
            CrmError::ServiceNameRequired,
        ),
        access is Ok && trimmed(name@).len() > 0 ==> (r matches Ok(n) && n@ == trimmed(name@)),
{
    if let Err(e) = access {
        return Err(e);
    }
    if is_blank(name) {
        Err(CrmError::ServiceNameRequired)
    } else {
        Ok(trimmed_string(name))
    }
}

/// Access to the company's own catalogue for changes: administrators.
pub fn admin_only(actor_is_admin: bool) -> (r: Result<(), CrmError>)
    ensures
        r == (if actor_is_admin { Ok(()) } else { Err(CrmError::Forbidden) }),
{
    if actor_is_admin {
        Ok(())
    } else {
        Err(CrmError::Forbidden)
    }
}

} // verus!
