//! Absence requests (days off, vacation, business trips, remote work): what
//! a request must satisfy, who is told about it, and who may decide on it.
use vstd::prelude::*;
use crate::chat::{opt_to_owned, opt_view, opt_view_string};
use crate::errors::CrmError;
use crate::records::AbsenceRequestRecord;
use crate::text::{concat, lex_lt, str_eq, str_lt};

verus! {

/// The kinds of absence an employee may ask for.
pub open spec fn is_absence_type(t: Seq<char>) -> bool {
    ||| t == "dayoff_worked"@
    ||| t == "dayoff_unpaid"@
    ||| t == "vacation"@
    ||| t == "business_trip"@
    ||| t == "remote_work"@
}

/// A new request must be of a known kind, and must not end before it starts
/// (dates are compared as text, which orders `YYYY-MM-DD` dates correctly).
pub open spec fn absence_request_check(t: Seq<char>, start: Seq<char>, end: Seq<char>) -> Result<
    (),
    CrmError,
> {
    if !is_absence_type(t) {
        Err(CrmError::InvalidAbsenceType)
    } else if lex_lt(end, start) {
        Err(CrmError::EndBeforeStart)
    } else {
        Ok(())
    }
}

/// Checks a new absence request.
pub fn check_absence_request(request_type: &str, start_date: &str, end_date: &str) -> (r: Result<
    (),
    CrmError,
>)
    ensures
        r == absence_request_check(request_type@, start_date@, end_date@),
{
    let known = str_eq(request_type, "dayoff_worked") || str_eq(request_type, "dayoff_unpaid")
        || str_eq(request_type, "vacation") || str_eq(request_type, "business_trip") || str_eq(
        request_type,
        "remote_work",
    );
    if !known {
        return Err(CrmError::InvalidAbsenceType);
    }
    if str_lt(end_date, start_date) {
        return Err(CrmError::EndBeforeStart);
    }
    Ok(())
}

/// Who is told about a new absence request: `persons` one by one, and every
/// administrator when `all_admins` is set.
#[derive(Clone, Debug)]
pub struct AbsenceRecipients {
    pub persons: Vec<String>,
    pub all_admins: bool,
}

/// The people told about a new request: the employee's manager and that
/// manager's own deputy (when there is a manager; otherwise all
/// administrators), and also the deputy of the employee's department unless
/// that deputy is the manager.
pub open spec fn absence_persons(
    manager_id: Option<Seq<char>>,
    manager_deputy_id: Option<Seq<char>>,
    dept_deputy_id: Option<Seq<char>>,
) -> Seq<Seq<char>> {
    let first: Seq<Seq<char>> = match manager_id {
        Some(m) => match manager_deputy_id {
            Some(d) => seq![m, d],
            None => seq![m],
        },
        None => Seq::empty(),
    };
    match dept_deputy_id {
        Some(dd) => if manager_id == Some(dd) {
            first
        } else {
            first.push(dd)
        },
        None => first,
    }
}

/// The texts of a vector of strings.
pub open spec fn texts(v: Seq<String>) -> Seq<Seq<char>> {
    v.map_values(|s: String| s@)
}

/// Decides who is told about a new absence request.  `manager_deputy_id` is
/// the personal deputy of the manager and `dept_deputy_id` the deputy of the
/// employee's department, each when there is one.
pub fn absence_recipients(
    manager_id: Option<&str>,
    manager_deputy_id: Option<&str>,
    dept_deputy_id: Option<&str>,
) -> (r: AbsenceRecipients)
    ensures
        r.all_admins == (manager_id is None),
        texts(r.persons@) == absence_persons(
            opt_view(manager_id),
            if manager_id is Some { opt_view(manager_deputy_id) } else { None },
            opt_view(dept_deputy_id),
        ),
{
    let mut persons: Vec<String> = Vec::new();
    let mut all_admins = false;
    match manager_id {
        Some(m) => {
            persons.push(m.to_owned());
            if let Some(d) = manager_deputy_id {
                persons.push(d.to_owned());
            }
        },
        None => {
            all_admins = true;
        },
    }
    if let Some(dd) = dept_deputy_id {
        let same_as_manager = match manager_id {
            Some(m) => str_eq(m, dd),
            None => false,
        };
        if !same_as_manager {
            persons.push(dd.to_owned());
        }
    }
    proof {
        assert(texts(persons@) =~= absence_persons(
            opt_view(manager_id),
            if manager_id is Some { opt_view(manager_deputy_id) } else { None },
            opt_view(dept_deputy_id),
        ));
    }
    AbsenceRecipients { persons, all_admins }
}

/// Title of the notification about a new absence request.
pub fn absence_request_title(employee_name: &str) -> (t: String)
    ensures
        t@ == "Заявка на отсутствие: "@ + employee_name@,
{
    concat("Заявка на отсутствие: ", employee_name)
}

/// The request as it is handed back right after it was stored: pending, not
/// resolved, everything else as given.
pub fn new_absence_record(
    id: String,
    employee_id: &str,
    employee_name: String,
    request_type: &str,
    start_date: &str,
    end_date: &str,
    reason: Option<&str>,
    makeup_slots: Option<&str>,
) -> (r: AbsenceRequestRecord)
    ensures
        r.id == id,
        r.employee_id@ == employee_id@,
        r.employee_name == employee_name,
        r.request_type@ == request_type@,
        r.start_date@ == start_date@,
        r.end_date@ == end_date@,
        opt_view_string(r.reason) == opt_view(reason),
        opt_view_string(r.makeup_slots) == opt_view(makeup_slots),
        r.status@ == "pending"@,
        r.created_at@ == Seq::<char>::empty(),
        r.resolved_by is None,
        r.resolved_by_name is None,
        !r.resolved_by_is_admin,
        r.resolved_at is None,
{
    AbsenceRequestRecord {
        id,
        employee_id: employee_id.to_owned(),
        employee_name,
        request_type: request_type.to_owned(),
        start_date: start_date.to_owned(),
        end_date: end_date.to_owned(),
        reason: opt_to_owned(reason),
        makeup_slots: opt_to_owned(makeup_slots),
        status: "pending".to_owned(),
        created_at: String::new(),
        resolved_by: None,
        resolved_by_name: None,
        resolved_by_is_admin: false,
        resolved_at: None,
    }
}

/// Who may decide on an employee's absence request: an administrator, the
/// employee's manager, the manager's personal deputy, or the deputy of the
/// employee's department.
pub open spec fn may_resolve_absence(
    actor_id: Seq<char>,
    actor_is_admin: bool,
    manager_id: Option<Seq<char>>,
    manager_deputy_id: Option<Seq<char>>,
    dept_deputy_id: Option<Seq<char>>,
) -> bool {
    ||| actor_is_admin
    ||| manager_id == Some(actor_id)
    ||| (manager_id is Some && manager_deputy_id == Some(actor_id))
    ||| dept_deputy_id == Some(actor_id)
}

/// Decides whether `actor_id` may decide on a request of an employee whose
/// manager, manager's deputy and department deputy are as given.
pub fn can_resolve_absence(
    actor_id: &str,
    actor_is_admin: bool,
    manager_id: Option<&str>,
    manager_deputy_id: Option<&str>,
    dept_deputy_id: Option<&str>,
) -> (r: bool)
    ensures
        r == may_resolve_absence(
            actor_id@,
            actor_is_admin,
            opt_view(manager_id),
            opt_view(manager_deputy_id),
            opt_view(dept_deputy_id),
        ),
{
    if actor_is_admin {
        return true;
    }
    if let Some(m) = manager_id {
        if str_eq(m, actor_id) {
            return true;
        }
        if let Some(d) = manager_deputy_id {
            if str_eq(d, actor_id) {
                return true;
            }
        }
    }
    if let Some(dd) = dept_deputy_id {
        if str_eq(dd, actor_id) {
            return true;
        }
    }
    false
}

/// Viewing one request: those who may decide on it, and its author.
pub fn can_view_absence(may_resolve: bool, actor_id: &str, employee_id: &str) -> (r: Result<
    (),
    CrmError,
>)
    ensures
        r == (if may_resolve || employee_id@ == actor_id@ {
            Ok(())
        } else {
            Err(CrmError::Forbidden)
        }),
{
    if may_resolve || str_eq(employee_id, actor_id) {
        Ok(())
    } else {
        Err(CrmError::Forbidden)
    }
}

/// The outcome of deciding on a request: its new status and the title of the
/// notification sent to its author.
#[derive(Clone, Debug)]
pub struct AbsenceResolution {
    pub new_status: String,
    pub title: String,
}

/// Deciding on a request: it must exist (`status` is `None` otherwise) and be
/// pending, and the actor must be allowed; it then becomes `approved` or
/// `rejected`, and its author is told so.
pub fn resolve_absence(status: Option<&str>, may_resolve: bool, approve: bool) -> (r: Result<
    AbsenceResolution,
    CrmError,
>)
    ensures
        status is None ==> r == Err::<AbsenceResolution, CrmError>(CrmError::RequestNotFound),
        status matches Some(s) && s@ != "pending"@ ==> r == Err::<AbsenceResolution, CrmError>(
            CrmError::RequestAlreadyProcessed,
        ),
        status matches Some(s) && s@ == "pending"@ && !may_resolve ==> r == Err::<
            AbsenceResolution,
            CrmError,
        >(CrmError::CannotResolveAbsence),
        status matches Some(s) && s@ == "pending"@ && may_resolve ==> (r matches Ok(res) && (
        approve ==> res.new_status@ == "approved"@ && res.title@ == "Заявка на отсутствие одобрена"@)
            && (!approve ==> res.new_status@ == "rejected"@ && res.title@
            == "Заявка на отсутствие отклонена"@)),
{
    let s = match status {
        None => return Err(CrmError::RequestNotFound),
        Some(s) => s,
    };
    if !str_eq(s, "pending") {
        return Err(CrmError::RequestAlreadyProcessed);
    }
    if !may_resolve {
        return Err(CrmError::CannotResolveAbsence);
    }
    if approve {
        Ok(
            AbsenceResolution {
                new_status: "approved".to_owned(),
                title: "Заявка на отсутствие одобрена".to_owned(),
            },
        )
    } else {
        Ok(
            AbsenceResolution {
                new_status: "rejected".to_owned(),
                title: "Заявка на отсутствие отклонена".to_owned(),
            },
        )
    }
}

} // verus!
