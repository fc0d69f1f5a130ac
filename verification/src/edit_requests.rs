//! Requests by employees to change their own name or phone, and how an
//! administrator settles them.
use vstd::prelude::*;
use crate::chat::{opt_to_owned, opt_view, opt_view_string};
use crate::errors::CrmError;
use crate::records::EditRequestRecord;
use crate::text::{concat, str_eq};

verus! {

/// A new request must ask to change at least one field, and the employee
/// must have no other request still pending (`pending_count` of them).
pub open spec fn edit_request_check(has_full_name: bool, has_phone: bool, pending_count: int) -> Result<
    (),
    CrmError,
> {
    if !has_full_name && !has_phone {
        Err(CrmError::EditFieldRequired)
    } else if pending_count > 0 {
        Err(CrmError::EditRequestPending)
    } else {
        Ok(())
    }
}

/// Checks a new request (see `edit_request_check`).
pub fn check_edit_request(has_full_name: bool, has_phone: bool, pending_count: i64) -> (r: Result<
    (),
    CrmError,
>)
    ensures
        r == edit_request_check(has_full_name, has_phone, pending_count as int),
{
    if !has_full_name && !has_phone {
        Err(CrmError::EditFieldRequired)
    } else if pending_count > 0 {
        Err(CrmError::EditRequestPending)
    } else {
        Ok(())
    }
}

/// Title of the notification sent to administrators about a new request.
pub fn edit_request_title(employee_name: &str) -> (t: String)
    ensures
        t@ == "Заявка на изменение данных: "@ + employee_name@,
{
    concat("Заявка на изменение данных: ", employee_name)
}

/// The request as it is handed back right after it was stored: pending,
/// everything else as given.
pub fn new_edit_request_record(
    id: String,
    employee_id: &str,
    employee_name: String,
    requested_full_name: Option<&str>,
    requested_phone: Option<&str>,
    note: Option<&str>,
) -> (r: EditRequestRecord)
    ensures
        r.id == id,
        r.employee_id@ == employee_id@,
        r.employee_name == employee_name,
        opt_view_string(r.requested_full_name) == opt_view(requested_full_name),
        opt_view_string(r.requested_phone) == opt_view(requested_phone),
        opt_view_string(r.note) == opt_view(note),
        r.status@ == "pending"@,
        r.created_at@ == Seq::<char>::empty(),
{
    EditRequestRecord {
        id,
        employee_id: employee_id.to_owned(),
        employee_name,
        requested_full_name: opt_to_owned(requested_full_name),
        requested_phone: opt_to_owned(requested_phone),
        note: opt_to_owned(note),
        status: "pending".to_owned(),
        created_at: String::new(),
    }
}

/// A stored request, as far as settling it needs.
#[derive(Clone, Debug)]
pub struct StoredEditRequest {
    pub employee_id: String,
    pub requested_full_name: Option<String>,
    pub requested_phone: Option<String>,
    pub status: String,
}

/// How long the self-editing that an administrator grants lasts, in hours.
pub const SELF_EDIT_HOURS: u32 = 24;

/// What settling a request does to the employee's profile.
#[derive(Clone, Debug)]
pub enum ProfileChange {
    /// Write the requested name and phone (each only when requested).
    Apply { full_name: Option<String>, phone: Option<String> },
    /// Let the employee edit the profile alone for the next `hours` hours
    /// (from the moment the request is settled).
    GrantAccess { hours: u32 },
    /// Leave the profile as it is.
    NoChange,
}

/// The outcome of settling a request.
#[derive(Clone, Debug)]
pub struct EditResolution {
    pub employee_id: String,
    pub change: ProfileChange,
    /// The request's new status.
    pub resolved_status: String,
    /// The notification sent to the employee.
    pub notice: String,
}

/// Settling a request takes an administrator and a pending request.  The
/// action `apply` writes the requested fields and marks it `approved`;
/// `grant_access` opens self-editing for 24 hours and marks it `granted`;
/// `reject` marks it `rejected`; any other action is refused.
pub open spec fn edit_resolution_ok(
    r: EditResolution,
    stored: StoredEditRequest,
    action: Seq<char>,
) -> bool {
    &&& r.employee_id == stored.employee_id
    &&& if action == "apply"@ {
        &&& r.change == ProfileChange::Apply {
            full_name: stored.requested_full_name,
            phone: stored.requested_phone,
        }
        &&& r.resolved_status@ == "approved"@
        &&& r.notice@ == "Изменения применены"@
    } else if action == "grant_access"@ {
        &&& r.change == ProfileChange::GrantAccess { hours: SELF_EDIT_HOURS }
        &&& r.resolved_status@ == "granted"@
        &&& r.notice@ == "Доступ к редактированию профиля открыт на 24 часа"@
    } else {
        &&& r.change == ProfileChange::NoChange
        &&& r.resolved_status@ == "rejected"@
        &&& r.notice@ == "Заявка на изменение данных отклонена"@
    }
}

/// The full outcome of settling a request: refused unless the actor is an
/// administrator, the request exists and is pending, and the action is one
/// of `apply`, `grant_access` and `reject`.
pub open spec fn edit_outcome(
    r: Result<EditResolution, CrmError>,
    actor_is_admin: bool,
    stored: Option<StoredEditRequest>,
    action: Seq<char>,
) -> bool {
    if !actor_is_admin {
        r == Err::<EditResolution, CrmError>(CrmError::Forbidden)
    } else {
        match stored {
            None => r == Err::<EditResolution, CrmError>(CrmError::RequestNotFound),
            Some(s) => if s.status@ != "pending"@ {
                r == Err::<EditResolution, CrmError>(CrmError::RequestAlreadyProcessed)
            } else if action != "apply"@ && action != "grant_access"@ && action != "reject"@ {
                r == Err::<EditResolution, CrmError>(CrmError::UnknownAction)
            } else {
                r matches Ok(res) && edit_resolution_ok(res, s, action)
            },
        }
    }
}

/// Decides how a request is settled (`stored` is `None` when no request has
/// that id).
pub fn resolve_edit_request(actor_is_admin: bool, stored: Option<StoredEditRequest>, action: &str) -> (r:
    Result<EditResolution, CrmError>)
    ensures
        edit_outcome(r, actor_is_admin, stored, action@),
{
    if !actor_is_admin {
        return Err(CrmError::Forbidden);
    }
    let s = match stored {
        None => return Err(CrmError::RequestNotFound),
        Some(s) => s,
    };
    if !str_eq(s.status.as_str(), "pending") {
        return Err(CrmError::RequestAlreadyProcessed);
    }
    if str_eq(action, "apply") {
        Ok(
            EditResolution {
                employee_id: s.employee_id,
                change: ProfileChange::Apply {
                    full_name: s.requested_full_name,
                    phone: s.requested_phone,
                },
                resolved_status: "approved".to_owned(),
                notice: "Изменения применены".to_owned(),
            },
        )
    } else if str_eq(action, "grant_access") {
        Ok(
            EditResolution {
                employee_id: s.employee_id,
                change: ProfileChange::GrantAccess { hours: SELF_EDIT_HOURS },
                resolved_status: "granted".to_owned(),
                notice: "Доступ к редактированию профиля открыт на 24 часа".to_owned(),
            },
        )
    } else if str_eq(action, "reject") {
        Ok(
            EditResolution {
                employee_id: s.employee_id,
                change: ProfileChange::NoChange,
                resolved_status: "rejected".to_owned(),
                notice: "Заявка на изменение данных отклонена".to_owned(),
            },
        )
    } else {
        Err(CrmError::UnknownAction)
    }
}

/// The stored requests as (employee, status) pairs: how many of them are
/// pending for `employee`.
pub open spec fn pending_count(store: Seq<(Seq<char>, Seq<char>)>, employee: Seq<char>) -> nat
    decreases store.len(),
{
    if store.len() == 0 {
        0
    } else {
        pending_count(store.drop_last(), employee) + (if store.last() == (employee, "pending"@) {
            1nat
        } else {
            0nat
        })
    }
}

/// No employee has more than one pending request.
pub open spec fn at_most_one_pending(store: Seq<(Seq<char>, Seq<char>)>) -> bool {
    forall|e: Seq<char>| #[trigger] pending_count(store, e) <= 1
}

proof fn lemma_pending_update(store: Seq<(Seq<char>, Seq<char>)>, i: int, status: Seq<char>, e: Seq<char>)
    requires
        0 <= i < store.len(),
        status != "pending"@,
    ensures
        pending_count(store.update(i, (store[i].0, status)), e) <= pending_count(store, e),
    decreases store.len(),
{
    let u = store.update(i, (store[i].0, status));
    if i == store.len() - 1 {
        assert(u.drop_last() =~= store.drop_last());
    } else {
        lemma_pending_update(store.drop_last(), i, status, e);
        assert(u.drop_last() =~= store.drop_last().update(i, (store[i].0, status)));
    }
}

/// At most one pending request per employee, whatever happens: a new
/// request is stored (as pending) only when the check passes, and settling
/// a request gives it a status other than pending.
pub proof fn law_one_pending_request_per_employee(
    store: Seq<(Seq<char>, Seq<char>)>,
    employee: Seq<char>,
    has_full_name: bool,
    has_phone: bool,
    i: int,
    resolved_status: Seq<char>,
)
    requires
        at_most_one_pending(store),
    ensures
        edit_request_check(has_full_name, has_phone, pending_count(store, employee) as int) is Ok
            ==> at_most_one_pending(store.push((employee, "pending"@))),
        0 <= i < store.len() && resolved_status != "pending"@ ==> at_most_one_pending(
            store.update(i, (store[i].0, resolved_status)),
        ),
{
    if edit_request_check(has_full_name, has_phone, pending_count(store, employee) as int) is Ok {
        let s2 = store.push((employee, "pending"@));
        assert forall|e: Seq<char>| #[trigger] pending_count(s2, e) <= 1 by {
            assert(s2.drop_last() =~= store);
            assert(pending_count(store, e) <= 1);
        }
    }
    if 0 <= i < store.len() && resolved_status != "pending"@ {
        assert forall|e: Seq<char>| #[trigger] pending_count(store.update(i, (store[i].0, resolved_status)), e)
            <= 1 by {
            lemma_pending_update(store, i, resolved_status, e);
            assert(pending_count(store, e) <= 1);
        }
    }
}

} // verus!
