//! Clients: who sees which clients, which partner a client belongs to, and
//! how a chosen service sets the client's price.
use vstd::prelude::*;
use crate::chat::{opt_to_owned, opt_view, opt_view_string};
use crate::errors::CrmError;
use crate::records::EmployeeRecord;
use crate::text::{is_blank, str_eq, trimmed, trimmed_string};

verus! {

/// Equality of two optional texts.
pub fn opt_string_eq(a: &Option<String>, b: &Option<String>) -> (r: bool)
    ensures
        r == (opt_view_string(*a) == opt_view_string(*b)),
{
    match (a, b) {
        (Some(x), Some(y)) => str_eq(x.as_str(), y.as_str()),
        (None, None) => true,
        _ => false,
    }
}

/// Which clients a list shows.
#[derive(Clone, Debug)]
pub enum ClientScope {
    /// None at all.
    Nothing,
    /// Every client.
    All,
    /// The clients of one partner.
    OfPartner { partner_id: String },
}

/// Which clients someone sees: a partner account only its own partner's
/// clients (whatever filter it asks for; nothing when it has no partner);
/// an administrator with a filter that partner's clients; other staff with a
/// filter nothing; without a filter everything.  Unknown employees see
/// nothing.
pub fn client_list_scope(employee: &Option<EmployeeRecord>, partner_filter: Option<&str>) -> (r:
    ClientScope)
    ensures
        match *employee {
            None => r is Nothing,
            Some(e) => if e.is_partner {
                match e.partner_id {
                    Some(p) => r matches ClientScope::OfPartner { partner_id } && partner_id@ == p@,
                    None => r is Nothing,
                }
            } else {
                match partner_filter {
                    Some(f) => if e.is_admin {
                        r matches ClientScope::OfPartner { partner_id } && partner_id@ == f@
                    } else {
                        r is Nothing
                    },
                    None => r is All,
                }
            },
        },
{
    match employee {
        None => ClientScope::Nothing,
        Some(e) => {
            if e.is_partner {
                match &e.partner_id {
                    Some(p) => ClientScope::OfPartner { partner_id: p.clone() },
                    None => ClientScope::Nothing,
                }
            } else {
                match partner_filter {
                    Some(f) => if e.is_admin {
                        ClientScope::OfPartner { partner_id: f.to_owned() }
                    } else {
                        ClientScope::Nothing
                    },
                    None => ClientScope::All,
                }
            }
        },
    }
}

/// Whether an employee may see a client: staff see every client, a partner
/// account only clients of its own partner (a partner account without a
/// partner sees only clients without one).
pub fn client_visible(employee: &EmployeeRecord, client_partner_id: &Option<String>) -> (r: bool)
    ensures
        r == (!employee.is_partner || opt_view_string(*client_partner_id) == opt_view_string(
            employee.partner_id,
        )),
{
    !employee.is_partner || opt_string_eq(client_partner_id, &employee.partner_id)
}

/// A client's name must not be blank; gives it trimmed.
pub fn check_client_name(name: &str) -> (r: Result<String, CrmError>)
    ensures
        trimmed(name@).len() == 0 ==> r == Err::<String, CrmError>(CrmError::ClientNameRequired),
        trimmed(name@).len() > 0 ==> (r matches Ok(t) && t@ == trimmed(name@)),
{
    if is_blank(name) {
        Err(CrmError::ClientNameRequired)
    } else {
        Ok(trimmed_string(name))
    }
}

/// The partner a new client belongs to: a partner account's own partner
/// (whatever was asked; refused when the account has none), otherwise the
/// one asked for.
pub fn new_client_partner(employee: &EmployeeRecord, requested: Option<&str>) -> (r: Result<
    Option<String>,
    CrmError,
>)
    ensures
        employee.is_partner ==> match employee.partner_id {
            Some(p) => (r matches Ok(Some(x)) && x@ == p@),
            None => r == Err::<Option<String>, CrmError>(CrmError::PartnerOrgMissing),
        },
        !employee.is_partner ==> (r matches Ok(x) && opt_view_string(x) == opt_view(requested)),
{
    if employee.is_partner {
        match &employee.partner_id {
            Some(p) => Ok(Some(p.clone())),
            None => Err(CrmError::PartnerOrgMissing),
        }
    } else {
        Ok(opt_to_owned(requested))
    }
}

/// The partner an edited client belongs to: a partner account may edit only
/// its own partner's clients, which stay with that partner; staff set the
/// one asked for.
pub fn edited_client_partner(
    employee: &EmployeeRecord,
    existing_partner_id: &Option<String>,
    requested: Option<&str>,
) -> (r: Result<Option<String>, CrmError>)
    ensures
        employee.is_partner ==> if opt_view_string(*existing_partner_id) != opt_view_string(
            employee.partner_id,
        ) {
            r == Err::<Option<String>, CrmError>(CrmError::Forbidden)
        } else {
            (r matches Ok(x) && opt_view_string(x) == opt_view_string(*existing_partner_id))
        },
        !employee.is_partner ==> (r matches Ok(x) && opt_view_string(x) == opt_view(requested)),
{
    if employee.is_partner {
        if !opt_string_eq(existing_partner_id, &employee.partner_id) {
            return Err(CrmError::Forbidden);
        }
        Ok(existing_partner_id.clone())
    } else {
        Ok(opt_to_owned(requested))
    }
}

/// A catalogue service as far as choosing it for a client needs.
#[derive(Clone, Debug)]
pub struct CatalogueService {
    /// The partner owning it (for a partner's service).
    pub partner_id: String,
    pub price: Option<String>,
}

/// What a client's service choice comes to: the price, and which service
/// (a partner's or one of the company's own) is chosen.
#[derive(Clone, Debug)]
pub struct ServiceSelection {
    pub deal_value: Option<String>,
    pub service_id: Option<String>,
    pub house_service_id: Option<String>,
}

/// A partner's service and one of the company's own services exclude each
/// other.  A company service sets the price from the catalogue; a partner's
/// service does too, but only for a client of that same partner; with no
/// service the price is the one typed in.  `house_service` and
/// `partner_service` are the catalogue entries found for the chosen ids
/// (`None` when not found).
pub open spec fn service_selection(
    effective_partner_id: Option<Seq<char>>,
    service_id: Option<Seq<char>>,
    house_service_id: Option<Seq<char>>,
    deal_value: Option<Seq<char>>,
    house_service: Option<CatalogueService>,
    partner_service: Option<CatalogueService>,
    r: Result<ServiceSelection, CrmError>,
) -> bool {
    if service_id is Some && house_service_id is Some {
        r == Err::<ServiceSelection, CrmError>(CrmError::BothServices)
    } else if house_service_id is Some {
        match house_service {
            None => r == Err::<ServiceSelection, CrmError>(CrmError::ServiceNotFound),
            Some(h) => r matches Ok(s) && opt_view_string(s.deal_value) == opt_view_string(h.price)
                && s.service_id is None && opt_view_string(s.house_service_id) == house_service_id,
        }
    } else if service_id is Some {
        match partner_service {
            None => r == Err::<ServiceSelection, CrmError>(CrmError::ServiceNotFound),
            Some(p) => match effective_partner_id {
                None => r == Err::<ServiceSelection, CrmError>(CrmError::ServiceNeedsPartner),
                Some(t) => if p.partner_id@ != t {
                    r == Err::<ServiceSelection, CrmError>(CrmError::ServiceOfOtherPartner)
                } else {
                    r matches Ok(s) && opt_view_string(s.deal_value) == opt_view_string(p.price)
                        && opt_view_string(s.service_id) == service_id && s.house_service_id is None
                },
            },
        }
    } else {
        r matches Ok(s) && opt_view_string(s.deal_value) == deal_value && s.service_id is None
            && s.house_service_id is None
    }
}

/// Decides a client's service and price.
pub fn resolve_service_selection(
    effective_partner_id: Option<&str>,
    service_id: Option<&str>,
    house_service_id: Option<&str>,
    deal_value: Option<&str>,
    house_service: &Option<CatalogueService>,
    partner_service: &Option<CatalogueService>,
) -> (r: Result<ServiceSelection, CrmError>)
    ensures
        service_selection(
            opt_view(effective_partner_id),
            opt_view(service_id),
            opt_view(house_service_id),
            opt_view(deal_value),
            *house_service,
            *partner_service,
            r,
        ),
{
    if service_id.is_some() && house_service_id.is_some() {
        return Err(CrmError::BothServices);
    }
    if let Some(hsid) = house_service_id {
        return match house_service {
            None => Err(CrmError::ServiceNotFound),
            Some(h) => Ok(
                ServiceSelection {
                    deal_value: h.price.clone(),
                    service_id: None,
                    house_service_id: Some(hsid.to_owned()),
                },
            ),
        };
    }
    if let Some(sid) = service_id {
        let p = match partner_service {
            None => return Err(CrmError::ServiceNotFound),
            Some(p) => p,
        };
        let target = match effective_partner_id {
            None => return Err(CrmError::ServiceNeedsPartner),
            Some(t) => t,
        };
        if !str_eq(p.partner_id.as_str(), target) {
            return Err(CrmError::ServiceOfOtherPartner);
        }
        return Ok(
            ServiceSelection {
                deal_value: p.price.clone(),
                service_id: Some(sid.to_owned()),
                house_service_id: None,
            },
        );
    }
    Ok(ServiceSelection { deal_value: opt_to_owned(deal_value), service_id: None, house_service_id: None })
}

/// Whether saving a client adds to its service history: only when a service
/// is chosen and the choice differs from the stored one.
pub fn service_history_entry_needed(
    new_service_id: &Option<String>,
    new_house_service_id: &Option<String>,
    old_service_id: &Option<String>,
    old_house_service_id: &Option<String>,
) -> (r: bool)
    ensures
        r == ((opt_view_string(*new_service_id) != opt_view_string(*old_service_id)
            || opt_view_string(*new_house_service_id) != opt_view_string(*old_house_service_id)) && (
        new_service_id is Some || new_house_service_id is Some)),
{
    let changed = !opt_string_eq(new_service_id, old_service_id) || !opt_string_eq(
        new_house_service_id,
        old_house_service_id,
    );
    changed && (new_service_id.is_some() || new_house_service_id.is_some())
}

/// The name recorded for a service in a client's history: the company
/// service's name, else the partner service's name, else empty.
pub fn service_snapshot_name(house_name: Option<String>, partner_name: Option<String>) -> (r: String)
    ensures
        r@ == (match house_name {
            Some(h) => h@,
            None => match partner_name {
                Some(p) => p@,
                None => Seq::<char>::empty(),
            },
        }),
{
    match house_name {
        Some(h) => h,
        None => match partner_name {
            Some(p) => p,
            None => String::new(),
        },
    }
}

/// Adding another service to a client: the client must be visible to the
/// actor, and a service must be chosen.
pub fn check_client_service_add(client_visible: bool, has_house: bool, has_partner: bool) -> (r: Result<
    (),
    CrmError,
>)
    ensures
        r == (if !client_visible {
            Err(CrmError::ClientUnavailable)
        } else if !has_house && !has_partner {
            Err(CrmError::ServiceRequired)
        } else {
            Ok(())
        }),
{
    if !client_visible {
        Err(CrmError::ClientUnavailable)
    } else if !has_house && !has_partner {
        Err(CrmError::ServiceRequired)
    } else {
        Ok(())
    }
}

/// Moving a partner's client into the company's own base: administrators
/// only, the client must exist and still belong to a partner, which becomes
/// its partner of origin.
pub fn check_move_to_base(actor_is_admin: bool, existing: Option<&Option<String>>) -> (r: Result<
    String,
    CrmError,
>)
    ensures
        !actor_is_admin ==> r == Err::<String, CrmError>(CrmError::Forbidden),
        actor_is_admin && existing is None ==> r == Err::<String, CrmError>(CrmError::ClientNotFound),
        actor_is_admin && existing is Some ==> match *existing->0 {
            None => r == Err::<String, CrmError>(CrmError::ClientAlreadyInBase),
            Some(pid) => (r matches Ok(o) && o@ == pid@),
        },
{
    if !actor_is_admin {
        return Err(CrmError::Forbidden);
    }
    match existing {
        None => Err(CrmError::ClientNotFound),
        Some(p) => match p {
            None => Err(CrmError::ClientAlreadyInBase),
            Some(pid) => Ok(pid.clone()),
        },
    }
}

/// A history entry needs a visible client and a non-blank text; gives the
/// text trimmed.
pub fn check_history_entry(client_visible: bool, description: &str) -> (r: Result<String, CrmError>)
    ensures
        !client_visible ==> r == Err::<String, CrmError>(CrmError::ClientUnavailable),
        client_visible && trimmed(description@).len() == 0 ==> r == Err::<String, CrmError>(
            CrmError::EmptyHistoryEntry,
        ),
        client_visible && trimmed(description@).len() > 0 ==> (r matches Ok(t) && t@ == trimmed(
            description@,
        )),
{
    if !client_visible {
        Err(CrmError::ClientUnavailable)
    } else if is_blank(description) {
        Err(CrmError::EmptyHistoryEntry)
    } else {
        Ok(trimmed_string(description))
    }
}

/// The service history entry made, once, for a client recorded before the
/// history was kept.
#[derive(Clone, Debug)]
pub struct BackfilledService {
    pub house_service_id: Option<String>,
    pub service_id: Option<String>,
    /// The service's name as it is now in its catalogue.
    pub service_name: String,
    /// The client's deal value.
    pub price: Option<String>,
    /// Who created the client, and when: the entry is dated then.
    pub added_by: Option<String>,
    pub created_at: String,
}

/// The history entry to fill in for a client: only a client with a service
/// (from either catalogue) and no history yet gets one, made of the
/// client's own service, deal value, creator and creation time, with the
/// service's current name (`house_name`/`partner_name` are the names of the
/// chosen services, where they still exist).
pub fn backfill_service(
    has_history: bool,
    house_service_id: Option<String>,
    service_id: Option<String>,
    deal_value: Option<String>,
    created_by: Option<String>,
    created_at: String,
    house_name: Option<String>,
    partner_name: Option<String>,
) -> (r: Option<BackfilledService>)
    ensures
        r is Some <==> !has_history && (house_service_id is Some || service_id is Some),
        r matches Some(b) ==> ({
            &&& b.house_service_id == house_service_id
            &&& b.service_id == service_id
            &&& b.service_name@ == (match house_name {
                Some(h) => h@,
                None => match partner_name {
                    Some(p) => p@,
                    None => Seq::<char>::empty(),
                },
            })
            &&& b.price == deal_value
            &&& b.added_by == created_by
            &&& b.created_at == created_at
        }),
{
    if has_history || (house_service_id.is_none() && service_id.is_none()) {
        return None;
    }
    Some(
        BackfilledService {
            house_service_id,
            service_id,
            service_name: service_snapshot_name(house_name, partner_name),
            price: deal_value,
            added_by: created_by,
            created_at,
        },
    )
}

} // verus!
