//! Sales agents who bring clients from outside: their applications, what
//! staff may see of their personal data, and the path of a lead from first
//! contact to a client and a paid reward.
use vstd::prelude::*;
use crate::chat::{opt_view, opt_view_string};
use crate::errors::CrmError;
use crate::records::{AgentLeadRecord, AgentRecord};
use crate::regulations::{alphanumeric, is_alphanumeric};
use crate::text::{
    concat3, find_from, is_blank, is_whitespace, is_ws, push_char, str_eq, trim, trimmed,
    trimmed_string,
};

verus! {

/// Number of non-whitespace characters among the first `n` of `s`.
pub open spec fn non_ws_upto(s: Seq<char>, n: int) -> nat
    decreases n,
{
    if n <= 0 || n > s.len() {
        0
    } else {
        non_ws_upto(s, n - 1) + (if is_ws(s[n - 1]) { 0nat } else { 1nat })
    }
}

/// A card number as shown to administrators: the first four non-whitespace
/// characters stay, every later letter or digit becomes `•`, and whitespace
/// and separators such as `-` stay as they are.
pub open spec fn masked(card: Seq<char>) -> Seq<char> {
    Seq::new(
        card.len(),
        |i: int|
            if is_ws(card[i]) {
                card[i]
            } else if non_ws_upto(card, i) < 4 {
                card[i]
            } else if alphanumeric(card[i]) {
                '•'
            } else {
                card[i]
            },
    )
}

/// Masks a card number.
pub fn mask_card_number(card: &str) -> (r: String)
    ensures
        r@ == masked(card@),
{
    let n = card.unicode_len();
    let mut r = String::new();
    let mut shown: usize = 0;
    let mut i: usize = 0;
    while i < n
        invariant
            n == card@.len(),
            0 <= i <= n,
            shown == non_ws_upto(card@, i as int),
            shown <= i,
            r@ == masked(card@).subrange(0, i as int),
        decreases n - i,
    {
        let c = card.get_char(i);
        if is_whitespace(c) {
            push_char(&mut r, c);
        } else if shown < 4 {
            push_char(&mut r, c);
            shown = shown + 1;
        } else if is_alphanumeric(c) {
            push_char(&mut r, '•');
            shown = shown + 1;
        } else {
            push_char(&mut r, c);
            shown = shown + 1;
        }
        i = i + 1;
        proof {
            assert(r@ =~= masked(card@).subrange(0, i as int));
        }
    }
    proof {
        assert(masked(card@).subrange(0, n as int) =~= masked(card@));
    }
    r
}

/// An agent as listed for staff: administrators see everything but the card
/// number, which is masked; other staff see no phone, address, email,
/// passport photo or card number.
pub fn redact_agent(a: AgentRecord, actor_is_admin: bool) -> (r: AgentRecord)
    ensures
        r.id == a.id && r.agent_number == a.agent_number && r.full_name == a.full_name
            && r.consent_given == a.consent_given && r.consent_given_at == a.consent_given_at
            && r.locale == a.locale && r.telegram_chat_id == a.telegram_chat_id && r.status
            == a.status && r.created_at == a.created_at && r.resolved_at == a.resolved_at
            && r.resolved_by == a.resolved_by,
        actor_is_admin ==> r.phone == a.phone && r.address == a.address && r.email == a.email
            && r.passport_photo_data == a.passport_photo_data && r.passport_photo_name
            == a.passport_photo_name && opt_view_string(r.card_number) == match a.card_number {
            Some(c) => Some(masked(c@)),
            None => None,
        },
        !actor_is_admin ==> r.phone is None && r.address is None && r.email is None
            && r.passport_photo_data is None && r.passport_photo_name is None && r.card_number is None,
{
    let mut a = a;
    if !actor_is_admin {
        a.phone = None;
        a.address = None;
        a.email = None;
        a.passport_photo_data = None;
        a.passport_photo_name = None;
        a.card_number = None;
    } else {
        let masked_card = match &a.card_number {
            Some(c) => Some(mask_card_number(c.as_str())),
            None => None,
        };
        a.card_number = masked_card;
    }
    a
}

/// Showing an agent's full card number: administrators only, for an existing
/// agent (`card` is `None` when there is no such agent) that has one.
pub fn reveal_card_number(actor_is_admin: bool, card: Option<Option<String>>) -> (r: Result<
    String,
    CrmError,
>)
    ensures
        !actor_is_admin ==> r == Err::<String, CrmError>(CrmError::Forbidden),
        actor_is_admin ==> match card {
            None => r == Err::<String, CrmError>(CrmError::AgentNotFound),
            Some(None) => r == Err::<String, CrmError>(CrmError::CardNumberMissing),
            Some(Some(c)) => r == Ok::<String, CrmError>(c),
        },
{
    if !actor_is_admin {
        return Err(CrmError::Forbidden);
    }
    match card {
        None => Err(CrmError::AgentNotFound),
        Some(None) => Err(CrmError::CardNumberMissing),
        Some(Some(c)) => Ok(c),
    }
}

/// Editing an agent's profile: administrators only, an existing agent, and a
/// non-blank name (given back trimmed).
pub fn check_agent_profile(actor_is_admin: bool, agent_exists: bool, full_name: &str) -> (r: Result<
    String,
    CrmError,
>)
    ensures
        !actor_is_admin ==> r == Err::<String, CrmError>(CrmError::Forbidden),
        actor_is_admin && !agent_exists ==> r == Err::<String, CrmError>(CrmError::AgentNotFound),
        actor_is_admin && agent_exists && trimmed(full_name@).len() == 0 ==> r == Err::<
            String,
            CrmError,
        >(CrmError::AgentNameRequired),
        actor_is_admin && agent_exists && trimmed(full_name@).len() > 0 ==> (r matches Ok(n) && n@
            == trimmed(full_name@)),
{
    if !actor_is_admin {
        Err(CrmError::Forbidden)
    } else if !agent_exists {
        Err(CrmError::AgentNotFound)
    } else if is_blank(full_name) {
        Err(CrmError::AgentNameRequired)
    } else {
        Ok(trimmed_string(full_name))
    }
}

/// The notification to administrators about an agent's application: a new
/// one, or data sent again by an agent already on file.
pub fn application_notice(repeated: bool, full_name: &str) -> (r: (String, String))
    ensures
        repeated ==> r.0@ == "Уточнённая заявка от агента"@ && r.1@ == "«"@ + trimmed(full_name@)
            + "» повторно прислал(а) данные регистрации"@,
        !repeated ==> r.0@ == "Новая заявка от агента"@ && r.1@ == "«"@ + trimmed(full_name@)
            + "» подал заявку на регистрацию в качестве агента"@,
{
    let name = trim(full_name);
    if repeated {
        (
            "Уточнённая заявка от агента".to_owned(),
            concat3("«", name, "» повторно прислал(а) данные регистрации"),
        )
    } else {
        (
            "Новая заявка от агента".to_owned(),
            concat3("«", name, "» подал заявку на регистрацию в качестве агента"),
        )
    }
}

/// The registration steps, in order.
pub open spec fn step_index(s: Seq<char>) -> int {
    if s == "name"@ { 0 }
    else if s == "phone"@ { 1 }
    else if s == "address"@ { 2 }
    else if s == "email"@ { 3 }
    else if s == "passport"@ { 4 }
    else if s == "card"@ { 5 }
    else { -1 }
}

/// Where a renewed registration starts, and which answers already given are
/// kept (those of the steps before it).
#[derive(Clone, Copy, Debug)]
pub struct Reregistration {
    /// Index of the first step asked again (0 = name, …, 5 = card).
    pub start: u8,
    pub keep_name: bool,
    pub keep_phone: bool,
    pub keep_address: bool,
    pub keep_email: bool,
    pub keep_passport: bool,
}

/// Asking an agent to register again, from a given step or from the start:
/// administrators only, for an existing agent.  An unknown step counts as
/// the first; the answers to all earlier steps are kept.
pub fn plan_reregistration(actor_is_admin: bool, agent_exists: bool, from_step: Option<&str>) -> (r:
    Result<Reregistration, CrmError>)
    ensures
        !actor_is_admin ==> r == Err::<Reregistration, CrmError>(CrmError::Forbidden),
        actor_is_admin && !agent_exists ==> r == Err::<Reregistration, CrmError>(
            CrmError::AgentNotFound,
        ),
        actor_is_admin && agent_exists ==> (r matches Ok(p) && p.start == (match from_step {
            Some(s) => if step_index(s@) >= 0 { step_index(s@) } else { 0 },
            None => 0,
        }) && p.keep_name == (p.start > 0) && p.keep_phone == (p.start > 1) && p.keep_address == (
        p.start > 2) && p.keep_email == (p.start > 3) && p.keep_passport == (p.start > 4)),
{
    if !actor_is_admin {
        return Err(CrmError::Forbidden);
    }
    if !agent_exists {
        return Err(CrmError::AgentNotFound);
    }
    let start: u8 = match from_step {
        None => 0,
        Some(s) => if str_eq(s, "name") {
            0
        } else if str_eq(s, "phone") {
            1
        } else if str_eq(s, "address") {
            2
        } else if str_eq(s, "email") {
            3
        } else if str_eq(s, "passport") {
            4
        } else if str_eq(s, "card") {
            5
        } else {
            0
        },
    };
    Ok(
        Reregistration {
            start,
            keep_name: start > 0,
            keep_phone: start > 1,
            keep_address: start > 2,
            keep_email: start > 3,
            keep_passport: start > 4,
        },
    )
}

/// Settling an agent's application: administrators only, an existing agent
/// (`status` is `None` otherwise) whose application is pending; it becomes
/// `approved` or `rejected`.
pub fn resolve_application(actor_is_admin: bool, status: Option<&str>, approve: bool) -> (r: Result<
    String,
    CrmError,
>)
    ensures
        !actor_is_admin ==> r == Err::<String, CrmError>(CrmError::Forbidden),
        actor_is_admin && status is None ==> r == Err::<String, CrmError>(CrmError::RequestNotFound),
        actor_is_admin && status is Some && status->0@ != "pending"@ ==> r == Err::<String, CrmError>(
            CrmError::RequestAlreadyProcessed,
        ),
        actor_is_admin && status is Some && status->0@ == "pending"@ ==> (r matches Ok(s) && s@ == (
        if approve { "approved"@ } else { "rejected"@ })),
{
    if !actor_is_admin {
        return Err(CrmError::Forbidden);
    }
    let s = match status {
        None => return Err(CrmError::RequestNotFound),
        Some(s) => s,
    };
    if !str_eq(s, "pending") {
        return Err(CrmError::RequestAlreadyProcessed);
    }
    if approve {
        Ok("approved".to_owned())
    } else {
        Ok("rejected".to_owned())
    }
}

/// The answer to a new lead, as `check_new_lead` gives it: the trimmed tax
/// number, or the reason for refusing.
pub open spec fn new_lead_check(
    agent_status: Option<Seq<char>>,
    client_inn: Seq<char>,
    inn_on_lead: bool,
    inn_on_client: bool,
) -> Result<Seq<char>, CrmError> {
    match agent_status {
        None => Err(CrmError::AgentNotFound),
        Some(st) => if st != "approved"@ {
            Err(CrmError::AgentNotApproved)
        } else if trimmed(client_inn).len() == 0 {
            Err(CrmError::InnRequired)
        } else if inn_on_lead {
            Err(CrmError::InnLeadExists)
        } else if inn_on_client {
            Err(CrmError::InnClientExists)
        } else {
            Ok(trimmed(client_inn))
        },
    }
}

/// A new lead from an agent: the agent must exist (`agent_status` is `None`
/// otherwise) and be approved, the client's tax number must not be blank and
/// must not already be on a lead or on a client (looked up by the trimmed
/// number).  Gives the trimmed tax number.
pub fn check_new_lead(
    agent_status: Option<&str>,
    client_inn: &str,
    inn_on_lead: bool,
    inn_on_client: bool,
) -> (r: Result<String, CrmError>)
    ensures
        agent_status is None ==> r == Err::<String, CrmError>(CrmError::AgentNotFound),
        agent_status is Some && agent_status->0@ != "approved"@ ==> r == Err::<String, CrmError>(
            CrmError::AgentNotApproved,
        ),
        agent_status is Some && agent_status->0@ == "approved"@ ==> if trimmed(client_inn@).len()
            == 0 {
            r == Err::<String, CrmError>(CrmError::InnRequired)
        } else if inn_on_lead {
            r == Err::<String, CrmError>(CrmError::InnLeadExists)
        } else if inn_on_client {
            r == Err::<String, CrmError>(CrmError::InnClientExists)
        } else {
            (r matches Ok(i) && i@ == trimmed(client_inn@))
        },
        match r {
            Ok(i) => new_lead_check(opt_view(agent_status), client_inn@, inn_on_lead, inn_on_client)
                == Ok::<Seq<char>, CrmError>(i@),
            Err(e) => new_lead_check(opt_view(agent_status), client_inn@, inn_on_lead, inn_on_client)
                == Err::<Seq<char>, CrmError>(e),
        },
{
    let s = match agent_status {
        None => return Err(CrmError::AgentNotFound),
        Some(s) => s,
    };
    if !str_eq(s, "approved") {
        return Err(CrmError::AgentNotApproved);
    }
    if is_blank(client_inn) {
        return Err(CrmError::InnRequired);
    }
    if inn_on_lead {
        return Err(CrmError::InnLeadExists);
    }
    if inn_on_client {
        return Err(CrmError::InnClientExists);
    }
    Ok(trimmed_string(client_inn))
}

/// The stages of a lead.
pub open spec fn is_lead_stage(s: Seq<char>) -> bool {
    s == "new"@ || s == "thinking"@ || s == "agreed"@ || s == "rejected"@ || s == "converted"@
}

/// Moving a lead to another stage: administrators only, a known stage, an
/// existing lead (`current_stage` is `None` otherwise), and never from
/// `converted`: a lead made into a client stays so.
pub open spec fn stage_change_check(
    actor_is_admin: bool,
    new_stage: Seq<char>,
    current_stage: Option<Seq<char>>,
) -> Result<(), CrmError> {
    if !actor_is_admin {
        Err(CrmError::Forbidden)
    } else if !is_lead_stage(new_stage) {
        Err(CrmError::InvalidStage)
    } else {
        match current_stage {
            None => Err(CrmError::LeadNotFound),
            Some(c) => if c == "converted"@ {
                Err(CrmError::LeadAlreadyConverted)
            } else {
                Ok(())
            },
        }
    }
}

/// Checks a change of a lead's stage.
pub fn check_stage_change(actor_is_admin: bool, new_stage: &str, current_stage: Option<&str>) -> (r:
    Result<(), CrmError>)
    ensures
        r == stage_change_check(actor_is_admin, new_stage@, opt_view(current_stage)),
{
    if !actor_is_admin {
        return Err(CrmError::Forbidden);
    }
    if !(str_eq(new_stage, "new") || str_eq(new_stage, "thinking") || str_eq(new_stage, "agreed")
        || str_eq(new_stage, "rejected") || str_eq(new_stage, "converted")) {
        return Err(CrmError::InvalidStage);
    }
    match current_stage {
        None => Err(CrmError::LeadNotFound),
        Some(c) => if str_eq(c, "converted") {
            Err(CrmError::LeadAlreadyConverted)
        } else {
            Ok(())
        },
    }
}

/// The client's notes made from a lead: its company name and note, those
/// present, joined by ` · `; none when that leaves nothing.
pub open spec fn lead_notes_of(company_name: Option<Seq<char>>, note: Option<Seq<char>>) -> Option<
    Seq<char>,
> {
    match (company_name, note) {
        (Some(c), Some(n)) => Some(c + " · "@ + n),
        (Some(c), None) => if c.len() == 0 { None } else { Some(c) },
        (None, Some(n)) => if n.len() == 0 { None } else { Some(n) },
        (None, None) => None,
    }
}

/// Builds the client's notes from a lead (see `lead_notes_of`).
pub fn lead_notes(company_name: Option<&str>, note: Option<&str>) -> (r: Option<String>)
    ensures
        opt_view_string(r) == lead_notes_of(opt_view(company_name), opt_view(note)),
{
    match (company_name, note) {
        (Some(c), Some(n)) => Some(concat3(c, " · ", n)),
        (Some(c), None) => if c.is_empty() {
            None
        } else {
            Some(c.to_owned())
        },
        (None, Some(n)) => if n.is_empty() {
            None
        } else {
            Some(n.to_owned())
        },
        (None, None) => None,
    }
}

/// The pieces of `s` between commas, from position `i` on.
pub open spec fn comma_pieces(s: Seq<char>, i: int) -> Seq<Seq<char>>
    decreases s.len() - i,
{
    if i < 0 || i > s.len() {
        Seq::empty()
    } else {
        let j = find_from(s, ',', i);
        if j >= s.len() {
            seq![s.subrange(i, s.len() as int)]
        } else {
            proof {
                lemma_find_from_ge(s, i);
            }
            seq![s.subrange(i, j)] + comma_pieces(s, j + 1)
        }
    }
}

/// The next comma at or after `i` is not before `i`.
pub proof fn lemma_find_from_ge(s: Seq<char>, i: int)
    requires
        0 <= i <= s.len(),
    ensures
        i <= find_from(s, ',', i) <= s.len(),
    decreases s.len() - i,
{
    if i < s.len() && s[i] != ',' {
        lemma_find_from_ge(s, i + 1);
    }
}

/// The trimmed pieces that are not blank, in order.
pub open spec fn non_blank_trimmed(pieces: Seq<Seq<char>>) -> Seq<Seq<char>>
    decreases pieces.len(),
{
    if pieces.len() == 0 {
        Seq::empty()
    } else {
        let rest = non_blank_trimmed(pieces.drop_first());
        if trimmed(pieces[0]).len() == 0 {
            rest
        } else {
            seq![trimmed(pieces[0])] + rest
        }
    }
}

/// The service ids attached to a lead: the comma-separated list, each id
/// trimmed, blanks skipped.
pub fn split_service_ids(ids: &str) -> (r: Vec<String>)
    ensures
        r@.map_values(|x: String| x@) == non_blank_trimmed(comma_pieces(ids@, 0)),
{
    let n = ids.unicode_len();
    let mut r: Vec<String> = Vec::new();
    let mut i: usize = 0;
    let ghost mut done: Seq<Seq<char>> = Seq::empty();
    loop
        invariant
            n == ids@.len(),
            0 <= i <= n,
            r@.map_values(|x: String| x@) + non_blank_trimmed(comma_pieces(ids@, i as int))
                == non_blank_trimmed(comma_pieces(ids@, 0)),
        decreases n - i,
    {
        let mut j: usize = i;
        while j < n && ids.get_char(j) != ','
            invariant
                n == ids@.len(),
                i <= j <= n,
                find_from(ids@, ',', j as int) == find_from(ids@, ',', i as int),
            decreases n - j,
        {
            j = j + 1;
        }
        let piece = ids.substring_char(i, j);
        let t = trim(piece);
        let ghost before = r@.map_values(|x: String| x@);
        if !t.is_empty() {
            r.push(t.to_owned());
        }
        proof {
            let p = ids@.subrange(i as int, j as int);
            let after = r@.map_values(|x: String| x@);
            if trimmed(p).len() == 0 {
                assert(after =~= before);
            } else {
                assert(after =~= before + seq![trimmed(p)]);
            }
        }
        if j >= n {
            proof {
                let p = ids@.subrange(i as int, j as int);
                assert(comma_pieces(ids@, i as int) == seq![p]);
                assert(seq![p].drop_first() =~= Seq::<Seq<char>>::empty());
                assert(non_blank_trimmed(Seq::<Seq<char>>::empty()) == Seq::<Seq<char>>::empty());
                assert(seq![trimmed(p)] + Seq::<Seq<char>>::empty() =~= seq![trimmed(p)]);
                assert(non_blank_trimmed(seq![p]) == (if trimmed(p).len() == 0 {
                    Seq::<Seq<char>>::empty()
                } else {
                    seq![trimmed(p)]
                }));
                assert(r@.map_values(|x: String| x@) + Seq::<Seq<char>>::empty() =~= r@.map_values(
                    |x: String| x@,
                ));
                if trimmed(p).len() > 0 {
                    assert(before + seq![trimmed(p)] + Seq::<Seq<char>>::empty() =~= before + seq![
                        trimmed(p)]);
                }
            }
            return r;
        }
        proof {
            let p = ids@.subrange(i as int, j as int);
            let rest = comma_pieces(ids@, j + 1);
            assert(comma_pieces(ids@, i as int) == seq![p] + rest);
            assert((seq![p] + rest).drop_first() =~= rest);
            assert((seq![p] + rest)[0] == p);
            if trimmed(p).len() > 0 {
                assert(before + (seq![trimmed(p)] + non_blank_trimmed(rest)) =~= (before + seq![
                    trimmed(p)]) + non_blank_trimmed(rest));
            }
        }
        i = j + 1;
    }
}

/// The notification about a lead made into a client.
pub fn conversion_notice(client_name: &str, agent_name: &str) -> (r: String)
    ensures
        r@ == "Клиент «"@ + client_name@ + "» (агент «"@ + agent_name@
            + "») оформлен и добавлен в «Клиенты»"@,
{
    let mut r = concat3("Клиент «", client_name, "» (агент «");
    r.append(agent_name);
    r.append("») оформлен и добавлен в «Клиенты»");
    r
}

/// The service ids of a lead, as its client's services: none when the lead
/// has no list.
pub open spec fn lead_service_ids(ids: Option<Seq<char>>) -> Seq<Seq<char>> {
    match ids {
        Some(s) => non_blank_trimmed(comma_pieces(s, 0)),
        None => Seq::empty(),
    }
}

/// What making a lead into a client writes.
#[derive(Clone, Debug)]
pub struct LeadConversion {
    /// The new client: its name, phone, notes, the agent it came from and
    /// its tax number.
    pub client_name: String,
    pub client_phone: Option<String>,
    pub client_notes: Option<String>,
    pub origin_agent_id: String,
    pub client_inn: String,
    /// One client service per listed service id, in order.
    pub service_ids: Vec<String>,
    /// The lead afterwards: its stage and the client it became.
    pub lead_stage: String,
    pub converted_client_id: String,
    /// The notification to every administrator.
    pub notice_title: String,
    pub notice_body: String,
}

/// Making a lead (already let through `check_stage_change` towards
/// `converted`) into the client with id `client_id`: the client takes the
/// lead's trimmed name (refused when blank), phone, notes made of its
/// company name and note, its agent and tax number, and one service per
/// listed id; the lead becomes `converted` and points at the client; the
/// administrators are told.
pub fn plan_lead_conversion(lead: &AgentLeadRecord, client_id: &str) -> (r: Result<LeadConversion, CrmError>)
    ensures
        trimmed(lead.client_name@).len() == 0 ==> r == Err::<LeadConversion, CrmError>(
            CrmError::ClientNameRequired,
        ),
        trimmed(lead.client_name@).len() > 0 ==> (r matches Ok(c) && {
            &&& c.client_name@ == trimmed(lead.client_name@)
            &&& opt_view_string(c.client_phone) == opt_view_string(lead.client_phone)
            &&& opt_view_string(c.client_notes) == lead_notes_of(
                opt_view_string(lead.company_name),
                opt_view_string(lead.note),
            )
            &&& c.origin_agent_id@ == lead.agent_id@
            &&& c.client_inn@ == lead.client_inn@
            &&& c.service_ids@.map_values(|x: String| x@) == lead_service_ids(
                opt_view_string(lead.service_ids),
            )
            &&& c.lead_stage@ == "converted"@
            &&& c.converted_client_id@ == client_id@
            &&& c.notice_title@ == "Новый клиент оформлен от агента"@
            &&& c.notice_body@ == "Клиент «"@ + lead.client_name@ + "» (агент «"@ + lead.agent_name@
                + "») оформлен и добавлен в «Клиенты»"@
        }),
{
    if is_blank(lead.client_name.as_str()) {
        return Err(CrmError::ClientNameRequired);
    }
    let company: Option<&str> = match &lead.company_name {
        Some(c) => Some(c.as_str()),
        None => None,
    };
    let note: Option<&str> = match &lead.note {
        Some(n) => Some(n.as_str()),
        None => None,
    };
    let service_ids = match &lead.service_ids {
        Some(ids) => split_service_ids(ids.as_str()),
        None => Vec::new(),
    };
    proof {
        if lead.service_ids is None {
            assert(service_ids@.map_values(|x: String| x@) =~= Seq::<Seq<char>>::empty());
        }
    }
    Ok(
        LeadConversion {
            client_name: trimmed_string(lead.client_name.as_str()),
            client_phone: lead.client_phone.clone(),
            client_notes: lead_notes(company, note),
            origin_agent_id: lead.agent_id.clone(),
            client_inn: lead.client_inn.clone(),
            service_ids,
            lead_stage: "converted".to_owned(),
            converted_client_id: client_id.to_owned(),
            notice_title: "Новый клиент оформлен от агента".to_owned(),
            notice_body: conversion_notice(lead.client_name.as_str(), lead.agent_name.as_str()),
        },
    )
}

/// The notification about a new lead.
pub fn new_lead_notice(agent_name: &str, client_name: &str) -> (r: String)
    ensures
        r@ == "Агент «"@ + agent_name@ + "» добавил клиента «"@ + trimmed(client_name@) + "»"@,
{
    let mut r = concat3("Агент «", agent_name, "» добавил клиента «");
    r.append(trim(client_name));
    r.append("»");
    r
}

/// Marking an agent's reward paid: administrators only, an existing lead
/// (`lead` is `None` otherwise: its stage and payment status) that was made
/// into a client and not yet marked paid.
pub fn check_mark_paid(actor_is_admin: bool, lead: Option<(&str, &str)>) -> (r: Result<(), CrmError>)
    ensures
        r == (if !actor_is_admin {
            Err(CrmError::Forbidden)
        } else {
            match lead {
                None => Err(CrmError::LeadNotFound),
                Some((stage, payment)) => if stage@ != "converted"@ {
                    Err(CrmError::LeadNotConverted)
                } else if payment@ == "paid"@ {
                    Err(CrmError::PayoutAlreadyMarked)
                } else {
                    Ok(())
                },
            }
        }),
{
    if !actor_is_admin {
        return Err(CrmError::Forbidden);
    }
    match lead {
        None => Err(CrmError::LeadNotFound),
        Some((stage, payment)) => if !str_eq(stage, "converted") {
            Err(CrmError::LeadNotConverted)
        } else if str_eq(payment, "paid") {
            Err(CrmError::PayoutAlreadyMarked)
        } else {
            Ok(())
        },
    }
}

/// A training post: administrators only, with a non-blank title and body
/// (given back trimmed).
pub fn check_training_post(actor_is_admin: bool, title: &str, body: &str) -> (r: Result<
    (String, String),
    CrmError,
>)
    ensures
        !actor_is_admin ==> r == Err::<(String, String), CrmError>(CrmError::Forbidden),
        actor_is_admin && (trimmed(title@).len() == 0 || trimmed(body@).len() == 0) ==> r == Err::<
            (String, String),
            CrmError,
        >(CrmError::TrainingPostFieldsRequired),
        actor_is_admin && trimmed(title@).len() > 0 && trimmed(body@).len() > 0 ==> (r matches Ok(p)
            && p.0@ == trimmed(title@) && p.1@ == trimmed(body@)),
{
    if !actor_is_admin {
        Err(CrmError::Forbidden)
    } else if is_blank(title) || is_blank(body) {
        Err(CrmError::TrainingPostFieldsRequired)
    } else {
        Ok((trimmed_string(title), trimmed_string(body)))
    }
}

/// No two leads share a tax number: a lead is stored (under the number
/// `check_new_lead` gives back) only when no lead has that number yet, so a
/// list of lead numbers without repeats stays without repeats.
pub proof fn law_lead_tax_numbers_unique(
    lead_inns: Seq<Seq<char>>,
    agent_status: Option<Seq<char>>,
    client_inn: Seq<char>,
    inn_on_client: bool,
)
    requires
        lead_inns.no_duplicates(),
    ensures
        new_lead_check(agent_status, client_inn, lead_inns.contains(trimmed(client_inn)), inn_on_client)
            matches Ok(inn) ==> lead_inns.push(inn).no_duplicates(),
{
    let r = new_lead_check(agent_status, client_inn, lead_inns.contains(trimmed(client_inn)), inn_on_client);
    if r is Ok {
        let inn = trimmed(client_inn);
        let s = lead_inns.push(inn);
        assert forall|i: int, j: int| 0 <= i < s.len() && 0 <= j < s.len() && i != j implies s[i] != s[j] by {
            if i == lead_inns.len() {
                assert(lead_inns[j] == s[j]);
            } else if j == lead_inns.len() {
                assert(lead_inns[i] == s[i]);
            } else {
                assert(lead_inns[i] == s[i] && lead_inns[j] == s[j]);
            }
        }
    }
}

} // verus!
