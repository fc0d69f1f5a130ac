//! Sessions of the built-in HTTP server: which commands need a session, how
//! the caller named in a request is matched against the session's owner,
//! and how sign-in and sign-out change the table of sessions.
use vstd::prelude::*;
use vstd::hash_map::StringHashMap;
use crate::errors::CrmError;
use crate::text::str_eq;

verus! {

/// Commands that need no session: they are what opens one (or tells whether
/// an administrator exists yet).
pub open spec fn is_public_command(cmd: Seq<char>) -> bool {
    cmd == "has_admin"@ || cmd == "create_admin"@ || cmd == "login"@
}

/// Commands whose `employeeId` field names the caller (self-service
/// actions), as opposed to commands where it names someone acted upon.
pub open spec fn is_self_service_command(cmd: Seq<char>) -> bool {
    ||| cmd == "self_update_employee"@
    ||| cmd == "update_own_avatar"@
    ||| cmd == "create_absence_request"@
    ||| cmd == "create_edit_request"@
}

/// Request fields that must name the caller: `actorId` and `adminId` always,
/// and `employeeId` for self-service commands.
pub open spec fn is_caller_field(cmd: Seq<char>, key: Seq<char>) -> bool {
    key == "actorId"@ || key == "adminId"@ || (is_self_service_command(cmd) && key
        == "employeeId"@)
}

/// Whether a command needs no session.
pub fn public_command(cmd: &str) -> (r: bool)
    ensures
        r == is_public_command(cmd@),
{
    str_eq(cmd, "has_admin") || str_eq(cmd, "create_admin") || str_eq(cmd, "login")
}

/// Whether a command is a self-service one.
pub fn self_service_command(cmd: &str) -> (r: bool)
    ensures
        r == is_self_service_command(cmd@),
{
    str_eq(cmd, "self_update_employee") || str_eq(cmd, "update_own_avatar") || str_eq(
        cmd,
        "create_absence_request",
    ) || str_eq(cmd, "create_edit_request")
}

/// Whether a field must name the caller in a request for `cmd`.
pub fn caller_field(cmd: &str, key: &str) -> (r: bool)
    ensures
        r == is_caller_field(cmd@, key@),
{
    str_eq(key, "actorId") || str_eq(key, "adminId") || (self_service_command(cmd) && str_eq(
        key,
        "employeeId",
    ))
}

/// The open sessions: session token to the id of the employee it belongs to.
pub struct SessionTable {
    sessions: StringHashMap<String>,
}

impl View for SessionTable {
    type V = Map<Seq<char>, Seq<char>>;

    closed spec fn view(&self) -> Map<Seq<char>, Seq<char>> {
        self.sessions@.map_values(|v: String| v@)
    }
}

impl SessionTable {
    /// No sessions.
    pub fn new() -> (t: Self)
        ensures
            t@ == Map::<Seq<char>, Seq<char>>::empty(),
    {
        let t = SessionTable { sessions: StringHashMap::new() };
        proof {
            assert(t@ =~= Map::<Seq<char>, Seq<char>>::empty());
        }
        t
    }

    /// The employee a token belongs to, if it is open.
    pub fn owner(&self, token: &str) -> (r: Option<String>)
        ensures
            match r {
                Some(id) => self@.contains_key(token@) && self@[token@] == id@,
                None => !self@.contains_key(token@),
            },
    {
        match self.sessions.get(token) {
            Some(id) => Some(id.clone()),
            None => None,
        }
    }

    /// Opens a session `token` for `employee_id`.
    pub fn open(&mut self, token: String, employee_id: String)
        ensures
            final(self)@ == old(self)@.insert(token@, employee_id@),
    {
        let ghost k = token@;
        let ghost v = employee_id@;
        self.sessions.insert(token, employee_id);
        proof {
            assert(final(self)@ =~= old(self)@.insert(k, v));
        }
    }

    /// Closes the session `token`, if it is open.
    pub fn close(&mut self, token: &str)
        ensures
            final(self)@ == old(self)@.remove(token@),
    {
        self.sessions.remove(token);
        proof {
            assert(final(self)@ =~= old(self)@.remove(token@));
        }
    }
}

/// A request field: its name, and its text when the value is a string.
#[derive(Clone, Debug)]
pub struct PayloadField {
    pub key: String,
    pub text: Option<String>,
}

/// Whether some caller field of the request does not name `caller`.
pub open spec fn caller_mismatch(cmd: Seq<char>, fields: Seq<PayloadField>, caller: Seq<char>) -> bool {
    exists|i: int|
        0 <= i < fields.len() && is_caller_field(cmd, #[trigger] fields[i].key@) && !(
        fields[i].text matches Some(t) && t@ == caller)
}

/// How a request is let through: public commands always; others need an open
/// session (`Unauthorized` otherwise), and every caller field present in an
/// object payload must name the session's owner (`Forbidden` otherwise).
/// Gives the session's owner, if the command needed one.
pub open spec fn authorization(
    cmd: Seq<char>,
    owner: Option<Seq<char>>,
    fields: Option<Seq<PayloadField>>,
) -> Result<Option<Seq<char>>, CrmError> {
    if is_public_command(cmd) {
        Ok(None)
    } else {
        match owner {
            None => Err(CrmError::NotSignedIn),
            Some(o) => match fields {
                Some(f) => if caller_mismatch(cmd, f, o) {
                    Err(CrmError::CallerMismatch)
                } else {
                    Ok(Some(o))
                },
                None => Ok(Some(o)),
            },
        }
    }
}

/// Decides whether a request goes through.  `token` is the session token
/// the request carries; `fields` are the payload's fields when the payload
/// is an object.
pub fn authorize(
    sessions: &SessionTable,
    cmd: &str,
    token: Option<&str>,
    fields: Option<&Vec<PayloadField>>,
) -> (r: Result<Option<String>, CrmError>)
    ensures
        match (r, authorization(
            cmd@,
            match token {
                Some(t) => if sessions@.contains_key(t@) { Some(sessions@[t@]) } else { None },
                None => None,
            },
            match fields { Some(f) => Some(f@), None => None },
        )) {
            (Ok(Some(a)), Ok(Some(b))) => a@ == b,
            (Ok(None), Ok(None)) => true,
            (Err(e), Err(f)) => e == f,
            _ => false,
        },
{
    if public_command(cmd) {
        return Ok(None);
    }
    let owner = match token {
        Some(t) => sessions.owner(t),
        None => None,
    };
    let o = match owner {
        None => return Err(CrmError::NotSignedIn),
        Some(o) => o,
    };
    if let Some(f) = fields {
        let mut i: usize = 0;
        while i < f.len()
            invariant
                0 <= i <= f.len(),
                !is_public_command(cmd@),
                token matches Some(t) && sessions@.contains_key(t@) && sessions@[t@] == o@,
                fields == Some(f),
                forall|k: int|
                    0 <= k < i ==> !(is_caller_field(cmd@, #[trigger] f@[k].key@) && !(
                    f@[k].text matches Some(t) && t@ == o@)),
            decreases f.len() - i,
        {
            if caller_field(cmd, f[i].key.as_str()) {
                let names_caller = match &f[i].text {
                    Some(t) => str_eq(t.as_str(), o.as_str()),
                    None => false,
                };
                if !names_caller {
                    proof {
                        assert(is_caller_field(cmd@, f@[i as int].key@));
                        assert(!(f@[i as int].text matches Some(t) && t@ == o@));
                        assert(caller_mismatch(cmd@, f@, o@));
                    }
                    return Err(CrmError::CallerMismatch);
                }
            }
            i = i + 1;
        }
    }
    Ok(Some(o))
}

/// What a successful command does to the sessions: signing in and creating
/// the first administrator open a session for that employee under the fresh
/// token (when the command reports who signed in), `record_logout` closes the
/// session the request came with, and nothing else changes them.  Gives the
/// token handed to the client, if one was opened.
pub fn after_command(
    sessions: &mut SessionTable,
    cmd: &str,
    token: Option<&str>,
    signed_in: Option<&str>,
    fresh_token: String,
) -> (issued: Option<String>)
    ensures
        (cmd@ == "login"@ || cmd@ == "create_admin"@) && signed_in is Some ==> issued
            == Some(fresh_token) && final(sessions)@ == old(sessions)@.insert(
            fresh_token@,
            signed_in->0@,
        ),
        (cmd@ == "login"@ || cmd@ == "create_admin"@) && signed_in is None ==> issued is None
            && final(sessions)@ == old(sessions)@,
        cmd@ == "record_logout"@ && token is Some ==> issued is None && final(sessions)@ == old(
            sessions,
        )@.remove(token->0@),
        cmd@ == "record_logout"@ && token is None ==> issued is None && final(sessions)@ == old(
            sessions,
        )@,
        cmd@ != "login"@ && cmd@ != "create_admin"@ && cmd@ != "record_logout"@ ==> issued is None
            && final(sessions)@ == old(sessions)@,
{
    proof {
        reveal_strlit("login");
        reveal_strlit("create_admin");
        reveal_strlit("record_logout");
        assert("login"@.len() != "record_logout"@.len());
        assert("create_admin"@.len() != "record_logout"@.len());
    }
    if str_eq(cmd, "login") || str_eq(cmd, "create_admin") {
        match signed_in {
            Some(id) => {
                let t = fresh_token.clone();
                sessions.open(fresh_token, id.to_owned());
                Some(t)
            },
            None => None,
        }
    } else if str_eq(cmd, "record_logout") {
        if let Some(t) = token {
            sessions.close(t);
        }
        None
    } else {
        None
    }
}

/// The refusal for a request naming an unknown command.
pub fn unknown_command_message(cmd: &str) -> (m: String)
    ensures
        m@ == "Неизвестная команда: "@ + cmd@,
{
    crate::text::concat("Неизвестная команда: ", cmd)
}

/// The refusal for a request missing a field the command needs.
pub fn missing_field_message(key: &str) -> (m: String)
    ensures
        m@ == "Отсутствует поле '"@ + key@ + "'"@,
{
    crate::text::concat3("Отсутствует поле '", key, "'")
}

/// The refusal for a request whose data does not fit the command.
pub fn bad_payload_message(detail: &str) -> (m: String)
    ensures
        m@ == "Некорректные данные запроса: "@ + detail@,
{
    crate::text::concat("Некорректные данные запроса: ", detail)
}

} // verus!
