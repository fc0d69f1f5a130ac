//! Regulations: numbering, readable slugs, editing and closing, reminders,
//! and access to the partners' own regulations.
use vstd::prelude::*;
use vstd::string::StringSliceAdditionalSpecFns;
use crate::chat::{opt_to_owned, opt_view, opt_view_string};
use crate::errors::CrmError;
use crate::records::{EmployeeRecord, RegulationReminderRecord};
use crate::tasks::name_or_empty;
use crate::text::{
    concat, concat3, is_blank, is_whitespace, is_ws, push_char, skip_ws_from, str_eq, to_lowercase,
    lowercase, trimmed, trimmed_string, opt_str_eq,
};

verus! {

/// What `char::is_alphanumeric` says of a character: whether it is
/// alphabetic or numeric in the Unicode sense, which depends on nothing but
/// the character.
pub uninterp spec fn alphanumeric(c: char) -> bool;

/// Calls `char::is_alphanumeric`.
#[verifier::external_body]
pub(crate) fn is_alphanumeric(c: char) -> (b: bool)
    ensures
        b == alphanumeric(c),
{
    c.is_alphanumeric()
}

/// Characters a slug may take from a title: letters, digits and whitespace.
pub open spec fn slug_keeps(c: char) -> bool {
    alphanumeric(c) || is_ws(c)
}

/// The first `n` characters of `s` that a slug keeps.
pub open spec fn kept_upto(s: Seq<char>, n: int) -> Seq<char>
    decreases n,
{
    if n <= 0 || n > s.len() {
        Seq::empty()
    } else if slug_keeps(s[n - 1]) {
        kept_upto(s, n - 1).push(s[n - 1])
    } else {
        kept_upto(s, n - 1)
    }
}

/// End (exclusive) of the word that starts at `i`: the next whitespace or
/// the end of the text.
pub open spec fn word_end(s: Seq<char>, i: int) -> int
    decreases s.len() - i,
{
    if i < 0 || i >= s.len() {
        s.len() as int
    } else if is_ws(s[i]) {
        i
    } else {
        word_end(s, i + 1)
    }
}

/// The first `k` whitespace-separated words of `s` from position `i` on.
pub open spec fn first_words(s: Seq<char>, i: int, k: nat) -> Seq<Seq<char>>
    decreases k,
{
    if k == 0 {
        Seq::empty()
    } else {
        let a = skip_ws_from(s, i);
        if a >= s.len() {
            Seq::empty()
        } else {
            let b = word_end(s, a);
            seq![s.subrange(a, b)] + first_words(s, b, (k - 1) as nat)
        }
    }
}

/// Words joined by `-`.
pub open spec fn join_dash(ws: Seq<Seq<char>>) -> Seq<char>
    decreases ws.len(),
{
    if ws.len() == 0 {
        Seq::empty()
    } else if ws.len() == 1 {
        ws[0]
    } else {
        join_dash(ws.drop_last()) + seq!['-'] + ws.last()
    }
}

/// A regulation's slug: the start of its id that takes its first six bytes
/// (six characters for the usual ASCII ids), then a dash and the first three
/// words of its title (keeping only letters, digits and whitespace), joined
/// by dashes and in lower case; just that start of the id when the title
/// gives no word.
pub open spec fn slug_of(title: Seq<char>, id: Seq<char>) -> Seq<char> {
    let words = lowercase(join_dash(first_words(kept_upto(title, title.len() as int), 0, 3)));
    if words.len() == 0 {
        short_id(id)
    } else {
        short_id(id) + seq!['-'] + words
    }
}

/// The characters of `id` whose UTF-8 form is its first six bytes.
pub open spec fn short_id(id: Seq<char>) -> Seq<char> {
    vstd::utf8::decode_utf8(vstd::utf8::encode_utf8(id).subrange(0, 6))
}

proof fn lemma_skip_ws_from_ge(s: Seq<char>, i: int)
    requires
        0 <= i <= s.len(),
    ensures
        i <= skip_ws_from(s, i) <= s.len(),
        skip_ws_from(s, i) < s.len() ==> !is_ws(s[skip_ws_from(s, i)]),
    decreases s.len() - i,
{
    if i < s.len() && is_ws(s[i]) {
        lemma_skip_ws_from_ge(s, i + 1);
    }
}

proof fn lemma_word_end(s: Seq<char>, i: int)
    requires
        0 <= i <= s.len(),
    ensures
        i <= word_end(s, i) <= s.len(),
    decreases s.len() - i,
{
    if i < s.len() && !is_ws(s[i]) {
        lemma_word_end(s, i + 1);
    }
}

/// The characters of `title` a slug keeps.
fn kept_chars(title: &str) -> (r: String)
    ensures
        r@ == kept_upto(title@, title@.len() as int),
{
    let n = title.unicode_len();
    let mut r = String::new();
    let mut i: usize = 0;
    while i < n
        invariant
            n == title@.len(),
            0 <= i <= n,
            r@ == kept_upto(title@, i as int),
        decreases n - i,
    {
        let c = title.get_char(i);
        if is_alphanumeric(c) || is_whitespace(c) {
            push_char(&mut r, c);
        }
        i = i + 1;
    }
    r
}

/// Builds the slug of a regulation from its title and id.
pub fn make_slug(title: &str, id: &str) -> (slug: String)
    requires
        vstd::utf8::is_char_boundary(id.spec_bytes(), 6),
    ensures
        slug@ == slug_of(title@, id@),
{
    let (head, _) = id.split_at(6);
    proof {
        broadcast use vstd::utf8::encode_utf8_decode_utf8;
        assert(head@ == vstd::utf8::decode_utf8(vstd::utf8::encode_utf8(head@)));
        assert(head@ == short_id(id@));
    }
    let kept = kept_chars(title);
    let f = kept.as_str();
    let n = f.unicode_len();
    let mut joined = String::new();
    let mut pos: usize = 0;
    let mut k: usize = 3;
    let mut count: usize = 0;
    let ghost mut taken: Seq<Seq<char>> = Seq::empty();
    while k > 0
        invariant_except_break
            n == f@.len(),
            0 <= pos <= n,
            k <= 3,
            count + k == 3,
            taken.len() == count,
            taken + first_words(f@, pos as int, k as nat) == first_words(f@, 0, 3),
            joined@ == join_dash(taken),
        ensures
            taken == first_words(f@, 0, 3),
            joined@ == join_dash(taken),
        decreases k,
    {
        let mut a: usize = pos;
        while a < n && is_whitespace(f.get_char(a))
            invariant
                n == f@.len(),
                pos <= a <= n,
                skip_ws_from(f@, a as int) == skip_ws_from(f@, pos as int),
            decreases n - a,
        {
            a = a + 1;
        }
        if a >= n {
            proof {
                assert(first_words(f@, pos as int, k as nat) == Seq::<Seq<char>>::empty());
                assert(taken + Seq::<Seq<char>>::empty() =~= taken);
            }
            break;
        }
        let mut b: usize = a;
        while b < n && !is_whitespace(f.get_char(b))
            invariant
                n == f@.len(),
                a <= b <= n,
                word_end(f@, b as int) == word_end(f@, a as int),
            decreases n - b,
        {
            b = b + 1;
        }
        let word = f.substring_char(a, b);
        proof {
            let w = f@.subrange(a as int, b as int);
            assert(first_words(f@, pos as int, k as nat) == seq![w] + first_words(
                f@,
                b as int,
                (k - 1) as nat,
            ));
            assert(taken + first_words(f@, pos as int, k as nat) =~= taken.push(w) + first_words(
                f@,
                b as int,
                (k - 1) as nat,
            ));
            assert(taken.push(w).drop_last() =~= taken);
        }
        proof {
            reveal_strlit("-");
            let w = f@.subrange(a as int, b as int);
            assert(taken.push(w).len() == count + 1);
            assert(taken.push(w).last() == w);
            if count > 0 {
                assert(join_dash(taken.push(w)) == join_dash(taken) + seq!['-'] + w);
            } else {
                assert(join_dash(taken.push(w)) == w);
            }
        }
        if count == 0 {
            joined.append(word);
        } else {
            joined.append("-");
            joined.append(word);
        }
        proof {
            let w = f@.subrange(a as int, b as int);
            taken = taken.push(w);
        }
        count = count + 1;
        pos = b;
        k = k - 1;
    }
    let words = to_lowercase(joined.as_str());
    proof {
        reveal_strlit("-");
    }
    if words.unicode_len() == 0 {
        head.to_owned()
    } else {
        concat3(head, "-", words.as_str())
    }
}

/// What happens to a regulation's closing time when it is saved with a
/// status.
#[derive(Clone, Copy, Debug, PartialEq, Eq, Structural)]
pub enum ClosedAt {
    /// Set it to now: the regulation is being closed.
    Now,
    /// Clear it: the regulation is active.
    Clear,
    /// Leave it as it was: the regulation stays closed.
    Keep,
}

/// The statuses a regulation may have.
pub open spec fn is_regulation_status(s: Seq<char>) -> bool {
    s == "active"@ || s == "closed"@
}

/// Saving a regulation: only an administrator or its owner may, the title
/// must not be blank, and the status must be `active` or `closed`.  Closing
/// an open regulation stamps the closing time; making it active clears it;
/// saving a closed one as closed keeps it.
pub open spec fn regulation_update_check(
    found: bool,
    may_edit: bool,
    title: Seq<char>,
    old_status: Seq<char>,
    status: Seq<char>,
) -> Result<ClosedAt, CrmError> {
    if !found {
        Err(CrmError::RegulationNotFound)
    } else if !may_edit {
        Err(CrmError::RegulationEditForbidden)
    } else if trimmed(title).len() == 0 {
        Err(CrmError::RegulationTitleRequired)
    } else if !is_regulation_status(status) {
        Err(CrmError::InvalidStatus)
    } else if status == "closed"@ && old_status != "closed"@ {
        Ok(ClosedAt::Now)
    } else if status == "active"@ {
        Ok(ClosedAt::Clear)
    } else {
        Ok(ClosedAt::Keep)
    }
}

/// Checks a save of a regulation (`may_edit`: the actor is an administrator
/// or the owner; `old_status`: the stored status).
pub fn check_regulation_update(
    found: bool,
    may_edit: bool,
    title: &str,
    old_status: &str,
    status: &str,
) -> (r: Result<ClosedAt, CrmError>)
    ensures
        r == regulation_update_check(found, may_edit, title@, old_status@, status@),
{
    if !found {
        Err(CrmError::RegulationNotFound)
    } else if !may_edit {
        Err(CrmError::RegulationEditForbidden)
    } else if is_blank(title) {
        Err(CrmError::RegulationTitleRequired)
    } else if !(str_eq(status, "active") || str_eq(status, "closed")) {
        Err(CrmError::InvalidStatus)
    } else if str_eq(status, "closed") && !str_eq(old_status, "closed") {
        Ok(ClosedAt::Now)
    } else if str_eq(status, "active") {
        Ok(ClosedAt::Clear)
    } else {
        Ok(ClosedAt::Keep)
    }
}

/// A new regulation needs a title; gives it trimmed.
pub fn check_regulation_title(title: &str) -> (r: Result<String, CrmError>)
    ensures
        trimmed(title@).len() == 0 ==> r == Err::<String, CrmError>(CrmError::RegulationTitleRequired),
        trimmed(title@).len() > 0 ==> (r matches Ok(t) && t@ == trimmed(title@)),
{
    if is_blank(title) {
        Err(CrmError::RegulationTitleRequired)
    } else {
        Ok(trimmed_string(title))
    }
}

/// Title of the notification to someone added to a regulation.
pub fn member_added_title(regulation_title: &str) -> (t: String)
    ensures
        t@ == "Вас добавили в регламент «"@ + regulation_title@ + "»"@,
{
    concat3("Вас добавили в регламент «", regulation_title, "»")
}

/// What a reminder leaves in the regulation, where it is posted, and the
/// notification sent about it.
#[derive(Clone, Debug)]
pub struct ReminderPlan {
    /// The note, trimmed.
    pub note: String,
    /// The text posted in the regulation.
    pub post: String,
    /// Posted as a reply under this entry, or as a new entry when `None`.
    pub reply_to: Option<String>,
    /// Title of the notification sent to the one reminded.
    pub notice_title: String,
}

/// A reminder needs a note.  It is posted as
/// `📅 Напоминание для <name>: <note> (<when>)` (the name is `—` when the
/// one reminded is not found) under the given entry, or as a new entry; the
/// notification names the regulation (`регламент` when it is not found).
pub fn plan_reminder(
    note: &str,
    target_name: Option<&str>,
    remind_at: &str,
    entry_id: Option<&str>,
    regulation_title: Option<&str>,
) -> (r: Result<ReminderPlan, CrmError>)
    ensures
        trimmed(note@).len() == 0 ==> r == Err::<ReminderPlan, CrmError>(CrmError::ReminderNoteRequired),
        trimmed(note@).len() > 0 ==> (r matches Ok(p) && p.note@ == trimmed(note@) && p.post@
            == "📅 Напоминание для "@ + (match target_name { Some(n) => n@, None => "—"@ }) + ": "@
            + trimmed(note@) + " ("@ + remind_at@ + ")"@ && opt_view_string(p.reply_to) == opt_view(
            entry_id) && p.notice_title@ == "Напоминание по регламенту «"@ + (match regulation_title {
            Some(t) => t@, None => "регламент"@ }) + "»"@),
{
    if is_blank(note) {
        return Err(CrmError::ReminderNoteRequired);
    }
    let note = trimmed_string(note);
    let name: &str = match target_name {
        Some(n) => n,
        None => "—",
    };
    let mut post = concat3("📅 Напоминание для ", name, ": ");
    post.append(note.as_str());
    post.append(" (");
    post.append(remind_at);
    post.append(")");
    let title: &str = match regulation_title {
        Some(t) => t,
        None => "регламент",
    };
    let notice_title = concat3("Напоминание по регламенту «", title, "»");
    Ok(ReminderPlan { note, post, reply_to: opt_to_owned(entry_id), notice_title })
}

/// The reminder as handed back right after it was stored: not fired yet, no
/// creation time, the names those found (empty when not found).
pub fn new_reminder_record(
    id: String,
    regulation_id: &str,
    entry_id: Option<&str>,
    created_by: &str,
    created_by_name: Option<String>,
    target_employee_id: &str,
    target_name: Option<String>,
    remind_at: &str,
    note: String,
) -> (r: RegulationReminderRecord)
    ensures
        r.id == id,
        r.regulation_id@ == regulation_id@,
        opt_view_string(r.entry_id) == opt_view(entry_id),
        r.created_by@ == created_by@,
        r.created_by_name@ == (match created_by_name { Some(n) => n@, None => Seq::<char>::empty() }),
        r.target_employee_id@ == target_employee_id@,
        r.target_name@ == (match target_name { Some(n) => n@, None => Seq::<char>::empty() }),
        r.remind_at@ == remind_at@,
        r.note == note,
        !r.fired,
        r.created_at@ == Seq::<char>::empty(),
{
    RegulationReminderRecord {
        id,
        regulation_id: regulation_id.to_owned(),
        entry_id: opt_to_owned(entry_id),
        created_by: created_by.to_owned(),
        created_by_name: name_or_empty(created_by_name),
        target_employee_id: target_employee_id.to_owned(),
        target_name: name_or_empty(target_name),
        remind_at: remind_at.to_owned(),
        note,
        fired: false,
        created_at: String::new(),
    }
}

/// Access to a partner's own regulations and catalogue: the partner's own
/// accounts, and administrators.
pub open spec fn partner_org_access(employee: Option<EmployeeRecord>, partner_id: Seq<char>) -> Result<
    (),
    CrmError,
> {
    match employee {
        None => Err(CrmError::EmployeeNotFound),
        Some(e) => if e.is_partner {
            if e.partner_id matches Some(p) && p@ == partner_id {
                Ok(())
            } else {
                Err(CrmError::Forbidden)
            }
        } else if !e.is_admin {
            Err(CrmError::Forbidden)
        } else {
            Ok(())
        },
    }
}

/// Decides access to the partner `partner_id`'s own workspace.
pub fn check_partner_org_access(employee: &Option<EmployeeRecord>, partner_id: &str) -> (r: Result<
    (),
    CrmError,
>)
    ensures
        r == partner_org_access(*employee, partner_id@),
{
    match employee {
        None => Err(CrmError::EmployeeNotFound),
        Some(e) => {
            if e.is_partner {
                if opt_str_eq(&e.partner_id, partner_id) {
                    Ok(())
                } else {
                    Err(CrmError::Forbidden)
                }
            } else if !e.is_admin {
                Err(CrmError::Forbidden)
            } else {
                Ok(())
            }
        },
    }
}

/// The assistant of a partner's regulation: when a partner account sets it,
/// it must be an administrator; when an administrator sets it, it must be an
/// account of that partner.  (`candidate` is the proposed assistant's record,
/// `None` when no such employee exists.)
pub fn check_partner_assistant(
    acting_is_partner: bool,
    partner_id: &str,
    assistant_id: Option<&str>,
    candidate: &Option<EmployeeRecord>,
) -> (r: Result<Option<String>, CrmError>)
    ensures
        assistant_id is None ==> r == Ok::<Option<String>, CrmError>(None),
        assistant_id is Some ==> match *candidate {
            None => r == Err::<Option<String>, CrmError>(CrmError::EmployeeNotFound),
            Some(c) => if acting_is_partner && !c.is_admin {
                r == Err::<Option<String>, CrmError>(CrmError::AssistantMustBeAdmin)
            } else if !acting_is_partner && !(c.partner_id matches Some(p) && p@ == partner_id@) {
                r == Err::<Option<String>, CrmError>(CrmError::AssistantMustBePartnerStaff)
            } else {
                r matches Ok(Some(a)) && a@ == assistant_id->0@
            },
        },
{
    let aid = match assistant_id {
        None => return Ok(None),
        Some(a) => a,
    };
    let c = match candidate {
        None => return Err(CrmError::EmployeeNotFound),
        Some(c) => c,
    };
    if acting_is_partner {
        if !c.is_admin {
            return Err(CrmError::AssistantMustBeAdmin);
        }
    } else if !opt_str_eq(&c.partner_id, partner_id) {
        return Err(CrmError::AssistantMustBePartnerStaff);
    }
    Ok(Some(aid.to_owned()))
}

/// Access to one of a partner's regulations: it must exist (`reg_partner_id`
/// is its partner, `None` when not found), and the partner workspace must be
/// open to the actor.
pub fn check_partner_regulation_access(reg_partner_id: Option<&str>, employee: &Option<EmployeeRecord>) -> (r:
    Result<(), CrmError>)
    ensures
        r == (match reg_partner_id {
            None => Err(CrmError::RegulationNotFound),
            Some(p) => partner_org_access(*employee, p@),
        }),
{
    match reg_partner_id {
        None => Err(CrmError::RegulationNotFound),
        Some(p) => check_partner_org_access(employee, p),
    }
}

/// Saving a partner's regulation once access is settled (`access`): the
/// title must not be blank and the status `active` or `closed`; the closing
/// time follows the same rule as for the company's regulations.
pub fn check_partner_regulation_update(
    access: Result<(), CrmError>,
    title: &str,
    old_status: &str,
    status: &str,
) -> (r: Result<ClosedAt, CrmError>)
    ensures
        access is Err ==> r == Err::<ClosedAt, CrmError>(access->Err_0),
        access is Ok ==> r == (if trimmed(title@).len() == 0 {
            Err(CrmError::RegulationTitleRequired)
        } else {
            regulation_update_check(true, true, title@, old_status@, status@)
        }),
{
    if let Err(e) = access {
        return Err(e);
    }
    check_regulation_update(true, true, title, old_status, status)
}

/// Posting an entry in a partner's regulation once access is settled: a
/// closed regulation takes none, and the text must not be blank.  Gives the
/// trimmed text.
pub fn check_partner_entry(access: Result<(), CrmError>, closed: bool, content: &str) -> (r: Result<
    String,
    CrmError,
>)
    ensures
        access is Err ==> r == Err::<String, CrmError>(access->Err_0),
        access is Ok && closed ==> r == Err::<String, CrmError>(CrmError::RegulationClosedEntries),
        access is Ok && !closed && trimmed(content@).len() == 0 ==> r == Err::<String, CrmError>(
            CrmError::EmptyEntry,
        ),
        access is Ok && !closed && trimmed(content@).len() > 0 ==> (r matches Ok(c) && c@ == trimmed(
            content@,
        )),
{
    if let Err(e) = access {
        return Err(e);
    }
    if closed {
        return Err(CrmError::RegulationClosedEntries);
    }
    if is_blank(content) {
        return Err(CrmError::EmptyEntry);
    }
    Ok(trimmed_string(content))
}

/// What happened in a partner's regulation.
#[derive(Clone, Copy, Debug, PartialEq, Eq, Structural)]
pub enum PartnerEvent {
    NewRegulation,
    NewEntry,
    NewReply,
}

/// Who hears about activity in a partner's regulation, and the title: when a
/// partner account acts, all administrators; otherwise every account of
/// that partner.
#[derive(Clone, Debug)]
pub struct PartnerNotice {
    pub to_all_admins: bool,
    pub title: String,
}

/// Decides the notification about activity in a partner's regulation.
pub fn partner_notice(event: PartnerEvent, actor_name: &str, actor_is_partner: bool) -> (r: PartnerNotice)
    ensures
        r.to_all_admins == actor_is_partner,
        r.title@ == (match event {
            PartnerEvent::NewRegulation => "Новый регламент от "@,
            PartnerEvent::NewEntry => "Новая запись в регламенте от "@,
            PartnerEvent::NewReply => "Новый ответ в регламенте от "@,
        }) + actor_name@,
{
    let prefix: &str = match event {
        PartnerEvent::NewRegulation => "Новый регламент от ",
        PartnerEvent::NewEntry => "Новая запись в регламенте от ",
        PartnerEvent::NewReply => "Новый ответ в регламенте от ",
    };
    PartnerNotice { to_all_admins: actor_is_partner, title: concat(prefix, actor_name) }
}

} // verus!
