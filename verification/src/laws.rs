//! Properties of the library as a whole, each proved over the specifications
//! the functions are verified against.
use vstd::prelude::*;
use crate::absence::may_resolve_absence;
use crate::agents::stage_change_check;
use crate::chat::{channel_of, channel_access, someone_else_typing, ChannelFacts, ChannelView, TYPING_TTL_MS};
use crate::employees::{bcrypt_accepts, login_check};
use crate::errors::CrmError;
use crate::records::{EmployeeRecord, ReportExportSettingsRecord};
use crate::reports::{session_seconds, stamp_seconds, total_seconds, StoredSession};
use crate::settings::{export_due, ClockReading};
use crate::session::{authorization, caller_mismatch, is_caller_field, is_public_command, PayloadField};
use crate::tasks::{new_task_check, status_plan_ok, Space, StatusPlan};

use crate::text::{count_char, count_char_upto, find_from};

verus! {

/// A request for a command that needs a session is refused when it carries
/// no open session.
pub proof fn law_no_session_no_access(cmd: Seq<char>, fields: Option<Seq<PayloadField>>)
    requires
        !is_public_command(cmd),
    ensures
        authorization(cmd, None, fields) == Err::<Option<Seq<char>>, CrmError>(CrmError::NotSignedIn),
{
}

/// A signed-in employee's request goes through, acting as that employee, as
/// long as every caller field names that employee.
pub proof fn law_own_requests_pass(cmd: Seq<char>, owner: Seq<char>, fields: Seq<PayloadField>)
    requires
        !is_public_command(cmd),
        forall|i: int|
            0 <= i < fields.len() && is_caller_field(cmd, #[trigger] fields[i].key@) ==> (
            fields[i].text matches Some(t) && t@ == owner),
    ensures
        authorization(cmd, Some(owner), Some(fields)) == Ok::<Option<Seq<char>>, CrmError>(
            Some(owner),
        ),
{
}

/// A signed-in employee cannot act in someone else's name: a request whose
/// caller field names anyone else is refused.
pub proof fn law_no_impersonation(cmd: Seq<char>, owner: Seq<char>, fields: Seq<PayloadField>, i: int)
    requires
        !is_public_command(cmd),
        0 <= i < fields.len(),
        is_caller_field(cmd, fields[i].key@),
        !(fields[i].text matches Some(t) && t@ == owner),
    ensures
        authorization(cmd, Some(owner), Some(fields)) == Err::<Option<Seq<char>>, CrmError>(
            CrmError::CallerMismatch,
        ),
{
    assert(caller_mismatch(cmd, fields, owner));
}

/// Commands that open a session need none.
pub proof fn law_public_commands_pass(
    cmd: Seq<char>,
    owner: Option<Seq<char>>,
    fields: Option<Seq<PayloadField>>,
)
    requires
        is_public_command(cmd),
    ensures
        authorization(cmd, owner, fields) == Ok::<Option<Seq<char>>, CrmError>(None),
{
}

/// A password accepted against the stored hash signs in, unless the account
/// is blocked; in particular a password just set signs in (the new hash is
/// one the new password matches).
pub proof fn law_set_password_signs_in(password: Seq<char>, hash: Seq<char>)
    requires
        bcrypt_accepts(password, hash),
    ensures
        login_check(Some(hash), password, false) == Ok::<(), CrmError>(()),
        login_check(Some(hash), password, true) == Err::<(), CrmError>(CrmError::AccountBlocked),
{
}

/// A blocked account never signs in, whatever the password.
pub proof fn law_blocked_never_signs_in(hash: Option<Seq<char>>, password: Seq<char>)
    ensures
        login_check(hash, password, true) is Err,
{
}

/// Administrators and the employee's manager may always decide on an
/// absence request; someone who is neither an administrator, nor the
/// manager, nor the manager's deputy, nor the department's deputy never may.
pub proof fn law_absence_deciders(
    actor_id: Seq<char>,
    manager_id: Option<Seq<char>>,
    manager_deputy_id: Option<Seq<char>>,
    dept_deputy_id: Option<Seq<char>>,
)
    ensures
        may_resolve_absence(actor_id, true, manager_id, manager_deputy_id, dept_deputy_id),
        manager_id == Some(actor_id) ==> may_resolve_absence(
            actor_id,
            false,
            manager_id,
            manager_deputy_id,
            dept_deputy_id,
        ),
        manager_id != Some(actor_id) && manager_deputy_id != Some(actor_id) && dept_deputy_id
            != Some(actor_id) ==> !may_resolve_absence(
            actor_id,
            false,
            manager_id,
            manager_deputy_id,
            dept_deputy_id,
        ),
{
}

/// A lead made into a client stays one: every later change of its stage is
/// refused.
pub proof fn law_converted_is_final(actor_is_admin: bool, new_stage: Seq<char>)
    ensures
        stage_change_check(actor_is_admin, new_stage, Some("converted"@)) is Err,
{
}

/// A closed regulation takes no new tasks, whoever posts them.
pub proof fn law_closed_regulation_is_read_only(
    is_admin: bool,
    is_owner: bool,
    is_member: bool,
    actor_id: Seq<char>,
    target_id: Seq<char>,
    content: Seq<char>,
)
    ensures
        new_task_check(Space::Regulation, true, is_admin, is_owner, is_member, actor_id, target_id, content)
            == Err::<Seq<char>, CrmError>(CrmError::RegulationClosedEntries),
{
}

/// A task done while addressed to someone other than its author goes back
/// to its author.
pub proof fn law_done_task_returns_to_author(
    r: Result<StatusPlan, CrmError>,
    is_admin: bool,
    is_owner: bool,
    actor_id: Seq<char>,
    author_id: Seq<char>,
    target_id: Seq<char>,
)
    requires
        status_plan_ok(r, is_admin, is_owner, actor_id, author_id, target_id, "done"@),
        target_id != author_id,
        r is Ok,
    ensures
        r->Ok_0.return_to matches Some(a) && a@ == author_id,
{
}

/// Partner accounts never read or write the general chat, direct chats or
/// chat groups.
pub proof fn law_partners_stay_in_their_thread(
    e: EmployeeRecord,
    employee_id: Seq<char>,
    channel: ChannelView,
    facts: ChannelFacts,
)
    requires
        e.is_partner,
        !(channel is Partner),
    ensures
        channel_access(Some(e), employee_id, channel, facts) is Err,
{
}

/// A direct chat is open only to its two sides.
pub proof fn law_direct_chat_is_private(
    e: EmployeeRecord,
    employee_id: Seq<char>,
    first: Seq<char>,
    second: Seq<char>,
    facts: ChannelFacts,
)
    requires
        employee_id != first,
        employee_id != second,
    ensures
        channel_access(Some(e), employee_id, ChannelView::Direct { first, second }, facts) is Err,
{
}


/// A session just opened for an employee lets that employee's requests
/// through; once closed it lets nothing through that needs a session.
pub proof fn law_session_lifecycle(
    sessions: Map<Seq<char>, Seq<char>>,
    token: Seq<char>,
    employee_id: Seq<char>,
    cmd: Seq<char>,
)
    requires
        !is_public_command(cmd),
    ensures
        sessions.insert(token, employee_id).contains_key(token),
        authorization(cmd, Some(sessions.insert(token, employee_id)[token]), None) == Ok::<
            Option<Seq<char>>,
            CrmError,
        >(Some(employee_id)),
        !sessions.remove(token).contains_key(token),
{
}

/// Right after `a` marks that it is typing in a channel where nobody else
/// has a mark, `a` never sees itself typing, and anyone else sees `a` typing
/// until the mark lapses five seconds later.
pub proof fn law_typing_mark_lasts(
    marks: Map<(Seq<char>, Seq<char>), u64>,
    channel: Seq<char>,
    a: Seq<char>,
    b: Seq<char>,
    t0: u64,
    now: u64,
)
    requires
        t0 <= u64::MAX - TYPING_TTL_MS,
        forall|t: Seq<char>| #[trigger] marks.contains_key((channel, t)) ==> t == a,
    ensures
        ({
            let after = marks.insert((channel, a), (t0 + TYPING_TTL_MS) as u64);
            &&& !someone_else_typing(after, channel, a, now)
            &&& someone_else_typing(after, channel, b, now) == (b != a && now < t0 + TYPING_TTL_MS)
        }),
{
    let after = marks.insert((channel, a), (t0 + TYPING_TTL_MS) as u64);
    if b != a && now < t0 + TYPING_TTL_MS {
        assert(after.contains_key((channel, a)));
    }
}

/// A mark by one typer does not hide another's: when `a` is typing in a
/// channel and then `b` starts typing there too, `b` still sees `a` typing
/// while `a`'s mark lasts.
pub proof fn law_typing_marks_coexist(
    marks: Map<(Seq<char>, Seq<char>), u64>,
    channel: Seq<char>,
    a: Seq<char>,
    b: Seq<char>,
    a_until: u64,
    b_until: u64,
    now: u64,
)
    requires
        a != b,
        now < a_until,
    ensures
        someone_else_typing(
            marks.insert((channel, a), a_until).insert((channel, b), b_until),
            channel,
            b,
            now,
        ),
{
    let after = marks.insert((channel, a), a_until).insert((channel, b), b_until);
    assert(after.contains_key((channel, a)));
}

/// Either side of a direct chat may use it: a staff member who is the first
/// or the second id of a direct channel whose two sides are staff is let in.
pub proof fn law_direct_chat_open_to_both_sides(
    e: EmployeeRecord,
    employee_id: Seq<char>,
    first: Seq<char>,
    second: Seq<char>,
    facts: ChannelFacts,
)
    requires
        !e.is_partner,
        employee_id == first || employee_id == second,
        facts.first_is_staff,
        facts.second_is_staff,
    ensures
        channel_access(Some(e), employee_id, ChannelView::Direct { first, second }, facts) == Ok::<
            (),
            CrmError,
        >(()),
{
}

/// A session still open counts up to now: when it began inside the period
/// and now is inside the period too, it counts exactly the seconds from
/// sign-in to now, whatever the end of the period.
pub proof fn law_open_session_counts_to_now(
    session: StoredSession,
    login: i64,
    period_start: i64,
    period_end: i64,
    now: i64,
)
    requires
        session.logout_at is None,
        stamp_seconds(session.login_at@) == Some(login),
        period_start <= login <= now <= period_end,
    ensures
        session_seconds(session, period_start, period_end, now) == now - login,
{
}

/// Whether a session had ended by `now`: it is open, or its sign-out
/// cannot be read, or it signed out at or before `now`.
pub open spec fn ended_by(s: StoredSession, now: i64) -> bool {
    match s.logout_at {
        None => true,
        Some(o) => match stamp_seconds(o@) {
            None => true,
            Some(t) => t <= now,
        },
    }
}

/// The end of a period that has not come yet does not change the seconds
/// worked: for sessions that ended by now (open ones included), any two
/// period ends not before now give the same total.
pub proof fn law_future_period_end_does_not_count(
    sessions: Seq<StoredSession>,
    period_start: i64,
    end_a: i64,
    end_b: i64,
    now: i64,
)
    requires
        now <= end_a,
        now <= end_b,
        forall|i: int| 0 <= i < sessions.len() ==> ended_by(#[trigger] sessions[i], now),
    ensures
        total_seconds(sessions, period_start, end_a, now) == total_seconds(
            sessions,
            period_start,
            end_b,
            now,
        ),
    decreases sessions.len(),
{
    if sessions.len() > 0 {
        let rest = sessions.drop_last();
        assert forall|i: int| 0 <= i < rest.len() implies ended_by(#[trigger] rest[i], now) by {
            assert(rest[i] == sessions[i]);
        }
        law_future_period_end_does_not_count(rest, period_start, end_a, end_b, now);
        assert(ended_by(sessions[sessions.len() - 1], now));
    }
}

/// In fixed-day mode the export runs only on that day of the month: on any
/// other day it is never due; on that day, at the chosen minute, switched
/// on, not yet run today and with an administrator, it is due.
pub proof fn law_export_only_on_the_fixed_day(
    s: ReportExportSettingsRecord,
    now: ClockReading,
    last_fired: Option<Seq<char>>,
    has_admin: bool,
)
    requires
        s.day_mode@ == "fixed_day"@,
    ensures
        now.day as int != s.fixed_day as int ==> !export_due(s, now, last_fired, has_admin),
        now.day as int == s.fixed_day as int && s.enabled && now.time_hhmm@ == s.time_hhmm@
            && last_fired != Some(now.today@) && has_admin ==> export_due(
            s,
            now,
            last_fired,
            has_admin,
        ),
{
}

/// The export runs at most once a day: once it has run today it is not due
/// again, whatever the settings and the time.
pub proof fn law_export_once_a_day(
    s: ReportExportSettingsRecord,
    now: ClockReading,
    has_admin: bool,
)
    ensures
        !export_due(s, now, Some(now.today@), has_admin),
{
}

/// An administrator may move a lead that is not yet a client to any of the
/// five stages: new, thinking, agreed, rejected, converted.
pub proof fn law_admin_moves_open_leads(current: Seq<char>, new_stage: Seq<char>)
    requires
        current != "converted"@,
        new_stage == "new"@ || new_stage == "thinking"@ || new_stage == "agreed"@ || new_stage
            == "rejected"@ || new_stage == "converted"@,
    ensures
        stage_change_check(true, new_stage, Some(current)) == Ok::<(), CrmError>(()),
{
}

/// The deputy of the employee's department may always decide on the
/// employee's absence, whoever the employee's manager is (or whether there
/// is one); so may the manager's own deputy when there is a manager.
pub proof fn law_department_deputy_decides(
    actor_id: Seq<char>,
    manager_id: Option<Seq<char>>,
    manager_deputy_id: Option<Seq<char>>,
    dept_deputy_id: Option<Seq<char>>,
)
    ensures
        dept_deputy_id == Some(actor_id) ==> may_resolve_absence(
            actor_id,
            false,
            manager_id,
            manager_deputy_id,
            dept_deputy_id,
        ),
        manager_id is Some && manager_deputy_id == Some(actor_id) ==> may_resolve_absence(
            actor_id,
            false,
            manager_id,
            manager_deputy_id,
            dept_deputy_id,
        ),
{
}

/// Who gets into the other channels: every staff member into the general
/// chat; a staff member who belongs to a group into that group; a partner
/// account into its own partner's thread, and an administrator into any
/// partner's thread (when the partner exists).
pub proof fn law_channel_access_grants(
    e: EmployeeRecord,
    employee_id: Seq<char>,
    group_id: Seq<char>,
    partner_id: Seq<char>,
    facts: ChannelFacts,
)
    ensures
        !e.is_partner ==> channel_access(Some(e), employee_id, ChannelView::General, facts) == Ok::<
            (),
            CrmError,
        >(()),
        !e.is_partner && facts.is_group_member ==> channel_access(
            Some(e),
            employee_id,
            ChannelView::Group { group_id },
            facts,
        ) == Ok::<(), CrmError>(()),
        facts.partner_exists && e.is_partner && (e.partner_id matches Some(p) && p@ == partner_id)
            ==> channel_access(Some(e), employee_id, ChannelView::Partner { partner_id }, facts)
            == Ok::<(), CrmError>(()),
        facts.partner_exists && !e.is_partner && e.is_admin ==> channel_access(
            Some(e),
            employee_id,
            ChannelView::Partner { partner_id },
            facts,
        ) == Ok::<(), CrmError>(()),
        !e.is_partner && !e.is_admin ==> channel_access(
            Some(e),
            employee_id,
            ChannelView::Partner { partner_id },
            facts,
        ) is Err,
{
}

/// A finished session counts its length where it lies inside the period,
/// and nothing when it lies wholly before or after the period.
pub proof fn law_closed_session_counts_its_length(
    session: StoredSession,
    login: i64,
    logout: i64,
    period_start: i64,
    period_end: i64,
    now: i64,
)
    requires
        session.logout_at matches Some(o) && stamp_seconds(o@) == Some(logout),
        stamp_seconds(session.login_at@) == Some(login),
    ensures
        period_start <= login <= logout <= period_end ==> session_seconds(
            session,
            period_start,
            period_end,
            now,
        ) == logout - login,
        logout <= period_start || period_end <= login ==> session_seconds(
            session,
            period_start,
            period_end,
            now,
        ) == 0,
        login <= period_start <= period_end <= logout ==> session_seconds(
            session,
            period_start,
            period_end,
            now,
        ) == period_end - period_start,
{
}

/// The seconds of two lists of sessions together are the sum of each.
pub proof fn law_worked_seconds_add_up(
    a: Seq<StoredSession>,
    b: Seq<StoredSession>,
    period_start: i64,
    period_end: i64,
    now: i64,
)
    ensures
        total_seconds(a + b, period_start, period_end, now) == total_seconds(
            a,
            period_start,
            period_end,
            now,
        ) + total_seconds(b, period_start, period_end, now),
    decreases b.len(),
{
    if b.len() == 0 {
        assert(a + b =~= a);
    } else {
        law_worked_seconds_add_up(a, b.drop_last(), period_start, period_end, now);
        assert((a + b).drop_last() =~= a + b.drop_last());
        assert((a + b).last() == b.last());
    }
}

/// In last-day mode the export runs only on the last day of a month: on any
/// other day it is never due; it is never due while switched off or without
/// an administrator, nor at another minute than the chosen one.
pub proof fn law_export_on_the_last_day(
    s: ReportExportSettingsRecord,
    now: ClockReading,
    last_fired: Option<Seq<char>>,
    has_admin: bool,
)
    ensures
        s.day_mode@ != "fixed_day"@ && !now.last_day_of_month ==> !export_due(
            s,
            now,
            last_fired,
            has_admin,
        ),
        s.day_mode@ != "fixed_day"@ && now.last_day_of_month && s.enabled && now.time_hhmm@
            == s.time_hhmm@ && last_fired != Some(now.today@) && has_admin ==> export_due(
            s,
            now,
            last_fired,
            has_admin,
        ),
        !s.enabled || !has_admin || now.time_hhmm@ != s.time_hhmm@ ==> !export_due(
            s,
            now,
            last_fired,
            has_admin,
        ),
{
}

/// Only administrators move leads, and only to one of the five stages.
pub proof fn law_lead_stage_changes_are_guarded(
    actor_is_admin: bool,
    new_stage: Seq<char>,
    current: Option<Seq<char>>,
)
    ensures
        !actor_is_admin ==> stage_change_check(actor_is_admin, new_stage, current) is Err,
        !(new_stage == "new"@ || new_stage == "thinking"@ || new_stage == "agreed"@ || new_stage
            == "rejected"@ || new_stage == "converted"@) ==> stage_change_check(
            actor_is_admin,
            new_stage,
            current,
        ) is Err,
        current is None ==> stage_change_check(actor_is_admin, new_stage, current) is Err,
{
}

proof fn lemma_count_colon(a: Seq<char>, b: Seq<char>, n: int)
    requires
        forall|i: int| 0 <= i < a.len() ==> a[i] != ':',
        forall|i: int| 0 <= i < b.len() ==> b[i] != ':',
        0 <= n <= a.len() + 1 + b.len(),
    ensures
        count_char_upto(a + seq![':'] + b, ':', n) == (if n > a.len() { 1nat } else { 0nat }),
    decreases n,
{
    let t = a + seq![':'] + b;
    if n > 0 {
        lemma_count_colon(a, b, n - 1);
        if n - 1 < a.len() {
            assert(t[n - 1] == a[n - 1]);
        } else if n - 1 > a.len() {
            assert(t[n - 1] == b[n - 1 - a.len() - 1]);
        }
    }
}

proof fn lemma_find_colon(a: Seq<char>, b: Seq<char>, i: int)
    requires
        forall|k: int| 0 <= k < a.len() ==> a[k] != ':',
        0 <= i <= a.len(),
    ensures
        find_from(a + seq![':'] + b, ':', i) == a.len(),
    decreases a.len() - i,
{
    let t = a + seq![':'] + b;
    if i < a.len() {
        assert(t[i] == a[i]);
        lemma_find_colon(a, b, i + 1);
    } else {
        assert(t[i] == ':');
    }
}

/// The direct channel of two ids (neither holding `:`) is read back as the
/// direct chat between exactly those two: `dm:<first>:<second>`.
pub proof fn law_direct_channel_names(first: Seq<char>, second: Seq<char>)
    requires
        forall|i: int| 0 <= i < first.len() ==> first[i] != ':',
        forall|i: int| 0 <= i < second.len() ==> second[i] != ':',
    ensures
        channel_of("dm:"@ + first + ":"@ + second) == (ChannelView::Direct { first, second }),
{
    reveal_strlit("dm:");
    reveal_strlit(":");
    reveal_strlit("general");
    let name = "dm:"@ + first + ":"@ + second;
    let t = first + seq![':'] + second;
    assert(name =~= "dm:"@ + t);
    assert(name[0] == 'd');
    assert("general"@[0] == 'g');
    assert(name != "general"@);
    assert(name.subrange(0, 3) =~= "dm:"@);
    assert(name.subrange("dm:"@.len() as int, name.len() as int) =~= t);
    lemma_count_colon(first, second, t.len() as int);
    lemma_find_colon(first, second, 0);
    assert(t.subrange(0, first.len() as int) =~= first);
    assert(t.subrange(first.len() as int + 1, t.len() as int) =~= second);
}

} // verus!
