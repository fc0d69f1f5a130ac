//! Regulations and projects share one way of working: members post entries
//! (tasks) in a thread, each addressed to a member; tasks are handed on,
//! closed and answered.  This module holds the rules both follow; they differ
//! only in wording, and in that a closed regulation takes no new posts.
use vstd::prelude::*;
use crate::chat::{opt_to_owned, opt_view, opt_view_string};
use crate::errors::CrmError;
use crate::records::{
    ProjectChatMessageRecord, ProjectChatReplyRecord, RegulationEntryRecord, RegulationReplyRecord,
};
use crate::text::{concat3, is_blank, str_eq, trimmed, trimmed_string};

verus! {

/// Where a task lives.
#[derive(Clone, Copy, Debug, PartialEq, Eq, Structural)]
pub enum Space {
    Regulation,
    Project,
}

/// Refusal for someone who is not a member.
pub open spec fn not_member(space: Space) -> CrmError {
    match space {
        Space::Regulation => CrmError::NotRegulationMember,
        Space::Project => CrmError::NotProjectMember,
    }
}

/// Refusal for a member who addresses a task to someone else without
/// managing the space.
pub open spec fn owner_assigns_only(space: Space) -> CrmError {
    match space {
        Space::Regulation => CrmError::RegulationOwnerAssignsOnly,
        Space::Project => CrmError::ProjectOwnerAssignsOnly,
    }
}

/// Refusal for a blank task.
pub open spec fn empty_task(space: Space) -> CrmError {
    match space {
        Space::Regulation => CrmError::EmptyEntry,
        Space::Project => CrmError::EmptyProjectMessage,
    }
}

/// Refusal for handing a task to someone outside the space.
pub open spec fn target_not_member(space: Space) -> CrmError {
    match space {
        Space::Regulation => CrmError::TargetNotRegulationMember,
        Space::Project => CrmError::TargetNotProjectMember,
    }
}

/// A space is managed by its owner and by administrators; its participants
/// are its managers and its members.
pub open spec fn manages(is_admin: bool, is_owner: bool) -> bool {
    is_admin || is_owner
}

/// Posting a new task: a closed regulation takes none; the author must
/// participate; only a manager may address a task to someone else; the text
/// must not be blank.  Gives the trimmed text.
pub open spec fn new_task_check(
    space: Space,
    closed: bool,
    is_admin: bool,
    is_owner: bool,
    is_member: bool,
    actor_id: Seq<char>,
    target_id: Seq<char>,
    content: Seq<char>,
) -> Result<Seq<char>, CrmError> {
    if closed {
        Err(CrmError::RegulationClosedEntries)
    } else if !(manages(is_admin, is_owner) || is_member) {
        Err(not_member(space))
    } else if target_id != actor_id && !manages(is_admin, is_owner) {
        Err(owner_assigns_only(space))
    } else if trimmed(content).len() == 0 {
        Err(empty_task(space))
    } else {
        Ok(trimmed(content))
    }
}

/// Checks a new task (`closed` is whether the regulation is closed; a project
/// is never closed to posts).
pub fn check_new_task(
    space: Space,
    closed: bool,
    is_admin: bool,
    is_owner: bool,
    is_member: bool,
    actor_id: &str,
    target_id: &str,
    content: &str,
) -> (r: Result<String, CrmError>)
    requires
        space == Space::Project ==> !closed,
    ensures
        match (r, new_task_check(space, closed, is_admin, is_owner, is_member, actor_id@, target_id@, content@)) {
            (Ok(s), Ok(t)) => s@ == t,
            (Err(e), Err(f)) => e == f,
            _ => false,
        },
{
    let is_manager = is_admin || is_owner;
    if closed {
        return Err(CrmError::RegulationClosedEntries);
    }
    if !(is_manager || is_member) {
        return Err(
            match space {
                Space::Regulation => CrmError::NotRegulationMember,
                Space::Project => CrmError::NotProjectMember,
            },
        );
    }
    if !str_eq(target_id, actor_id) && !is_manager {
        return Err(
            match space {
                Space::Regulation => CrmError::RegulationOwnerAssignsOnly,
                Space::Project => CrmError::ProjectOwnerAssignsOnly,
            },
        );
    }
    if is_blank(content) {
        return Err(
            match space {
                Space::Regulation => CrmError::EmptyEntry,
                Space::Project => CrmError::EmptyProjectMessage,
            },
        );
    }
    Ok(trimmed_string(content))
}

/// Why someone is told about a task.
#[derive(Clone, Copy, Debug, PartialEq, Eq, Structural)]
pub enum TaskNotice {
    /// A task was addressed to them.
    Assigned,
    /// A task was handed on to them.
    Reassigned,
    /// Their task was done and came back to them.
    Returned,
}

/// The wording before the name of the space in a task notification.
pub open spec fn notice_prefix(space: Space, notice: TaskNotice) -> Seq<char> {
    match (space, notice) {
        (Space::Regulation, TaskNotice::Assigned) => "Вам поставили задачу в регламенте «"@,
        (Space::Regulation, TaskNotice::Reassigned) => "Вам передали задачу в регламенте «"@,
        (Space::Regulation, TaskNotice::Returned) => "Задача выполнена и возвращена вам в регламенте «"@,
        (Space::Project, TaskNotice::Assigned) => "Вам поставили задачу в проекте «"@,
        (Space::Project, TaskNotice::Reassigned) => "Вам передали задачу в проекте «"@,
        (Space::Project, TaskNotice::Returned) => "Задача выполнена и возвращена вам в проекте «"@,
    }
}

/// Title of a task notification: the wording, then the space's name in
/// guillemets.
pub fn task_notice_title(space: Space, notice: TaskNotice, name: &str) -> (t: String)
    ensures
        t@ == notice_prefix(space, notice) + name@ + "»"@,
{
    let prefix: &str = match (space, notice) {
        (Space::Regulation, TaskNotice::Assigned) => "Вам поставили задачу в регламенте «",
        (Space::Regulation, TaskNotice::Reassigned) => "Вам передали задачу в регламенте «",
        (Space::Regulation, TaskNotice::Returned) => "Задача выполнена и возвращена вам в регламенте «",
        (Space::Project, TaskNotice::Assigned) => "Вам поставили задачу в проекте «",
        (Space::Project, TaskNotice::Reassigned) => "Вам передали задачу в проекте «",
        (Space::Project, TaskNotice::Returned) => "Задача выполнена и возвращена вам в проекте «",
    };
    concat3(prefix, name, "»")
}

/// The notification sent when a new task is addressed to someone.
#[derive(Clone, Debug)]
pub struct TaskNotification {
    /// Who is told.
    pub recipient: String,
    /// The kind of notification.
    pub kind: String,
    pub title: String,
    /// The task's text.
    pub body: String,
    /// The kind and id of the space the task lives in.
    pub related_type: String,
    pub related_id: String,
}

/// The kind of notification about a new task in a space.
pub open spec fn assigned_kind(space: Space) -> Seq<char> {
    match space {
        Space::Regulation => "regulation_entry_assigned"@,
        Space::Project => "project_message_assigned"@,
    }
}

/// The kind of entity a task notification links to.
pub open spec fn space_entity(space: Space) -> Seq<char> {
    match space {
        Space::Regulation => "regulation"@,
        Space::Project => "project"@,
    }
}

/// Who hears of a new task: its addressee, exactly when that is not the
/// author, with the space's "task for you" title, the task's trimmed text,
/// and a link to the space.
pub fn new_task_notification(
    space: Space,
    author_id: &str,
    target_id: &str,
    space_id: &str,
    space_name: &str,
    content: &str,
) -> (r: Option<TaskNotification>)
    ensures
        r is None <==> target_id@ == author_id@,
        r matches Some(n) ==> ({
            &&& n.recipient@ == target_id@
            &&& n.kind@ == assigned_kind(space)
            &&& n.title@ == notice_prefix(space, TaskNotice::Assigned) + space_name@ + "»"@
            &&& n.body@ == trimmed(content@)
            &&& n.related_type@ == space_entity(space)
            &&& n.related_id@ == space_id@
        }),
{
    if str_eq(target_id, author_id) {
        return None;
    }
    let (kind, entity): (&str, &str) = match space {
        Space::Regulation => ("regulation_entry_assigned", "regulation"),
        Space::Project => ("project_message_assigned", "project"),
    };
    Some(
        TaskNotification {
            recipient: target_id.to_owned(),
            kind: kind.to_owned(),
            title: task_notice_title(space, TaskNotice::Assigned, space_name),
            body: trimmed_string(content),
            related_type: entity.to_owned(),
            related_id: space_id.to_owned(),
        },
    )
}

/// Handing a task on: allowed to managers and to the task's author; the new
/// addressee must be the owner or a member.
pub fn check_task_reassign(
    space: Space,
    is_admin: bool,
    is_owner: bool,
    is_author: bool,
    target_is_owner: bool,
    target_is_member: bool,
) -> (r: Result<(), CrmError>)
    ensures
        r == (if !manages(is_admin, is_owner) && !is_author {
            Err(CrmError::Forbidden)
        } else if !target_is_owner && !target_is_member {
            Err(target_not_member(space))
        } else {
            Ok(())
        }),
{
    if !is_admin && !is_owner && !is_author {
        Err(CrmError::Forbidden)
    } else if !target_is_owner && !target_is_member {
        Err(
            match space {
                Space::Regulation => CrmError::TargetNotRegulationMember,
                Space::Project => CrmError::TargetNotProjectMember,
            },
        )
    } else {
        Ok(())
    }
}

/// The statuses a task may have.
pub open spec fn is_task_status(s: Seq<char>) -> bool {
    s == "open"@ || s == "done"@ || s == "cancelled"@
}

/// A new status must be `open`, `done` or `cancelled`.
pub fn check_task_status(new_status: &str) -> (r: Result<(), CrmError>)
    ensures
        r == (if is_task_status(new_status@) {
            Ok(())
        } else {
            Err(CrmError::InvalidTaskStatus)
        }),
{
    if str_eq(new_status, "open") || str_eq(new_status, "done") || str_eq(new_status, "cancelled") {
        Ok(())
    } else {
        Err(CrmError::InvalidTaskStatus)
    }
}

/// What a status change does to a task.
#[derive(Clone, Debug)]
pub struct StatusPlan {
    /// The task's new status.
    pub status: String,
    /// The task's new addressee, when it changes.
    pub return_to: Option<String>,
    /// Whether the author is told that the task came back.
    pub notify_author: bool,
}

/// Changing a task's status is allowed to managers, its author and its
/// addressee.  A task that is done while addressed to someone other than its
/// author goes back to the author, who is told unless the author made the
/// change.
pub open spec fn status_plan_ok(
    r: Result<StatusPlan, CrmError>,
    is_admin: bool,
    is_owner: bool,
    actor_id: Seq<char>,
    author_id: Seq<char>,
    target_id: Seq<char>,
    new_status: Seq<char>,
) -> bool {
    if !manages(is_admin, is_owner) && author_id != actor_id && target_id != actor_id {
        r == Err::<StatusPlan, CrmError>(CrmError::Forbidden)
    } else {
        r matches Ok(p) && p.status@ == new_status && if new_status == "done"@ && target_id
            != author_id {
            opt_view_string(p.return_to) == Some(author_id) && p.notify_author == (author_id
                != actor_id)
        } else {
            p.return_to is None && !p.notify_author
        }
    }
}

/// Decides a status change (the status already checked).
pub fn plan_task_status(
    is_admin: bool,
    is_owner: bool,
    actor_id: &str,
    author_id: &str,
    target_id: &str,
    new_status: &str,
) -> (r: Result<StatusPlan, CrmError>)
    ensures
        status_plan_ok(r, is_admin, is_owner, actor_id@, author_id@, target_id@, new_status@),
{
    if !is_admin && !is_owner && !str_eq(author_id, actor_id) && !str_eq(target_id, actor_id) {
        return Err(CrmError::Forbidden);
    }
    if str_eq(new_status, "done") && !str_eq(target_id, author_id) {
        Ok(
            StatusPlan {
                status: new_status.to_owned(),
                return_to: Some(author_id.to_owned()),
                notify_author: !str_eq(author_id, actor_id),
            },
        )
    } else {
        Ok(StatusPlan { status: new_status.to_owned(), return_to: None, notify_author: false })
    }
}

/// Answering a task: the text must not be blank (checked first), then the
/// task and its space must exist (`lookup`), then a closed regulation takes
/// no answers, and the author must participate.  Gives the trimmed text.
pub fn check_new_reply(
    space: Space,
    content: &str,
    lookup: Result<(), CrmError>,
    closed: bool,
    is_participant: bool,
) -> (r: Result<String, CrmError>)
    requires
        space == Space::Project ==> !closed,
    ensures
        trimmed(content@).len() == 0 ==> r == Err::<String, CrmError>(CrmError::EmptyReply),
        trimmed(content@).len() > 0 && lookup is Err ==> r == Err::<String, CrmError>(
            lookup->Err_0,
        ),
        trimmed(content@).len() > 0 && lookup is Ok && closed ==> r == Err::<String, CrmError>(
            CrmError::RegulationClosedReplies,
        ),
        trimmed(content@).len() > 0 && lookup is Ok && !closed && !is_participant ==> r == Err::<
            String,
            CrmError,
        >(not_member(space)),
        trimmed(content@).len() > 0 && lookup is Ok && !closed && is_participant ==> (r matches Ok(
            s,
        ) && s@ == trimmed(content@)),
{
    if is_blank(content) {
        return Err(CrmError::EmptyReply);
    }
    if let Err(e) = lookup {
        return Err(e);
    }
    if closed {
        return Err(CrmError::RegulationClosedReplies);
    }
    if !is_participant {
        return Err(
            match space {
                Space::Regulation => CrmError::NotRegulationMember,
                Space::Project => CrmError::NotProjectMember,
            },
        );
    }
    Ok(trimmed_string(content))
}

/// The regulation entry as handed back right after it was stored: open, no
/// replies, not edited or deleted, nobody blocked, no times yet; the names
/// are those found (empty when not found).
pub fn new_regulation_entry_record(
    id: String,
    regulation_id: &str,
    author_id: &str,
    author_name: Option<String>,
    target_employee_id: &str,
    target_name: Option<String>,
    content: String,
    attachment_data: Option<&str>,
    attachment_name: Option<&str>,
    deadline: Option<&str>,
) -> (r: RegulationEntryRecord)
    ensures
        r.id == id,
        r.regulation_id@ == regulation_id@,
        r.author_id@ == author_id@,
        r.author_name@ == (match author_name { Some(n) => n@, None => Seq::<char>::empty() }),
        !r.author_is_blocked,
        r.target_employee_id@ == target_employee_id@,
        r.target_name@ == (match target_name { Some(n) => n@, None => Seq::<char>::empty() }),
        !r.target_is_blocked,
        r.content == content,
        opt_view_string(r.attachment_data) == opt_view(attachment_data),
        opt_view_string(r.attachment_name) == opt_view(attachment_name),
        opt_view_string(r.deadline) == opt_view(deadline),
        r.status@ == "open"@,
        r.created_at@ == Seq::<char>::empty(),
        r.updated_at@ == Seq::<char>::empty(),
        r.reply_count == 0,
        r.edited_at is None,
        !r.is_deleted,
{
    RegulationEntryRecord {
        id,
        regulation_id: regulation_id.to_owned(),
        author_id: author_id.to_owned(),
        author_name: name_or_empty(author_name),
        author_is_blocked: false,
        target_employee_id: target_employee_id.to_owned(),
        target_name: name_or_empty(target_name),
        target_is_blocked: false,
        content,
        attachment_data: opt_to_owned(attachment_data),
        attachment_name: opt_to_owned(attachment_name),
        deadline: opt_to_owned(deadline),
        status: "open".to_owned(),
        created_at: String::new(),
        updated_at: String::new(),
        reply_count: 0,
        edited_at: None,
        is_deleted: false,
    }
}

/// The project message as handed back right after it was stored, on the
/// same terms as a regulation entry.
pub fn new_project_message_record(
    id: String,
    project_id: &str,
    sender_id: &str,
    sender_name: Option<String>,
    target_employee_id: &str,
    target_name: Option<String>,
    content: String,
    attachment_data: Option<&str>,
    attachment_name: Option<&str>,
    deadline: Option<&str>,
) -> (r: ProjectChatMessageRecord)
    ensures
        r.id == id,
        r.project_id@ == project_id@,
        r.sender_id@ == sender_id@,
        r.sender_name@ == (match sender_name { Some(n) => n@, None => Seq::<char>::empty() }),
        !r.sender_is_blocked,
        r.target_employee_id@ == target_employee_id@,
        r.target_name@ == (match target_name { Some(n) => n@, None => Seq::<char>::empty() }),
        !r.target_is_blocked,
        r.content == content,
        opt_view_string(r.attachment_data) == opt_view(attachment_data),
        opt_view_string(r.attachment_name) == opt_view(attachment_name),
        opt_view_string(r.deadline) == opt_view(deadline),
        r.status@ == "open"@,
        r.created_at@ == Seq::<char>::empty(),
        r.reply_count == 0,
        r.edited_at is None,
        !r.is_deleted,
{
    ProjectChatMessageRecord {
        id,
        project_id: project_id.to_owned(),
        sender_id: sender_id.to_owned(),
        sender_name: name_or_empty(sender_name),
        sender_is_blocked: false,
        target_employee_id: target_employee_id.to_owned(),
        target_name: name_or_empty(target_name),
        target_is_blocked: false,
        content,
        attachment_data: opt_to_owned(attachment_data),
        attachment_name: opt_to_owned(attachment_name),
        deadline: opt_to_owned(deadline),
        status: "open".to_owned(),
        created_at: String::new(),
        reply_count: 0,
        edited_at: None,
        is_deleted: false,
    }
}

/// A name found in the store, or the empty text when none was.
pub fn name_or_empty(name: Option<String>) -> (r: String)
    ensures
        r@ == (match name { Some(n) => n@, None => Seq::<char>::empty() }),
{
    match name {
        Some(n) => n,
        None => String::new(),
    }
}

/// The reply under a regulation entry as handed back right after it was
/// stored.
pub fn new_regulation_reply_record(
    id: String,
    entry_id: &str,
    author_id: &str,
    author_name: Option<String>,
    content: String,
) -> (r: RegulationReplyRecord)
    ensures
        r.id == id,
        r.entry_id@ == entry_id@,
        r.author_id@ == author_id@,
        r.author_name@ == (match author_name { Some(n) => n@, None => Seq::<char>::empty() }),
        !r.author_is_blocked,
        r.content == content,
        r.created_at@ == Seq::<char>::empty(),
        r.edited_at is None,
        !r.is_deleted,
{
    RegulationReplyRecord {
        id,
        entry_id: entry_id.to_owned(),
        author_id: author_id.to_owned(),
        author_name: name_or_empty(author_name),
        author_is_blocked: false,
        content,
        created_at: String::new(),
        edited_at: None,
        is_deleted: false,
    }
}

/// The reply under a project message as handed back right after it was
/// stored.
pub fn new_project_reply_record(
    id: String,
    message_id: &str,
    author_id: &str,
    author_name: Option<String>,
    content: String,
) -> (r: ProjectChatReplyRecord)
    ensures
        r.id == id,
        r.message_id@ == message_id@,
        r.author_id@ == author_id@,
        r.author_name@ == (match author_name { Some(n) => n@, None => Seq::<char>::empty() }),
        !r.author_is_blocked,
        r.content == content,
        r.created_at@ == Seq::<char>::empty(),
        r.edited_at is None,
        !r.is_deleted,
{
    ProjectChatReplyRecord {
        id,
        message_id: message_id.to_owned(),
        author_id: author_id.to_owned(),
        author_name: name_or_empty(author_name),
        author_is_blocked: false,
        content,
        created_at: String::new(),
        edited_at: None,
        is_deleted: false,
    }
}

/// New members may be added by managers and by members whose role is
/// `assistant` (`actor_role` is the actor's role in the space, if any).
pub fn can_add_members(is_admin: bool, is_owner: bool, actor_role: Option<&str>) -> (r: bool)
    ensures
        r == (manages(is_admin, is_owner) || (actor_role matches Some(role) && role@
            == "assistant"@)),
{
    if is_admin || is_owner {
        return true;
    }
    match actor_role {
        Some(role) => str_eq(role, "assistant"),
        None => false,
    }
}

/// The roles a member may have.
pub open spec fn is_member_role(r: Seq<char>) -> bool {
    r == "member"@ || r == "assistant"@
}

/// Adding a member: the actor must be allowed to add, the role must be
/// `member` or `assistant`, and the newcomer must be an existing employee who
/// is not a partner account (`target_is_partner` is `None` when no such
/// employee exists).
pub fn check_member_add(space: Space, may_add: bool, role: &str, target_is_partner: Option<bool>) -> (r:
    Result<(), CrmError>)
    ensures
        r == (if !may_add {
            Err(
                match space {
                    Space::Regulation => CrmError::RegulationMembersOwnerOnly,
                    Space::Project => CrmError::ProjectMembersOwnerOnly,
                },
            )
        } else if !is_member_role(role@) {
            Err(CrmError::InvalidRole)
        } else {
            match target_is_partner {
                None => Err(CrmError::EmployeeNotFound),
                Some(true) => Err(
                    match space {
                        Space::Regulation => CrmError::PartnerNotForRegulation,
                        Space::Project => CrmError::PartnerNotForProject,
                    },
                ),
                Some(false) => Ok(()),
            }
        }),
{
    if !may_add {
        return Err(
            match space {
                Space::Regulation => CrmError::RegulationMembersOwnerOnly,
                Space::Project => CrmError::ProjectMembersOwnerOnly,
            },
        );
    }
    if !(str_eq(role, "member") || str_eq(role, "assistant")) {
        return Err(CrmError::InvalidRole);
    }
    match target_is_partner {
        None => Err(CrmError::EmployeeNotFound),
        Some(true) => Err(
            match space {
                Space::Regulation => CrmError::PartnerNotForRegulation,
                Space::Project => CrmError::PartnerNotForProject,
            },
        ),
        Some(false) => Ok(()),
    }
}

/// Removing a member takes a manager, and the owner cannot be removed.
pub fn check_member_removal(space: Space, is_admin: bool, is_owner: bool, target_is_owner: bool) -> (r:
    Result<(), CrmError>)
    ensures
        r == (if !manages(is_admin, is_owner) {
            Err(CrmError::Forbidden)
        } else if target_is_owner {
            Err(
                match space {
                    Space::Regulation => CrmError::RegulationOwnerStays,
                    Space::Project => CrmError::ProjectOwnerStays,
                },
            )
        } else {
            Ok(())
        }),
{
    if !is_admin && !is_owner {
        Err(CrmError::Forbidden)
    } else if target_is_owner {
        Err(
            match space {
                Space::Regulation => CrmError::RegulationOwnerStays,
                Space::Project => CrmError::ProjectOwnerStays,
            },
        )
    } else {
        Ok(())
    }
}

/// Changing a task's deadline: managers and the task's author.
pub fn check_deadline_change(is_admin: bool, is_owner: bool, is_author: bool) -> (r: Result<(), CrmError>)
    ensures
        r == (if manages(is_admin, is_owner) || is_author { Ok(()) } else { Err(CrmError::Forbidden) }),
{
    if is_admin || is_owner || is_author {
        Ok(())
    } else {
        Err(CrmError::Forbidden)
    }
}

} // verus!
