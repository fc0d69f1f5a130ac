//! Team chat: what a channel name means, who may read and write in it, who is
//! told about a new message, and the checks on editing messages and groups.
//!
//! A channel is `general` (all staff), `dm:<a>:<b>` (two staff members),
//! `group:<id>` (a chat group) or the id of a partner (the private thread
//! between the company and that partner).
use vstd::prelude::*;
use crate::errors::CrmError;
use vstd::hash_map::StringHashMap;
use crate::records::{ChatMessageRecord, EmployeeRecord};
use crate::text::{
    concat, has_prefix, is_blank, split_in_two, split_pair, str_eq, strip_prefix, trimmed,
    trimmed_string, opt_str_eq, split_first, split_once, to_uppercase, uppercase,
};

verus! {

/// A parsed channel name.
#[derive(Clone, Debug)]
pub enum Channel {
    General,
    Direct { first: String, second: String },
    MalformedDirect,
    Group { group_id: String },
    Partner { partner_id: String },
}

/// A parsed channel name, over character sequences.
pub enum ChannelView {
    General,
    Direct { first: Seq<char>, second: Seq<char> },
    MalformedDirect,
    Group { group_id: Seq<char> },
    Partner { partner_id: Seq<char> },
}

impl View for Channel {
    type V = ChannelView;

    open spec fn view(&self) -> ChannelView {
        match self {
            Channel::General => ChannelView::General,
            Channel::Direct { first, second } => ChannelView::Direct { first: first@, second: second@ },
            Channel::MalformedDirect => ChannelView::MalformedDirect,
            Channel::Group { group_id } => ChannelView::Group { group_id: group_id@ },
            Channel::Partner { partner_id } => ChannelView::Partner { partner_id: partner_id@ },
        }
    }
}

/// The meaning of a channel name.  Names are tried in this order: `general`,
/// `dm:` (which must then hold exactly two ids separated by `:`), `group:`,
/// and anything else names a partner.
pub open spec fn channel_of(s: Seq<char>) -> ChannelView {
    if s == "general"@ {
        ChannelView::General
    } else if has_prefix(s, "dm:"@) {
        match split_pair(s.subrange("dm:"@.len() as int, s.len() as int), ':') {
            Some((a, b)) => ChannelView::Direct { first: a, second: b },
            None => ChannelView::MalformedDirect,
        }
    } else if has_prefix(s, "group:"@) {
        ChannelView::Group { group_id: s.subrange("group:"@.len() as int, s.len() as int) }
    } else {
        ChannelView::Partner { partner_id: s }
    }
}

/// Reads a channel name.
pub fn parse_channel(channel: &str) -> (c: Channel)
    ensures
        c@ == channel_of(channel@),
{
    if str_eq(channel, "general") {
        return Channel::General;
    }
    if let Some(rest) = strip_prefix(channel, "dm:") {
        match split_in_two(rest, ':') {
            Some((a, b)) => Channel::Direct { first: a, second: b },
            None => Channel::MalformedDirect,
        }
    } else if let Some(group_id) = strip_prefix(channel, "group:") {
        Channel::Group { group_id: group_id.to_owned() }
    } else {
        Channel::Partner { partner_id: channel.to_owned() }
    }
}

/// What the store says about the ids a channel names: whether each side of a
/// direct channel is a staff member (an employee who is not a partner
/// account), whether the reader belongs to the group, and whether the partner
/// exists.  Only the facts for the kind of channel at hand are read.
#[derive(Clone, Copy, Debug)]
pub struct ChannelFacts {
    pub first_is_staff: bool,
    pub second_is_staff: bool,
    pub is_group_member: bool,
    pub partner_exists: bool,
}

/// Who may use a channel.
/// - `general`: any staff member; partner accounts are refused.
/// - direct: staff only, the reader must be one of the two sides, and both
///   sides must be staff members.
/// - group: staff only, and only members of the group.
/// - partner thread: the partner must exist; a partner account may use only
///   its own partner's thread; staff must be administrators.
pub open spec fn channel_access(
    employee: Option<EmployeeRecord>,
    employee_id: Seq<char>,
    channel: ChannelView,
    facts: ChannelFacts,
) -> Result<(), CrmError> {
    match employee {
        None => Err(CrmError::EmployeeNotFound),
        Some(e) => match channel {
            ChannelView::General => if e.is_partner {
                Err(CrmError::PartnerNoGeneralChat)
            } else {
                Ok(())
            },
            ChannelView::MalformedDirect => if e.is_partner {
                Err(CrmError::PartnerNoDirectChat)
            } else {
                Err(CrmError::InvalidChannel)
            },
            ChannelView::Direct { first, second } => if e.is_partner {
                Err(CrmError::PartnerNoDirectChat)
            } else if first != employee_id && second != employee_id {
                Err(CrmError::Forbidden)
            } else if !facts.first_is_staff || !facts.second_is_staff {
                Err(CrmError::InterlocutorNotFound)
            } else {
                Ok(())
            },
            ChannelView::Group { .. } => if e.is_partner {
                Err(CrmError::PartnerNoGroups)
            } else if !facts.is_group_member {
                Err(CrmError::Forbidden)
            } else {
                Ok(())
            },
            ChannelView::Partner { partner_id } => if !facts.partner_exists {
                Err(CrmError::PartnerNotFound)
            } else if e.is_partner {
                if e.partner_id matches Some(p) && p@ == partner_id {
                    Ok(())
                } else {
                    Err(CrmError::Forbidden)
                }
            } else if !e.is_admin {
                Err(CrmError::Forbidden)
            } else {
                Ok(())
            },
        },
    }
}

/// Decides whether `employee_id` (whose record is `employee`, if it exists)
/// may read and write in `channel`.
pub fn check_channel_access(
    employee: &Option<EmployeeRecord>,
    employee_id: &str,
    channel: &Channel,
    facts: &ChannelFacts,
) -> (r: Result<(), CrmError>)
    ensures
        r == channel_access(*employee, employee_id@, channel@, *facts),
{
    let e = match employee {
        None => return Err(CrmError::EmployeeNotFound),
        Some(e) => e,
    };
    match channel {
        Channel::General => {
            if e.is_partner {
                Err(CrmError::PartnerNoGeneralChat)
            } else {
                Ok(())
            }
        },
        Channel::MalformedDirect => {
            if e.is_partner {
                Err(CrmError::PartnerNoDirectChat)
            } else {
                Err(CrmError::InvalidChannel)
            }
        },
        Channel::Direct { first, second } => {
            if e.is_partner {
                Err(CrmError::PartnerNoDirectChat)
            } else if !str_eq(first.as_str(), employee_id) && !str_eq(second.as_str(), employee_id) {
                Err(CrmError::Forbidden)
            } else if !facts.first_is_staff || !facts.second_is_staff {
                Err(CrmError::InterlocutorNotFound)
            } else {
                Ok(())
            }
        },
        Channel::Group { .. } => {
            if e.is_partner {
                Err(CrmError::PartnerNoGroups)
            } else if !facts.is_group_member {
                Err(CrmError::Forbidden)
            } else {
                Ok(())
            }
        },
        Channel::Partner { partner_id } => {
            if !facts.partner_exists {
                Err(CrmError::PartnerNotFound)
            } else if e.is_partner {
                if opt_str_eq(&e.partner_id, partner_id.as_str()) {
                    Ok(())
                } else {
                    Err(CrmError::Forbidden)
                }
            } else if !e.is_admin {
                Err(CrmError::Forbidden)
            } else {
                Ok(())
            }
        },
    }
}

/// The checks on a new message once the channel is open to the sender: the
/// text must not be blank, and a message replied to must be in the same
/// channel (`reply_channel` is the channel of the message replied to, `None`
/// when it was not found).  Gives the trimmed text.
pub open spec fn new_message_check(
    content: Seq<char>,
    channel: Seq<char>,
    reply_to_id: Option<Seq<char>>,
    reply_channel: Option<Seq<char>>,
) -> Result<Seq<char>, CrmError> {
    if trimmed(content).len() == 0 {
        Err(CrmError::EmptyMessage)
    } else if reply_to_id is Some && reply_channel != Some(channel) {
        Err(CrmError::ReplyTargetNotFound)
    } else {
        Ok(trimmed(content))
    }
}

/// Checks a new chat message; gives the text to store.
pub fn check_new_message(
    content: &str,
    channel: &str,
    reply_to_id: Option<&str>,
    reply_channel: Option<&str>,
) -> (r: Result<String, CrmError>)
    ensures
        match (r, new_message_check(content@, channel@, opt_view(reply_to_id), opt_view(reply_channel))) {
            (Ok(s), Ok(t)) => s@ == t,
            (Err(e), Err(f)) => e == f,
            _ => false,
        },
{
    if is_blank(content) {
        return Err(CrmError::EmptyMessage);
    }
    if reply_to_id.is_some() {
        let same = match reply_channel {
            Some(rc) => str_eq(rc, channel),
            None => false,
        };
        if !same {
            return Err(CrmError::ReplyTargetNotFound);
        }
    }
    Ok(trimmed_string(content))
}

/// The character sequence of an optional text.
pub open spec fn opt_view(s: Option<&str>) -> Option<Seq<char>> {
    match s {
        Some(x) => Some(x@),
        None => None,
    }
}

/// Copies an optional text.
pub fn opt_to_owned(s: Option<&str>) -> (r: Option<String>)
    ensures
        match (r, s) {
            (Some(a), Some(b)) => a@ == b@,
            (None, None) => true,
            _ => false,
        },
{
    match s {
        Some(x) => Some(x.to_owned()),
        None => None,
    }
}

/// The message as it is handed back right after it was stored: its new id,
/// the channel, the sender's id, name and avatar, the stored text and the
/// attachment and reply as given; not edited, not deleted, and no creation
/// time yet.
pub fn sent_message_record(
    id: String,
    channel: &str,
    sender_id: &str,
    sender: &EmployeeRecord,
    content: String,
    attachment_data: Option<&str>,
    attachment_name: Option<&str>,
    reply_to_id: Option<&str>,
) -> (m: ChatMessageRecord)
    ensures
        m.id == id,
        m.channel@ == channel@,
        m.sender_id@ == sender_id@,
        m.sender_name@ == sender.full_name@,
        m.sender_avatar == sender.avatar_data,
        m.content == content,
        opt_view_string(m.attachment_data) == opt_view(attachment_data),
        opt_view_string(m.attachment_name) == opt_view(attachment_name),
        opt_view_string(m.reply_to_id) == opt_view(reply_to_id),
        m.created_at@ == Seq::<char>::empty(),
        m.edited_at is None,
        !m.is_deleted,
{
    ChatMessageRecord {
        id,
        channel: channel.to_owned(),
        sender_id: sender_id.to_owned(),
        sender_name: sender.full_name.clone(),
        sender_avatar: sender.avatar_data.clone(),
        content,
        attachment_data: opt_to_owned(attachment_data),
        attachment_name: opt_to_owned(attachment_name),
        reply_to_id: opt_to_owned(reply_to_id),
        created_at: String::new(),
        edited_at: None,
        is_deleted: false,
    }
}

/// The character sequence of an optional owned text.
pub open spec fn opt_view_string(s: Option<String>) -> Option<Seq<char>> {
    match s {
        Some(x) => Some(x@),
        None => None,
    }
}

/// Who is told about a new chat message.
#[derive(Clone, Debug)]
pub enum ChatAudience {
    /// One person: the other side of a direct channel.
    Person { employee_id: String },
    /// Every member of the group except the sender.
    GroupMembersExcept { group_id: String, sender_id: String },
    /// Every staff member except the sender.
    StaffExcept { sender_id: String },
    /// Every administrator.
    AllAdmins,
    /// Every account of the partner except the sender.
    PartnerAccountsExcept { partner_id: String, sender_id: String },
}

/// Who is told about a message in `channel` from `sender_id`: in a direct
/// channel the other side; in a group its other members; in `general` all
/// other staff; in a partner thread all administrators when a partner account
/// writes, and otherwise that partner's other accounts.  A malformed direct
/// channel tells nobody.
pub open spec fn audience_matches(
    a: Option<ChatAudience>,
    channel: ChannelView,
    sender_id: Seq<char>,
    sender_is_partner: bool,
) -> bool {
    match channel {
        ChannelView::Direct { first, second } => a matches Some(ChatAudience::Person { employee_id })
            && employee_id@ == (if first == sender_id { second } else { first }),
        ChannelView::MalformedDirect => a is None,
        ChannelView::Group { group_id } => a matches Some(
            ChatAudience::GroupMembersExcept { group_id: g, sender_id: s },
        ) && g@ == group_id && s@ == sender_id,
        ChannelView::General => a matches Some(ChatAudience::StaffExcept { sender_id: s })
            && s@ == sender_id,
        ChannelView::Partner { partner_id } => if sender_is_partner {
            a matches Some(ChatAudience::AllAdmins)
        } else {
            a matches Some(ChatAudience::PartnerAccountsExcept { partner_id: p, sender_id: s })
                && p@ == partner_id && s@ == sender_id
        },
    }
}

/// Decides who is told about a new message.
pub fn chat_audience(channel: &Channel, sender_id: &str, sender: &EmployeeRecord) -> (a: Option<
    ChatAudience,
>)
    ensures
        audience_matches(a, channel@, sender_id@, sender.is_partner),
{
    match channel {
        Channel::Direct { first, second } => {
            let other = if str_eq(first.as_str(), sender_id) {
                second.clone()
            } else {
                first.clone()
            };
            Some(ChatAudience::Person { employee_id: other })
        },
        Channel::MalformedDirect => None,
        Channel::Group { group_id } => Some(
            ChatAudience::GroupMembersExcept {
                group_id: group_id.clone(),
                sender_id: sender_id.to_owned(),
            },
        ),
        Channel::General => Some(ChatAudience::StaffExcept { sender_id: sender_id.to_owned() }),
        Channel::Partner { partner_id } => {
            if sender.is_partner {
                Some(ChatAudience::AllAdmins)
            } else {
                Some(
                    ChatAudience::PartnerAccountsExcept {
                        partner_id: partner_id.clone(),
                        sender_id: sender_id.to_owned(),
                    },
                )
            }
        },
    }
}

/// Title of the notification about a new chat message.
pub fn chat_notification_title(sender_name: &str) -> (t: String)
    ensures
        t@ == "Новое сообщение в чате от "@ + sender_name@,
{
    concat("Новое сообщение в чате от ", sender_name)
}

/// Creating a chat group: the creator must exist and be staff, the name must
/// not be blank; a department group may be created only by the head of that
/// department or an administrator; a hand-picked group needs at least one
/// picked member.  Gives the trimmed name.
pub open spec fn group_creation_check(
    actor: Option<EmployeeRecord>,
    name: Seq<char>,
    for_department: bool,
    actor_heads_department: bool,
    picked_members: Option<Seq<String>>,
) -> Result<Seq<char>, CrmError> {
    match actor {
        None => Err(CrmError::EmployeeNotFound),
        Some(a) => if a.is_partner {
            Err(CrmError::PartnerNoGroups)
        } else if trimmed(name).len() == 0 {
            Err(CrmError::GroupNameRequired)
        } else if for_department {
            if !actor_heads_department && !a.is_admin {
                Err(CrmError::DepartmentGroupHeadOnly)
            } else {
                Ok(trimmed(name))
            }
        } else if !(picked_members matches Some(m) && m.len() > 0) {
            Err(CrmError::GroupMembersRequired)
        } else {
            Ok(trimmed(name))
        },
    }
}

/// Checks the creation of a chat group (`department_id` given for a
/// department group, `member_ids` for a hand-picked one).
pub fn check_group_creation(
    actor: &Option<EmployeeRecord>,
    name: &str,
    department_id: Option<&str>,
    actor_heads_department: bool,
    member_ids: Option<&Vec<String>>,
) -> (r: Result<String, CrmError>)
    ensures
        match (r, group_creation_check(*actor, name@, department_id is Some, actor_heads_department,
            match member_ids { Some(m) => Some(m@), None => None })) {
            (Ok(s), Ok(t)) => s@ == t,
            (Err(e), Err(f)) => e == f,
            _ => false,
        },
{
    let a = match actor {
        None => return Err(CrmError::EmployeeNotFound),
        Some(a) => a,
    };
    if a.is_partner {
        return Err(CrmError::PartnerNoGroups);
    }
    if is_blank(name) {
        return Err(CrmError::GroupNameRequired);
    }
    if department_id.is_some() {
        if !actor_heads_department && !a.is_admin {
            return Err(CrmError::DepartmentGroupHeadOnly);
        }
    } else {
        let has_members = match member_ids {
            Some(m) => m.len() > 0,
            None => false,
        };
        if !has_members {
            return Err(CrmError::GroupMembersRequired);
        }
    }
    Ok(trimmed_string(name))
}

/// Whether some text in `v` equals `s`.
pub open spec fn contains_text(v: Seq<String>, s: Seq<char>) -> bool {
    exists|i: int| 0 <= i < v.len() && #[trigger] v[i]@ == s
}

/// Whether some text in `v` equals `s`.
pub fn vec_contains_str(v: &Vec<String>, s: &str) -> (r: bool)
    ensures
        r == contains_text(v@, s@),
{
    let mut i: usize = 0;
    while i < v.len()
        invariant
            0 <= i <= v.len(),
            forall|k: int| 0 <= k < i ==> v@[k]@ != s@,
        decreases v.len() - i,
    {
        if str_eq(v[i].as_str(), s) {
            return true;
        }
        i = i + 1;
    }
    false
}

/// The members a new group starts with: those chosen, plus the creator
/// when not already among them.
pub fn members_with_creator(members: Vec<String>, actor_id: &str) -> (r: Vec<String>)
    ensures
        contains_text(members@, actor_id@) ==> r@ == members@,
        !contains_text(members@, actor_id@) ==> r@.len() == members@.len() + 1 && r@.drop_last()
            == members@ && r@.last()@ == actor_id@,
{
    let mut members = members;
    if !vec_contains_str(&members, actor_id) {
        members.push(actor_id.to_owned());
    }
    members
}

/// A chat group is managed by its creator and by administrators.
pub fn is_group_manager(actor_id: &str, actor_is_admin: bool, created_by: &Option<String>) -> (r:
    bool)
    ensures
        r == (actor_is_admin || (created_by matches Some(c) && c@ == actor_id@)),
{
    actor_is_admin || opt_str_eq(created_by, actor_id)
}

/// Renaming a group (or changing its description or photo): the group must
/// exist, the actor must manage it, and the name must not be blank.  Gives
/// the trimmed name.
pub fn check_group_update(group_exists: bool, actor_manages: bool, name: &str) -> (r: Result<
    String,
    CrmError,
>)
    ensures
        !group_exists ==> r == Err::<String, CrmError>(CrmError::GroupNotFound),
        group_exists && !actor_manages ==> r == Err::<String, CrmError>(CrmError::Forbidden),
        group_exists && actor_manages && trimmed(name@).len() == 0 ==> r == Err::<String, CrmError>(
            CrmError::GroupNameRequired,
        ),
        group_exists && actor_manages && trimmed(name@).len() > 0 ==> (r matches Ok(n) && n@
            == trimmed(name@)),
{
    if !group_exists {
        Err(CrmError::GroupNotFound)
    } else if !actor_manages {
        Err(CrmError::Forbidden)
    } else if is_blank(name) {
        Err(CrmError::GroupNameRequired)
    } else {
        Ok(trimmed_string(name))
    }
}

/// Adding someone to a group: the group must exist, the actor must manage it,
/// and the newcomer must be an existing staff member (`target_is_partner` is
/// `None` when no such employee exists).
pub fn check_group_member_add(group_exists: bool, actor_manages: bool, target_is_partner: Option<
    bool,
>) -> (r: Result<(), CrmError>)
    ensures
        r == (if !group_exists {
            Err(CrmError::GroupNotFound)
        } else if !actor_manages {
            Err(CrmError::Forbidden)
        } else {
            match target_is_partner {
                None => Err(CrmError::EmployeeNotFound),
                Some(true) => Err(CrmError::PartnerNoGroups),
                Some(false) => Ok(()),
            }
        }),
{
    if !group_exists {
        Err(CrmError::GroupNotFound)
    } else if !actor_manages {
        Err(CrmError::Forbidden)
    } else {
        match target_is_partner {
            None => Err(CrmError::EmployeeNotFound),
            Some(true) => Err(CrmError::PartnerNoGroups),
            Some(false) => Ok(()),
        }
    }
}

/// Removing someone from a group: anyone may leave; removing another member
/// takes a manager of the group.
pub fn check_group_member_removal(
    group_exists: bool,
    actor_id: &str,
    employee_id: &str,
    actor_manages: bool,
) -> (r: Result<(), CrmError>)
    ensures
        r == (if !group_exists {
            Err(CrmError::GroupNotFound)
        } else if actor_id@ != employee_id@ && !actor_manages {
            Err(CrmError::Forbidden)
        } else {
            Ok(())
        }),
{
    if !group_exists {
        Err(CrmError::GroupNotFound)
    } else if !str_eq(actor_id, employee_id) && !actor_manages {
        Err(CrmError::Forbidden)
    } else {
        Ok(())
    }
}

/// Joining by invite code: only staff may join; the code is looked up
/// trimmed and in upper case.  Gives the code to look up.
pub fn invite_lookup_code(actor: &Option<EmployeeRecord>, invite_code: &str) -> (r: Result<
    String,
    CrmError,
>)
    ensures
        match *actor {
            None => r == Err::<String, CrmError>(CrmError::EmployeeNotFound),
            Some(a) => if a.is_partner {
                r == Err::<String, CrmError>(CrmError::PartnerNoGroups)
            } else {
                (r matches Ok(c) && c@ == uppercase(trimmed(invite_code@)))
            },
        },
{
    match actor {
        None => Err(CrmError::EmployeeNotFound),
        Some(a) => {
            if a.is_partner {
                Err(CrmError::PartnerNoGroups)
            } else {
                Ok(to_uppercase(crate::text::trim(invite_code)))
            }
        },
    }
}

/// The other side of a direct channel seen by `employee_id`: the text after
/// `dm:` is cut at its first `:`, and the side that is not `employee_id` is
/// taken (the second one when the first is `employee_id`).
pub open spec fn dm_other_side(channel: Seq<char>, employee_id: Seq<char>) -> Option<Seq<char>> {
    if has_prefix(channel, "dm:"@) {
        match split_first(channel.subrange("dm:"@.len() as int, channel.len() as int), ':') {
            Some((a, b)) => Some(if a == employee_id { b } else { a }),
            None => None,
        }
    } else {
        None
    }
}

/// Finds the other side of a direct channel, for the list of conversations.
pub fn dm_other_party(channel: &str, employee_id: &str) -> (r: Option<String>)
    ensures
        opt_view_string(r) == dm_other_side(channel@, employee_id@),
{
    match strip_prefix(channel, "dm:") {
        None => None,
        Some(rest) => match split_once(rest, ':') {
            None => None,
            Some((a, b)) => if str_eq(a.as_str(), employee_id) {
                Some(b)
            } else {
                Some(a)
            },
        },
    }
}

/// How long a "typing…" mark lasts after the last keystroke, in milliseconds.
pub const TYPING_TTL_MS: u64 = 5000;

/// One typer's "typing…" mark in a channel: who, and the moment it lapses.
pub type TypingMark = (String, u64);

/// A channel's marks as a map from typer to the moment the mark lapses; a
/// later mark by the same typer counts over an earlier one.
pub closed spec fn typer_map(s: Seq<TypingMark>) -> Map<Seq<char>, u64>
    decreases s.len(),
{
    if s.len() == 0 {
        Map::empty()
    } else {
        typer_map(s.drop_last()).insert(s.last().0@, s.last().1)
    }
}

/// No typer has two marks in the channel.
pub open spec fn typers_unique(s: Seq<TypingMark>) -> bool {
    forall|i: int, j: int| 0 <= i < j < s.len() ==> s[i].0@ != s[j].0@
}

/// With one mark per typer, every mark is what the map holds for its typer,
/// and every typer in the map has a mark.
proof fn lemma_typer_map(s: Seq<TypingMark>)
    requires
        typers_unique(s),
    ensures
        forall|i: int| 0 <= i < s.len() ==> #[trigger] typer_map(s).contains_key(s[i].0@) && typer_map(
            s,
        )[s[i].0@] == s[i].1,
        forall|t: Seq<char>| #[trigger] typer_map(s).contains_key(t) ==> exists|i: int|
            0 <= i < s.len() && s[i].0@ == t,
    decreases s.len(),
{
    if s.len() > 0 {
        let t = s.drop_last();
        assert(typers_unique(t));
        lemma_typer_map(t);
        assert(typer_map(s) == typer_map(t).insert(s.last().0@, s.last().1));
        assert forall|i: int| 0 <= i < s.len() implies #[trigger] typer_map(s).contains_key(s[i].0@)
            && typer_map(s)[s[i].0@] == s[i].1 by {
            if i < s.len() - 1 {
                assert(t[i] == s[i]);
                assert(s[i].0@ != s[s.len() - 1].0@);
            }
        }
        assert forall|k: Seq<char>| #[trigger] typer_map(s).contains_key(k) implies exists|i: int|
            0 <= i < s.len() && s[i].0@ == k by {
            if k != s.last().0@ {
                assert(typer_map(t).contains_key(k));
                let i = choose|i: int| 0 <= i < t.len() && t[i].0@ == k;
                assert(s[i] == t[i]);
            } else {
                assert(s[s.len() - 1].0@ == k);
            }
        }
    }
}

/// The marks of every channel as one map from (channel, typer) to the
/// moment the mark lapses.
pub closed spec fn board_map(channels: Map<Seq<char>, Vec<TypingMark>>) -> Map<
    (Seq<char>, Seq<char>),
    u64,
> {
    Map::new(
        |k: (Seq<char>, Seq<char>)|
            channels.contains_key(k.0) && typer_map(channels[k.0]@).contains_key(k.1),
        |k: (Seq<char>, Seq<char>)| typer_map(channels[k.0]@)[k.1],
    )
}

/// Whether someone other than `actor` has a mark in `channel` that has not
/// lapsed at `now`.
pub open spec fn someone_else_typing(
    marks: Map<(Seq<char>, Seq<char>), u64>,
    channel: Seq<char>,
    actor: Seq<char>,
    now: u64,
) -> bool {
    exists|typer: Seq<char>|
        typer != actor && #[trigger] marks.contains_key((channel, typer)) && now < marks[(
            channel,
            typer,
        )]
}

/// Who is typing in which channel, and until when (milliseconds on the
/// process's monotonic clock): per channel, one mark per typer.  Kept in
/// memory only.
pub struct TypingBoard {
    channels: StringHashMap<Vec<TypingMark>>,
}

impl TypingBoard {
    #[verifier::type_invariant]
    spec fn one_mark_per_typer(self) -> bool {
        forall|ch: Seq<char>| #[trigger] self.channels@.contains_key(ch) ==> typers_unique(
            self.channels@[ch]@,
        )
    }
}

impl View for TypingBoard {
    type V = Map<(Seq<char>, Seq<char>), u64>;

    closed spec fn view(&self) -> Map<(Seq<char>, Seq<char>), u64> {
        board_map(self.channels@)
    }
}

/// The marks kept in a channel when `actor` marks anew: everyone else's,
/// as they were.
fn others_marks(list: &Vec<TypingMark>, actor_id: &str) -> (kept: Vec<TypingMark>)
    requires
        typers_unique(list@),
    ensures
        typers_unique(kept@),
        forall|j: int| 0 <= j < kept@.len() ==> (#[trigger] kept@[j]).0@ != actor_id@,
        typer_map(kept@) == typer_map(list@).remove(actor_id@),
{
    let ghost s = list@;
    let mut kept: Vec<TypingMark> = Vec::new();
    let n = list.len();
    let mut i: usize = 0;
    while i < n
        invariant
            n == s.len(),
            s == list@,
            typers_unique(s),
            0 <= i <= n,
            typers_unique(kept@),
            forall|j: int| 0 <= j < kept@.len() ==> (#[trigger] kept@[j]).0@ != actor_id@,
            forall|j: int| #![trigger kept@[j]] 0 <= j < kept@.len() ==> exists|m: int|
                0 <= m < i && s[m].0@ == kept@[j].0@,
            typer_map(kept@) == typer_map(s.subrange(0, i as int)).remove(actor_id@),
        decreases n - i,
    {
        let m = &list[i];
        let ghost before = kept@;
        proof {
            assert(s.subrange(0, i + 1).drop_last() =~= s.subrange(0, i as int));
            assert(s.subrange(0, i + 1).last() == s[i as int]);
        }
        if !str_eq(m.0.as_str(), actor_id) {
            kept.push((m.0.clone(), m.1));
            proof {
                assert(kept@.drop_last() =~= before);
                assert(kept@.last().0@ == s[i as int].0@);
                assert forall|a: int, b: int| 0 <= a < b < kept@.len() implies kept@[a].0@ != kept@[b].0@ by {
                    if b == kept@.len() - 1 {
                        assert(kept@[a] == before[a]);
                        let m2 = choose|m: int| 0 <= m < i && s[m].0@ == before[a].0@;
                    } else {
                        assert(kept@[a] == before[a]);
                        assert(kept@[b] == before[b]);
                    }
                }
                assert forall|j: int| #![trigger kept@[j]] 0 <= j < kept@.len() implies exists|m: int|
                    0 <= m < i + 1 && s[m].0@ == kept@[j].0@ by {
                    if j < kept@.len() - 1 {
                        assert(kept@[j] == before[j]);
                        let m2 = choose|m: int| 0 <= m < i && s[m].0@ == before[j].0@;
                        assert(0 <= m2 < i + 1 && s[m2].0@ == kept@[j].0@);
                    } else {
                        assert(s[i as int].0@ == kept@[j].0@);
                    }
                }
                assert(typer_map(kept@) =~= typer_map(s.subrange(0, i + 1)).remove(actor_id@));
            }
        } else {
            proof {
                assert(typer_map(kept@) =~= typer_map(s.subrange(0, i + 1)).remove(actor_id@));
                assert forall|j: int| #![trigger kept@[j]] 0 <= j < kept@.len() implies exists|m: int|
                    0 <= m < i + 1 && s[m].0@ == kept@[j].0@ by {
                    let m2 = choose|m: int| 0 <= m < i && s[m].0@ == kept@[j].0@;
                    assert(0 <= m2 < i + 1);
                }
            }
        }
        i = i + 1;
    }
    proof {
        assert(s.subrange(0, n as int) =~= s);
    }
    kept
}

impl TypingBoard {
    /// Nobody is typing.
    pub fn new() -> (b: Self)
        ensures
            b@ == Map::<(Seq<char>, Seq<char>), u64>::empty(),
    {
        let b = TypingBoard { channels: StringHashMap::new() };
        proof {
            assert(b@ =~= Map::<(Seq<char>, Seq<char>), u64>::empty());
        }
        b
    }

    /// `actor_id` is typing in `channel` as of `now`: that typer's mark there
    /// lasts five seconds from now; the marks of others stay as they were.
    pub fn ping(&mut self, channel: &str, actor_id: &str, now: u64)
        requires
            now <= u64::MAX - TYPING_TTL_MS,
        ensures
            final(self)@ == old(self)@.insert((channel@, actor_id@), (now + TYPING_TTL_MS) as u64),
    {
        proof {
            use_type_invariant(&*self);
        }
        let ghost old_channels = self.channels@;
        let ghost old_view = self@;
        let mut kept = match self.channels.get(channel) {
            Some(list) => others_marks(list, actor_id),
            None => Vec::new(),
        };
        let ghost prior = if old_channels.contains_key(channel@) {
            typer_map(old_channels[channel@]@)
        } else {
            Map::<Seq<char>, u64>::empty()
        };
        proof {
            if !old_channels.contains_key(channel@) {
                assert(typer_map(kept@) =~= Map::<Seq<char>, u64>::empty());
                assert(typer_map(kept@) =~= prior.remove(actor_id@));
            }
            assert(typer_map(kept@) == prior.remove(actor_id@));
        }
        let until = now + TYPING_TTL_MS;
        let ghost kept_before = kept@;
        kept.push((actor_id.to_owned(), until));
        proof {
            let k = kept@;
            assert(k.drop_last() =~= kept_before);
            assert(typer_map(k) == typer_map(k.drop_last()).insert(actor_id@, until));
            assert(typer_map(k) =~= prior.insert(actor_id@, until));
            assert forall|a: int, b: int| 0 <= a < b < k.len() implies k[a].0@ != k[b].0@ by {
                assert(k[a] == k.drop_last()[a]);
                if b < k.len() - 1 {
                    assert(k[b] == k.drop_last()[b]);
                }
            }
        }
        let mut channels: StringHashMap<Vec<TypingMark>> = StringHashMap::new();
        std::mem::swap(&mut channels, &mut self.channels);
        channels.insert(channel.to_owned(), kept);
        proof {
            assert forall|ch: Seq<char>| #[trigger] channels@.contains_key(ch) implies typers_unique(
                channels@[ch]@,
            ) by {
                if ch != channel@ {
                    assert(old_channels.contains_key(ch));
                }
            }
            let expected = old_view.insert((channel@, actor_id@), until);
            assert forall|k: (Seq<char>, Seq<char>)| #[trigger] board_map(channels@).contains_key(k)
                == expected.contains_key(k) && (expected.contains_key(k) ==> board_map(channels@)[k]
                == expected[k]) by {
                if k.0 == channel@ {
                    assert(channels@[k.0]@ == kept@);
                    assert(typer_map(kept@) == prior.insert(actor_id@, until));
                    if old_channels.contains_key(channel@) {
                        assert(old_view.contains_key(k) == prior.contains_key(k.1));
                    } else {
                        assert(!old_view.contains_key(k));
                    }
                } else {
                    assert(channels@.contains_key(k.0) == old_channels.contains_key(k.0));
                    if old_channels.contains_key(k.0) {
                        assert(channels@[k.0] == old_channels[k.0]);
                    }
                }
            }
            assert(board_map(channels@) =~= expected);
        }
        self.channels = channels;
    }

    /// Whether someone other than `actor_id` is typing in `channel` at `now`.
    pub fn other_is_typing(&self, channel: &str, actor_id: &str, now: u64) -> (r: bool)
        ensures
            r == someone_else_typing(self@, channel@, actor_id@, now),
    {
        proof {
            use_type_invariant(self);
        }
        let list = match self.channels.get(channel) {
            Some(list) => list,
            None => {
                proof {
                    assert forall|typer: Seq<char>| !#[trigger] self@.contains_key((channel@, typer)) by {}
                }
                return false;
            },
        };
        let ghost s = list@;
        proof {
            assert(self.channels@.contains_key(channel@));
            lemma_typer_map(s);
        }
        let n = list.len();
        let mut i: usize = 0;
        while i < n
            invariant
                n == s.len(),
                s == list@,
                0 <= i <= n,
                typers_unique(s),
                self.channels@.contains_key(channel@),
                self.channels@[channel@]@ == s,
                forall|j: int| 0 <= j < i ==> !(#[trigger] s[j].0@ != actor_id@ && now < s[j].1),
            decreases n - i,
        {
            let m = &list[i];
            if !str_eq(m.0.as_str(), actor_id) && now < m.1 {
                proof {
                    lemma_typer_map(s);
                    assert(typer_map(s).contains_key(s[i as int].0@));
                    assert(self@.contains_key((channel@, s[i as int].0@)));
                }
                return true;
            }
            i = i + 1;
        }
        proof {
            lemma_typer_map(s);
            assert forall|typer: Seq<char>|
                typer != actor_id@ && #[trigger] self@.contains_key((channel@, typer)) implies !(now
                < self@[(channel@, typer)]) by {
                assert(typer_map(s).contains_key(typer));
                let j = choose|j: int| 0 <= j < s.len() && s[j].0@ == typer;
            }
        }
        false
    }
}

} // verus!
