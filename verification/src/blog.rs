//! The company blog: who may post and edit topics, which topics partner
//! accounts see, and comments.
use vstd::prelude::*;
use crate::chat::{opt_to_owned, opt_view, opt_view_string};
use crate::errors::CrmError;
use crate::records::{BlogCommentRecord, EmployeeRecord};
use crate::tasks::name_or_empty;
use crate::text::{is_blank, str_eq, trimmed, trimmed_string, opt_str_eq};

verus! {

/// The topic categories.
pub open spec fn is_category(c: Seq<char>) -> bool {
    c == "announcement"@ || c == "discussion"@ || c == "useful"@ || c == "qna"@ || c == "custom"@
}

/// Whether a category is known.
pub fn known_category(c: &str) -> (r: bool)
    ensures
        r == is_category(c@),
{
    str_eq(c, "announcement") || str_eq(c, "discussion") || str_eq(c, "useful") || str_eq(c, "qna")
        || str_eq(c, "custom")
}

/// Which topics someone sees: staff all; a partner account those shown to
/// every partner (`*`) or to its own partner; unknown employees and partner
/// accounts without a partner none.
pub fn topic_visible(employee: &Option<EmployeeRecord>, partner_audience: &Option<String>) -> (r: bool)
    ensures
        r == (match *employee {
            None => false,
            Some(e) => if e.is_partner {
                match e.partner_id {
                    None => false,
                    Some(p) => partner_audience matches Some(a) && (a@ == "*"@ || a@ == p@),
                }
            } else {
                true
            },
        }),
{
    match employee {
        None => false,
        Some(e) => {
            if e.is_partner {
                match &e.partner_id {
                    None => false,
                    Some(p) => opt_str_eq(partner_audience, "*") || opt_str_eq(
                        partner_audience,
                        p.as_str(),
                    ),
                }
            } else {
                true
            }
        },
    }
}

/// A topic as saved: its trimmed title and the partner audience kept.
#[derive(Clone, Debug)]
pub struct TopicFields {
    pub title: String,
    pub partner_audience: Option<String>,
}

/// Saving a topic: staff only (partner accounts are refused); when editing,
/// the topic must exist and be the editor's own; the title must not be
/// blank and the category must be known.  Only administrators may show a
/// topic to partners; for others the audience is dropped.
pub open spec fn topic_check(
    employee: Option<EmployeeRecord>,
    editing: bool,
    topic_author: Option<Seq<char>>,
    actor_id: Seq<char>,
    category: Seq<char>,
    title: Seq<char>,
    audience: Option<Seq<char>>,
    r: Result<TopicFields, CrmError>,
) -> bool {
    match employee {
        None => r == Err::<TopicFields, CrmError>(CrmError::EmployeeNotFound),
        Some(e) => if e.is_partner {
            r == Err::<TopicFields, CrmError>(CrmError::Forbidden)
        } else if editing && topic_author is None {
            r == Err::<TopicFields, CrmError>(CrmError::TopicNotFound)
        } else if editing && topic_author != Some(actor_id) {
            r == Err::<TopicFields, CrmError>(CrmError::TopicAuthorOnly)
        } else if trimmed(title).len() == 0 {
            r == Err::<TopicFields, CrmError>(CrmError::TopicTitleRequired)
        } else if !is_category(category) {
            r == Err::<TopicFields, CrmError>(CrmError::InvalidCategory)
        } else {
            r matches Ok(f) && f.title@ == trimmed(title) && opt_view_string(f.partner_audience) == (
            if e.is_admin { audience } else { None })
        },
    }
}

/// Checks a new topic (`editing` false) or an edit of one (`editing` true,
/// `topic_author` the author of the stored topic, `None` if not found).
pub fn check_topic(
    employee: &Option<EmployeeRecord>,
    editing: bool,
    topic_author: Option<&str>,
    actor_id: &str,
    category: &str,
    title: &str,
    audience: Option<&str>,
) -> (r: Result<TopicFields, CrmError>)
    ensures
        topic_check(
            *employee,
            editing,
            opt_view(topic_author),
            actor_id@,
            category@,
            title@,
            opt_view(audience),
            r,
        ),
{
    let e = match employee {
        None => return Err(CrmError::EmployeeNotFound),
        Some(e) => e,
    };
    if e.is_partner {
        return Err(CrmError::Forbidden);
    }
    if editing {
        match topic_author {
            None => return Err(CrmError::TopicNotFound),
            Some(a) => if !str_eq(a, actor_id) {
                return Err(CrmError::TopicAuthorOnly);
            },
        }
    }
    if is_blank(title) {
        return Err(CrmError::TopicTitleRequired);
    }
    if !known_category(category) {
        return Err(CrmError::InvalidCategory);
    }
    let partner_audience = if e.is_admin {
        opt_to_owned(audience)
    } else {
        None
    };
    Ok(TopicFields { title: trimmed_string(title), partner_audience })
}

/// Deleting a topic: it must exist (`topic_author` is `None` otherwise), and
/// only its author or an administrator may.
pub fn check_topic_delete(actor_id: &str, actor_is_admin: bool, topic_author: Option<&str>) -> (r:
    Result<(), CrmError>)
    ensures
        r == (match topic_author {
            None => Err(CrmError::TopicNotFound),
            Some(a) => if !actor_is_admin && a@ != actor_id@ {
                Err(CrmError::Forbidden)
            } else {
                Ok(())
            },
        }),
{
    match topic_author {
        None => Err(CrmError::TopicNotFound),
        Some(a) => if !actor_is_admin && !str_eq(a, actor_id) {
            Err(CrmError::Forbidden)
        } else {
            Ok(())
        },
    }
}

/// Commenting: staff only, a non-blank text (given back trimmed), on an
/// existing topic.
pub fn check_comment(employee: &Option<EmployeeRecord>, content: &str, topic_exists: bool) -> (r:
    Result<String, CrmError>)
    ensures
        match *employee {
            None => r == Err::<String, CrmError>(CrmError::EmployeeNotFound),
            Some(e) => if e.is_partner {
                r == Err::<String, CrmError>(CrmError::Forbidden)
            } else if trimmed(content@).len() == 0 {
                r == Err::<String, CrmError>(CrmError::EmptyComment)
            } else if !topic_exists {
                r == Err::<String, CrmError>(CrmError::TopicNotFound)
            } else {
                (r matches Ok(c) && c@ == trimmed(content@))
            },
        },
{
    let e = match employee {
        None => return Err(CrmError::EmployeeNotFound),
        Some(e) => e,
    };
    if e.is_partner {
        return Err(CrmError::Forbidden);
    }
    if is_blank(content) {
        return Err(CrmError::EmptyComment);
    }
    if !topic_exists {
        return Err(CrmError::TopicNotFound);
    }
    Ok(trimmed_string(content))
}

/// The comment as handed back right after it was stored.
pub fn new_comment_record(
    id: String,
    topic_id: &str,
    author_id: &str,
    author_name: Option<String>,
    content: String,
    reply_to_id: Option<&str>,
) -> (r: BlogCommentRecord)
    ensures
        r.id == id,
        r.topic_id@ == topic_id@,
        r.author_id@ == author_id@,
        r.author_name@ == (match author_name { Some(n) => n@, None => Seq::<char>::empty() }),
        !r.author_is_blocked,
        r.content == content,
        opt_view_string(r.reply_to_id) == opt_view(reply_to_id),
        r.created_at@ == Seq::<char>::empty(),
{
    BlogCommentRecord {
        id,
        topic_id: topic_id.to_owned(),
        author_id: author_id.to_owned(),
        author_name: name_or_empty(author_name),
        author_is_blocked: false,
        content,
        reply_to_id: opt_to_owned(reply_to_id),
        created_at: String::new(),
    }
}

} // verus!
