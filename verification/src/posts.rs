//! Editing and deleting one's own posts: chat messages, task entries and
//! replies.  Only the author may do either; a deleted post cannot be edited,
//! and the new text must not be blank.
use vstd::prelude::*;
use crate::errors::CrmError;
use crate::text::{is_blank, str_eq, trimmed, trimmed_string};

verus! {

/// The kinds of post, which differ only in the wording of their refusals.
#[derive(Clone, Copy, Debug, PartialEq, Eq, Structural)]
pub enum PostKind {
    /// A chat message or a project message.
    Message,
    /// An entry in a regulation.
    Entry,
    /// A reply under an entry or a message.
    Reply,
}

/// Refusal when no post has the given id.
pub open spec fn not_found(kind: PostKind) -> CrmError {
    match kind {
        PostKind::Message => CrmError::MessageNotFound,
        PostKind::Entry => CrmError::EntryNotFound,
        PostKind::Reply => CrmError::ReplyNotFound,
    }
}

/// Refusal when the post was deleted.
pub open spec fn deleted(kind: PostKind) -> CrmError {
    match kind {
        PostKind::Message => CrmError::MessageDeleted,
        PostKind::Entry => CrmError::EntryDeleted,
        PostKind::Reply => CrmError::ReplyDeleted,
    }
}

/// Refusal when the new text is blank.
pub open spec fn blank(kind: PostKind) -> CrmError {
    match kind {
        PostKind::Message => CrmError::EmptyMessage,
        PostKind::Entry => CrmError::EmptyEntry,
        PostKind::Reply => CrmError::EmptyReply,
    }
}

/// Refusal when no post has the given id.
pub fn not_found_error(kind: PostKind) -> (e: CrmError)
    ensures
        e == not_found(kind),
{
    match kind {
        PostKind::Message => CrmError::MessageNotFound,
        PostKind::Entry => CrmError::EntryNotFound,
        PostKind::Reply => CrmError::ReplyNotFound,
    }
}

/// Refusal when the new text is blank.
pub fn blank_error(kind: PostKind) -> (e: CrmError)
    ensures
        e == blank(kind),
{
    match kind {
        PostKind::Message => CrmError::EmptyMessage,
        PostKind::Entry => CrmError::EmptyEntry,
        PostKind::Reply => CrmError::EmptyReply,
    }
}

/// What is known of a stored post when someone edits it.
#[derive(Clone, Debug)]
pub struct StoredPost {
    pub author_id: String,
    pub is_deleted: bool,
}

/// Editing a post: it must exist, be the editor's own, not be deleted, and
/// the new text must not be blank.  Gives the trimmed text.
pub open spec fn post_edit_check(
    kind: PostKind,
    actor_id: Seq<char>,
    stored: Option<StoredPost>,
    content: Seq<char>,
) -> Result<Seq<char>, CrmError> {
    match stored {
        None => Err(not_found(kind)),
        Some(p) => if p.author_id@ != actor_id {
            Err(CrmError::Forbidden)
        } else if p.is_deleted {
            Err(deleted(kind))
        } else if trimmed(content).len() == 0 {
            Err(blank(kind))
        } else {
            Ok(trimmed(content))
        },
    }
}

/// Checks an edit of a post.
pub fn check_post_edit(kind: PostKind, actor_id: &str, stored: &Option<StoredPost>, content: &str) -> (r:
    Result<String, CrmError>)
    ensures
        match (r, post_edit_check(kind, actor_id@, *stored, content@)) {
            (Ok(s), Ok(t)) => s@ == t,
            (Err(e), Err(f)) => e == f,
            _ => false,
        },
{
    match stored {
        None => Err(not_found_error(kind)),
        Some(p) => {
            if !str_eq(p.author_id.as_str(), actor_id) {
                Err(CrmError::Forbidden)
            } else if p.is_deleted {
                Err(
                    match kind {
                        PostKind::Message => CrmError::MessageDeleted,
                        PostKind::Entry => CrmError::EntryDeleted,
                        PostKind::Reply => CrmError::ReplyDeleted,
                    },
                )
            } else if is_blank(content) {
                Err(blank_error(kind))
            } else {
                Ok(trimmed_string(content))
            }
        },
    }
}

/// Deleting a post: it must exist (`author_id` is `None` otherwise) and be the
/// deleter's own.
pub fn check_post_delete(kind: PostKind, actor_id: &str, author_id: Option<&str>) -> (r: Result<
    (),
    CrmError,
>)
    ensures
        r == (match author_id {
            None => Err(not_found(kind)),
            Some(a) => if a@ == actor_id@ {
                Ok(())
            } else {
                Err(CrmError::Forbidden)
            },
        }),
{
    match author_id {
        None => Err(not_found_error(kind)),
        Some(a) => if str_eq(a, actor_id) {
            Ok(())
        } else {
            Err(CrmError::Forbidden)
        },
    }
}

/// What readers see of a post: a deleted post shows no text and no
/// attachment.
pub fn shown_post(is_deleted: bool, content: String, attachment_data: Option<String>, attachment_name: Option<
    String,
>) -> (r: (String, Option<String>, Option<String>))
    ensures
        is_deleted ==> r.0@ == Seq::<char>::empty() && r.1 is None && r.2 is None,
        !is_deleted ==> r.0 == content && r.1 == attachment_data && r.2 == attachment_name,
{
    if is_deleted {
        (String::new(), None, None)
    } else {
        (content, attachment_data, attachment_name)
    }
}

} // verus!
