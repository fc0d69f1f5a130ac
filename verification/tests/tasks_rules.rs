use ibcrm::errors::CrmError;
use ibcrm::projects::{check_ownership_transfer, check_project, transfer_title};
use ibcrm::regulations::{check_regulation_update, make_slug, plan_reminder, ClosedAt};
use ibcrm::tasks::{
    can_add_members, check_member_add, check_member_removal, check_new_reply, check_new_task,
    check_task_reassign, check_task_status, new_task_notification, plan_task_status, task_notice_title, Space, TaskNotice,
};

#[test]
fn new_task_rules() {
    let r = check_new_task(Space::Regulation, true, true, true, true, "a", "a", "x");
    assert_eq!(r, Err(CrmError::RegulationClosedEntries));
    let r = check_new_task(Space::Project, false, false, false, false, "a", "a", "x");
    assert_eq!(r, Err(CrmError::NotProjectMember));
    let r = check_new_task(Space::Regulation, false, false, false, true, "a", "b", "x");
    assert_eq!(r, Err(CrmError::RegulationOwnerAssignsOnly));
    let r = check_new_task(Space::Project, false, false, false, true, "a", "a", "  ");
    assert_eq!(r, Err(CrmError::EmptyProjectMessage));
    let r = check_new_task(Space::Regulation, false, false, true, false, "a", "b", " do it ");
    assert_eq!(r, Ok("do it".to_string()));
}

#[test]
fn done_task_goes_back_to_author() {
    let p = plan_task_status(false, false, "t", "author", "t", "done").ok().unwrap();
    assert_eq!(p.return_to.as_deref(), Some("author"));
    assert!(p.notify_author);
    let p = plan_task_status(false, false, "author", "author", "t", "done").ok().unwrap();
    assert!(!p.notify_author);
    let p = plan_task_status(false, false, "t", "author", "t", "cancelled").ok().unwrap();
    assert!(p.return_to.is_none());
    assert!(plan_task_status(false, false, "x", "author", "t", "done").is_err());
    assert_eq!(check_task_status("archived"), Err(CrmError::InvalidTaskStatus));
    assert_eq!(check_task_status("open"), Ok(()));
}

#[test]
fn task_titles_and_reassign() {
    assert_eq!(task_notice_title(Space::Project, TaskNotice::Assigned, "Сайт"), "Вам поставили задачу в проекте «Сайт»");
    assert_eq!(task_notice_title(Space::Regulation, TaskNotice::Returned, "R"), "Задача выполнена и возвращена вам в регламенте «R»");
    assert_eq!(check_task_reassign(Space::Project, false, false, false, true, true), Err(CrmError::Forbidden));
    assert_eq!(check_task_reassign(Space::Project, false, false, true, false, false), Err(CrmError::TargetNotProjectMember));
    assert_eq!(check_task_reassign(Space::Regulation, true, false, false, true, false), Ok(()));
}

#[test]
fn replies_and_members() {
    assert_eq!(check_new_reply(Space::Regulation, " ", Ok(()), false, true), Err(CrmError::EmptyReply));
    assert_eq!(check_new_reply(Space::Regulation, "x", Err(CrmError::EntryNotFound), false, true), Err(CrmError::EntryNotFound));
    assert_eq!(check_new_reply(Space::Regulation, "x", Ok(()), true, true), Err(CrmError::RegulationClosedReplies));
    assert_eq!(check_new_reply(Space::Project, "x", Ok(()), false, false), Err(CrmError::NotProjectMember));
    assert!(can_add_members(false, false, Some("assistant")));
    assert!(!can_add_members(false, false, Some("member")));
    assert_eq!(check_member_add(Space::Project, false, "member", Some(false)), Err(CrmError::ProjectMembersOwnerOnly));
    assert_eq!(check_member_add(Space::Project, true, "boss", Some(false)), Err(CrmError::InvalidRole));
    assert_eq!(check_member_add(Space::Regulation, true, "member", Some(true)), Err(CrmError::PartnerNotForRegulation));
    assert_eq!(check_member_removal(Space::Project, true, false, true), Err(CrmError::ProjectOwnerStays));
    assert_eq!(check_member_removal(Space::Regulation, false, false, false), Err(CrmError::Forbidden));
}

#[test]
fn regulation_slugs() {
    assert_eq!(make_slug("Договор  с ООО «Ромашка» и другие", "abcdef12-3456"), "abcdef-договор-с-ооо");
    assert_eq!(make_slug("!!!", "abcdef12"), "abcdef");
    assert_eq!(make_slug("One", "123456789"), "123456-one");
    assert_eq!(make_slug("Тест", "абвгде"), "абв-тест");
}

#[test]
fn regulation_closing() {
    assert_eq!(check_regulation_update(true, true, "T", "active", "closed"), Ok(ClosedAt::Now));
    assert_eq!(check_regulation_update(true, true, "T", "closed", "closed"), Ok(ClosedAt::Keep));
    assert_eq!(check_regulation_update(true, true, "T", "closed", "active"), Ok(ClosedAt::Clear));
    assert_eq!(check_regulation_update(true, true, "T", "active", "done"), Err(CrmError::InvalidStatus));
    assert_eq!(check_regulation_update(true, false, "T", "active", "closed"), Err(CrmError::RegulationEditForbidden));
    assert_eq!(check_regulation_update(false, true, "T", "active", "closed"), Err(CrmError::RegulationNotFound));
}

#[test]
fn reminder_post() {
    let p = plan_reminder(" позвонить ", Some("Оля"), "2024-05-01 10:00", None, Some("R1")).ok().unwrap();
    assert_eq!(p.post, "📅 Напоминание для Оля: позвонить (2024-05-01 10:00)");
    assert_eq!(p.notice_title, "Напоминание по регламенту «R1»");
    assert!(p.reply_to.is_none());
    let p = plan_reminder("x", None, "t", Some("e1"), None).ok().unwrap();
    assert_eq!(p.post, "📅 Напоминание для —: x (t)");
    assert_eq!(p.notice_title, "Напоминание по регламенту «регламент»");
    assert!(plan_reminder(" ", None, "t", None, None).is_err());
}

#[test]
fn projects() {
    assert_eq!(check_project(false, false, " P ", "active"), Ok("P".to_string()));
    assert_eq!(check_project(true, false, "P", "active"), Err(CrmError::ProjectEditForbidden));
    assert_eq!(check_project(false, false, "P", "done"), Err(CrmError::InvalidProjectStatus));
    assert_eq!(check_ownership_transfer(true, "a", "a"), Err(CrmError::AlreadyProjectOwner));
    assert_eq!(check_ownership_transfer(true, "a", "b"), Ok(()));
    assert_eq!(transfer_title("X"), "Вам передан проект «X»");
}

#[test]
fn task_addressee_is_told_unless_author() {
    assert!(new_task_notification(Space::Regulation, "a", "a", "r1", "Договор", "x").is_none());
    let n = new_task_notification(Space::Regulation, "a", "b", "r1", "Договор", "  сделать  ").unwrap();
    assert_eq!(n.recipient, "b");
    assert_eq!(n.kind, "regulation_entry_assigned");
    assert_eq!(n.title, "Вам поставили задачу в регламенте «Договор»");
    assert_eq!(n.body, "сделать");
    assert_eq!(n.related_type, "regulation");
    assert_eq!(n.related_id, "r1");
    let p = new_task_notification(Space::Project, "a", "c", "p1", "Сайт", "x").unwrap();
    assert_eq!(p.kind, "project_message_assigned");
    assert_eq!(p.related_type, "project");
    assert_eq!(p.title, "Вам поставили задачу в проекте «Сайт»");
}
