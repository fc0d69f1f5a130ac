//! What the application hands to its user interface, and how each stored
//! record becomes it.  A view keeps every field of the record it is made
//! from except the internal ones (block flags, payout details, linked ids).
use vstd::prelude::*;
use crate::errors::CrmError;

use crate::records::AbsenceRequestRecord;
use crate::records::AgentLeadRecord;
use crate::records::AgentRecord;
use crate::records::AgentTrainingPostRecord;
use crate::records::BlogCommentRecord;
use crate::records::BlogTopicRecord;
use crate::records::ChatGroupRecord;
use crate::records::ChatMessageRecord;
use crate::records::ClientHistoryRecord;
use crate::records::ClientRecord;
use crate::records::ClientServiceRecord;
use crate::records::DepartmentRecord;
use crate::records::EditRequestRecord;
use crate::records::EmployeeRecord;
use crate::records::HouseServiceRecord;
use crate::records::MyProjectTaskRecord;
use crate::records::MyTaskRecord;
use crate::records::NotebookNoteRecord;
use crate::records::NotebookSettingsRecord;
use crate::records::NotificationRecord;
use crate::records::OnboardingStatusRecord;
use crate::records::PartnerRecord;
use crate::records::PartnerRegulationEntryRecord;
use crate::records::PartnerRegulationRecord;
use crate::records::PartnerRegulationReplyRecord;
use crate::records::PartnerServiceRecord;
use crate::records::PositionRecord;
use crate::records::ProjectChatMessageRecord;
use crate::records::ProjectChatReplyRecord;
use crate::records::ProjectMemberRecord;
use crate::records::ProjectRecord;
use crate::records::RadminSettingsRecord;
use crate::records::RegulationEntryRecord;
use crate::records::RegulationMemberRecord;
use crate::records::RegulationRecord;
use crate::records::RegulationReminderRecord;
use crate::records::RegulationReplyRecord;
use crate::records::ReportExportSettingsRecord;
use crate::records::ServerSettingsRecord;
use crate::records::SessionRecord;
use crate::records::TelegramBotSettingsRecord;

verus! {

#[derive(Clone, Debug)]
pub struct NotebookSettings {
    pub enabled: bool,
    pub name: Option<String>,
}

#[derive(Clone, Debug)]
pub struct OnboardingStatus {
    pub completed: bool,
}

#[derive(Clone, Debug)]
pub struct NotebookNote {
    pub id: String,
    pub employee_id: String,
    pub title: String,
    pub content: Option<String>,
    pub created_at: String,
    pub updated_at: String,
}

#[derive(Clone, Debug)]
pub struct Employee {
    pub id: String,
    pub employee_number: String,
    pub login: String,
    pub full_name: String,
    pub is_admin: bool,
    pub phone: Option<String>,
    pub position_id: Option<String>,
    pub position_title: Option<String>,
    pub manager_id: Option<String>,
    pub manager_name: Option<String>,
    pub deputy_id: Option<String>,
    pub deputy_name: Option<String>,
    pub department_id: Option<String>,
    pub department_name: Option<String>,
    pub self_edit_until: Option<String>,
    pub has_pending_edit_request: bool,
    pub avatar_data: Option<String>,
    pub created_at: String,
    pub is_online: bool,
    pub last_seen_at: Option<String>,
    pub manual_status: Option<String>,
    pub manual_status_until: Option<String>,
    pub work_days: Option<String>,
    pub work_start: Option<String>,
    pub work_end: Option<String>,
    pub head_of_department_name: Option<String>,
    pub deputy_of_department_name: Option<String>,
    pub birth_date: Option<String>,
    pub is_partner: bool,
    pub partner_id: Option<String>,
    pub partner_name: Option<String>,
}

#[derive(Clone, Debug)]
pub struct Partner {
    pub id: String,
    pub name: String,
    pub created_by: Option<String>,
    pub created_by_name: Option<String>,
    pub created_at: String,
    pub account_count: i64,
}

#[derive(Clone, Debug)]
pub struct AbsenceRequest {
    pub id: String,
    pub employee_id: String,
    pub employee_name: String,
    pub request_type: String,
    pub start_date: String,
    pub end_date: String,
    pub reason: Option<String>,
    pub makeup_slots: Option<String>,
    pub status: String,
    pub created_at: String,
    pub resolved_by: Option<String>,
    pub resolved_by_name: Option<String>,
    pub resolved_by_is_admin: bool,
    pub resolved_at: Option<String>,
}

#[derive(Clone, Debug)]
pub struct Session {
    pub id: String,
    pub login_at: String,
    pub logout_at: Option<String>,
}

#[derive(Clone, Debug)]
pub struct Client {
    pub id: String,
    pub client_number: String,
    pub name: String,
    pub contact_person: Option<String>,
    pub contact_position: Option<String>,
    pub phone: Option<String>,
    pub email: Option<String>,
    pub address: Option<String>,
    pub notes: Option<String>,
    pub created_by: Option<String>,
    pub created_by_name: Option<String>,
    pub created_at: String,
    pub partner_id: Option<String>,
    pub partner_name: Option<String>,
    pub deal_value: Option<String>,
    pub service_id: Option<String>,
    pub service_name: Option<String>,
    pub house_service_id: Option<String>,
    pub house_service_name: Option<String>,
    pub origin_partner_id: Option<String>,
    pub origin_partner_name: Option<String>,
}

#[derive(Clone, Debug)]
pub struct ClientHistoryEntry {
    pub id: String,
    pub client_id: String,
    pub description: String,
    pub created_by: Option<String>,
    pub created_by_name: Option<String>,
    pub created_at: String,
}

#[derive(Clone, Debug)]
pub struct ClientService {
    pub id: String,
    pub client_id: String,
    pub house_service_id: Option<String>,
    pub service_id: Option<String>,
    pub service_name: String,
    pub price: Option<String>,
    pub added_by: Option<String>,
    pub added_by_name: Option<String>,
    pub created_at: String,
}

#[derive(Clone, Debug)]
pub struct ServiceMonthStat {
    pub month: String,
    pub service_name: String,
    pub count: i64,
}

#[derive(Clone, Debug)]
pub struct Agent {
    pub id: String,
    pub agent_number: String,
    pub full_name: String,
    pub phone: Option<String>,
    pub address: Option<String>,
    pub email: Option<String>,
    pub passport_photo_data: Option<String>,
    pub passport_photo_name: Option<String>,
    pub consent_given: bool,
    pub consent_given_at: Option<String>,
    pub locale: String,
    pub status: String,
    pub created_at: String,
    pub resolved_at: Option<String>,
    pub resolved_by: Option<String>,
}

#[derive(Clone, Debug)]
pub struct AgentLead {
    pub id: String,
    pub agent_id: String,
    pub agent_name: String,
    pub client_name: String,
    pub client_inn: String,
    pub client_phone: Option<String>,
    pub company_name: Option<String>,
    pub note: Option<String>,
    pub stage: String,
    pub converted_client_id: Option<String>,
    pub created_at: String,
    pub updated_at: String,
}

#[derive(Clone, Debug)]
pub struct AgentConsentSettings {
    pub enabled: bool,
    pub text_ru: String,
    pub text_uz: String,
    pub text_uz_cyrl: String,
    pub chat_link: Option<String>,
}

#[derive(Clone, Debug)]
pub struct AgentTrainingPost {
    pub id: String,
    pub title: String,
    pub body: String,
    pub created_by: Option<String>,
    pub created_by_name: Option<String>,
    pub created_at: String,
}

#[derive(Clone, Debug)]
pub struct Project {
    pub id: String,
    pub project_number: String,
    pub name: String,
    pub description: Option<String>,
    pub client_id: Option<String>,
    pub client_name: Option<String>,
    pub owner_id: String,
    pub owner_name: String,
    pub status: String,
    pub created_by: Option<String>,
    pub created_by_name: Option<String>,
    pub created_at: String,
    pub updated_at: String,
    pub member_count: i64,
}

#[derive(Clone, Debug)]
pub struct ProjectMember {
    pub employee_id: String,
    pub employee_name: String,
    pub role_in_project: String,
    pub is_owner: bool,
    pub added_at: String,
}

#[derive(Clone, Debug)]
pub struct ProjectChatMessage {
    pub id: String,
    pub project_id: String,
    pub sender_id: String,
    pub sender_name: String,
    pub target_employee_id: String,
    pub target_name: String,
    pub content: String,
    pub attachment_data: Option<String>,
    pub attachment_name: Option<String>,
    pub deadline: Option<String>,
    pub status: String,
    pub created_at: String,
    pub reply_count: i64,
    pub edited_at: Option<String>,
    pub is_deleted: bool,
}

#[derive(Clone, Debug)]
pub struct ProjectChatReply {
    pub id: String,
    pub message_id: String,
    pub author_id: String,
    pub author_name: String,
    pub content: String,
    pub created_at: String,
    pub edited_at: Option<String>,
    pub is_deleted: bool,
}

#[derive(Clone, Debug)]
pub struct Regulation {
    pub id: String,
    pub reg_number: String,
    pub slug: String,
    pub title: String,
    pub description: Option<String>,
    pub client_id: Option<String>,
    pub client_name: Option<String>,
    pub owner_id: String,
    pub owner_name: String,
    pub status: String,
    pub deadline: Option<String>,
    pub closed_at: Option<String>,
    pub created_by: Option<String>,
    pub created_by_name: Option<String>,
    pub created_at: String,
    pub updated_at: String,
    pub member_count: i64,
    pub entry_count: i64,
    pub client_service_id: Option<String>,
    pub client_service_name: Option<String>,
}

#[derive(Clone, Debug)]
pub struct RegulationMember {
    pub employee_id: String,
    pub employee_name: String,
    pub role_in_reg: String,
    pub added_at: String,
}

#[derive(Clone, Debug)]
pub struct RegulationEntry {
    pub id: String,
    pub regulation_id: String,
    pub author_id: String,
    pub author_name: String,
    pub target_employee_id: String,
    pub target_name: String,
    pub content: String,
    pub attachment_data: Option<String>,
    pub attachment_name: Option<String>,
    pub deadline: Option<String>,
    pub status: String,
    pub created_at: String,
    pub updated_at: String,
    pub reply_count: i64,
    pub edited_at: Option<String>,
    pub is_deleted: bool,
}

#[derive(Clone, Debug)]
pub struct MyTask {
    pub entry_id: String,
    pub regulation_id: String,
    pub reg_number: String,
    pub regulation_title: String,
    pub slug: String,
    pub content: String,
    pub deadline: Option<String>,
    pub created_at: String,
}

#[derive(Clone, Debug)]
pub struct MyProjectTask {
    pub message_id: String,
    pub project_id: String,
    pub project_number: String,
    pub project_name: String,
    pub content: String,
    pub deadline: Option<String>,
    pub created_at: String,
}

#[derive(Clone, Debug)]
pub struct RegulationReply {
    pub id: String,
    pub entry_id: String,
    pub author_id: String,
    pub author_name: String,
    pub content: String,
    pub created_at: String,
    pub edited_at: Option<String>,
    pub is_deleted: bool,
}

#[derive(Clone, Debug)]
pub struct PartnerRegulation {
    pub id: String,
    pub reg_number: String,
    pub partner_id: String,
    pub partner_name: String,
    pub client_id: Option<String>,
    pub client_name: Option<String>,
    pub title: String,
    pub description: Option<String>,
    pub status: String,
    pub deadline: Option<String>,
    pub closed_at: Option<String>,
    pub created_by: Option<String>,
    pub created_by_name: Option<String>,
    pub created_at: String,
    pub updated_at: String,
    pub entry_count: i64,
    pub assistant_id: Option<String>,
    pub assistant_name: Option<String>,
}

#[derive(Clone, Debug)]
pub struct PartnerService {
    pub id: String,
    pub partner_id: String,
    pub name: String,
    pub description: Option<String>,
    pub code: Option<String>,
    pub price: Option<String>,
    pub reward_percent: Option<String>,
    pub created_by: Option<String>,
    pub created_by_name: Option<String>,
    pub created_at: String,
    pub updated_at: String,
}

#[derive(Clone, Debug)]
pub struct HouseService {
    pub id: String,
    pub name: String,
    pub description: Option<String>,
    pub code: Option<String>,
    pub price: Option<String>,
    pub reward_percent: Option<String>,
    pub created_by: Option<String>,
    pub created_by_name: Option<String>,
    pub created_at: String,
    pub updated_at: String,
}

#[derive(Clone, Debug)]
pub struct PartnerRegulationEntry {
    pub id: String,
    pub partner_regulation_id: String,
    pub author_id: String,
    pub author_name: String,
    pub content: String,
    pub attachment_data: Option<String>,
    pub attachment_name: Option<String>,
    pub deadline: Option<String>,
    pub status: String,
    pub created_at: String,
    pub updated_at: String,
    pub reply_count: i64,
    pub edited_at: Option<String>,
    pub is_deleted: bool,
}

#[derive(Clone, Debug)]
pub struct PartnerRegulationReply {
    pub id: String,
    pub entry_id: String,
    pub author_id: String,
    pub author_name: String,
    pub content: String,
    pub created_at: String,
    pub edited_at: Option<String>,
    pub is_deleted: bool,
}

#[derive(Clone, Debug)]
pub struct RegulationReminder {
    pub id: String,
    pub regulation_id: String,
    pub entry_id: Option<String>,
    pub created_by: String,
    pub created_by_name: String,
    pub target_employee_id: String,
    pub target_name: String,
    pub remind_at: String,
    pub note: String,
    pub fired: bool,
    pub created_at: String,
}

#[derive(Clone, Debug)]
pub struct Position {
    pub id: String,
    pub title: String,
}

#[derive(Clone, Debug)]
pub struct BlogTopic {
    pub id: String,
    pub category: String,
    pub title: String,
    pub content: Option<String>,
    pub created_by: String,
    pub created_by_name: String,
    pub pinned: bool,
    pub created_at: String,
    pub comment_count: i64,
    pub partner_audience: Option<String>,
}

#[derive(Clone, Debug)]
pub struct BlogComment {
    pub id: String,
    pub topic_id: String,
    pub author_id: String,
    pub author_name: String,
    pub content: String,
    pub reply_to_id: Option<String>,
    pub created_at: String,
}

#[derive(Clone, Debug)]
pub struct ChatMessage {
    pub id: String,
    pub channel: String,
    pub sender_id: String,
    pub sender_name: String,
    pub sender_avatar: Option<String>,
    pub content: String,
    pub attachment_data: Option<String>,
    pub attachment_name: Option<String>,
    pub reply_to_id: Option<String>,
    pub created_at: String,
    pub edited_at: Option<String>,
    pub is_deleted: bool,
}

#[derive(Clone, Debug)]
pub struct DmChannelSummary {
    pub channel: String,
    pub other_employee_id: String,
    pub other_employee_name: String,
    pub other_employee_avatar: Option<String>,
    pub last_message: Option<String>,
    pub last_message_at: Option<String>,
}

#[derive(Clone, Debug)]
pub struct PartnerChatSummary {
    pub partner_id: String,
    pub partner_name: String,
    pub last_message: Option<String>,
    pub last_message_at: Option<String>,
}

#[derive(Clone, Debug)]
pub struct ChatGroup {
    pub id: String,
    pub name: String,
    pub description: Option<String>,
    pub photo_data: Option<String>,
    pub department_id: Option<String>,
    pub invite_code: String,
    pub created_by: Option<String>,
    pub created_at: String,
    pub member_count: i64,
}

#[derive(Clone, Debug)]
pub struct ChatGroupSummary {
    pub id: String,
    pub name: String,
    pub photo_data: Option<String>,
    pub member_count: i64,
    pub last_message: Option<String>,
    pub last_message_at: Option<String>,
}

#[derive(Clone, Debug)]
pub struct ServerSettings {
    pub enabled: bool,
    pub port: u16,
}

#[derive(Clone, Debug)]
pub struct RadminSettings {
    pub network_id: String,
    pub network_password: String,
    pub note: String,
}

#[derive(Clone, Debug)]
pub struct TelegramBotSettings {
    pub enabled: bool,
    pub token: Option<String>,
}

#[derive(Clone, Debug)]
pub struct ReportExportSettings {
    pub enabled: bool,
    pub day_mode: String,
    pub fixed_day: i64,
    pub time_hhmm: String,
    pub folder: String,
}

#[derive(Clone, Debug)]
pub struct Department {
    pub id: String,
    pub name: String,
    pub head_employee_id: Option<String>,
    pub head_name: Option<String>,
    pub deputy_employee_id: Option<String>,
    pub deputy_name: Option<String>,
    pub member_count: i64,
}

#[derive(Clone, Debug)]
pub struct Notification {
    pub id: String,
    pub employee_id: String,
    pub notification_type: String,
    pub title: String,
    pub body: Option<String>,
    pub related_entity_type: Option<String>,
    pub related_entity_id: Option<String>,
    pub is_read: bool,
    pub created_at: String,
}

#[derive(Clone, Debug)]
pub struct EditRequest {
    pub id: String,
    pub employee_id: String,
    pub employee_name: String,
    pub requested_full_name: Option<String>,
    pub requested_phone: Option<String>,
    pub note: Option<String>,
    pub status: String,
    pub created_at: String,
}

/// The view of a `NotebookSettingsRecord`: each field carried over as it is.
pub fn to_notebook_settings(s: NotebookSettingsRecord) -> (view: NotebookSettings)
    ensures
        view.enabled == s.enabled,
        view.name == s.name,
{
    NotebookSettings {
        enabled: s.enabled,
        name: s.name,
    }
}

/// The view of a `OnboardingStatusRecord`: each field carried over as it is.
pub fn to_onboarding_status(s: OnboardingStatusRecord) -> (view: OnboardingStatus)
    ensures
        view.completed == s.completed,
{
    OnboardingStatus {
        completed: s.completed,
    }
}

/// The view of a `NotebookNoteRecord`: each field carried over as it is.
pub fn to_notebook_note(n: NotebookNoteRecord) -> (view: NotebookNote)
    ensures
        view.id == n.id,
        view.employee_id == n.employee_id,
        view.title == n.title,
        view.content == n.content,
        view.created_at == n.created_at,
        view.updated_at == n.updated_at,
{
    NotebookNote {
        id: n.id,
        employee_id: n.employee_id,
        title: n.title,
        content: n.content,
        created_at: n.created_at,
        updated_at: n.updated_at,
    }
}

/// The view of a `EmployeeRecord`: each field carried over as it is.
pub fn to_employee(e: EmployeeRecord) -> (view: Employee)
    ensures
        view.id == e.id,
        view.employee_number == e.employee_number,
        view.login == e.login,
        view.full_name == e.full_name,
        view.is_admin == e.is_admin,
        view.phone == e.phone,
        view.position_id == e.position_id,
        view.position_title == e.position_title,
        view.manager_id == e.manager_id,
        view.manager_name == e.manager_name,
        view.deputy_id == e.deputy_id,
        view.deputy_name == e.deputy_name,
        view.department_id == e.department_id,
        view.department_name == e.department_name,
        view.self_edit_until == e.self_edit_until,
        view.has_pending_edit_request == e.has_pending_edit_request,
        view.avatar_data == e.avatar_data,
        view.created_at == e.created_at,
        view.is_online == e.is_online,
        view.last_seen_at == e.last_seen_at,
        view.manual_status == e.manual_status,
        view.manual_status_until == e.manual_status_until,
        view.work_days == e.work_days,
        view.work_start == e.work_start,
        view.work_end == e.work_end,
        view.head_of_department_name == e.head_of_department_name,
        view.deputy_of_department_name == e.deputy_of_department_name,
        view.birth_date == e.birth_date,
        view.is_partner == e.is_partner,
        view.partner_id == e.partner_id,
        view.partner_name == e.partner_name,
{
    Employee {
        id: e.id,
        employee_number: e.employee_number,
        login: e.login,
        full_name: e.full_name,
        is_admin: e.is_admin,
        phone: e.phone,
        position_id: e.position_id,
        position_title: e.position_title,
        manager_id: e.manager_id,
        manager_name: e.manager_name,
        deputy_id: e.deputy_id,
        deputy_name: e.deputy_name,
        department_id: e.department_id,
        department_name: e.department_name,
        self_edit_until: e.self_edit_until,
        has_pending_edit_request: e.has_pending_edit_request,
        avatar_data: e.avatar_data,
        created_at: e.created_at,
        is_online: e.is_online,
        last_seen_at: e.last_seen_at,
        manual_status: e.manual_status,
        manual_status_until: e.manual_status_until,
        work_days: e.work_days,
        work_start: e.work_start,
        work_end: e.work_end,
        head_of_department_name: e.head_of_department_name,
        deputy_of_department_name: e.deputy_of_department_name,
        birth_date: e.birth_date,
        is_partner: e.is_partner,
        partner_id: e.partner_id,
        partner_name: e.partner_name,
    }
}

/// The view of a `PartnerRecord`: each field carried over as it is.
pub fn to_partner(p: PartnerRecord) -> (view: Partner)
    ensures
        view.id == p.id,
        view.name == p.name,
        view.created_by == p.created_by,
        view.created_by_name == p.created_by_name,
        view.created_at == p.created_at,
        view.account_count == p.account_count,
{
    Partner {
        id: p.id,
        name: p.name,
        created_by: p.created_by,
        created_by_name: p.created_by_name,
        created_at: p.created_at,
        account_count: p.account_count,
    }
}

/// The view of a `AbsenceRequestRecord`: each field carried over as it is.
pub fn to_absence_request(r: AbsenceRequestRecord) -> (view: AbsenceRequest)
    ensures
        view.id == r.id,
        view.employee_id == r.employee_id,
        view.employee_name == r.employee_name,
        view.request_type == r.request_type,
        view.start_date == r.start_date,
        view.end_date == r.end_date,
        view.reason == r.reason,
        view.makeup_slots == r.makeup_slots,
        view.status == r.status,
        view.created_at == r.created_at,
        view.resolved_by == r.resolved_by,
        view.resolved_by_name == r.resolved_by_name,
        view.resolved_by_is_admin == r.resolved_by_is_admin,
        view.resolved_at == r.resolved_at,
{
    AbsenceRequest {
        id: r.id,
        employee_id: r.employee_id,
        employee_name: r.employee_name,
        request_type: r.request_type,
        start_date: r.start_date,
        end_date: r.end_date,
        reason: r.reason,
        makeup_slots: r.makeup_slots,
        status: r.status,
        created_at: r.created_at,
        resolved_by: r.resolved_by,
        resolved_by_name: r.resolved_by_name,
        resolved_by_is_admin: r.resolved_by_is_admin,
        resolved_at: r.resolved_at,
    }
}

/// The view of a `SessionRecord`: each field carried over as it is.
pub fn to_session(s: SessionRecord) -> (view: Session)
    ensures
        view.id == s.id,
        view.login_at == s.login_at,
        view.logout_at == s.logout_at,
{
    Session {
        id: s.id,
        login_at: s.login_at,
        logout_at: s.logout_at,
    }
}

/// The view of a `ClientRecord`: each field carried over as it is.
pub fn to_client(c: ClientRecord) -> (view: Client)
    ensures
        view.id == c.id,
        view.client_number == c.client_number,
        view.name == c.name,
        view.contact_person == c.contact_person,
        view.contact_position == c.contact_position,
        view.phone == c.phone,
        view.email == c.email,
        view.address == c.address,
        view.notes == c.notes,
        view.created_by == c.created_by,
        view.created_by_name == c.created_by_name,
        view.created_at == c.created_at,
        view.partner_id == c.partner_id,
        view.partner_name == c.partner_name,
        view.deal_value == c.deal_value,
        view.service_id == c.service_id,
        view.service_name == c.service_name,
        view.house_service_id == c.house_service_id,
        view.house_service_name == c.house_service_name,
        view.origin_partner_id == c.origin_partner_id,
        view.origin_partner_name == c.origin_partner_name,
{
    Client {
        id: c.id,
        client_number: c.client_number,
        name: c.name,
        contact_person: c.contact_person,
        contact_position: c.contact_position,
        phone: c.phone,
        email: c.email,
        address: c.address,
        notes: c.notes,
        created_by: c.created_by,
        created_by_name: c.created_by_name,
        created_at: c.created_at,
        partner_id: c.partner_id,
        partner_name: c.partner_name,
        deal_value: c.deal_value,
        service_id: c.service_id,
        service_name: c.service_name,
        house_service_id: c.house_service_id,
        house_service_name: c.house_service_name,
        origin_partner_id: c.origin_partner_id,
        origin_partner_name: c.origin_partner_name,
    }
}

/// The view of a `ClientHistoryRecord`: each field carried over as it is.
pub fn to_client_history(h: ClientHistoryRecord) -> (view: ClientHistoryEntry)
    ensures
        view.id == h.id,
        view.client_id == h.client_id,
        view.description == h.description,
        view.created_by == h.created_by,
        view.created_by_name == h.created_by_name,
        view.created_at == h.created_at,
{
    ClientHistoryEntry {
        id: h.id,
        client_id: h.client_id,
        description: h.description,
        created_by: h.created_by,
        created_by_name: h.created_by_name,
        created_at: h.created_at,
    }
}

/// The view of a `ClientServiceRecord`: each field carried over as it is.
pub fn to_client_service(cs: ClientServiceRecord) -> (view: ClientService)
    ensures
        view.id == cs.id,
        view.client_id == cs.client_id,
        view.house_service_id == cs.house_service_id,
        view.service_id == cs.service_id,
        view.service_name == cs.service_name,
        view.price == cs.price,
        view.added_by == cs.added_by,
        view.added_by_name == cs.added_by_name,
        view.created_at == cs.created_at,
{
    ClientService {
        id: cs.id,
        client_id: cs.client_id,
        house_service_id: cs.house_service_id,
        service_id: cs.service_id,
        service_name: cs.service_name,
        price: cs.price,
        added_by: cs.added_by,
        added_by_name: cs.added_by_name,
        created_at: cs.created_at,
    }
}

/// The view of a `ServiceMonthStat`: each field carried over as it is.
pub fn to_service_month_stat(s: crate::records::ServiceMonthStat) -> (view: ServiceMonthStat)
    ensures
        view.month == s.month,
        view.service_name == s.service_name,
        view.count == s.count,
{
    ServiceMonthStat {
        month: s.month,
        service_name: s.service_name,
        count: s.count,
    }
}

/// The view of a `AgentRecord`: each field carried over as it is.
pub fn to_agent(a: AgentRecord) -> (view: Agent)
    ensures
        view.id == a.id,
        view.agent_number == a.agent_number,
        view.full_name == a.full_name,
        view.phone == a.phone,
        view.address == a.address,
        view.email == a.email,
        view.passport_photo_data == a.passport_photo_data,
        view.passport_photo_name == a.passport_photo_name,
        view.consent_given == a.consent_given,
        view.consent_given_at == a.consent_given_at,
        view.locale == a.locale,
        view.status == a.status,
        view.created_at == a.created_at,
        view.resolved_at == a.resolved_at,
        view.resolved_by == a.resolved_by,
{
    Agent {
        id: a.id,
        agent_number: a.agent_number,
        full_name: a.full_name,
        phone: a.phone,
        address: a.address,
        email: a.email,
        passport_photo_data: a.passport_photo_data,
        passport_photo_name: a.passport_photo_name,
        consent_given: a.consent_given,
        consent_given_at: a.consent_given_at,
        locale: a.locale,
        status: a.status,
        created_at: a.created_at,
        resolved_at: a.resolved_at,
        resolved_by: a.resolved_by,
    }
}

/// The view of a `AgentLeadRecord`: each field carried over as it is.
pub fn to_agent_lead(l: AgentLeadRecord) -> (view: AgentLead)
    ensures
        view.id == l.id,
        view.agent_id == l.agent_id,
        view.agent_name == l.agent_name,
        view.client_name == l.client_name,
        view.client_inn == l.client_inn,
        view.client_phone == l.client_phone,
        view.company_name == l.company_name,
        view.note == l.note,
        view.stage == l.stage,
        view.converted_client_id == l.converted_client_id,
        view.created_at == l.created_at,
        view.updated_at == l.updated_at,
{
    AgentLead {
        id: l.id,
        agent_id: l.agent_id,
        agent_name: l.agent_name,
        client_name: l.client_name,
        client_inn: l.client_inn,
        client_phone: l.client_phone,
        company_name: l.company_name,
        note: l.note,
        stage: l.stage,
        converted_client_id: l.converted_client_id,
        created_at: l.created_at,
        updated_at: l.updated_at,
    }
}

/// The view of a `AgentConsentSettings`: each field carried over as it is.
pub fn to_agent_consent_settings(s: crate::records::AgentConsentSettings) -> (view: AgentConsentSettings)
    ensures
        view.enabled == s.enabled,
        view.text_ru == s.text_ru,
        view.text_uz == s.text_uz,
        view.text_uz_cyrl == s.text_uz_cyrl,
        view.chat_link == s.chat_link,
{
    AgentConsentSettings {
        enabled: s.enabled,
        text_ru: s.text_ru,
        text_uz: s.text_uz,
        text_uz_cyrl: s.text_uz_cyrl,
        chat_link: s.chat_link,
    }
}

/// The view of a `AgentTrainingPostRecord`: each field carried over as it is.
pub fn to_agent_training_post(p: AgentTrainingPostRecord) -> (view: AgentTrainingPost)
    ensures
        view.id == p.id,
        view.title == p.title,
        view.body == p.body,
        view.created_by == p.created_by,
        view.created_by_name == p.created_by_name,
        view.created_at == p.created_at,
{
    AgentTrainingPost {
        id: p.id,
        title: p.title,
        body: p.body,
        created_by: p.created_by,
        created_by_name: p.created_by_name,
        created_at: p.created_at,
    }
}

/// The view of a `ProjectRecord`: each field carried over as it is.
pub fn to_project(p: ProjectRecord) -> (view: Project)
    ensures
        view.id == p.id,
        view.project_number == p.project_number,
        view.name == p.name,
        view.description == p.description,
        view.client_id == p.client_id,
        view.client_name == p.client_name,
        view.owner_id == p.owner_id,
        view.owner_name == p.owner_name,
        view.status == p.status,
        view.created_by == p.created_by,
        view.created_by_name == p.created_by_name,
        view.created_at == p.created_at,
        view.updated_at == p.updated_at,
        view.member_count == p.member_count,
{
    Project {
        id: p.id,
        project_number: p.project_number,
        name: p.name,
        description: p.description,
        client_id: p.client_id,
        client_name: p.client_name,
        owner_id: p.owner_id,
        owner_name: p.owner_name,
        status: p.status,
        created_by: p.created_by,
        created_by_name: p.created_by_name,
        created_at: p.created_at,
        updated_at: p.updated_at,
        member_count: p.member_count,
    }
}

/// The view of a `ProjectMemberRecord`: each field carried over as it is.
pub fn to_project_member(m: ProjectMemberRecord) -> (view: ProjectMember)
    ensures
        view.employee_id == m.employee_id,
        view.employee_name == m.employee_name,
        view.role_in_project == m.role_in_project,
        view.is_owner == m.is_owner,
        view.added_at == m.added_at,
{
    ProjectMember {
        employee_id: m.employee_id,
        employee_name: m.employee_name,
        role_in_project: m.role_in_project,
        is_owner: m.is_owner,
        added_at: m.added_at,
    }
}

/// The view of a `ProjectChatMessageRecord`: each field carried over as it is.
pub fn to_project_chat_message(m: ProjectChatMessageRecord) -> (view: ProjectChatMessage)
    ensures
        view.id == m.id,
        view.project_id == m.project_id,
        view.sender_id == m.sender_id,
        view.sender_name == m.sender_name,
        view.target_employee_id == m.target_employee_id,
        view.target_name == m.target_name,
        view.content == m.content,
        view.attachment_data == m.attachment_data,
        view.attachment_name == m.attachment_name,
        view.deadline == m.deadline,
        view.status == m.status,
        view.created_at == m.created_at,
        view.reply_count == m.reply_count,
        view.edited_at == m.edited_at,
        view.is_deleted == m.is_deleted,
{
    ProjectChatMessage {
        id: m.id,
        project_id: m.project_id,
        sender_id: m.sender_id,
        sender_name: m.sender_name,
        target_employee_id: m.target_employee_id,
        target_name: m.target_name,
        content: m.content,
        attachment_data: m.attachment_data,
        attachment_name: m.attachment_name,
        deadline: m.deadline,
        status: m.status,
        created_at: m.created_at,
        reply_count: m.reply_count,
        edited_at: m.edited_at,
        is_deleted: m.is_deleted,
    }
}

/// The view of a `ProjectChatReplyRecord`: each field carried over as it is.
pub fn to_project_chat_reply(r: ProjectChatReplyRecord) -> (view: ProjectChatReply)
    ensures
        view.id == r.id,
        view.message_id == r.message_id,
        view.author_id == r.author_id,
        view.author_name == r.author_name,
        view.content == r.content,
        view.created_at == r.created_at,
        view.edited_at == r.edited_at,
        view.is_deleted == r.is_deleted,
{
    ProjectChatReply {
        id: r.id,
        message_id: r.message_id,
        author_id: r.author_id,
        author_name: r.author_name,
        content: r.content,
        created_at: r.created_at,
        edited_at: r.edited_at,
        is_deleted: r.is_deleted,
    }
}

/// The view of a `RegulationRecord`: each field carried over as it is.
pub fn to_regulation(r: RegulationRecord) -> (view: Regulation)
    ensures
        view.id == r.id,
        view.reg_number == r.reg_number,
        view.slug == r.slug,
        view.title == r.title,
        view.description == r.description,
        view.client_id == r.client_id,
        view.client_name == r.client_name,
        view.owner_id == r.owner_id,
        view.owner_name == r.owner_name,
        view.status == r.status,
        view.deadline == r.deadline,
        view.closed_at == r.closed_at,
        view.created_by == r.created_by,
        view.created_by_name == r.created_by_name,
        view.created_at == r.created_at,
        view.updated_at == r.updated_at,
        view.member_count == r.member_count,
        view.entry_count == r.entry_count,
        view.client_service_id == r.client_service_id,
        view.client_service_name == r.client_service_name,
{
    Regulation {
        id: r.id,
        reg_number: r.reg_number,
        slug: r.slug,
        title: r.title,
        description: r.description,
        client_id: r.client_id,
        client_name: r.client_name,
        owner_id: r.owner_id,
        owner_name: r.owner_name,
        status: r.status,
        deadline: r.deadline,
        closed_at: r.closed_at,
        created_by: r.created_by,
        created_by_name: r.created_by_name,
        created_at: r.created_at,
        updated_at: r.updated_at,
        member_count: r.member_count,
        entry_count: r.entry_count,
        client_service_id: r.client_service_id,
        client_service_name: r.client_service_name,
    }
}

/// The view of a `RegulationMemberRecord`: each field carried over as it is.
pub fn to_reg_member(m: RegulationMemberRecord) -> (view: RegulationMember)
    ensures
        view.employee_id == m.employee_id,
        view.employee_name == m.employee_name,
        view.role_in_reg == m.role_in_reg,
        view.added_at == m.added_at,
{
    RegulationMember {
        employee_id: m.employee_id,
        employee_name: m.employee_name,
        role_in_reg: m.role_in_reg,
        added_at: m.added_at,
    }
}

/// The view of a `RegulationEntryRecord`: each field carried over as it is.
pub fn to_reg_entry(e: RegulationEntryRecord) -> (view: RegulationEntry)
    ensures
        view.id == e.id,
        view.regulation_id == e.regulation_id,
        view.author_id == e.author_id,
        view.author_name == e.author_name,
        view.target_employee_id == e.target_employee_id,
        view.target_name == e.target_name,
        view.content == e.content,
        view.attachment_data == e.attachment_data,
        view.attachment_name == e.attachment_name,
        view.deadline == e.deadline,
        view.status == e.status,
        view.created_at == e.created_at,
        view.updated_at == e.updated_at,
        view.reply_count == e.reply_count,
        view.edited_at == e.edited_at,
        view.is_deleted == e.is_deleted,
{
    RegulationEntry {
        id: e.id,
        regulation_id: e.regulation_id,
        author_id: e.author_id,
        author_name: e.author_name,
        target_employee_id: e.target_employee_id,
        target_name: e.target_name,
        content: e.content,
        attachment_data: e.attachment_data,
        attachment_name: e.attachment_name,
        deadline: e.deadline,
        status: e.status,
        created_at: e.created_at,
        updated_at: e.updated_at,
        reply_count: e.reply_count,
        edited_at: e.edited_at,
        is_deleted: e.is_deleted,
    }
}

/// The view of a `MyTaskRecord`: each field carried over as it is.
pub fn to_my_task(t: MyTaskRecord) -> (view: MyTask)
    ensures
        view.entry_id == t.entry_id,
        view.regulation_id == t.regulation_id,
        view.reg_number == t.reg_number,
        view.regulation_title == t.regulation_title,
        view.slug == t.slug,
        view.content == t.content,
        view.deadline == t.deadline,
        view.created_at == t.created_at,
{
    MyTask {
        entry_id: t.entry_id,
        regulation_id: t.regulation_id,
        reg_number: t.reg_number,
        regulation_title: t.regulation_title,
        slug: t.slug,
        content: t.content,
        deadline: t.deadline,
        created_at: t.created_at,
    }
}

/// The view of a `MyProjectTaskRecord`: each field carried over as it is.
pub fn to_my_project_task(t: MyProjectTaskRecord) -> (view: MyProjectTask)
    ensures
        view.message_id == t.message_id,
        view.project_id == t.project_id,
        view.project_number == t.project_number,
        view.project_name == t.project_name,
        view.content == t.content,
        view.deadline == t.deadline,
        view.created_at == t.created_at,
{
    MyProjectTask {
        message_id: t.message_id,
        project_id: t.project_id,
        project_number: t.project_number,
        project_name: t.project_name,
        content: t.content,
        deadline: t.deadline,
        created_at: t.created_at,
    }
}

/// The view of a `RegulationReplyRecord`: each field carried over as it is.
pub fn to_reg_reply(r: RegulationReplyRecord) -> (view: RegulationReply)
    ensures
        view.id == r.id,
        view.entry_id == r.entry_id,
        view.author_id == r.author_id,
        view.author_name == r.author_name,
        view.content == r.content,
        view.created_at == r.created_at,
        view.edited_at == r.edited_at,
        view.is_deleted == r.is_deleted,
{
    RegulationReply {
        id: r.id,
        entry_id: r.entry_id,
        author_id: r.author_id,
        author_name: r.author_name,
        content: r.content,
        created_at: r.created_at,
        edited_at: r.edited_at,
        is_deleted: r.is_deleted,
    }
}

/// The view of a `PartnerRegulationRecord`: each field carried over as it is.
pub fn to_partner_regulation(r: PartnerRegulationRecord) -> (view: PartnerRegulation)
    ensures
        view.id == r.id,
        view.reg_number == r.reg_number,
        view.partner_id == r.partner_id,
        view.partner_name == r.partner_name,
        view.client_id == r.client_id,
        view.client_name == r.client_name,
        view.title == r.title,
        view.description == r.description,
        view.status == r.status,
        view.deadline == r.deadline,
        view.closed_at == r.closed_at,
        view.created_by == r.created_by,
        view.created_by_name == r.created_by_name,
        view.created_at == r.created_at,
        view.updated_at == r.updated_at,
        view.entry_count == r.entry_count,
        view.assistant_id == r.assistant_id,
        view.assistant_name == r.assistant_name,
{
    PartnerRegulation {
        id: r.id,
        reg_number: r.reg_number,
        partner_id: r.partner_id,
        partner_name: r.partner_name,
        client_id: r.client_id,
        client_name: r.client_name,
        title: r.title,
        description: r.description,
        status: r.status,
        deadline: r.deadline,
        closed_at: r.closed_at,
        created_by: r.created_by,
        created_by_name: r.created_by_name,
        created_at: r.created_at,
        updated_at: r.updated_at,
        entry_count: r.entry_count,
        assistant_id: r.assistant_id,
        assistant_name: r.assistant_name,
    }
}

/// The view of a `PartnerServiceRecord`: each field carried over as it is.
pub fn to_partner_service(s: PartnerServiceRecord) -> (view: PartnerService)
    ensures
        view.id == s.id,
        view.partner_id == s.partner_id,
        view.name == s.name,
        view.description == s.description,
        view.code == s.code,
        view.price == s.price,
        view.reward_percent == s.reward_percent,
        view.created_by == s.created_by,
        view.created_by_name == s.created_by_name,
        view.created_at == s.created_at,
        view.updated_at == s.updated_at,
{
    PartnerService {
        id: s.id,
        partner_id: s.partner_id,
        name: s.name,
        description: s.description,
        code: s.code,
        price: s.price,
        reward_percent: s.reward_percent,
        created_by: s.created_by,
        created_by_name: s.created_by_name,
        created_at: s.created_at,
        updated_at: s.updated_at,
    }
}

/// The view of a `HouseServiceRecord`: each field carried over as it is.
pub fn to_house_service(s: HouseServiceRecord) -> (view: HouseService)
    ensures
        view.id == s.id,
        view.name == s.name,
        view.description == s.description,
        view.code == s.code,
        view.price == s.price,
        view.reward_percent == s.reward_percent,
        view.created_by == s.created_by,
        view.created_by_name == s.created_by_name,
        view.created_at == s.created_at,
        view.updated_at == s.updated_at,
{
    HouseService {
        id: s.id,
        name: s.name,
        description: s.description,
        code: s.code,
        price: s.price,
        reward_percent: s.reward_percent,
        created_by: s.created_by,
        created_by_name: s.created_by_name,
        created_at: s.created_at,
        updated_at: s.updated_at,
    }
}

/// The view of a `PartnerRegulationEntryRecord`: each field carried over as it is.
pub fn to_partner_regulation_entry(e: PartnerRegulationEntryRecord) -> (view: PartnerRegulationEntry)
    ensures
        view.id == e.id,
        view.partner_regulation_id == e.partner_regulation_id,
        view.author_id == e.author_id,
        view.author_name == e.author_name,
        view.content == e.content,
        view.attachment_data == e.attachment_data,
        view.attachment_name == e.attachment_name,
        view.deadline == e.deadline,
        view.status == e.status,
        view.created_at == e.created_at,
        view.updated_at == e.updated_at,
        view.reply_count == e.reply_count,
        view.edited_at == e.edited_at,
        view.is_deleted == e.is_deleted,
{
    PartnerRegulationEntry {
        id: e.id,
        partner_regulation_id: e.partner_regulation_id,
        author_id: e.author_id,
        author_name: e.author_name,
        content: e.content,
        attachment_data: e.attachment_data,
        attachment_name: e.attachment_name,
        deadline: e.deadline,
        status: e.status,
        created_at: e.created_at,
        updated_at: e.updated_at,
        reply_count: e.reply_count,
        edited_at: e.edited_at,
        is_deleted: e.is_deleted,
    }
}

/// The view of a `PartnerRegulationReplyRecord`: each field carried over as it is.
pub fn to_partner_regulation_reply(r: PartnerRegulationReplyRecord) -> (view: PartnerRegulationReply)
    ensures
        view.id == r.id,
        view.entry_id == r.entry_id,
        view.author_id == r.author_id,
        view.author_name == r.author_name,
        view.content == r.content,
        view.created_at == r.created_at,
        view.edited_at == r.edited_at,
        view.is_deleted == r.is_deleted,
{
    PartnerRegulationReply {
        id: r.id,
        entry_id: r.entry_id,
        author_id: r.author_id,
        author_name: r.author_name,
        content: r.content,
        created_at: r.created_at,
        edited_at: r.edited_at,
        is_deleted: r.is_deleted,
    }
}

/// The view of a `RegulationReminderRecord`: each field carried over as it is.
pub fn to_reg_reminder(r: RegulationReminderRecord) -> (view: RegulationReminder)
    ensures
        view.id == r.id,
        view.regulation_id == r.regulation_id,
        view.entry_id == r.entry_id,
        view.created_by == r.created_by,
        view.created_by_name == r.created_by_name,
        view.target_employee_id == r.target_employee_id,
        view.target_name == r.target_name,
        view.remind_at == r.remind_at,
        view.note == r.note,
        view.fired == r.fired,
        view.created_at == r.created_at,
{
    RegulationReminder {
        id: r.id,
        regulation_id: r.regulation_id,
        entry_id: r.entry_id,
        created_by: r.created_by,
        created_by_name: r.created_by_name,
        target_employee_id: r.target_employee_id,
        target_name: r.target_name,
        remind_at: r.remind_at,
        note: r.note,
        fired: r.fired,
        created_at: r.created_at,
    }
}

/// The view of a `PositionRecord`: each field carried over as it is.
pub fn to_position(p: PositionRecord) -> (view: Position)
    ensures
        view.id == p.id,
        view.title == p.title,
{
    Position {
        id: p.id,
        title: p.title,
    }
}

/// The view of a `BlogTopicRecord`: each field carried over as it is.
pub fn to_blog_topic(t: BlogTopicRecord) -> (view: BlogTopic)
    ensures
        view.id == t.id,
        view.category == t.category,
        view.title == t.title,
        view.content == t.content,
        view.created_by == t.created_by,
        view.created_by_name == t.created_by_name,
        view.pinned == t.pinned,
        view.created_at == t.created_at,
        view.comment_count == t.comment_count,
        view.partner_audience == t.partner_audience,
{
    BlogTopic {
        id: t.id,
        category: t.category,
        title: t.title,
        content: t.content,
        created_by: t.created_by,
        created_by_name: t.created_by_name,
        pinned: t.pinned,
        created_at: t.created_at,
        comment_count: t.comment_count,
        partner_audience: t.partner_audience,
    }
}

/// The view of a `BlogCommentRecord`: each field carried over as it is.
pub fn to_blog_comment(c: BlogCommentRecord) -> (view: BlogComment)
    ensures
        view.id == c.id,
        view.topic_id == c.topic_id,
        view.author_id == c.author_id,
        view.author_name == c.author_name,
        view.content == c.content,
        view.reply_to_id == c.reply_to_id,
        view.created_at == c.created_at,
{
    BlogComment {
        id: c.id,
        topic_id: c.topic_id,
        author_id: c.author_id,
        author_name: c.author_name,
        content: c.content,
        reply_to_id: c.reply_to_id,
        created_at: c.created_at,
    }
}

/// The view of a `ChatMessageRecord`: each field carried over as it is.
pub fn to_chat_message(m: ChatMessageRecord) -> (view: ChatMessage)
    ensures
        view.id == m.id,
        view.channel == m.channel,
        view.sender_id == m.sender_id,
        view.sender_name == m.sender_name,
        view.sender_avatar == m.sender_avatar,
        view.content == m.content,
        view.attachment_data == m.attachment_data,
        view.attachment_name == m.attachment_name,
        view.reply_to_id == m.reply_to_id,
        view.created_at == m.created_at,
        view.edited_at == m.edited_at,
        view.is_deleted == m.is_deleted,
{
    ChatMessage {
        id: m.id,
        channel: m.channel,
        sender_id: m.sender_id,
        sender_name: m.sender_name,
        sender_avatar: m.sender_avatar,
        content: m.content,
        attachment_data: m.attachment_data,
        attachment_name: m.attachment_name,
        reply_to_id: m.reply_to_id,
        created_at: m.created_at,
        edited_at: m.edited_at,
        is_deleted: m.is_deleted,
    }
}

/// The view of a `DmChannelSummary`: each field carried over as it is.
pub fn to_dm_channel_summary(s: crate::records::DmChannelSummary) -> (view: DmChannelSummary)
    ensures
        view.channel == s.channel,
        view.other_employee_id == s.other_employee_id,
        view.other_employee_name == s.other_employee_name,
        view.other_employee_avatar == s.other_employee_avatar,
        view.last_message == s.last_message,
        view.last_message_at == s.last_message_at,
{
    DmChannelSummary {
        channel: s.channel,
        other_employee_id: s.other_employee_id,
        other_employee_name: s.other_employee_name,
        other_employee_avatar: s.other_employee_avatar,
        last_message: s.last_message,
        last_message_at: s.last_message_at,
    }
}

/// The view of a `PartnerChatSummary`: each field carried over as it is.
pub fn to_partner_chat_summary(s: crate::records::PartnerChatSummary) -> (view: PartnerChatSummary)
    ensures
        view.partner_id == s.partner_id,
        view.partner_name == s.partner_name,
        view.last_message == s.last_message,
        view.last_message_at == s.last_message_at,
{
    PartnerChatSummary {
        partner_id: s.partner_id,
        partner_name: s.partner_name,
        last_message: s.last_message,
        last_message_at: s.last_message_at,
    }
}

/// The view of a `ChatGroupRecord`: each field carried over as it is.
pub fn to_chat_group(g: ChatGroupRecord) -> (view: ChatGroup)
    ensures
        view.id == g.id,
        view.name == g.name,
        view.description == g.description,
        view.photo_data == g.photo_data,
        view.department_id == g.department_id,
        view.invite_code == g.invite_code,
        view.created_by == g.created_by,
        view.created_at == g.created_at,
        view.member_count == g.member_count,
{
    ChatGroup {
        id: g.id,
        name: g.name,
        description: g.description,
        photo_data: g.photo_data,
        department_id: g.department_id,
        invite_code: g.invite_code,
        created_by: g.created_by,
        created_at: g.created_at,
        member_count: g.member_count,
    }
}

/// The view of a `ChatGroupSummary`: each field carried over as it is.
pub fn to_chat_group_summary(s: crate::records::ChatGroupSummary) -> (view: ChatGroupSummary)
    ensures
        view.id == s.id,
        view.name == s.name,
        view.photo_data == s.photo_data,
        view.member_count == s.member_count,
        view.last_message == s.last_message,
        view.last_message_at == s.last_message_at,
{
    ChatGroupSummary {
        id: s.id,
        name: s.name,
        photo_data: s.photo_data,
        member_count: s.member_count,
        last_message: s.last_message,
        last_message_at: s.last_message_at,
    }
}

/// The view of a `ServerSettingsRecord`: each field carried over as it is.
pub fn to_server_settings(s: ServerSettingsRecord) -> (view: ServerSettings)
    ensures
        view.enabled == s.enabled,
        view.port == s.port,
{
    ServerSettings {
        enabled: s.enabled,
        port: s.port,
    }
}

/// The view of a `RadminSettingsRecord`: each field carried over as it is.
pub fn to_radmin_settings(r: RadminSettingsRecord) -> (view: RadminSettings)
    ensures
        view.network_id == r.network_id,
        view.network_password == r.network_password,
        view.note == r.note,
{
    RadminSettings {
        network_id: r.network_id,
        network_password: r.network_password,
        note: r.note,
    }
}

/// The view of a `TelegramBotSettingsRecord`: each field carried over as it is.
pub fn to_telegram_bot_settings(s: TelegramBotSettingsRecord) -> (view: TelegramBotSettings)
    ensures
        view.enabled == s.enabled,
        view.token == s.token,
{
    TelegramBotSettings {
        enabled: s.enabled,
        token: s.token,
    }
}

/// The view of a `ReportExportSettingsRecord`: each field carried over as it is.
pub fn to_report_export_settings(s: ReportExportSettingsRecord) -> (view: ReportExportSettings)
    ensures
        view.enabled == s.enabled,
        view.day_mode == s.day_mode,
        view.fixed_day == s.fixed_day,
        view.time_hhmm == s.time_hhmm,
        view.folder == s.folder,
{
    ReportExportSettings {
        enabled: s.enabled,
        day_mode: s.day_mode,
        fixed_day: s.fixed_day,
        time_hhmm: s.time_hhmm,
        folder: s.folder,
    }
}

/// The view of a `DepartmentRecord`: each field carried over as it is.
pub fn to_department(d: DepartmentRecord) -> (view: Department)
    ensures
        view.id == d.id,
        view.name == d.name,
        view.head_employee_id == d.head_employee_id,
        view.head_name == d.head_name,
        view.deputy_employee_id == d.deputy_employee_id,
        view.deputy_name == d.deputy_name,
        view.member_count == d.member_count,
{
    Department {
        id: d.id,
        name: d.name,
        head_employee_id: d.head_employee_id,
        head_name: d.head_name,
        deputy_employee_id: d.deputy_employee_id,
        deputy_name: d.deputy_name,
        member_count: d.member_count,
    }
}

/// The view of a `NotificationRecord`: each field carried over as it is.
pub fn to_notification(n: NotificationRecord) -> (view: Notification)
    ensures
        view.id == n.id,
        view.employee_id == n.employee_id,
        view.notification_type == n.notification_type,
        view.title == n.title,
        view.body == n.body,
        view.related_entity_type == n.related_entity_type,
        view.related_entity_id == n.related_entity_id,
        view.is_read == n.is_read,
        view.created_at == n.created_at,
{
    Notification {
        id: n.id,
        employee_id: n.employee_id,
        notification_type: n.notification_type,
        title: n.title,
        body: n.body,
        related_entity_type: n.related_entity_type,
        related_entity_id: n.related_entity_id,
        is_read: n.is_read,
        created_at: n.created_at,
    }
}

/// The view of a `EditRequestRecord`: each field carried over as it is.
pub fn to_edit_request(r: EditRequestRecord) -> (view: EditRequest)
    ensures
        view.id == r.id,
        view.employee_id == r.employee_id,
        view.employee_name == r.employee_name,
        view.requested_full_name == r.requested_full_name,
        view.requested_phone == r.requested_phone,
        view.note == r.note,
        view.status == r.status,
        view.created_at == r.created_at,
{
    EditRequest {
        id: r.id,
        employee_id: r.employee_id,
        employee_name: r.employee_name,
        requested_full_name: r.requested_full_name,
        requested_phone: r.requested_phone,
        note: r.note,
        status: r.status,
        created_at: r.created_at,
    }
}

/// The answer to a sign-in attempt.
#[derive(Clone, Debug)]
pub struct LoginResult {
    pub success: bool,
    pub employee: Option<Employee>,
    pub message: Option<String>,
}

/// The answer to a sign-in attempt: the employee on success, the refusal's
/// text otherwise.
pub fn login_result(outcome: Result<EmployeeRecord, CrmError>) -> (r: LoginResult)
    ensures
        match outcome {
            Ok(e) => r.success && (r.employee matches Some(v) && v.id == e.id && v.login == e.login
                && v.full_name == e.full_name && v.is_admin == e.is_admin) && r.message is None,
            Err(err) => !r.success && r.employee is None && (r.message matches Some(m) && m@
                == err.text()),
        },
{
    match outcome {
        Ok(e) => LoginResult { success: true, employee: Some(to_employee(e)), message: None },
        Err(err) => LoginResult { success: false, employee: None, message: Some(err.message()) },
    }
}

} // verus!
