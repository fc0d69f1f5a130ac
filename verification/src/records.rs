//! Rows as the storage layer reads them: one struct per kind of record.
use vstd::prelude::*;

verus! {

#[derive(Clone, Debug)]
pub struct EmployeeRecord {
    pub id: String,
    pub employee_number: String,
    pub login: String,
    pub full_name: String,
    pub is_admin: bool,
    pub phone: Option<String>,
    pub position_id: Option<String>,
    pub position_title: Option<String>,
    pub manager_id: Option<String>,
    pub manager_name: Option<String>,
    pub deputy_id: Option<String>,
    pub deputy_name: Option<String>,
    pub department_id: Option<String>,
    pub department_name: Option<String>,
    pub self_edit_until: Option<String>,
    pub has_pending_edit_request: bool,
    pub avatar_data: Option<String>,
    pub created_at: String,
    pub is_online: bool,
    pub last_seen_at: Option<String>,
    pub manual_status: Option<String>,
    pub manual_status_until: Option<String>,
    pub work_days: Option<String>,
    pub work_start: Option<String>,
    pub work_end: Option<String>,
    pub head_of_department_name: Option<String>,
    pub deputy_of_department_name: Option<String>,
    pub birth_date: Option<String>,
    pub is_partner: bool,
    pub partner_id: Option<String>,
    pub partner_name: Option<String>,
    pub is_blocked: bool,
}

#[derive(Clone, Debug)]
pub struct PartnerRecord {
    pub id: String,
    pub name: String,
    pub created_by: Option<String>,
    pub created_by_name: Option<String>,
    pub created_at: String,
    pub account_count: i64,
}

#[derive(Clone, Debug)]
pub struct ChatMessageRecord {
    pub id: String,
    pub channel: String,
    pub sender_id: String,
    pub sender_name: String,
    pub sender_avatar: Option<String>,
    pub content: String,
    pub attachment_data: Option<String>,
    pub attachment_name: Option<String>,
    pub reply_to_id: Option<String>,
    pub created_at: String,
    pub edited_at: Option<String>,
    pub is_deleted: bool,
}

#[derive(Clone, Debug)]
pub struct DmChannelSummary {
    pub channel: String,
    pub other_employee_id: String,
    pub other_employee_name: String,
    pub other_employee_avatar: Option<String>,
    pub last_message: Option<String>,
    pub last_message_at: Option<String>,
}

#[derive(Clone, Debug)]
pub struct PartnerChatSummary {
    pub partner_id: String,
    pub partner_name: String,
    pub last_message: Option<String>,
    pub last_message_at: Option<String>,
}

#[derive(Clone, Debug)]
pub struct ChatGroupRecord {
    pub id: String,
    pub name: String,
    pub description: Option<String>,
    pub photo_data: Option<String>,
    pub department_id: Option<String>,
    pub invite_code: String,
    pub created_by: Option<String>,
    pub created_at: String,
    pub member_count: i64,
}

#[derive(Clone, Debug)]
pub struct ChatGroupSummary {
    pub id: String,
    pub name: String,
    pub photo_data: Option<String>,
    pub member_count: i64,
    pub last_message: Option<String>,
    pub last_message_at: Option<String>,
}

#[derive(Clone, Debug)]
pub struct SessionRecord {
    pub id: String,
    pub login_at: String,
    pub logout_at: Option<String>,
}

#[derive(Clone, Debug)]
pub struct DepartmentRecord {
    pub id: String,
    pub name: String,
    pub head_employee_id: Option<String>,
    pub head_name: Option<String>,
    pub deputy_employee_id: Option<String>,
    pub deputy_name: Option<String>,
    pub member_count: i64,
}

#[derive(Clone, Debug)]
pub struct NotificationRecord {
    pub id: String,
    pub employee_id: String,
    pub notification_type: String,
    pub title: String,
    pub body: Option<String>,
    pub related_entity_type: Option<String>,
    pub related_entity_id: Option<String>,
    pub is_read: bool,
    pub created_at: String,
}

#[derive(Clone, Debug)]
pub struct EditRequestRecord {
    pub id: String,
    pub employee_id: String,
    pub employee_name: String,
    pub requested_full_name: Option<String>,
    pub requested_phone: Option<String>,
    pub note: Option<String>,
    pub status: String,
    pub created_at: String,
}

#[derive(Clone, Debug)]
pub struct AbsenceRequestRecord {
    pub id: String,
    pub employee_id: String,
    pub employee_name: String,
    pub request_type: String,
    pub start_date: String,
    pub end_date: String,
    pub reason: Option<String>,
    pub makeup_slots: Option<String>,
    pub status: String,
    pub created_at: String,
    pub resolved_by: Option<String>,
    pub resolved_by_name: Option<String>,
    pub resolved_by_is_admin: bool,
    pub resolved_at: Option<String>,
}

#[derive(Clone, Debug)]
pub struct ClientRecord {
    pub id: String,
    pub client_number: String,
    pub name: String,
    pub contact_person: Option<String>,
    pub contact_position: Option<String>,
    pub phone: Option<String>,
    pub email: Option<String>,
    pub address: Option<String>,
    pub notes: Option<String>,
    pub created_by: Option<String>,
    pub created_by_name: Option<String>,
    pub created_at: String,
    pub partner_id: Option<String>,
    pub partner_name: Option<String>,
    pub deal_value: Option<String>,
    pub service_id: Option<String>,
    pub service_name: Option<String>,
    pub house_service_id: Option<String>,
    pub house_service_name: Option<String>,
    pub origin_partner_id: Option<String>,
    pub origin_partner_name: Option<String>,
}

#[derive(Clone, Debug)]
pub struct ClientHistoryRecord {
    pub id: String,
    pub client_id: String,
    pub description: String,
    pub created_by: Option<String>,
    pub created_by_name: Option<String>,
    pub created_at: String,
}

#[derive(Clone, Debug)]
pub struct ClientServiceRecord {
    pub id: String,
    pub client_id: String,
    pub house_service_id: Option<String>,
    pub service_id: Option<String>,
    pub service_name: String,
    pub price: Option<String>,
    pub added_by: Option<String>,
    pub added_by_name: Option<String>,
    pub created_at: String,
}

#[derive(Clone, Debug)]
pub struct ServiceMonthStat {
    pub month: String,
    pub service_name: String,
    pub count: i64,
}

#[derive(Clone, Debug)]
pub struct AgentRecord {
    pub id: String,
    pub agent_number: String,
    pub full_name: String,
    pub phone: Option<String>,
    pub address: Option<String>,
    pub email: Option<String>,
    pub passport_photo_data: Option<String>,
    pub passport_photo_name: Option<String>,
    pub card_number: Option<String>,
    pub consent_given: bool,
    pub consent_given_at: Option<String>,
    pub locale: String,
    pub telegram_chat_id: String,
    pub status: String,
    pub created_at: String,
    pub resolved_at: Option<String>,
    pub resolved_by: Option<String>,
}

#[derive(Clone, Debug)]
pub struct AgentLeadRecord {
    pub id: String,
    pub agent_id: String,
    pub agent_name: String,
    pub client_name: String,
    pub client_inn: String,
    pub client_phone: Option<String>,
    pub company_name: Option<String>,
    pub note: Option<String>,
    pub stage: String,
    pub converted_client_id: Option<String>,
    pub converted_client_number: Option<String>,
    pub service_ids: Option<String>,
    pub payment_status: String,
    pub paid_at: Option<String>,
    pub created_at: String,
    pub updated_at: String,
}

#[derive(Clone, Debug)]
pub struct AgentConsentSettings {
    pub enabled: bool,
    pub text_ru: String,
    pub text_uz: String,
    pub text_uz_cyrl: String,
    pub chat_link: Option<String>,
}

#[derive(Clone, Debug)]
pub struct AgentWelcomeSettings {
    pub text_ru: String,
    pub text_uz: String,
    pub text_uz_cyrl: String,
}

#[derive(Clone, Debug)]
pub struct AgentTrainingPostRecord {
    pub id: String,
    pub title: String,
    pub body: String,
    pub created_by: Option<String>,
    pub created_by_name: Option<String>,
    pub created_at: String,
}

#[derive(Clone, Debug)]
pub struct ProjectRecord {
    pub id: String,
    pub project_number: String,
    pub name: String,
    pub description: Option<String>,
    pub client_id: Option<String>,
    pub client_name: Option<String>,
    pub owner_id: String,
    pub owner_name: String,
    pub status: String,
    pub created_by: Option<String>,
    pub created_by_name: Option<String>,
    pub created_at: String,
    pub updated_at: String,
    pub member_count: i64,
}

#[derive(Clone, Debug)]
pub struct ProjectMemberRecord {
    pub employee_id: String,
    pub employee_name: String,
    pub role_in_project: String,
    pub is_owner: bool,
    pub added_at: String,
}

#[derive(Clone, Debug)]
pub struct ProjectChatMessageRecord {
    pub id: String,
    pub project_id: String,
    pub sender_id: String,
    pub sender_name: String,
    pub sender_is_blocked: bool,
    pub target_employee_id: String,
    pub target_name: String,
    pub target_is_blocked: bool,
    pub content: String,
    pub attachment_data: Option<String>,
    pub attachment_name: Option<String>,
    pub deadline: Option<String>,
    pub status: String,
    pub created_at: String,
    pub reply_count: i64,
    pub edited_at: Option<String>,
    pub is_deleted: bool,
}

#[derive(Clone, Debug)]
pub struct ProjectChatReplyRecord {
    pub id: String,
    pub message_id: String,
    pub author_id: String,
    pub author_name: String,
    pub author_is_blocked: bool,
    pub content: String,
    pub created_at: String,
    pub edited_at: Option<String>,
    pub is_deleted: bool,
}

#[derive(Clone, Debug)]
pub struct RegulationRecord {
    pub id: String,
    pub reg_number: String,
    pub slug: String,
    pub title: String,
    pub description: Option<String>,
    pub client_id: Option<String>,
    pub client_name: Option<String>,
    pub owner_id: String,
    pub owner_name: String,
    pub status: String,
    pub deadline: Option<String>,
    pub closed_at: Option<String>,
    pub created_by: Option<String>,
    pub created_by_name: Option<String>,
    pub created_at: String,
    pub updated_at: String,
    pub member_count: i64,
    pub entry_count: i64,
    pub client_service_id: Option<String>,
    pub client_service_name: Option<String>,
}

#[derive(Clone, Debug)]
pub struct RegulationMemberRecord {
    pub employee_id: String,
    pub employee_name: String,
    pub role_in_reg: String,
    pub added_at: String,
}

#[derive(Clone, Debug)]
pub struct RegulationEntryRecord {
    pub id: String,
    pub regulation_id: String,
    pub author_id: String,
    pub author_name: String,
    pub author_is_blocked: bool,
    pub target_employee_id: String,
    pub target_name: String,
    pub target_is_blocked: bool,
    pub content: String,
    pub attachment_data: Option<String>,
    pub attachment_name: Option<String>,
    pub deadline: Option<String>,
    pub status: String,
    pub created_at: String,
    pub updated_at: String,
    pub reply_count: i64,
    pub edited_at: Option<String>,
    pub is_deleted: bool,
}

#[derive(Clone, Debug)]
pub struct MyTaskRecord {
    pub entry_id: String,
    pub regulation_id: String,
    pub reg_number: String,
    pub regulation_title: String,
    pub slug: String,
    pub content: String,
    pub deadline: Option<String>,
    pub created_at: String,
}

#[derive(Clone, Debug)]
pub struct MyProjectTaskRecord {
    pub message_id: String,
    pub project_id: String,
    pub project_number: String,
    pub project_name: String,
    pub content: String,
    pub deadline: Option<String>,
    pub created_at: String,
}

#[derive(Clone, Debug)]
pub struct RegulationReplyRecord {
    pub id: String,
    pub entry_id: String,
    pub author_id: String,
    pub author_name: String,
    pub author_is_blocked: bool,
    pub content: String,
    pub created_at: String,
    pub edited_at: Option<String>,
    pub is_deleted: bool,
}

#[derive(Clone, Debug)]
pub struct RegulationReminderRecord {
    pub id: String,
    pub regulation_id: String,
    pub entry_id: Option<String>,
    pub created_by: String,
    pub created_by_name: String,
    pub target_employee_id: String,
    pub target_name: String,
    pub remind_at: String,
    pub note: String,
    pub fired: bool,
    pub created_at: String,
}

#[derive(Clone, Debug)]
pub struct PartnerRegulationRecord {
    pub id: String,
    pub reg_number: String,
    pub partner_id: String,
    pub partner_name: String,
    pub client_id: Option<String>,
    pub client_name: Option<String>,
    pub title: String,
    pub description: Option<String>,
    pub status: String,
    pub deadline: Option<String>,
    pub closed_at: Option<String>,
    pub created_by: Option<String>,
    pub created_by_name: Option<String>,
    pub created_at: String,
    pub updated_at: String,
    pub entry_count: i64,
    pub assistant_id: Option<String>,
    pub assistant_name: Option<String>,
}

#[derive(Clone, Debug)]
pub struct PartnerServiceRecord {
    pub id: String,
    pub partner_id: String,
    pub name: String,
    pub description: Option<String>,
    pub code: Option<String>,
    pub price: Option<String>,
    pub reward_percent: Option<String>,
    pub created_by: Option<String>,
    pub created_by_name: Option<String>,
    pub created_at: String,
    pub updated_at: String,
}

#[derive(Clone, Debug)]
pub struct HouseServiceRecord {
    pub id: String,
    pub name: String,
    pub description: Option<String>,
    pub code: Option<String>,
    pub price: Option<String>,
    pub reward_percent: Option<String>,
    pub created_by: Option<String>,
    pub created_by_name: Option<String>,
    pub created_at: String,
    pub updated_at: String,
}

#[derive(Clone, Debug)]
pub struct PartnerRegulationEntryRecord {
    pub id: String,
    pub partner_regulation_id: String,
    pub author_id: String,
    pub author_name: String,
    pub content: String,
    pub attachment_data: Option<String>,
    pub attachment_name: Option<String>,
    pub deadline: Option<String>,
    pub status: String,
    pub created_at: String,
    pub updated_at: String,
    pub reply_count: i64,
    pub edited_at: Option<String>,
    pub is_deleted: bool,
}

#[derive(Clone, Debug)]
pub struct PartnerRegulationReplyRecord {
    pub id: String,
    pub entry_id: String,
    pub author_id: String,
    pub author_name: String,
    pub content: String,
    pub created_at: String,
    pub edited_at: Option<String>,
    pub is_deleted: bool,
}

#[derive(Clone, Debug)]
pub struct PositionRecord {
    pub id: String,
    pub title: String,
}

#[derive(Clone, Debug)]
pub struct BlogTopicRecord {
    pub id: String,
    pub category: String,
    pub title: String,
    pub content: Option<String>,
    pub created_by: String,
    pub created_by_name: String,
    pub created_by_is_blocked: bool,
    pub pinned: bool,
    pub created_at: String,
    pub comment_count: i64,
    pub partner_audience: Option<String>,
}

#[derive(Clone, Debug)]
pub struct BlogCommentRecord {
    pub id: String,
    pub topic_id: String,
    pub author_id: String,
    pub author_name: String,
    pub author_is_blocked: bool,
    pub content: String,
    pub reply_to_id: Option<String>,
    pub created_at: String,
}

#[derive(Clone, Debug)]
pub struct NotebookSettingsRecord {
    pub enabled: bool,
    pub name: Option<String>,
}

#[derive(Clone, Debug)]
pub struct OnboardingStatusRecord {
    pub completed: bool,
}

#[derive(Clone, Debug)]
pub struct NotebookNoteRecord {
    pub id: String,
    pub employee_id: String,
    pub title: String,
    pub content: Option<String>,
    pub created_at: String,
    pub updated_at: String,
}

#[derive(Clone, Debug)]
pub struct ServerSettingsRecord {
    pub enabled: bool,
    pub port: u16,
}

#[derive(Clone, Debug)]
pub struct RadminSettingsRecord {
    pub network_id: String,
    pub network_password: String,
    pub note: String,
}

#[derive(Clone, Debug)]
pub struct TelegramBotSettingsRecord {
    pub enabled: bool,
    pub token: Option<String>,
}

#[derive(Clone, Debug)]
pub struct ReportExportSettingsRecord {
    pub enabled: bool,
    pub day_mode: String,
    pub fixed_day: i64,
    pub time_hhmm: String,
    pub folder: String,
}

} // verus!
