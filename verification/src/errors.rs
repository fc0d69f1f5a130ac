//! The refusals the application reports to its user, one variant each, with
//! the exact wording shown.
use vstd::prelude::*;

verus! {

/// A refusal of a request.
#[derive(Clone, Copy, Debug, PartialEq, Eq, Structural)]
pub enum CrmError {
    Forbidden,
    EmployeeNotFound,
    PartnerNoGeneralChat,
    PartnerNoDirectChat,
    PartnerNoGroups,
    InvalidChannel,
    InterlocutorNotFound,
    PartnerNotFound,
    EmptyMessage,
    ReplyTargetNotFound,
    MessageNotFound,
    MessageDeleted,
    GroupNameRequired,
    DepartmentGroupHeadOnly,
    GroupMembersRequired,
    GroupNotFound,
    InviteCodeNotFound,
    InvalidAbsenceType,
    EndBeforeStart,
    RequestNotFound,
    RequestAlreadyProcessed,
    CannotResolveAbsence,
    EditFieldRequired,
    EditRequestPending,
    UnknownAction,
    EntryNotFound,
    EntryDeleted,
    EmptyEntry,
    ReplyNotFound,
    ReplyDeleted,
    EmptyReply,
    RegulationNotFound,
    ProjectNotFound,
    RegulationClosedEntries,
    RegulationClosedReplies,
    NotRegulationMember,
    NotProjectMember,
    RegulationOwnerAssignsOnly,
    ProjectOwnerAssignsOnly,
    EmptyProjectMessage,
    TargetNotRegulationMember,
    TargetNotProjectMember,
    InvalidTaskStatus,
    RegulationMembersOwnerOnly,
    ProjectMembersOwnerOnly,
    InvalidRole,
    PartnerNotForRegulation,
    PartnerNotForProject,
    RegulationOwnerStays,
    ProjectOwnerStays,
    AlreadyProjectOwner,
    ProjectNameRequired,
    InvalidProjectStatus,
    ProjectEditForbidden,
    RegulationTitleRequired,
    RegulationEditForbidden,
    InvalidStatus,
    ReminderNoteRequired,
    AssistantMustBeAdmin,
    AssistantMustBePartnerStaff,
    AdminExists,
    InvalidCredentials,
    AccountBlocked,
    WrongCurrentPassword,
    NewPasswordTooShort,
    PasswordTooShort,
    PasswordHashFailed,
    EmployeeCreateForbidden,
    PartnerRequired,
    EmployeeEditForbidden,
    SelfManager,
    CannotBlockSelf,
    CannotDeleteSelf,
    BlockFirst,
    SelfEditExpired,
    ScheduleForbidden,
    PositionTitleRequired,
    PartnerNameRequired,
    PartnerHasAccounts,
    NotSignedIn,
    CallerMismatch,
    BackupSaltFailed,
    BackupNonceFailed,
    BackupEncryptFailed,
    BackupCorrupted,
    BackupWrongPassword,
    BackupNotDatabase,
    BackupPasswordTooShort,
    ClientNameRequired,
    PartnerOrgMissing,
    ClientNotFound,
    ClientUnavailable,
    BothServices,
    ServiceNotFound,
    ServiceNeedsPartner,
    ServiceOfOtherPartner,
    ServiceRequired,
    ClientAlreadyInBase,
    EmptyHistoryEntry,
    AgentNotFound,
    CardNumberMissing,
    AgentNameRequired,
    AgentNotApproved,
    InnRequired,
    InnLeadExists,
    InnClientExists,
    InvalidStage,
    LeadNotFound,
    LeadAlreadyConverted,
    LeadNotConverted,
    PayoutAlreadyMarked,
    TrainingPostFieldsRequired,
    PortTooLow,
    InvalidDayMode,
    BadPeriodStart,
    BadPeriodEnd,
    TopicTitleRequired,
    InvalidCategory,
    TopicNotFound,
    TopicAuthorOnly,
    EmptyComment,
    DepartmentsForbidden,
    DepartmentNameRequired,
    NoteTitleRequired,
    NoteNotFound,
    ServiceNameRequired,
}

impl CrmError {
    /// The text shown for this refusal.
    pub open spec fn text(self) -> Seq<char> {
        match self {
            CrmError::Forbidden => "Недостаточно прав"@,
            CrmError::EmployeeNotFound => "Сотрудник не найден"@,
            CrmError::PartnerNoGeneralChat => "Партнёрам недоступен общий чат"@,
            CrmError::PartnerNoDirectChat => "Партнёрам недоступна личная переписка"@,
            CrmError::PartnerNoGroups => "Партнёрам недоступны группы"@,
            CrmError::InvalidChannel => "Некорректный канал"@,
            CrmError::InterlocutorNotFound => "Собеседник не найден"@,
            CrmError::PartnerNotFound => "Партнёр не найден"@,
            CrmError::EmptyMessage => "Сообщение не может быть пустым"@,
            CrmError::ReplyTargetNotFound => "Сообщение, на которое отвечаете, не найдено"@,
            CrmError::MessageNotFound => "Сообщение не найдено"@,
            CrmError::MessageDeleted => "Сообщение удалено"@,
            CrmError::GroupNameRequired => "Укажите название группы"@,
            CrmError::DepartmentGroupHeadOnly => "Создавать группу подразделения может только его руководитель"@,
            CrmError::GroupMembersRequired => "Выберите хотя бы одного участника"@,
            CrmError::GroupNotFound => "Группа не найдена"@,
            CrmError::InviteCodeNotFound => "Код приглашения не найден"@,
            CrmError::InvalidAbsenceType => "Некорректный тип заявки"@,
            CrmError::EndBeforeStart => "Дата окончания раньше даты начала"@,
            CrmError::RequestNotFound => "Заявка не найдена"@,
            CrmError::RequestAlreadyProcessed => "Заявка уже обработана"@,
            CrmError::CannotResolveAbsence => "Недостаточно прав для рассмотрения этой заявки"@,
            CrmError::EditFieldRequired => "Укажите хотя бы одно поле для изменения"@,
            CrmError::EditRequestPending => "У вас уже есть заявка на рассмотрении"@,
            CrmError::UnknownAction => "Неизвестное действие"@,
            CrmError::EntryNotFound => "Запись не найдена"@,
            CrmError::EntryDeleted => "Запись удалена"@,
            CrmError::EmptyEntry => "Запись не может быть пустой"@,
            CrmError::ReplyNotFound => "Ответ не найден"@,
            CrmError::ReplyDeleted => "Ответ удалён"@,
            CrmError::EmptyReply => "Ответ не может быть пустым"@,
            CrmError::RegulationNotFound => "Регламент не найден"@,
            CrmError::ProjectNotFound => "Проект не найден"@,
            CrmError::RegulationClosedEntries => "Регламент закрыт — новые записи нельзя добавлять"@,
            CrmError::RegulationClosedReplies => "Регламент закрыт — новые ответы нельзя добавлять"@,
            CrmError::NotRegulationMember => "Вы не участник этого регламента"@,
            CrmError::NotProjectMember => "Вы не участник этого проекта"@,
            CrmError::RegulationOwnerAssignsOnly => "Только ответственный может ставить задачи другим участникам"@,
            CrmError::ProjectOwnerAssignsOnly => "Только владелец проекта может ставить задачи другим участникам"@,
            CrmError::EmptyProjectMessage => "Пустое сообщение"@,
            CrmError::TargetNotRegulationMember => "Получатель должен быть участником регламента"@,
            CrmError::TargetNotProjectMember => "Получатель должен быть участником проекта"@,
            CrmError::InvalidTaskStatus => "Некорректный статус задачи"@,
            CrmError::RegulationMembersOwnerOnly => "Добавлять участников может только владелец регламента или помощник"@,
            CrmError::ProjectMembersOwnerOnly => "Добавлять участников может только владелец проекта или помощник"@,
            CrmError::InvalidRole => "Некорректная роль"@,
            CrmError::PartnerNotForRegulation => "Партнёра нельзя добавить в регламент — у партнёров свои отдельные регламенты"@,
            CrmError::PartnerNotForProject => "Партнёра нельзя добавить в проект — у партнёров свои отдельные регламенты"@,
            CrmError::RegulationOwnerStays => "Нельзя убрать ответственного из регламента"@,
            CrmError::ProjectOwnerStays => "Сначала передайте главенство над проектом другому участнику"@,
            CrmError::AlreadyProjectOwner => "Этот сотрудник уже является владельцем проекта"@,
            CrmError::ProjectNameRequired => "Укажите название проекта"@,
            CrmError::InvalidProjectStatus => "Некорректный статус проекта"@,
            CrmError::ProjectEditForbidden => "Недостаточно прав для редактирования проекта"@,
            CrmError::RegulationTitleRequired => "Укажите название регламента"@,
            CrmError::RegulationEditForbidden => "Недостаточно прав для редактирования регламента"@,
            CrmError::InvalidStatus => "Некорректный статус"@,
            CrmError::ReminderNoteRequired => "Укажите текст напоминания"@,
            CrmError::AssistantMustBeAdmin => "Помощником может быть только администратор"@,
            CrmError::AssistantMustBePartnerStaff => "Помощник должен быть сотрудником этого партнёра"@,
            CrmError::AdminExists => "Администратор уже создан"@,
            CrmError::InvalidCredentials => "Неверный логин или пароль"@,
            CrmError::AccountBlocked => "Учётная запись заблокирована администратором"@,
            CrmError::WrongCurrentPassword => "Текущий пароль указан неверно"@,
            CrmError::NewPasswordTooShort => "Новый пароль должен быть не короче 6 символов"@,
            CrmError::PasswordTooShort => "Пароль должен быть не короче 6 символов"@,
            CrmError::PasswordHashFailed => "Не удалось вычислить хеш пароля"@,
            CrmError::EmployeeCreateForbidden => "Недостаточно прав для добавления сотрудников"@,
            CrmError::PartnerRequired => "Выберите партнёра для этого аккаунта"@,
            CrmError::EmployeeEditForbidden => "Недостаточно прав для редактирования сотрудников"@,
            CrmError::SelfManager => "Сотрудник не может быть руководителем или заместителем самого себя"@,
            CrmError::CannotBlockSelf => "Нельзя заблокировать самого себя"@,
            CrmError::CannotDeleteSelf => "Нельзя удалить самого себя"@,
            CrmError::BlockFirst => "Сначала заблокируйте сотрудника"@,
            CrmError::SelfEditExpired => "Доступ для самостоятельного редактирования истёк или не был выдан"@,
            CrmError::ScheduleForbidden => "Недостаточно прав для настройки графика"@,
            CrmError::PositionTitleRequired => "Название должности не может быть пустым"@,
            CrmError::PartnerNameRequired => "Укажите название партнёра"@,
            CrmError::PartnerHasAccounts => "У этого партнёра ещё есть аккаунты — сначала удалите или перепривяжите их"@,
            CrmError::NotSignedIn => "Не авторизован — войдите заново"@,
            CrmError::CallerMismatch => "Несоответствие идентификатора вызывающего"@,
            CrmError::BackupSaltFailed => "Не удалось сгенерировать соль"@,
            CrmError::BackupNonceFailed => "Не удалось сгенерировать nonce"@,
            CrmError::BackupEncryptFailed => "Ошибка шифрования резервной копии"@,
            CrmError::BackupCorrupted => "Файл резервной копии повреждён или это не бэкап IB CRM"@,
            CrmError::BackupWrongPassword => "Неверный пароль или повреждённый файл резервной копии"@,
            CrmError::BackupNotDatabase => "Расшифрованный файл не похож на базу данных IB CRM"@,
            CrmError::BackupPasswordTooShort => "Пароль резервной копии должен быть не короче 6 символов"@,
            CrmError::ClientNameRequired => "Укажите название/имя клиента"@,
            CrmError::PartnerOrgMissing => "У партнёра не задана организация"@,
            CrmError::ClientNotFound => "Клиент не найден"@,
            CrmError::ClientUnavailable => "Клиент не найден или недоступен"@,
            CrmError::BothServices => "Нельзя одновременно выбрать услугу партнёра и услугу из общего каталога"@,
            CrmError::ServiceNotFound => "Услуга не найдена"@,
            CrmError::ServiceNeedsPartner => "Услугу можно выбрать только для клиента партнёра"@,
            CrmError::ServiceOfOtherPartner => "Услуга принадлежит другому партнёру"@,
            CrmError::ServiceRequired => "Выберите услугу"@,
            CrmError::ClientAlreadyInBase => "Клиент уже в базе CRM"@,
            CrmError::EmptyHistoryEntry => "Пустая запись"@,
            CrmError::AgentNotFound => "Агент не найден"@,
            CrmError::CardNumberMissing => "Номер карты не указан"@,
            CrmError::AgentNameRequired => "Укажите ФИО агента"@,
            CrmError::AgentNotApproved => "Агент не подтверждён"@,
            CrmError::InnRequired => "Укажите ИНН клиента"@,
            CrmError::InnLeadExists => "Клиент с таким ИНН уже зарегистрирован"@,
            CrmError::InnClientExists => "Клиент с таким ИНН уже есть в базе"@,
            CrmError::InvalidStage => "Некорректная стадия"@,
            CrmError::LeadNotFound => "Лид не найден"@,
            CrmError::LeadAlreadyConverted => "Лид уже оформлен в клиента"@,
            CrmError::LeadNotConverted => "Клиент ещё не оформлен"@,
            CrmError::PayoutAlreadyMarked => "Выплата уже отмечена"@,
            CrmError::TrainingPostFieldsRequired => "Укажите заголовок и текст материала"@,
            CrmError::PortTooLow => "Порт должен быть не меньше 1024"@,
            CrmError::InvalidDayMode => "Некорректный режим дня"@,
            CrmError::BadPeriodStart => "Некорректная дата начала периода"@,
            CrmError::BadPeriodEnd => "Некорректная дата конца периода"@,
            CrmError::TopicTitleRequired => "Укажите заголовок темы"@,
            CrmError::InvalidCategory => "Некорректная категория"@,
            CrmError::TopicNotFound => "Тема не найдена"@,
            CrmError::TopicAuthorOnly => "Редактировать тему может только её автор"@,
            CrmError::EmptyComment => "Комментарий не может быть пустым"@,
            CrmError::DepartmentsForbidden => "Недостаточно прав для управления подразделениями"@,
            CrmError::DepartmentNameRequired => "Название подразделения не может быть пустым"@,
            CrmError::NoteTitleRequired => "Укажите заголовок заметки"@,
            CrmError::NoteNotFound => "Заметка не найдена"@,
            CrmError::ServiceNameRequired => "Укажите название услуги"@,
        }
    }

    /// The text shown for this refusal, as a string.
    pub fn message(&self) -> (m: String)
        ensures
            m@ == self.text(),
    {
        let s: &str = match self {
            CrmError::Forbidden => "Недостаточно прав",
            CrmError::EmployeeNotFound => "Сотрудник не найден",
            CrmError::PartnerNoGeneralChat => "Партнёрам недоступен общий чат",
            CrmError::PartnerNoDirectChat => "Партнёрам недоступна личная переписка",
            CrmError::PartnerNoGroups => "Партнёрам недоступны группы",
            CrmError::InvalidChannel => "Некорректный канал",
            CrmError::InterlocutorNotFound => "Собеседник не найден",
            CrmError::PartnerNotFound => "Партнёр не найден",
            CrmError::EmptyMessage => "Сообщение не может быть пустым",
            CrmError::ReplyTargetNotFound => "Сообщение, на которое отвечаете, не найдено",
            CrmError::MessageNotFound => "Сообщение не найдено",
            CrmError::MessageDeleted => "Сообщение удалено",
            CrmError::GroupNameRequired => "Укажите название группы",
            CrmError::DepartmentGroupHeadOnly => "Создавать группу подразделения может только его руководитель",
            CrmError::GroupMembersRequired => "Выберите хотя бы одного участника",
            CrmError::GroupNotFound => "Группа не найдена",
            CrmError::InviteCodeNotFound => "Код приглашения не найден",
            CrmError::InvalidAbsenceType => "Некорректный тип заявки",
            CrmError::EndBeforeStart => "Дата окончания раньше даты начала",
            CrmError::RequestNotFound => "Заявка не найдена",
            CrmError::RequestAlreadyProcessed => "Заявка уже обработана",
            CrmError::CannotResolveAbsence => "Недостаточно прав для рассмотрения этой заявки",
            CrmError::EditFieldRequired => "Укажите хотя бы одно поле для изменения",
            CrmError::EditRequestPending => "У вас уже есть заявка на рассмотрении",
            CrmError::UnknownAction => "Неизвестное действие",
            CrmError::EntryNotFound => "Запись не найдена",
            CrmError::EntryDeleted => "Запись удалена",
            CrmError::EmptyEntry => "Запись не может быть пустой",
            CrmError::ReplyNotFound => "Ответ не найден",
            CrmError::ReplyDeleted => "Ответ удалён",
            CrmError::EmptyReply => "Ответ не может быть пустым",
            CrmError::RegulationNotFound => "Регламент не найден",
            CrmError::ProjectNotFound => "Проект не найден",
            CrmError::RegulationClosedEntries => "Регламент закрыт — новые записи нельзя добавлять",
            CrmError::RegulationClosedReplies => "Регламент закрыт — новые ответы нельзя добавлять",
            CrmError::NotRegulationMember => "Вы не участник этого регламента",
            CrmError::NotProjectMember => "Вы не участник этого проекта",
            CrmError::RegulationOwnerAssignsOnly => "Только ответственный может ставить задачи другим участникам",
            CrmError::ProjectOwnerAssignsOnly => "Только владелец проекта может ставить задачи другим участникам",
            CrmError::EmptyProjectMessage => "Пустое сообщение",
            CrmError::TargetNotRegulationMember => "Получатель должен быть участником регламента",
            CrmError::TargetNotProjectMember => "Получатель должен быть участником проекта",
            CrmError::InvalidTaskStatus => "Некорректный статус задачи",
            CrmError::RegulationMembersOwnerOnly => "Добавлять участников может только владелец регламента или помощник",
            CrmError::ProjectMembersOwnerOnly => "Добавлять участников может только владелец проекта или помощник",
            CrmError::InvalidRole => "Некорректная роль",
            CrmError::PartnerNotForRegulation => "Партнёра нельзя добавить в регламент — у партнёров свои отдельные регламенты",
            CrmError::PartnerNotForProject => "Партнёра нельзя добавить в проект — у партнёров свои отдельные регламенты",
            CrmError::RegulationOwnerStays => "Нельзя убрать ответственного из регламента",
            CrmError::ProjectOwnerStays => "Сначала передайте главенство над проектом другому участнику",
            CrmError::AlreadyProjectOwner => "Этот сотрудник уже является владельцем проекта",
            CrmError::ProjectNameRequired => "Укажите название проекта",
            CrmError::InvalidProjectStatus => "Некорректный статус проекта",
            CrmError::ProjectEditForbidden => "Недостаточно прав для редактирования проекта",
            CrmError::RegulationTitleRequired => "Укажите название регламента",
            CrmError::RegulationEditForbidden => "Недостаточно прав для редактирования регламента",
            CrmError::InvalidStatus => "Некорректный статус",
            CrmError::ReminderNoteRequired => "Укажите текст напоминания",
            CrmError::AssistantMustBeAdmin => "Помощником может быть только администратор",
            CrmError::AssistantMustBePartnerStaff => "Помощник должен быть сотрудником этого партнёра",
            CrmError::AdminExists => "Администратор уже создан",
            CrmError::InvalidCredentials => "Неверный логин или пароль",
            CrmError::AccountBlocked => "Учётная запись заблокирована администратором",
            CrmError::WrongCurrentPassword => "Текущий пароль указан неверно",
            CrmError::NewPasswordTooShort => "Новый пароль должен быть не короче 6 символов",
            CrmError::PasswordTooShort => "Пароль должен быть не короче 6 символов",
            CrmError::PasswordHashFailed => "Не удалось вычислить хеш пароля",
            CrmError::EmployeeCreateForbidden => "Недостаточно прав для добавления сотрудников",
            CrmError::PartnerRequired => "Выберите партнёра для этого аккаунта",
            CrmError::EmployeeEditForbidden => "Недостаточно прав для редактирования сотрудников",
            CrmError::SelfManager => "Сотрудник не может быть руководителем или заместителем самого себя",
            CrmError::CannotBlockSelf => "Нельзя заблокировать самого себя",
            CrmError::CannotDeleteSelf => "Нельзя удалить самого себя",
            CrmError::BlockFirst => "Сначала заблокируйте сотрудника",
            CrmError::SelfEditExpired => "Доступ для самостоятельного редактирования истёк или не был выдан",
            CrmError::ScheduleForbidden => "Недостаточно прав для настройки графика",
            CrmError::PositionTitleRequired => "Название должности не может быть пустым",
            CrmError::PartnerNameRequired => "Укажите название партнёра",
            CrmError::PartnerHasAccounts => "У этого партнёра ещё есть аккаунты — сначала удалите или перепривяжите их",
            CrmError::NotSignedIn => "Не авторизован — войдите заново",
            CrmError::CallerMismatch => "Несоответствие идентификатора вызывающего",
            CrmError::BackupSaltFailed => "Не удалось сгенерировать соль",
            CrmError::BackupNonceFailed => "Не удалось сгенерировать nonce",
            CrmError::BackupEncryptFailed => "Ошибка шифрования резервной копии",
            CrmError::BackupCorrupted => "Файл резервной копии повреждён или это не бэкап IB CRM",
            CrmError::BackupWrongPassword => "Неверный пароль или повреждённый файл резервной копии",
            CrmError::BackupNotDatabase => "Расшифрованный файл не похож на базу данных IB CRM",
            CrmError::BackupPasswordTooShort => "Пароль резервной копии должен быть не короче 6 символов",
            CrmError::ClientNameRequired => "Укажите название/имя клиента",
            CrmError::PartnerOrgMissing => "У партнёра не задана организация",
            CrmError::ClientNotFound => "Клиент не найден",
            CrmError::ClientUnavailable => "Клиент не найден или недоступен",
            CrmError::BothServices => "Нельзя одновременно выбрать услугу партнёра и услугу из общего каталога",
            CrmError::ServiceNotFound => "Услуга не найдена",
            CrmError::ServiceNeedsPartner => "Услугу можно выбрать только для клиента партнёра",
            CrmError::ServiceOfOtherPartner => "Услуга принадлежит другому партнёру",
            CrmError::ServiceRequired => "Выберите услугу",
            CrmError::ClientAlreadyInBase => "Клиент уже в базе CRM",
            CrmError::EmptyHistoryEntry => "Пустая запись",
            CrmError::AgentNotFound => "Агент не найден",
            CrmError::CardNumberMissing => "Номер карты не указан",
            CrmError::AgentNameRequired => "Укажите ФИО агента",
            CrmError::AgentNotApproved => "Агент не подтверждён",
            CrmError::InnRequired => "Укажите ИНН клиента",
            CrmError::InnLeadExists => "Клиент с таким ИНН уже зарегистрирован",
            CrmError::InnClientExists => "Клиент с таким ИНН уже есть в базе",
            CrmError::InvalidStage => "Некорректная стадия",
            CrmError::LeadNotFound => "Лид не найден",
            CrmError::LeadAlreadyConverted => "Лид уже оформлен в клиента",
            CrmError::LeadNotConverted => "Клиент ещё не оформлен",
            CrmError::PayoutAlreadyMarked => "Выплата уже отмечена",
            CrmError::TrainingPostFieldsRequired => "Укажите заголовок и текст материала",
            CrmError::PortTooLow => "Порт должен быть не меньше 1024",
            CrmError::InvalidDayMode => "Некорректный режим дня",
            CrmError::BadPeriodStart => "Некорректная дата начала периода",
            CrmError::BadPeriodEnd => "Некорректная дата конца периода",
            CrmError::TopicTitleRequired => "Укажите заголовок темы",
            CrmError::InvalidCategory => "Некорректная категория",
            CrmError::TopicNotFound => "Тема не найдена",
            CrmError::TopicAuthorOnly => "Редактировать тему может только её автор",
            CrmError::EmptyComment => "Комментарий не может быть пустым",
            CrmError::DepartmentsForbidden => "Недостаточно прав для управления подразделениями",
            CrmError::DepartmentNameRequired => "Название подразделения не может быть пустым",
            CrmError::NoteTitleRequired => "Укажите заголовок заметки",
            CrmError::NoteNotFound => "Заметка не найдена",
            CrmError::ServiceNameRequired => "Укажите название услуги",
        };
        s.to_owned()
    }
}

} // verus!
