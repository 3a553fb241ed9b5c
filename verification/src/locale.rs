//! Interface strings in Russian and English.
use crate::agent_timeline::{MobileTimelineItemKind, MobileTimelineItemStatus};
use vstd::prelude::*;

verus! {

/// The interface language.
#[derive(Clone, Copy, Debug, PartialEq, Eq, Structural)]
pub enum AppLanguage {
    Ru,
    En,
}

impl Default for AppLanguage {
    fn default() -> (r: Self)
        ensures
            r == AppLanguage::Ru,
    {
        AppLanguage::Ru
    }
}

impl AppLanguage {
    /// The other language.
    pub fn toggle(self) -> (r: Self)
        ensures
            r == toggled(self),
    {
        match self {
            AppLanguage::Ru => AppLanguage::En,
            AppLanguage::En => AppLanguage::Ru,
        }
    }

    /// `RU` or `EN`.
    pub fn label(self) -> (r: &'static str)
        ensures
            r@ == (match self {
                AppLanguage::Ru => "RU"@,
                AppLanguage::En => "EN"@,
            }),
    {
        match self {
            AppLanguage::Ru => "RU",
            AppLanguage::En => "EN",
        }
    }
}

/// The translatable interface strings.
#[derive(Clone, Copy, Debug, PartialEq, Eq, Structural)]
pub enum Tr {
    SetupTitle,
    SetupSubtitle,
    SetupApiLabel,
    SetupApiPlaceholder,
    SetupTermuxLabel,
    SetupTermuxHint,
    SetupTermuxSteps,
    SetupInstallTermux,
    SetupOpenTermux,
    SetupProbeTermux,
    SetupContinue,
    SetupSandboxOnly,
    SetupErrApiPrefix,
    CheckApi,
    CheckAgent,
    CheckTermux,
    SettingsTitle,
    SettingsLanguage,
    HealthTitle,
    HealthSubtitle,
    Send,
    ChatPlaceholder,
    Thinking,
    AppTitle,
    DrawerMenu,
    ContinueSandboxSaved,
}

/// The text of a string in a language.
pub open spec fn tr_text(lang: AppLanguage, key: Tr) -> Seq<char> {
    match (lang, key) {
        (AppLanguage::Ru, Tr::SetupTitle) => "Настройка"@,
        (AppLanguage::En, Tr::SetupTitle) => "Setup"@,
        (AppLanguage::Ru, Tr::SetupSubtitle) => "Один шаг: ключ API и путь Termux. Установите Termux из F-Droid, если ещё нет — отдельная кнопка не нужна."@,
        (AppLanguage::En, Tr::SetupSubtitle) => "One step: API key and Termux path. Install Termux from F-Droid if needed — no extra install button."@,
        (AppLanguage::Ru, Tr::SetupApiLabel) => "Ключ DeepSeek API"@,
        (AppLanguage::En, Tr::SetupApiLabel) => "DeepSeek API key"@,
        (AppLanguage::Ru, Tr::SetupApiPlaceholder) => "sk-..."@,
        (AppLanguage::En, Tr::SetupApiPlaceholder) => "sk-..."@,
        (AppLanguage::Ru, Tr::SetupTermuxLabel) => "Путь проекта в Termux"@,
        (AppLanguage::En, Tr::SetupTermuxLabel) => "Termux project path"@,
        (AppLanguage::Ru, Tr::SetupTermuxHint) => "Мы поможем настроить автоматически. Нажмите «Проверить RUN_COMMAND», затем используйте кнопки ниже."@,
        (AppLanguage::En, Tr::SetupTermuxHint) => "We'll help configure as much as possible automatically. Tap «Test RUN_COMMAND», then use the buttons below."@,
        (AppLanguage::Ru, Tr::SetupTermuxSteps) => "1) Установите/откройте Termux 2) Нажмите «Проверить RUN_COMMAND» (даст разрешение) 3) «Auto-config» + «Seed workspace»"@,
        (AppLanguage::En, Tr::SetupTermuxSteps) => "1) Install/open Termux 2) Tap «Test RUN_COMMAND» (grants permission) 3) Use «Auto-config» + «Seed workspace»"@,
        (AppLanguage::Ru, Tr::SetupInstallTermux) => "Установить Termux"@,
        (AppLanguage::En, Tr::SetupInstallTermux) => "Install Termux"@,
        (AppLanguage::Ru, Tr::SetupOpenTermux) => "Открыть Termux"@,
        (AppLanguage::En, Tr::SetupOpenTermux) => "Open Termux"@,
        (AppLanguage::Ru, Tr::SetupProbeTermux) => "Дать разрешение и авто-настроить Termux"@,
        (AppLanguage::En, Tr::SetupProbeTermux) => "Grant permission & auto-setup Termux"@,
        (AppLanguage::Ru, Tr::SetupContinue) => "Продолжить"@,
        (AppLanguage::En, Tr::SetupContinue) => "Continue"@,
        (AppLanguage::Ru, Tr::SetupSandboxOnly) => "Только песочница (без Termux)"@,
        (AppLanguage::En, Tr::SetupSandboxOnly) => "Sandbox only (no Termux)"@,
        (AppLanguage::Ru, Tr::SetupErrApiPrefix) => "Ключ должен начинаться с sk-."@,
        (AppLanguage::En, Tr::SetupErrApiPrefix) => "Key must start with sk-."@,
        (AppLanguage::Ru, Tr::CheckApi) => "Ключ API"@,
        (AppLanguage::En, Tr::CheckApi) => "API key"@,
        (AppLanguage::Ru, Tr::CheckAgent) => "Режим Agent"@,
        (AppLanguage::En, Tr::CheckAgent) => "Agent mode"@,
        (AppLanguage::Ru, Tr::CheckTermux) => "Путь Termux"@,
        (AppLanguage::En, Tr::CheckTermux) => "Termux path"@,
        (AppLanguage::Ru, Tr::SettingsTitle) => "Настройки"@,
        (AppLanguage::En, Tr::SettingsTitle) => "Settings"@,
        (AppLanguage::Ru, Tr::SettingsLanguage) => "Язык интерфейса"@,
        (AppLanguage::En, Tr::SettingsLanguage) => "Interface language"@,
        (AppLanguage::Ru, Tr::HealthTitle) => "Состояние"@,
        (AppLanguage::En, Tr::HealthTitle) => "Runtime health"@,
        (AppLanguage::Ru, Tr::HealthSubtitle) => "Полный агент на телефоне: Termux. PC Host — опционально."@,
        (AppLanguage::En, Tr::HealthSubtitle) => "Full agent on phone uses Termux. PC Host is optional."@,
        (AppLanguage::Ru, Tr::Send) => "Отправить"@,
        (AppLanguage::En, Tr::Send) => "Send"@,
        (AppLanguage::Ru, Tr::ChatPlaceholder) => "Сообщение DeepSeek…"@,
        (AppLanguage::En, Tr::ChatPlaceholder) => "Message DeepSeek…"@,
        (AppLanguage::Ru, Tr::Thinking) => "Думаю с DeepSeek…"@,
        (AppLanguage::En, Tr::Thinking) => "Thinking with DeepSeek…"@,
        (AppLanguage::Ru, Tr::AppTitle) => "DeepSeek Mobile"@,
        (AppLanguage::En, Tr::AppTitle) => "DeepSeek Mobile"@,
        (AppLanguage::Ru, Tr::DrawerMenu) => "Меню"@,
        (AppLanguage::En, Tr::DrawerMenu) => "Menu"@,
        (AppLanguage::Ru, Tr::ContinueSandboxSaved) => "Режим песочницы — без shell в Termux"@,
        (AppLanguage::En, Tr::ContinueSandboxSaved) => "Sandbox mode — no Termux shell"@,
    }
}

/// The text of an interface string in `lang`.
pub fn tr(lang: AppLanguage, key: Tr) -> (r: &'static str)
    ensures
        r@ == tr_text(lang, key),
{
    match (lang, key) {
        (AppLanguage::Ru, Tr::SetupTitle) => "Настройка",
        (AppLanguage::En, Tr::SetupTitle) => "Setup",
        (AppLanguage::Ru, Tr::SetupSubtitle) => "Один шаг: ключ API и путь Termux. Установите Termux из F-Droid, если ещё нет — отдельная кнопка не нужна.",
        (AppLanguage::En, Tr::SetupSubtitle) => "One step: API key and Termux path. Install Termux from F-Droid if needed — no extra install button.",
        (AppLanguage::Ru, Tr::SetupApiLabel) => "Ключ DeepSeek API",
        (AppLanguage::En, Tr::SetupApiLabel) => "DeepSeek API key",
        (AppLanguage::Ru, Tr::SetupApiPlaceholder) => "sk-...",
        (AppLanguage::En, Tr::SetupApiPlaceholder) => "sk-...",
        (AppLanguage::Ru, Tr::SetupTermuxLabel) => "Путь проекта в Termux",
        (AppLanguage::En, Tr::SetupTermuxLabel) => "Termux project path",
        (AppLanguage::Ru, Tr::SetupTermuxHint) => "Мы поможем настроить автоматически. Нажмите «Проверить RUN_COMMAND», затем используйте кнопки ниже.",
        (AppLanguage::En, Tr::SetupTermuxHint) => "We'll help configure as much as possible automatically. Tap «Test RUN_COMMAND», then use the buttons below.",
        (AppLanguage::Ru, Tr::SetupTermuxSteps) => "1) Установите/откройте Termux 2) Нажмите «Проверить RUN_COMMAND» (даст разрешение) 3) «Auto-config» + «Seed workspace»",
        (AppLanguage::En, Tr::SetupTermuxSteps) => "1) Install/open Termux 2) Tap «Test RUN_COMMAND» (grants permission) 3) Use «Auto-config» + «Seed workspace»",
        (AppLanguage::Ru, Tr::SetupInstallTermux) => "Установить Termux",
        (AppLanguage::En, Tr::SetupInstallTermux) => "Install Termux",
        (AppLanguage::Ru, Tr::SetupOpenTermux) => "Открыть Termux",
        (AppLanguage::En, Tr::SetupOpenTermux) => "Open Termux",
        (AppLanguage::Ru, Tr::SetupProbeTermux) => "Дать разрешение и авто-настроить Termux",
        (AppLanguage::En, Tr::SetupProbeTermux) => "Grant permission & auto-setup Termux",
        (AppLanguage::Ru, Tr::SetupContinue) => "Продолжить",
        (AppLanguage::En, Tr::SetupContinue) => "Continue",
        (AppLanguage::Ru, Tr::SetupSandboxOnly) => "Только песочница (без Termux)",
        (AppLanguage::En, Tr::SetupSandboxOnly) => "Sandbox only (no Termux)",
        (AppLanguage::Ru, Tr::SetupErrApiPrefix) => "Ключ должен начинаться с sk-.",
        (AppLanguage::En, Tr::SetupErrApiPrefix) => "Key must start with sk-.",
        (AppLanguage::Ru, Tr::CheckApi) => "Ключ API",
        (AppLanguage::En, Tr::CheckApi) => "API key",
        (AppLanguage::Ru, Tr::CheckAgent) => "Режим Agent",
        (AppLanguage::En, Tr::CheckAgent) => "Agent mode",
        (AppLanguage::Ru, Tr::CheckTermux) => "Путь Termux",
        (AppLanguage::En, Tr::CheckTermux) => "Termux path",
        (AppLanguage::Ru, Tr::SettingsTitle) => "Настройки",
        (AppLanguage::En, Tr::SettingsTitle) => "Settings",
        (AppLanguage::Ru, Tr::SettingsLanguage) => "Язык интерфейса",
        (AppLanguage::En, Tr::SettingsLanguage) => "Interface language",
        (AppLanguage::Ru, Tr::HealthTitle) => "Состояние",
        (AppLanguage::En, Tr::HealthTitle) => "Runtime health",
        (AppLanguage::Ru, Tr::HealthSubtitle) => "Полный агент на телефоне: Termux. PC Host — опционально.",
        (AppLanguage::En, Tr::HealthSubtitle) => "Full agent on phone uses Termux. PC Host is optional.",
        (AppLanguage::Ru, Tr::Send) => "Отправить",
        (AppLanguage::En, Tr::Send) => "Send",
        (AppLanguage::Ru, Tr::ChatPlaceholder) => "Сообщение DeepSeek…",
        (AppLanguage::En, Tr::ChatPlaceholder) => "Message DeepSeek…",
        (AppLanguage::Ru, Tr::Thinking) => "Думаю с DeepSeek…",
        (AppLanguage::En, Tr::Thinking) => "Thinking with DeepSeek…",
        (AppLanguage::Ru, Tr::AppTitle) => "DeepSeek Mobile",
        (AppLanguage::En, Tr::AppTitle) => "DeepSeek Mobile",
        (AppLanguage::Ru, Tr::DrawerMenu) => "Меню",
        (AppLanguage::En, Tr::DrawerMenu) => "Menu",
        (AppLanguage::Ru, Tr::ContinueSandboxSaved) => "Режим песочницы — без shell в Termux",
        (AppLanguage::En, Tr::ContinueSandboxSaved) => "Sandbox mode — no Termux shell",
    }
}

/// The Russian text when `lang` is Russian, otherwise the English one.
pub fn pick(lang: AppLanguage, ru: &'static str, en: &'static str) -> (r: &'static str)
    ensures
        r == (match lang {
            AppLanguage::Ru => ru,
            AppLanguage::En => en,
        }),
{
    match lang {
        AppLanguage::Ru => ru,
        AppLanguage::En => en,
    }
}

/// The label of a row kind in a language.
pub open spec fn kind_label_in(lang: AppLanguage, kind: MobileTimelineItemKind) -> Seq<char> {
    match (lang, kind) {
        (AppLanguage::Ru, MobileTimelineItemKind::UserMessage) => "ВЫ"@,
        (AppLanguage::Ru, MobileTimelineItemKind::AssistantMessage) => "ИИ"@,
        (AppLanguage::Ru, MobileTimelineItemKind::Attachment) => "ФАЙЛ"@,
        (AppLanguage::Ru, MobileTimelineItemKind::NativeCommand) => "СИСТЕМА"@,
        (AppLanguage::Ru, MobileTimelineItemKind::ToolCall) => "ИНСТР"@,
        (AppLanguage::Ru, MobileTimelineItemKind::Approval) => "ОДОБР"@,
        (AppLanguage::Ru, MobileTimelineItemKind::Status) => "СТАТУС"@,
        (AppLanguage::Ru, MobileTimelineItemKind::Error) => "ОШИБКА"@,
        (AppLanguage::En, MobileTimelineItemKind::UserMessage) => "YOU"@,
        (AppLanguage::En, MobileTimelineItemKind::AssistantMessage) => "AI"@,
        (AppLanguage::En, MobileTimelineItemKind::Attachment) => "FILE"@,
        (AppLanguage::En, MobileTimelineItemKind::NativeCommand) => "NATIVE"@,
        (AppLanguage::En, MobileTimelineItemKind::ToolCall) => "TOOL"@,
        (AppLanguage::En, MobileTimelineItemKind::Approval) => "APPROVAL"@,
        (AppLanguage::En, MobileTimelineItemKind::Status) => "STATUS"@,
        (AppLanguage::En, MobileTimelineItemKind::Error) => "ERROR"@,
    }
}

/// The label of a row kind in `lang`.
pub fn timeline_kind_label(lang: AppLanguage, kind: &MobileTimelineItemKind) -> (r: &'static str)
    ensures
        r@ == kind_label_in(lang, *kind),
{
    match (lang, kind) {
        (AppLanguage::Ru, MobileTimelineItemKind::UserMessage) => "ВЫ",
        (AppLanguage::Ru, MobileTimelineItemKind::AssistantMessage) => "ИИ",
        (AppLanguage::Ru, MobileTimelineItemKind::Attachment) => "ФАЙЛ",
        (AppLanguage::Ru, MobileTimelineItemKind::NativeCommand) => "СИСТЕМА",
        (AppLanguage::Ru, MobileTimelineItemKind::ToolCall) => "ИНСТР",
        (AppLanguage::Ru, MobileTimelineItemKind::Approval) => "ОДОБР",
        (AppLanguage::Ru, MobileTimelineItemKind::Status) => "СТАТУС",
        (AppLanguage::Ru, MobileTimelineItemKind::Error) => "ОШИБКА",
        (AppLanguage::En, MobileTimelineItemKind::UserMessage) => "YOU",
        (AppLanguage::En, MobileTimelineItemKind::AssistantMessage) => "AI",
        (AppLanguage::En, MobileTimelineItemKind::Attachment) => "FILE",
        (AppLanguage::En, MobileTimelineItemKind::NativeCommand) => "NATIVE",
        (AppLanguage::En, MobileTimelineItemKind::ToolCall) => "TOOL",
        (AppLanguage::En, MobileTimelineItemKind::Approval) => "APPROVAL",
        (AppLanguage::En, MobileTimelineItemKind::Status) => "STATUS",
        (AppLanguage::En, MobileTimelineItemKind::Error) => "ERROR",
    }
}

/// The label of a row status in a language.
pub open spec fn status_label_in(lang: AppLanguage, status: MobileTimelineItemStatus) -> Seq<char> {
    match (lang, status) {
        (AppLanguage::Ru, MobileTimelineItemStatus::Pending) => "ожидание"@,
        (AppLanguage::Ru, MobileTimelineItemStatus::Running) => "выполняется"@,
        (AppLanguage::Ru, MobileTimelineItemStatus::Done) => "готово"@,
        (AppLanguage::Ru, MobileTimelineItemStatus::Failed) => "ошибка"@,
        (AppLanguage::Ru, MobileTimelineItemStatus::WaitingForApproval) => "одобрение"@,
        (AppLanguage::En, MobileTimelineItemStatus::Pending) => "pending"@,
        (AppLanguage::En, MobileTimelineItemStatus::Running) => "running"@,
        (AppLanguage::En, MobileTimelineItemStatus::Done) => "done"@,
        (AppLanguage::En, MobileTimelineItemStatus::Failed) => "failed"@,
        (AppLanguage::En, MobileTimelineItemStatus::WaitingForApproval) => "approval"@,
    }
}

/// The label of a row status in `lang`.
pub fn timeline_status_label(lang: AppLanguage, status: &MobileTimelineItemStatus) -> (r: &'static str)
    ensures
        r@ == status_label_in(lang, *status),
{
    match (lang, status) {
        (AppLanguage::Ru, MobileTimelineItemStatus::Pending) => "ожидание",
        (AppLanguage::Ru, MobileTimelineItemStatus::Running) => "выполняется",
        (AppLanguage::Ru, MobileTimelineItemStatus::Done) => "готово",
        (AppLanguage::Ru, MobileTimelineItemStatus::Failed) => "ошибка",
        (AppLanguage::Ru, MobileTimelineItemStatus::WaitingForApproval) => "одобрение",
        (AppLanguage::En, MobileTimelineItemStatus::Pending) => "pending",
        (AppLanguage::En, MobileTimelineItemStatus::Running) => "running",
        (AppLanguage::En, MobileTimelineItemStatus::Done) => "done",
        (AppLanguage::En, MobileTimelineItemStatus::Failed) => "failed",
        (AppLanguage::En, MobileTimelineItemStatus::WaitingForApproval) => "approval",
    }
}

/// The code under which a language is stored in the settings file.
pub open spec fn lang_code(lang: AppLanguage) -> Seq<char> {
    match lang {
        AppLanguage::Ru => "ru"@,
        AppLanguage::En => "en"@,
    }
}

/// The language that a stored code names, if any.
pub open spec fn lang_of_code(code: Seq<char>) -> Option<AppLanguage> {
    if code == "ru"@ {
        Some(AppLanguage::Ru)
    } else if code == "en"@ {
        Some(AppLanguage::En)
    } else {
        None
    }
}

/// The language stored in a settings file: `"ru"` or `"en"`.
pub fn language_from_code(code: &str) -> (r: Option<AppLanguage>)
    ensures
        r == lang_of_code(code@),
{
    if crate::text::str_eq(code, "ru") {
        Some(AppLanguage::Ru)
    } else if crate::text::str_eq(code, "en") {
        Some(AppLanguage::En)
    } else {
        None
    }
}

/// The code under which a language is stored: `"ru"` or `"en"`.
pub fn language_code(lang: AppLanguage) -> (r: &'static str)
    ensures
        r@ == lang_code(lang),
{
    match lang {
        AppLanguage::Ru => "ru",
        AppLanguage::En => "en",
    }
}

/// Storing a language and reading it back gives the same language.
pub proof fn lemma_language_code_round_trip(lang: AppLanguage)
    ensures
        lang_of_code(lang_code(lang)) == Some(lang),
{
    reveal_strlit("ru");
    reveal_strlit("en");
    assert("ru"@ != "en"@) by {
        assert("ru"@[0] != "en"@[0]);
    }
}

/// Toggling twice gives back the language.
pub proof fn lemma_toggle_involutive(lang: AppLanguage)
    ensures
        toggled(toggled(lang)) == lang,
{
}

/// The other language.
pub open spec fn toggled(lang: AppLanguage) -> AppLanguage {
    match lang {
        AppLanguage::Ru => AppLanguage::En,
        AppLanguage::En => AppLanguage::Ru,
    }
}

} // verus!
