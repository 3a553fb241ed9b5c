//! The look of approval cards and MCP servers, and the quick prompts of the
//! composer.
use crate::locale::AppLanguage;
use vstd::prelude::*;

verus! {

broadcast use vstd::string::group_string_axioms;

/// How serious an approval card is.
#[derive(Clone, Copy, Debug, PartialEq, Eq, Structural)]
pub enum ApprovalCardSeverity {
    Info,
    Warning,
    HighRisk,
    Dangerous,
}

/// What the user decides on an approval card.
#[derive(Clone, Copy, Debug, PartialEq, Eq, Structural)]
pub enum ReviewDecision {
    Approved,
    ApprovedForSession,
    Denied,
    Abort,
}

/// The card background for a severity.
pub fn severity_background(severity: &ApprovalCardSeverity) -> (r: &'static str)
    ensures
        r@ == match *severity {
            ApprovalCardSeverity::Info => "#172554"@,
            ApprovalCardSeverity::Warning => "#422006"@,
            ApprovalCardSeverity::HighRisk => "#450a0a"@,
            ApprovalCardSeverity::Dangerous => "#7f1d1d"@,
        },
{
    match severity {
        ApprovalCardSeverity::Info => "#172554",
        ApprovalCardSeverity::Warning => "#422006",
        ApprovalCardSeverity::HighRisk => "#450a0a",
        ApprovalCardSeverity::Dangerous => "#7f1d1d",
    }
}

/// The card border for a severity.
pub fn severity_border(severity: &ApprovalCardSeverity) -> (r: &'static str)
    ensures
        r@ == match *severity {
            ApprovalCardSeverity::Info => "1px solid #2563eb"@,
            ApprovalCardSeverity::Warning => "1px solid #d97706"@,
            ApprovalCardSeverity::HighRisk => "1px solid #dc2626"@,
            ApprovalCardSeverity::Dangerous => "1px solid #ef4444"@,
        },
{
    match severity {
        ApprovalCardSeverity::Info => "1px solid #2563eb",
        ApprovalCardSeverity::Warning => "1px solid #d97706",
        ApprovalCardSeverity::HighRisk => "1px solid #dc2626",
        ApprovalCardSeverity::Dangerous => "1px solid #ef4444",
    }
}

/// The card text colour for a severity.
pub fn severity_text(severity: &ApprovalCardSeverity) -> (r: &'static str)
    ensures
        r@ == match *severity {
            ApprovalCardSeverity::Info => "#93c5fd"@,
            ApprovalCardSeverity::Warning => "#fbbf24"@,
            ApprovalCardSeverity::HighRisk => "#fca5a5"@,
            ApprovalCardSeverity::Dangerous => "#fecaca"@,
        },
{
    match severity {
        ApprovalCardSeverity::Info => "#93c5fd",
        ApprovalCardSeverity::Warning => "#fbbf24",
        ApprovalCardSeverity::HighRisk => "#fca5a5",
        ApprovalCardSeverity::Dangerous => "#fecaca",
    }
}

/// The button colour of a decision.
pub open spec fn decision_color(decision: ReviewDecision) -> Seq<char> {
    match decision {
        ReviewDecision::Approved => "#2563eb"@,
        ReviewDecision::ApprovedForSession => "#059669"@,
        ReviewDecision::Denied => "#b45309"@,
        ReviewDecision::Abort => "#dc2626"@,
    }
}

/// The button colour of a decision.
pub fn action_background(decision: &ReviewDecision) -> (r: &'static str)
    ensures
        r@ == decision_color(*decision),
{
    match decision {
        ReviewDecision::Approved => "#2563eb",
        ReviewDecision::ApprovedForSession => "#059669",
        ReviewDecision::Denied => "#b45309",
        ReviewDecision::Abort => "#dc2626",
    }
}

/// Every decision has a button colour of its own.
pub proof fn lemma_decision_colors_distinct(a: ReviewDecision, b: ReviewDecision)
    requires
        a != b,
    ensures
        decision_color(a) != decision_color(b),
{
    reveal_strlit("#2563eb");
    reveal_strlit("#059669");
    reveal_strlit("#b45309");
    reveal_strlit("#dc2626");
    assert("#2563eb"@[1] != "#059669"@[1]);
    assert("#2563eb"@[1] != "#b45309"@[1]);
    assert("#2563eb"@[2] != "#dc2626"@[2]);
    assert("#059669"@[1] != "#b45309"@[1]);
    assert("#059669"@[1] != "#dc2626"@[1]);
    assert("#b45309"@[1] != "#dc2626"@[1]);
}

/// The state of an MCP server.
#[derive(Clone, Debug, PartialEq, Eq)]
pub enum McpServerStatus {
    Disconnected,
    Connecting,
    Connected,
    Error(String),
}

/// The colour of an MCP server's state.
pub fn mcp_status_color(status: &McpServerStatus) -> (r: &'static str)
    ensures
        r@ == match *status {
            McpServerStatus::Connected => "#16a34a"@,
            McpServerStatus::Connecting => "#ca8a04"@,
            McpServerStatus::Disconnected => "#6b7280"@,
            McpServerStatus::Error(_) => "#dc2626"@,
        },
{
    match status {
        McpServerStatus::Connected => "#16a34a",
        McpServerStatus::Connecting => "#ca8a04",
        McpServerStatus::Disconnected => "#6b7280",
        McpServerStatus::Error(_) => "#dc2626",
    }
}

/// A one-tap prompt of the composer.
#[derive(Clone, Debug, PartialEq, Eq)]
pub struct QuickAction {
    pub label_ru: &'static str,
    pub label_en: &'static str,
    pub prompt: &'static str,
}

/// The quick prompts: Russian label, English label and prompt of each.
pub open spec fn quick_action_texts() -> Seq<(Seq<char>, Seq<char>, Seq<char>)> {
    seq![
        ("План"@, "Plan"@, "Режим плана: проанализируй активную рабочую область и предложи следующие шаги. Не выдумывай вывод команд — только контекст."@),
        ("Termux pwd"@, "Termux pwd"@, "Выполни pwd и ls -la в активной Termux-области через exec_shell и кратко опиши окружение."@),
        ("Git status"@, "Git status"@, "Выполни git status в активной области и опиши ветку, staged-изменения и риски."@),
        ("Тесты"@, "Run tests"@, "Запусти тесты проекта (для Rust предпочитай cargo test --workspace). Кратко перечисли падения с путями."@),
        ("Структура"@, "Structure"@, "Покажи структуру проекта верхнего уровня: точки входа, сборка, конфиги."@),
        ("Диагностика"@, "Diagnostics"@, "По последней диагностике предложи минимальные безопасные исправления."@),
        ("Открыть на PC"@, "Open on PC"@, "Если активен PC Host — open_path на корень проекта. Иначе скажи, что активен Termux, и list_dir."@),
    ]
}

/// The quick prompts, in order.
pub fn quick_actions() -> (r: Vec<QuickAction>)
    ensures
        r@.len() == quick_action_texts().len(),
        forall|i: int|
            0 <= i < r@.len() ==> ((#[trigger] r@[i]).label_ru@, r@[i].label_en@, r@[i].prompt@)
                == quick_action_texts()[i],
{
    vec![
        QuickAction {
            label_ru: "План",
            label_en: "Plan",
            prompt: "Режим плана: проанализируй активную рабочую область и предложи следующие шаги. Не выдумывай вывод команд — только контекст.",
        },
        QuickAction {
            label_ru: "Termux pwd",
            label_en: "Termux pwd",
            prompt: "Выполни pwd и ls -la в активной Termux-области через exec_shell и кратко опиши окружение.",
        },
        QuickAction {
            label_ru: "Git status",
            label_en: "Git status",
            prompt: "Выполни git status в активной области и опиши ветку, staged-изменения и риски.",
        },
        QuickAction {
            label_ru: "Тесты",
            label_en: "Run tests",
            prompt: "Запусти тесты проекта (для Rust предпочитай cargo test --workspace). Кратко перечисли падения с путями.",
        },
        QuickAction {
            label_ru: "Структура",
            label_en: "Structure",
            prompt: "Покажи структуру проекта верхнего уровня: точки входа, сборка, конфиги.",
        },
        QuickAction {
            label_ru: "Диагностика",
            label_en: "Diagnostics",
            prompt: "По последней диагностике предложи минимальные безопасные исправления.",
        },
        QuickAction {
            label_ru: "Открыть на PC",
            label_en: "Open on PC",
            prompt: "Если активен PC Host — open_path на корень проекта. Иначе скажи, что активен Termux, и list_dir.",
        },
    ]
}

impl QuickAction {
    /// The label in a language.
    pub fn label(&self, lang: AppLanguage) -> (r: &'static str)
        ensures
            r == match lang {
                AppLanguage::Ru => self.label_ru,
                AppLanguage::En => self.label_en,
            },
    {
        crate::locale::pick(lang, self.label_ru, self.label_en)
    }
}

} // verus!
