//! The cockpit's sections, their titles in both languages, and the badges
//! that the drawer, the navigation bar and the status chips show.
use crate::locale::{pick, AppLanguage};
use crate::text::{contains, decimal, owned, push_decimal, str_contains};
use vstd::prelude::*;

verus! {

broadcast use vstd::string::group_string_axioms;

/// A section of the cockpit.
#[derive(Clone, Copy, Debug, PartialEq, Eq, Structural)]
pub enum CockpitSection {
    Chat,
    PcHost,
    Files,
    Snapshots,
    Diagnostics,
    Terminal,
    Approvals,
    Mcp,
    Skills,
    Git,
    Tasks,
    Health,
    Settings,
}

/// The English title of a section.
pub open spec fn title_text(s: CockpitSection) -> Seq<char> {
    match s {
        CockpitSection::Chat => "Chat"@,
        CockpitSection::PcHost => "PC Host"@,
        CockpitSection::Files => "Files"@,
        CockpitSection::Snapshots => "Snapshots"@,
        CockpitSection::Diagnostics => "Diagnostics"@,
        CockpitSection::Terminal => "Terminal"@,
        CockpitSection::Approvals => "Approvals"@,
        CockpitSection::Mcp => "MCP"@,
        CockpitSection::Skills => "Skills"@,
        CockpitSection::Git => "Git & GitHub"@,
        CockpitSection::Tasks => "Tasks"@,
        CockpitSection::Health => "Health"@,
        CockpitSection::Settings => "Settings"@,
    }
}

/// The English subtitle of a section.
pub open spec fn subtitle_text(s: CockpitSection) -> Seq<char> {
    match s {
        CockpitSection::Chat => "Main AI conversation and tool timeline"@,
        CockpitSection::PcHost => "Pairing, online status, workspaces"@,
        CockpitSection::Files => "Project tree, open files, diffs"@,
        CockpitSection::Snapshots => "Safety points and rollback readiness"@,
        CockpitSection::Diagnostics => "Post-edit errors and warnings"@,
        CockpitSection::Terminal => "PC / Termux command output"@,
        CockpitSection::Approvals => "Tool calls waiting for confirmation"@,
        CockpitSection::Mcp => "MCP server status, tools, config"@,
        CockpitSection::Skills => "Skill bundles: enable/disable"@,
        CockpitSection::Git => "Status, commits, push, pull, PRs"@,
        CockpitSection::Tasks => "Background tasks, build jobs, test runs"@,
        CockpitSection::Health => "API, PC, Termux, MCP and bridge status"@,
        CockpitSection::Settings => "DeepSeek API, GitHub, disks, security"@,
    }
}

/// The Russian title of a section.
pub open spec fn title_ru(s: CockpitSection) -> Seq<char> {
    match s {
        CockpitSection::Chat => "Чат"@,
        CockpitSection::PcHost => "PC Host"@,
        CockpitSection::Files => "Файлы"@,
        CockpitSection::Snapshots => "Снимки"@,
        CockpitSection::Diagnostics => "Диагностика"@,
        CockpitSection::Terminal => "Терминал"@,
        CockpitSection::Approvals => "Одобрения"@,
        CockpitSection::Mcp => "MCP"@,
        CockpitSection::Skills => "Навыки"@,
        CockpitSection::Git => "Git и GitHub"@,
        CockpitSection::Tasks => "Задачи"@,
        CockpitSection::Health => "Состояние"@,
        CockpitSection::Settings => "Настройки"@,
    }
}

/// The Russian subtitle of a section.
pub open spec fn subtitle_ru(s: CockpitSection) -> Seq<char> {
    match s {
        CockpitSection::Chat => "Диалог с ИИ и лента инструментов"@,
        CockpitSection::PcHost => "Сопряжение, статус, рабочие области"@,
        CockpitSection::Files => "Дерево проекта, файлы, diff"@,
        CockpitSection::Snapshots => "Точки восстановления"@,
        CockpitSection::Diagnostics => "Ошибки и предупреждения после правок"@,
        CockpitSection::Terminal => "Вывод PC / Termux"@,
        CockpitSection::Approvals => "Вызовы инструментов, ждущие подтверждения"@,
        CockpitSection::Mcp => "MCP-серверы и конфиг"@,
        CockpitSection::Skills => "Наборы навыков"@,
        CockpitSection::Git => "Статус, коммиты, push, pull"@,
        CockpitSection::Tasks => "Фоновые задачи и сборки"@,
        CockpitSection::Health => "API, PC, Termux, MCP"@,
        CockpitSection::Settings => "API, GitHub, Termux"@,
    }
}

/// The title of a section in a language.
pub open spec fn localized_title_text(s: CockpitSection, lang: AppLanguage) -> Seq<char> {
    match lang {
        AppLanguage::Ru => title_ru(s),
        AppLanguage::En => title_text(s),
    }
}

/// The subtitle of a section in a language.
pub open spec fn localized_subtitle_text(s: CockpitSection, lang: AppLanguage) -> Seq<char> {
    match lang {
        AppLanguage::Ru => subtitle_ru(s),
        AppLanguage::En => subtitle_text(s),
    }
}

impl CockpitSection {
    /// The English title.
    pub fn title(self) -> (r: &'static str)
        ensures
            r@ == title_text(self),
    {
        match self {
            CockpitSection::Chat => "Chat",
            CockpitSection::PcHost => "PC Host",
            CockpitSection::Files => "Files",
            CockpitSection::Snapshots => "Snapshots",
            CockpitSection::Diagnostics => "Diagnostics",
            CockpitSection::Terminal => "Terminal",
            CockpitSection::Approvals => "Approvals",
            CockpitSection::Mcp => "MCP",
            CockpitSection::Skills => "Skills",
            CockpitSection::Git => "Git & GitHub",
            CockpitSection::Tasks => "Tasks",
            CockpitSection::Health => "Health",
            CockpitSection::Settings => "Settings",
        }
    }

    /// The title in a language.
    pub fn localized_title(self, lang: AppLanguage) -> (r: &'static str)
        ensures
            r@ == localized_title_text(self, lang),
    {
        match (lang, self) {
            (AppLanguage::Ru, CockpitSection::Chat) => "Чат",
            (AppLanguage::Ru, CockpitSection::PcHost) => "PC Host",
            (AppLanguage::Ru, CockpitSection::Files) => "Файлы",
            (AppLanguage::Ru, CockpitSection::Snapshots) => "Снимки",
            (AppLanguage::Ru, CockpitSection::Diagnostics) => "Диагностика",
            (AppLanguage::Ru, CockpitSection::Terminal) => "Терминал",
            (AppLanguage::Ru, CockpitSection::Approvals) => "Одобрения",
            (AppLanguage::Ru, CockpitSection::Mcp) => "MCP",
            (AppLanguage::Ru, CockpitSection::Skills) => "Навыки",
            (AppLanguage::Ru, CockpitSection::Git) => "Git и GitHub",
            (AppLanguage::Ru, CockpitSection::Tasks) => "Задачи",
            (AppLanguage::Ru, CockpitSection::Health) => "Состояние",
            (AppLanguage::Ru, CockpitSection::Settings) => "Настройки",
            (_, s) => s.title(),
        }
    }

    /// The subtitle in a language.
    pub fn localized_subtitle(self, lang: AppLanguage) -> (r: &'static str)
        ensures
            r@ == localized_subtitle_text(self, lang),
    {
        match (lang, self) {
            (AppLanguage::Ru, CockpitSection::Chat) => "Диалог с ИИ и лента инструментов",
            (AppLanguage::Ru, CockpitSection::PcHost) => "Сопряжение, статус, рабочие области",
            (AppLanguage::Ru, CockpitSection::Files) => "Дерево проекта, файлы, diff",
            (AppLanguage::Ru, CockpitSection::Snapshots) => "Точки восстановления",
            (AppLanguage::Ru, CockpitSection::Diagnostics) => "Ошибки и предупреждения после правок",
            (AppLanguage::Ru, CockpitSection::Terminal) => "Вывод PC / Termux",
            (AppLanguage::Ru, CockpitSection::Approvals) => "Вызовы инструментов, ждущие подтверждения",
            (AppLanguage::Ru, CockpitSection::Mcp) => "MCP-серверы и конфиг",
            (AppLanguage::Ru, CockpitSection::Skills) => "Наборы навыков",
            (AppLanguage::Ru, CockpitSection::Git) => "Статус, коммиты, push, pull",
            (AppLanguage::Ru, CockpitSection::Tasks) => "Фоновые задачи и сборки",
            (AppLanguage::Ru, CockpitSection::Health) => "API, PC, Termux, MCP",
            (AppLanguage::Ru, CockpitSection::Settings) => "API, GitHub, Termux",
            (_, s) => s.subtitle(),
        }
    }

    /// The English subtitle.
    pub fn subtitle(self) -> (r: &'static str)
        ensures
            r@ == subtitle_text(self),
    {
        match self {
            CockpitSection::Chat => "Main AI conversation and tool timeline",
            CockpitSection::PcHost => "Pairing, online status, workspaces",
            CockpitSection::Files => "Project tree, open files, diffs",
            CockpitSection::Snapshots => "Safety points and rollback readiness",
            CockpitSection::Diagnostics => "Post-edit errors and warnings",
            CockpitSection::Terminal => "PC / Termux command output",
            CockpitSection::Approvals => "Tool calls waiting for confirmation",
            CockpitSection::Mcp => "MCP server status, tools, config",
            CockpitSection::Skills => "Skill bundles: enable/disable",
            CockpitSection::Git => "Status, commits, push, pull, PRs",
            CockpitSection::Tasks => "Background tasks, build jobs, test runs",
            CockpitSection::Health => "API, PC, Termux, MCP and bridge status",
            CockpitSection::Settings => "DeepSeek API, GitHub, disks, security",
        }
    }
}

/// What the chrome around every section shows: the API and PC chips, the
/// active project and the counts behind the badges.
#[derive(Clone, Debug, PartialEq, Eq)]
pub struct MobileChromeSummary {
    pub api_configured: bool,
    pub pc_label: String,
    pub pc_online: bool,
    pub pc_files_sync_ready: bool,
    pub active_project_title: String,
    pub active_project_subtitle: String,
    pub pending_approvals: usize,
    pub running_tasks: usize,
    pub diagnostics_errors: usize,
    pub diagnostics_warnings: usize,
    pub dirty_files: usize,
    pub native_waiting: bool,
}

impl Default for MobileChromeSummary {
    fn default() -> (r: Self)
        ensures
            !r.api_configured && r.pc_label@ == "PC SETUP"@ && !r.pc_online && !r.pc_files_sync_ready
                && r.active_project_title@ == "Local workspace"@ && r.active_project_subtitle@
                == "No PC workspace is active yet"@ && r.pending_approvals == 0 && r.running_tasks == 0
                && r.diagnostics_errors == 0 && r.diagnostics_warnings == 0 && r.dirty_files == 0
                && !r.native_waiting,
    {
        MobileChromeSummary {
            api_configured: false,
            pc_label: owned("PC SETUP"),
            pc_online: false,
            pc_files_sync_ready: false,
            active_project_title: owned("Local workspace"),
            active_project_subtitle: owned("No PC workspace is active yet"),
            pending_approvals: 0,
            running_tasks: 0,
            diagnostics_errors: 0,
            diagnostics_warnings: 0,
            dirty_files: 0,
            native_waiting: false,
        }
    }
}

/// The badge of a section in the drawer, if it has one.
pub open spec fn badge_text(m: MobileChromeSummary, s: CockpitSection) -> Option<Seq<char>> {
    match s {
        CockpitSection::PcHost => Some(m.pc_label@),
        CockpitSection::Approvals => if m.pending_approvals > 0 {
            Some(decimal(m.pending_approvals as nat))
        } else {
            None
        },
        CockpitSection::Diagnostics => if m.diagnostics_errors > 0 {
            Some("ERR "@ + decimal(m.diagnostics_errors as nat))
        } else if m.diagnostics_warnings > 0 {
            Some("WARN "@ + decimal(m.diagnostics_warnings as nat))
        } else {
            None
        },
        CockpitSection::Git => if m.dirty_files > 0 {
            Some(decimal(m.dirty_files as nat))
        } else {
            None
        },
        CockpitSection::Tasks => if m.running_tasks > 0 {
            Some("RUN "@ + decimal(m.running_tasks as nat))
        } else {
            None
        },
        CockpitSection::Chat => if m.native_waiting {
            Some("WAIT"@)
        } else {
            None
        },
        _ => None,
    }
}

/// The short badge of a section in the navigation bar, if it has one.
pub open spec fn compact_badge_text(m: MobileChromeSummary, s: CockpitSection) -> Option<Seq<char>> {
    match s {
        CockpitSection::PcHost => if m.pc_online {
            Some("ON"@)
        } else {
            Some("PC"@)
        },
        CockpitSection::Approvals => if m.pending_approvals > 0 {
            Some(decimal(m.pending_approvals as nat))
        } else {
            None
        },
        CockpitSection::Diagnostics => if m.diagnostics_errors > 0 {
            Some(decimal(m.diagnostics_errors as nat))
        } else if m.diagnostics_warnings > 0 {
            Some(decimal(m.diagnostics_warnings as nat))
        } else {
            None
        },
        CockpitSection::Git => if m.dirty_files > 0 {
            Some(decimal(m.dirty_files as nat))
        } else {
            None
        },
        CockpitSection::Tasks => if m.running_tasks > 0 {
            Some(decimal(m.running_tasks as nat))
        } else {
            None
        },
        CockpitSection::Chat => if m.native_waiting {
            Some("…"@)
        } else {
            None
        },
        _ => None,
    }
}

/// Colours of a chip: background, border and text.
pub open spec fn colors_of(c: (&'static str, &'static str, &'static str)) -> (Seq<char>, Seq<char>, Seq<char>) {
    (c.0@, c.1@, c.2@)
}

/// Green chip colours.
pub open spec fn green() -> (Seq<char>, Seq<char>, Seq<char>) {
    ("#052e2b"@, "#10b981"@, "#a7f3d0"@)
}

/// Red chip colours.
pub open spec fn red() -> (Seq<char>, Seq<char>, Seq<char>) {
    ("#3f1d1d"@, "#ef4444"@, "#fecaca"@)
}

/// Amber chip colours.
pub open spec fn amber() -> (Seq<char>, Seq<char>, Seq<char>) {
    ("#78350f"@, "#f59e0b"@, "#fde68a"@)
}

/// Blue chip colours.
pub open spec fn blue() -> (Seq<char>, Seq<char>, Seq<char>) {
    ("#1e3a8a"@, "#3b82f6"@, "#bfdbfe"@)
}

fn decimal_string(n: usize) -> (r: String)
    ensures
        r@ == decimal(n as nat),
{
    let mut s = String::new();
    push_decimal(&mut s, n as u128);
    s
}

fn prefixed(prefix: &str, n: usize) -> (r: String)
    ensures
        r@ == prefix@ + decimal(n as nat),
{
    let mut s = owned(prefix);
    push_decimal(&mut s, n as u128);
    s
}

impl MobileChromeSummary {
    /// The API chip's label.
    pub fn api_chip_label(&self, lang: AppLanguage) -> (r: &'static str)
        ensures
            r@ == (if self.api_configured {
                "API OK"@
            } else {
                match lang {
                    AppLanguage::Ru => "НЕТ API"@,
                    AppLanguage::En => "NO API"@,
                }
            }),
    {
        if self.api_configured {
            pick(lang, "API OK", "API OK")
        } else {
            pick(lang, "НЕТ API", "NO API")
        }
    }

    /// The API chip's colours: green when configured, red otherwise.
    pub fn api_chip_colors(&self) -> (r: (&'static str, &'static str, &'static str))
        ensures
            colors_of(r) == (if self.api_configured { green() } else { red() }),
    {
        if self.api_configured {
            ("#052e2b", "#10b981", "#a7f3d0")
        } else {
            ("#3f1d1d", "#ef4444", "#fecaca")
        }
    }

    /// The PC chip's colours: green when files sync, amber when online, red
    /// for an error or offline label, blue otherwise.
    pub fn pc_chip_colors(&self) -> (r: (&'static str, &'static str, &'static str))
        ensures
            colors_of(r) == (if self.pc_files_sync_ready {
                green()
            } else if self.pc_online {
                amber()
            } else if contains(self.pc_label@, "ERR"@) || contains(self.pc_label@, "OFF"@) {
                red()
            } else {
                blue()
            }),
    {
        if self.pc_files_sync_ready {
            ("#052e2b", "#10b981", "#a7f3d0")
        } else if self.pc_online {
            ("#78350f", "#f59e0b", "#fde68a")
        } else if str_contains(self.pc_label.as_str(), "ERR") || str_contains(self.pc_label.as_str(), "OFF") {
            ("#3f1d1d", "#ef4444", "#fecaca")
        } else {
            ("#1e3a8a", "#3b82f6", "#bfdbfe")
        }
    }

    /// The drawer badge of a section.
    pub fn badge_for(&self, section: CockpitSection) -> (r: Option<String>)
        ensures
            crate::agent_timeline::opt_view(r) == badge_text(*self, section),
    {
        match section {
            CockpitSection::PcHost => Some(self.pc_label.clone()),
            CockpitSection::Approvals => if self.pending_approvals > 0 {
                Some(decimal_string(self.pending_approvals))
            } else {
                None
            },
            CockpitSection::Diagnostics => if self.diagnostics_errors > 0 {
                Some(prefixed("ERR ", self.diagnostics_errors))
            } else if self.diagnostics_warnings > 0 {
                Some(prefixed("WARN ", self.diagnostics_warnings))
            } else {
                None
            },
            CockpitSection::Git => if self.dirty_files > 0 {
                Some(decimal_string(self.dirty_files))
            } else {
                None
            },
            CockpitSection::Tasks => if self.running_tasks > 0 {
                Some(prefixed("RUN ", self.running_tasks))
            } else {
                None
            },
            CockpitSection::Chat => if self.native_waiting {
                Some(owned("WAIT"))
            } else {
                None
            },
            _ => None,
        }
    }

    /// The navigation bar badge of a section.
    pub fn compact_badge_for(&self, section: CockpitSection) -> (r: Option<String>)
        ensures
            crate::agent_timeline::opt_view(r) == compact_badge_text(*self, section),
    {
        match section {
            CockpitSection::PcHost => if self.pc_online {
                Some(owned("ON"))
            } else {
                Some(owned("PC"))
            },
            CockpitSection::Approvals => if self.pending_approvals > 0 {
                Some(decimal_string(self.pending_approvals))
            } else {
                None
            },
            CockpitSection::Diagnostics => if self.diagnostics_errors > 0 {
                Some(decimal_string(self.diagnostics_errors))
            } else if self.diagnostics_warnings > 0 {
                Some(decimal_string(self.diagnostics_warnings))
            } else {
                None
            },
            CockpitSection::Git => if self.dirty_files > 0 {
                Some(decimal_string(self.dirty_files))
            } else {
                None
            },
            CockpitSection::Tasks => if self.running_tasks > 0 {
                Some(decimal_string(self.running_tasks))
            } else {
                None
            },
            CockpitSection::Chat => if self.native_waiting {
                Some(owned("…"))
            } else {
                None
            },
            _ => None,
        }
    }
}

/// The background colour of a badge.
pub open spec fn badge_background_text(s: CockpitSection, badge: Seq<char>) -> Seq<char> {
    match s {
        CockpitSection::PcHost => if contains(badge, "ON"@) {
            "#047857"@
        } else if contains(badge, "ERR"@) || contains(badge, "OFF"@) {
            "#b91c1c"@
        } else {
            "#2563eb"@
        },
        CockpitSection::Approvals => "#ca8a04"@,
        CockpitSection::Diagnostics => if contains(badge, "ERR"@) {
            "#b91c1c"@
        } else {
            "#a16207"@
        },
        CockpitSection::Git => "#7c3aed"@,
        CockpitSection::Tasks => "#0891b2"@,
        CockpitSection::Chat => "#2563eb"@,
        _ => "#374151"@,
    }
}

/// The background colour of a badge.
pub fn badge_background(section: CockpitSection, badge: &str) -> (r: &'static str)
    ensures
        r@ == badge_background_text(section, badge@),
{
    match section {
        CockpitSection::PcHost => if str_contains(badge, "ON") {
            "#047857"
        } else if str_contains(badge, "ERR") || str_contains(badge, "OFF") {
            "#b91c1c"
        } else {
            "#2563eb"
        },
        CockpitSection::Approvals => "#ca8a04",
        CockpitSection::Diagnostics => if str_contains(badge, "ERR") {
            "#b91c1c"
        } else {
            "#a16207"
        },
        CockpitSection::Git => "#7c3aed",
        CockpitSection::Tasks => "#0891b2",
        CockpitSection::Chat => "#2563eb",
        _ => "#374151",
    }
}

/// An entry of the drawer.
#[derive(Clone, Debug, PartialEq, Eq)]
pub struct DrawerItem {
    pub section: CockpitSection,
    pub title: &'static str,
    pub subtitle: &'static str,
}

/// The sections in drawer order.
pub open spec fn drawer_sections() -> Seq<CockpitSection> {
    seq![
        CockpitSection::Chat,
        CockpitSection::PcHost,
        CockpitSection::Files,
        CockpitSection::Snapshots,
        CockpitSection::Diagnostics,
        CockpitSection::Terminal,
        CockpitSection::Approvals,
        CockpitSection::Mcp,
        CockpitSection::Skills,
        CockpitSection::Git,
        CockpitSection::Tasks,
        CockpitSection::Health,
        CockpitSection::Settings,
    ]
}

/// Every section in drawer order, with its title and subtitle in `lang`.
pub fn default_drawer_items(lang: AppLanguage) -> (r: Vec<DrawerItem>)
    ensures
        r@.len() == drawer_sections().len(),
        forall|i: int|
            0 <= i < r@.len() ==> (#[trigger] r@[i]).section == drawer_sections()[i] && r@[i].title@
                == localized_title_text(drawer_sections()[i], lang) && r@[i].subtitle@ == localized_subtitle_text(
                drawer_sections()[i],
                lang,
            ),
{
    let sections = vec![
        CockpitSection::Chat,
        CockpitSection::PcHost,
        CockpitSection::Files,
        CockpitSection::Snapshots,
        CockpitSection::Diagnostics,
        CockpitSection::Terminal,
        CockpitSection::Approvals,
        CockpitSection::Mcp,
        CockpitSection::Skills,
        CockpitSection::Git,
        CockpitSection::Tasks,
        CockpitSection::Health,
        CockpitSection::Settings,
    ];
    assert(sections@ =~= drawer_sections());
    let mut items: Vec<DrawerItem> = Vec::new();
    let mut i: usize = 0;
    while i < sections.len()
        invariant
            i <= sections.len(),
            sections@ == drawer_sections(),
            items@.len() == i,
            forall|k: int|
                0 <= k < i ==> (#[trigger] items@[k]).section == drawer_sections()[k] && items@[k].title@
                    == localized_title_text(drawer_sections()[k], lang) && items@[k].subtitle@
                    == localized_subtitle_text(drawer_sections()[k], lang),
        decreases sections.len() - i,
    {
        let s = sections[i];
        items.push(DrawerItem { section: s, title: s.localized_title(lang), subtitle: s.localized_subtitle(lang) });
        i = i + 1;
    }
    items
}

/// An entry of the navigation bar.
#[derive(Clone, Copy, Debug, PartialEq, Eq)]
pub struct NavItem {
    pub section: CockpitSection,
    pub label: &'static str,
    pub short: &'static str,
}

/// The navigation bar entries: section, label and icon.
pub open spec fn nav_entries(lang: AppLanguage) -> Seq<(CockpitSection, Seq<char>, Seq<char>)> {
    seq![
        (CockpitSection::Chat, localized_title_text(CockpitSection::Chat, lang), "💬"@),
        (CockpitSection::Skills, localized_title_text(CockpitSection::Skills, lang), "⚡"@),
        (CockpitSection::Mcp, "MCP"@, "🔌"@),
        (CockpitSection::PcHost, "PC"@, "🖥"@),
        (CockpitSection::Files, localized_title_text(CockpitSection::Files, lang), "📁"@),
        (CockpitSection::Approvals, localized_title_text(CockpitSection::Approvals, lang), "✓"@),
        (CockpitSection::Health, localized_title_text(CockpitSection::Health, lang), "♥"@),
    ]
}

/// The seven entries of the navigation bar.
pub fn default_nav_items(lang: AppLanguage) -> (r: Vec<NavItem>)
    ensures
        r@.len() == nav_entries(lang).len(),
        forall|i: int|
            0 <= i < r@.len() ==> ((#[trigger] r@[i]).section, r@[i].label@, r@[i].short@) == nav_entries(lang)[i],
{
    let r = vec![
        NavItem { section: CockpitSection::Chat, label: CockpitSection::Chat.localized_title(lang), short: "💬" },
        NavItem {
            section: CockpitSection::Skills,
            label: CockpitSection::Skills.localized_title(lang),
            short: "⚡",
        },
        NavItem { section: CockpitSection::Mcp, label: "MCP", short: "🔌" },
        NavItem { section: CockpitSection::PcHost, label: "PC", short: "🖥" },
        NavItem { section: CockpitSection::Files, label: CockpitSection::Files.localized_title(lang), short: "📁" },
        NavItem {
            section: CockpitSection::Approvals,
            label: CockpitSection::Approvals.localized_title(lang),
            short: "✓",
        },
        NavItem {
            section: CockpitSection::Health,
            label: CockpitSection::Health.localized_title(lang),
            short: "♥",
        },
    ];
    r
}

} // verus!
