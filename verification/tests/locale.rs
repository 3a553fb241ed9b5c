use deepseek_mobile::agent_timeline::{MobileTimelineItemKind, MobileTimelineItemStatus};
use deepseek_mobile::locale::{
    language_code, language_from_code, pick, timeline_kind_label, timeline_status_label, tr, AppLanguage, Tr,
};

#[test]
fn language_toggles_and_labels() {
    assert_eq!(AppLanguage::default(), AppLanguage::Ru);
    assert_eq!(AppLanguage::Ru.toggle(), AppLanguage::En);
    assert_eq!(AppLanguage::En.toggle().toggle(), AppLanguage::En);
    assert_eq!(AppLanguage::Ru.label(), "RU");
    assert_eq!(AppLanguage::En.label(), "EN");
}

#[test]
fn language_codes_round_trip() {
    for lang in [AppLanguage::Ru, AppLanguage::En] {
        assert_eq!(language_from_code(language_code(lang)), Some(lang));
    }
    assert_eq!(language_from_code("de"), None);
}

#[test]
fn strings_follow_the_language() {
    assert_eq!(pick(AppLanguage::Ru, "да", "yes"), "да");
    assert_eq!(pick(AppLanguage::En, "да", "yes"), "yes");
    assert_eq!(tr(AppLanguage::En, Tr::ContinueSandboxSaved), "Sandbox mode — no Termux shell");
    assert_eq!(tr(AppLanguage::Ru, Tr::ContinueSandboxSaved), "Режим песочницы — без shell в Termux");
    assert_ne!(
        timeline_kind_label(AppLanguage::Ru, &MobileTimelineItemKind::ToolCall),
        timeline_kind_label(AppLanguage::En, &MobileTimelineItemKind::ToolCall)
    );
    assert!(!timeline_status_label(AppLanguage::En, &MobileTimelineItemStatus::Done).is_empty());
}
