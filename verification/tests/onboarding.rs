use deepseek_mobile::onboarding_panel::{
    api_key_can_continue, leave_workspaces, step_caption, submit_api_key, termux_path_to_save, OnboardingStep,
    KEY_PREFIX_ERROR,
};

#[test]
fn key_step_needs_eight_bytes_and_the_prefix() {
    assert!(!api_key_can_continue("  sk-123  "));
    assert!(api_key_can_continue(" sk-12345 "));
    assert_eq!(submit_api_key(" sk-12345 "), Ok(OnboardingStep::Workspaces));
    assert_eq!(submit_api_key("pk-12345678"), Err(KEY_PREFIX_ERROR.to_string()));
}

#[test]
fn workspaces_step_ends_the_wizard() {
    assert_eq!(leave_workspaces(true, "/data/x"), (OnboardingStep::Done, String::new()));
    assert_eq!(leave_workspaces(false, "/data/x"), (OnboardingStep::Done, "/data/x".to_string()));
    assert_eq!(termux_path_to_save("  /data/p  "), Some("/data/p".to_string()));
    assert_eq!(termux_path_to_save("   "), None);
    assert_eq!(step_caption(OnboardingStep::Done), "Step 3/3 — Ready to open the cockpit.");
}
