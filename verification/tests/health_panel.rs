use deepseek_mobile::agent_mode::ExecutionMode;
use deepseek_mobile::health_panel::{
    execution_mode_label, execution_mode_ok, mcp_status_ok, mcp_status_text, native_bridge_row,
};
use deepseek_mobile::locale::AppLanguage;

#[test]
fn mcp_row_counts_connected_servers() {
    assert_eq!(mcp_status_text(AppLanguage::En, 2, 5), "2/5 connected");
    assert_eq!(mcp_status_text(AppLanguage::Ru, 0, 12), "0/12 подключено");
    assert!(mcp_status_ok(1, 3));
    assert!(mcp_status_ok(0, 0));
    assert!(!mcp_status_ok(0, 2));
}

#[test]
fn execution_mode_row_is_green_only_for_agent() {
    assert_eq!(execution_mode_label(AppLanguage::En, ExecutionMode::Yolo), "YOLO (auto-approve)");
    assert_eq!(execution_mode_label(AppLanguage::Ru, ExecutionMode::Plan), "Plan (инструменты выкл.)");
    assert!(execution_mode_ok(ExecutionMode::Agent));
    assert!(!execution_mode_ok(ExecutionMode::Plan));
}

#[test]
fn native_bridge_row_prefers_waiting_over_error() {
    assert_eq!(native_bridge_row(AppLanguage::En, true, true), ("Waiting for Android callback", false));
    assert_eq!(native_bridge_row(AppLanguage::En, false, true), ("Error (see below)", false));
    assert_eq!(native_bridge_row(AppLanguage::Ru, false, false), ("Простой", true));
}
