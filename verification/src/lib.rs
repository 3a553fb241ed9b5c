use vstd::prelude::*;

pub mod text;
pub mod json;
pub mod chat_file_links;
pub mod agent_timeline;
pub mod git_state;
pub mod chat_attachment;
pub mod document_picker;
pub mod project_diff;
pub mod native_document_picker;
pub mod locale;
pub mod device_calibration;
pub mod pc_pairing_manager;
pub mod project_files;
pub mod attachment_ingestion;
pub mod approval_diff_preview;
pub mod native_termux;
pub mod native_pc_discovery;
pub mod native_bridge;
pub mod android_host;
pub mod host_callbacks;
pub mod native_event_router;
pub mod agent_event_adapter;
pub mod mobile_drawer;
pub mod timeline_display;
pub mod app_update_state;
pub mod agent_mode;
pub mod turn_results;
pub mod mobile_engine_runner;
pub mod mobile_runtime_config;
pub mod agent_turn_probe;
pub mod api_probe;
pub mod chat_scroll;
pub mod diagnostics_state;
pub mod host_loop;
pub mod mobile_approval_panel;
pub mod mobile_git_runner;
pub mod chat_session;
pub mod pc_pairing_state;
pub mod pc_pairing_persist;
pub mod pc_discovery_probe;
pub mod timeline_laws;
pub mod bridge_laws;
pub mod health_panel;
pub mod onboarding_panel;

verus! {

} // verus!
