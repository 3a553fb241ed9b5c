use deepseek_mobile::agent_timeline::MobileTimelineState;
use deepseek_mobile::chat_session::{
    clear_active_timeline_display, delete_chat_thread, legacy_index, start_new_chat, switch_chat_thread,
    touch_active_thread, LEGACY_THREAD,
};

#[test]
fn new_chat_creates_unique_thread() {
    let mut index = legacy_index(100);
    let (id, timeline) = start_new_chat(&mut index, Some("Test".to_string()), 200);
    assert!(id.starts_with("chat-"));
    assert!(timeline.is_empty());
    assert_eq!(index.active_thread_id, id);
    let (other, _) = start_new_chat(&mut index, None, 300);
    assert_ne!(other, id);
    assert_eq!(index.threads.len(), 3);
    assert_eq!(index.threads[1].title, "Test");
    assert_eq!(index.threads[2].title, "Чат 3");
    assert_eq!(other.len(), "chat-".len() + 36);
}

#[test]
fn legacy_index_has_one_active_thread() {
    let index = legacy_index(5);
    assert_eq!(index.active_thread_id, LEGACY_THREAD);
    assert_eq!(index.threads.len(), 1);
    assert_eq!(index.threads[0].title, "Main chat");
    assert_eq!(index.threads[0].created_at_unix, 5);
}

#[test]
fn switching_needs_a_known_thread() {
    let mut index = legacy_index(1);
    let (id, _) = start_new_chat(&mut index, None, 2);
    assert_eq!(
        switch_chat_thread(&mut index, "missing", Ok(MobileTimelineState::default())).unwrap_err(),
        "chat thread not found: missing"
    );
    assert_eq!(index.active_thread_id, id);
    let mut saved = MobileTimelineState::default();
    saved.push_assistant_message("PROBE_OK");
    saved.push_assistant_message("real reply");
    for n in 0..3 {
        saved.push_error(&format!("old error {n}"));
    }
    let shown = switch_chat_thread(&mut index, LEGACY_THREAD, Ok(saved)).expect("switched");
    assert_eq!(index.active_thread_id, LEGACY_THREAD);
    let bodies: Vec<&str> = shown.items.iter().map(|i| i.body.as_str()).collect();
    assert_eq!(bodies, vec!["real reply"]);
    assert_eq!(
        switch_chat_thread(&mut index, &id, Err("store unreadable".to_string())).unwrap_err(),
        "store unreadable"
    );
    assert_eq!(index.active_thread_id, id);
}

#[test]
fn deleting_moves_the_active_thread_to_the_first_left() {
    let mut index = legacy_index(1);
    assert_eq!(
        delete_chat_thread(&mut index, LEGACY_THREAD),
        Err("Cannot delete the only chat thread".to_string())
    );
    let (id, _) = start_new_chat(&mut index, None, 2);
    assert_eq!(
        delete_chat_thread(&mut index, "nope"),
        Err("chat thread not found: nope".to_string())
    );
    assert_eq!(delete_chat_thread(&mut index, &id), Ok(LEGACY_THREAD.to_string()));
    assert_eq!(index.threads.len(), 1);
    assert_eq!(index.active_thread_id, LEGACY_THREAD);
}

#[test]
fn touching_updates_only_the_active_thread() {
    let mut index = legacy_index(1);
    start_new_chat(&mut index, None, 2);
    assert!(touch_active_thread(&mut index, 50));
    assert_eq!(index.threads[0].updated_at_unix, 1);
    assert_eq!(index.threads[1].updated_at_unix, 50);
    index.active_thread_id = "gone".to_string();
    assert!(!touch_active_thread(&mut index, 60));
}

#[test]
fn cleared_display_is_empty() {
    assert!(clear_active_timeline_display().is_empty());
}
