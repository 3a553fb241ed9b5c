use deepseek_mobile::chat_attachment::{ChatAttachmentDraft, ChatAttachmentKind, ChatComposerState};

#[test]
fn composer_detects_text_content() {
    let mut state = ChatComposerState::default();
    assert!(!state.has_content());
    state.draft_text = "Build project".to_string();
    assert!(state.has_content());
}

#[test]
fn composer_detects_attachment_content() {
    let mut state = ChatComposerState::default();
    state.add_attachment(ChatAttachmentDraft::new_document("1", "spec.pdf"));
    assert!(state.has_content());
    assert_eq!(state.attachment_summary(), "1 attachment: spec.pdf");
}

#[test]
fn composer_clear_removes_text_and_attachments() {
    let mut state = ChatComposerState::default();
    state.draft_text = "Analyze".to_string();
    state.add_attachment(ChatAttachmentDraft::new_document("1", "project.zip"));
    state.clear();
    assert!(!state.has_content());
    assert_eq!(state.attachments.len(), 0);
}

#[test]
fn blank_draft_is_no_content() {
    let mut state = ChatComposerState::default();
    state.draft_text = "  \n\t".to_string();
    assert!(!state.has_content());
}

#[test]
fn summary_counts_and_names_several_attachments() {
    let mut state = ChatComposerState::default();
    assert_eq!(state.attachment_summary(), "No attachments");
    state.add_attachment(ChatAttachmentDraft::new_document("1", "a.txt"));
    state.add_attachment(ChatAttachmentDraft::new_document("2", "b.pdf"));
    assert_eq!(state.attachment_summary(), "2 attachments");
}

#[test]
fn attachment_builders_set_their_fields() {
    let draft = ChatAttachmentDraft::new_document("7", "notes.md")
        .with_path("/tmp/notes.md")
        .with_mime_type("text/markdown")
        .with_size_bytes(12);
    assert_eq!(draft.id, "7");
    assert_eq!(draft.kind, ChatAttachmentKind::Document);
    assert_eq!(draft.path.as_deref(), Some("/tmp/notes.md"));
    assert_eq!(draft.mime_type.as_deref(), Some("text/markdown"));
    assert_eq!(draft.size_bytes, Some(12));
}
