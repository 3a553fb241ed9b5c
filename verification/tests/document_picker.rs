use deepseek_mobile::document_picker::{
    DocumentPickerMode, DocumentPickerPurpose, DocumentPickerRequest, DocumentPickerState, PickedDocument,
};

#[test]
fn chat_attachment_picker_allows_multiple_documents() {
    let request = DocumentPickerRequest::chat_attachment();
    assert!(request.allows_multiple());
    assert!(request.allow_archives);
    assert!(request.allow_images);
    assert!(request.allow_source_files);
    assert!(request.mime_types.contains(&"application/pdf".to_string()));
}

#[test]
fn project_import_picker_is_archive_focused() {
    let request = DocumentPickerRequest::project_import();
    assert!(!request.allows_multiple());
    assert!(request.allow_archives);
    assert!(!request.allow_images);
}

#[test]
fn picker_state_tracks_pending_request() {
    let mut state = DocumentPickerState::default();
    assert!(!state.is_waiting_for_native_picker());
    state.request(DocumentPickerRequest::chat_attachment());
    assert!(state.is_waiting_for_native_picker());
    state.complete();
    assert!(!state.is_waiting_for_native_picker());
}

#[test]
fn picker_failure_records_error_and_stops_waiting() {
    let mut state = DocumentPickerState::default();
    state.request(DocumentPickerRequest::project_import());
    state.fail("permission denied");
    assert!(!state.is_waiting_for_native_picker());
    assert_eq!(state.last_error.as_deref(), Some("permission denied"));
}

#[test]
fn intent_strings_follow_the_android_contract() {
    let request = DocumentPickerRequest::project_import();
    assert_eq!(request.purpose, DocumentPickerPurpose::ProjectImport);
    assert_eq!(request.mode, DocumentPickerMode::Single);
    assert_eq!(request.android_intent_action(), "android.intent.action.OPEN_DOCUMENT");
    assert_eq!(request.android_intent_category(), "android.intent.category.OPENABLE");
    assert_eq!(
        request.mime_types,
        vec!["application/zip".to_string(), "application/x-tar".to_string(), "application/gzip".to_string()]
    );
}

#[test]
fn picked_document_builders_set_their_fields() {
    let doc = PickedDocument::new("1", "a.zip")
        .with_uri("content://a")
        .with_path("/tmp/a.zip")
        .with_mime_type("application/zip")
        .with_size_bytes(3);
    assert_eq!(doc.display_name, "a.zip");
    assert_eq!(doc.uri.as_deref(), Some("content://a"));
    assert_eq!(doc.path.as_deref(), Some("/tmp/a.zip"));
    assert_eq!(doc.mime_type.as_deref(), Some("application/zip"));
    assert_eq!(doc.size_bytes, Some(3));
}
