use deepseek_mobile::approval_diff_preview::{approval_diff_summary, build_approval_diff_preview, ApprovalCardArguments};
use deepseek_mobile::attachment_ingestion::{
    ingest_attachment_text, ingest_attachment_texts, ingestion_status_message, AttachmentFileOutcome,
    AttachmentIngestionStatus, MAX_INGEST_BYTES, MAX_INGEST_CHARS,
};
use deepseek_mobile::chat_attachment::ChatAttachmentDraft;
use deepseek_mobile::json::JsonValue;

fn text(s: &str) -> JsonValue {
    JsonValue::Str(s.to_string())
}

fn object(members: Vec<(&str, JsonValue)>) -> JsonValue {
    JsonValue::Object(members.into_iter().map(|(k, v)| (k.to_string(), v)).collect())
}

fn file_write_card() -> ApprovalCardArguments {
    ApprovalCardArguments {
        id: "approval-1".to_string(),
        tool_name: "write_file".to_string(),
        writes_files: true,
        argument_preview: object(vec![
            ("path", text("src/main.rs")),
            ("before", text("fn main() {}\n")),
            ("content", text("fn main() { println!(\"ok\"); }\n")),
        ]),
    }
}

#[test]
fn builds_diff_from_file_write_approval_card() {
    let preview = build_approval_diff_preview(&file_write_card()).expect("diff preview");
    assert_eq!(preview.path, "src/main.rs");
    assert_eq!(preview.diff.added_lines, 1);
    assert_eq!(preview.diff.removed_lines, 1);
    assert!(approval_diff_summary(&preview).contains("write_file"));
    assert_eq!(approval_diff_summary(&preview), "src/main.rs · write_file · +1 / -1");
}

#[test]
fn skips_non_file_write_cards() {
    let mut card = file_write_card();
    card.writes_files = false;
    assert!(build_approval_diff_preview(&card).is_none());
}

#[test]
fn blank_path_falls_back_to_the_next_key_and_missing_content_skips() {
    let mut card = file_write_card();
    card.argument_preview = object(vec![
        ("path", text("   ")),
        ("file", JsonValue::Null),
        ("file_path", text("lib.rs")),
        ("content", text("x\n")),
    ]);
    let preview = build_approval_diff_preview(&card).expect("preview");
    assert_eq!(preview.path, "lib.rs");
    assert_eq!(preview.diff.added_lines, 1);
    assert_eq!(preview.diff.removed_lines, 0);
    card.argument_preview = object(vec![("path", text("lib.rs"))]);
    assert!(build_approval_diff_preview(&card).is_none());
}

fn text_attachment() -> ChatAttachmentDraft {
    ChatAttachmentDraft::new_document("a1", "attachment.txt").with_mime_type("text/plain")
}

#[test]
fn skips_attachment_without_local_path() {
    let result = ingest_attachment_text(text_attachment(), AttachmentFileOutcome::NotRead { size_bytes: 0 });
    assert_eq!(result.status, AttachmentIngestionStatus::NoLocalPath);
    assert_eq!(ingestion_status_message(&result), None);
}

#[test]
fn reads_text_attachment_from_local_path() {
    let attachment = text_attachment().with_path("/tmp/attachment.txt");
    let result = ingest_attachment_text(
        attachment,
        AttachmentFileOutcome::Text { size_bytes: 21, text: "hello from attachment".to_string() },
    );
    assert!(matches!(result.status, AttachmentIngestionStatus::Read { .. }));
    assert_eq!(result.attachment.extracted_text.as_deref(), Some("hello from attachment"));
    assert_eq!(
        ingestion_status_message(&result).as_deref(),
        Some("Read attachment text: attachment.txt (21 chars)")
    );
}

#[test]
fn rejects_large_text_attachment() {
    let attachment = text_attachment().with_path("/tmp/large.txt");
    let result =
        ingest_attachment_text(attachment, AttachmentFileOutcome::NotRead { size_bytes: MAX_INGEST_BYTES + 1 });
    assert!(matches!(result.status, AttachmentIngestionStatus::TooLarge { .. }));
    assert_eq!(
        ingestion_status_message(&result).as_deref(),
        Some("Attachment skipped as too large for mobile prompt ingestion: attachment.txt (524289 > 524288 bytes)")
    );
}

#[test]
fn long_text_is_cut_with_a_note() {
    let attachment = text_attachment().with_path("/tmp/long.txt");
    let text = "y".repeat(MAX_INGEST_CHARS + 5);
    let result = ingest_attachment_text(attachment, AttachmentFileOutcome::Text { size_bytes: 1000, text });
    assert_eq!(
        result.status,
        AttachmentIngestionStatus::Read { char_count: MAX_INGEST_CHARS + 5, truncated: true }
    );
    let extracted = result.attachment.extracted_text.clone().unwrap();
    assert!(extracted.ends_with("\n...[mobile attachment ingestion truncated]..."));
    assert_eq!(extracted.chars().count(), MAX_INGEST_CHARS + "\n...[mobile attachment ingestion truncated]...".len());
}

#[test]
fn unsupported_kinds_and_failures() {
    let image = ChatAttachmentDraft::new_document("i", "p.png").with_mime_type("image/png").with_path("/p.png");
    let result = ingest_attachment_text(image, AttachmentFileOutcome::NotRead { size_bytes: 1 });
    assert_eq!(result.status, AttachmentIngestionStatus::UnsupportedKind);
    let bad = ingest_attachment_text(
        text_attachment().with_path("/x"),
        AttachmentFileOutcome::ReadFailed { size_bytes: 3, error: "io".to_string(), invalid_utf8: true },
    );
    assert_eq!(bad.status, AttachmentIngestionStatus::Failed("file is not valid UTF-8 text".to_string()));
    assert_eq!(
        ingestion_status_message(&bad).as_deref(),
        Some("Attachment text read failed: attachment.txt (file is not valid UTF-8 text)")
    );
    let all = ingest_attachment_texts(vec![
        (text_attachment(), AttachmentFileOutcome::NotRead { size_bytes: 0 }),
        (
            text_attachment().with_path("/y"),
            AttachmentFileOutcome::MetadataFailed("missing".to_string()),
        ),
    ]);
    assert_eq!(all.len(), 2);
    assert_eq!(all[0].status, AttachmentIngestionStatus::NoLocalPath);
    assert_eq!(all[1].status, AttachmentIngestionStatus::Failed("missing".to_string()));
}
