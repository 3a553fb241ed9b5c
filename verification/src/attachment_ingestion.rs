//! Rules for reading the text of chat attachments into the prompt; the host
//! does the reading and hands the results to these functions.
use crate::agent_timeline::opt_view;
use crate::chat_attachment::{ChatAttachmentDraft, ChatAttachmentKind, ChatAttachmentView};
use crate::text::{chars_of, decimal, owned, push_chars, push_decimal, slice_range, starts_with, str_eq, str_starts_with};
use vstd::prelude::*;

verus! {

broadcast use vstd::string::group_string_axioms;

/// The largest attachment whose text is read, in bytes.
pub const MAX_INGEST_BYTES: u64 = 524288;

/// How many characters of an attachment go into the prompt.
pub const MAX_INGEST_CHARS: usize = 120000;

/// The note appended to text cut at `MAX_INGEST_CHARS`.
pub const TRUNCATION_NOTE: &'static str = "\n...[mobile attachment ingestion truncated]...";

/// What happened when the text of an attachment was read.
#[derive(Clone, Debug, PartialEq, Eq)]
pub enum AttachmentIngestionStatus {
    NotReadable,
    NoLocalPath,
    TooLarge { size_bytes: u64, max_bytes: u64 },
    UnsupportedKind,
    Read { char_count: usize, truncated: bool },
    Failed(String),
}

/// An attachment with the outcome of reading it.
#[derive(Clone, Debug, PartialEq, Eq)]
pub struct AttachmentIngestionResult {
    pub attachment: ChatAttachmentDraft,
    pub status: AttachmentIngestionStatus,
}

/// Source files, `text/*` and JSON documents are read as text.
pub open spec fn text_ingestable(a: ChatAttachmentView) -> bool {
    a.kind == ChatAttachmentKind::SourceFile || match a.mime_type {
        Some(m) => starts_with(m, "text/"@) || m == "application/json"@,
        None => false,
    }
}

/// Whether the attachment's text can be read into the prompt.
pub fn is_text_ingestable(attachment: &ChatAttachmentDraft) -> (r: bool)
    ensures
        r == text_ingestable(attachment@),
{
    if attachment.kind == ChatAttachmentKind::SourceFile {
        return true;
    }
    match &attachment.mime_type {
        Some(m) => str_starts_with(m.as_str(), "text/") || str_eq(m.as_str(), "application/json"),
        None => false,
    }
}

/// The text that goes into the prompt: at most `MAX_INGEST_CHARS`
/// characters, with a note when it was cut.
pub open spec fn ingested_text(text: Seq<char>) -> Seq<char> {
    if text.len() > MAX_INGEST_CHARS {
        text.take(MAX_INGEST_CHARS as int) + TRUNCATION_NOTE@
    } else {
        text
    }
}

fn ingest_read_text(attachment: ChatAttachmentDraft, text: &str) -> (r: AttachmentIngestionResult)
    ensures
        r.attachment@ == (ChatAttachmentView { extracted_text: Some(ingested_text(text@)), ..attachment@ }),
        r.status@ == (IngestionStatusView::Read {
            char_count: text@.len() as usize,
            truncated: text@.len() > MAX_INGEST_CHARS,
        }),
{
    let chars = chars_of(text);
    let count = chars.len();
    let truncated = count > MAX_INGEST_CHARS;
    let extracted = if truncated {
        let head = slice_range(&chars, 0, MAX_INGEST_CHARS);
        let mut out = String::new();
        push_chars(&mut out, &head);
        out.append(TRUNCATION_NOTE);
        assert(out@ =~= text@.take(MAX_INGEST_CHARS as int) + TRUNCATION_NOTE@);
        out
    } else {
        owned(text)
    };
    let mut a = attachment;
    a.extracted_text = Some(extracted);
    AttachmentIngestionResult { attachment: a, status: AttachmentIngestionStatus::Read { char_count: count, truncated } }
}

/// An ingestion status as a value.
pub enum IngestionStatusView {
    NotReadable,
    NoLocalPath,
    TooLarge { size_bytes: u64, max_bytes: u64 },
    UnsupportedKind,
    Read { char_count: usize, truncated: bool },
    Failed(Seq<char>),
}

impl View for AttachmentIngestionStatus {
    type V = IngestionStatusView;

    open spec fn view(&self) -> IngestionStatusView {
        match self {
            AttachmentIngestionStatus::NotReadable => IngestionStatusView::NotReadable,
            AttachmentIngestionStatus::NoLocalPath => IngestionStatusView::NoLocalPath,
            AttachmentIngestionStatus::TooLarge { size_bytes, max_bytes } => IngestionStatusView::TooLarge {
                size_bytes: *size_bytes,
                max_bytes: *max_bytes,
            },
            AttachmentIngestionStatus::UnsupportedKind => IngestionStatusView::UnsupportedKind,
            AttachmentIngestionStatus::Read { char_count, truncated } => IngestionStatusView::Read {
                char_count: *char_count,
                truncated: *truncated,
            },
            AttachmentIngestionStatus::Failed(m) => IngestionStatusView::Failed(m@),
        }
    }
}

/// What the file system said about an attachment's file.
#[derive(Clone, Debug, PartialEq, Eq)]
pub enum AttachmentFileOutcome {
    /// Its size could not be read.
    MetadataFailed(String),
    /// Its size, when it was too large to be read.
    NotRead { size_bytes: u64 },
    /// Its size and its text.
    Text { size_bytes: u64, text: String },
    /// Its size and why its text could not be read (`invalid_utf8` when it is not UTF-8 text).
    ReadFailed { size_bytes: u64, error: String, invalid_utf8: bool },
}

/// The error text of a failed read.
pub open spec fn read_error_label(error: Seq<char>, invalid_utf8: bool) -> Seq<char> {
    if invalid_utf8 { "file is not valid UTF-8 text"@ } else { error }
}

/// The outcome of ingesting an attachment: its kind must be text, it must
/// have a local path, its file size must be readable and at most
/// `MAX_INGEST_BYTES`, and then its text is read (cut at `MAX_INGEST_CHARS`).
pub open spec fn ingest_spec(a: ChatAttachmentView, f: AttachmentFileOutcome) -> (ChatAttachmentView, IngestionStatusView) {
    if !text_ingestable(a) {
        (a, IngestionStatusView::UnsupportedKind)
    } else if a.path is None {
        (a, IngestionStatusView::NoLocalPath)
    } else {
        match f {
            AttachmentFileOutcome::MetadataFailed(e) => (a, IngestionStatusView::Failed(e@)),
            AttachmentFileOutcome::NotRead { size_bytes } => if size_bytes > MAX_INGEST_BYTES {
                (a, IngestionStatusView::TooLarge { size_bytes, max_bytes: MAX_INGEST_BYTES })
            } else {
                (a, IngestionStatusView::NotReadable)
            },
            AttachmentFileOutcome::Text { size_bytes, text } => if size_bytes > MAX_INGEST_BYTES {
                (a, IngestionStatusView::TooLarge { size_bytes, max_bytes: MAX_INGEST_BYTES })
            } else {
                (
                    ChatAttachmentView { extracted_text: Some(ingested_text(text@)), ..a },
                    IngestionStatusView::Read {
                        char_count: text@.len() as usize,
                        truncated: text@.len() > MAX_INGEST_CHARS,
                    },
                )
            },
            AttachmentFileOutcome::ReadFailed { size_bytes, error, invalid_utf8 } => if size_bytes > MAX_INGEST_BYTES {
                (a, IngestionStatusView::TooLarge { size_bytes, max_bytes: MAX_INGEST_BYTES })
            } else {
                (a, IngestionStatusView::Failed(read_error_label(error@, invalid_utf8)))
            },
        }
    }
}

/// Whether the file of an attachment is to be looked at: a text kind with a local path.
pub fn needs_file(attachment: &ChatAttachmentDraft) -> (r: bool)
    ensures
        r == (text_ingestable(attachment@) && attachment@.path is Some),
{
    is_text_ingestable(attachment) && attachment.path.is_some()
}

/// Whether a file of this size is read (at most `MAX_INGEST_BYTES`).
pub fn size_allows_read(size_bytes: u64) -> (r: bool)
    ensures
        r == (size_bytes <= MAX_INGEST_BYTES),
{
    size_bytes <= MAX_INGEST_BYTES
}

/// Ingests the text of one attachment from what the file system said of its file.
pub fn ingest_attachment_text(attachment: ChatAttachmentDraft, file: AttachmentFileOutcome) -> (r:
    AttachmentIngestionResult)
    ensures
        (r.attachment@, r.status@) == ingest_spec(attachment@, file),
{
    if !is_text_ingestable(&attachment) {
        return AttachmentIngestionResult { attachment, status: AttachmentIngestionStatus::UnsupportedKind };
    }
    if attachment.path.is_none() {
        return AttachmentIngestionResult { attachment, status: AttachmentIngestionStatus::NoLocalPath };
    }
    match file {
        AttachmentFileOutcome::MetadataFailed(e) => AttachmentIngestionResult {
            attachment,
            status: AttachmentIngestionStatus::Failed(e),
        },
        AttachmentFileOutcome::NotRead { size_bytes } => {
            if size_bytes > MAX_INGEST_BYTES {
                AttachmentIngestionResult {
                    attachment,
                    status: AttachmentIngestionStatus::TooLarge { size_bytes, max_bytes: MAX_INGEST_BYTES },
                }
            } else {
                AttachmentIngestionResult { attachment, status: AttachmentIngestionStatus::NotReadable }
            }
        },
        AttachmentFileOutcome::Text { size_bytes, text } => {
            if size_bytes > MAX_INGEST_BYTES {
                AttachmentIngestionResult {
                    attachment,
                    status: AttachmentIngestionStatus::TooLarge { size_bytes, max_bytes: MAX_INGEST_BYTES },
                }
            } else {
                ingest_read_text(attachment, text.as_str())
            }
        },
        AttachmentFileOutcome::ReadFailed { size_bytes, error, invalid_utf8 } => {
            if size_bytes > MAX_INGEST_BYTES {
                AttachmentIngestionResult {
                    attachment,
                    status: AttachmentIngestionStatus::TooLarge { size_bytes, max_bytes: MAX_INGEST_BYTES },
                }
            } else {
                let label = if invalid_utf8 { owned("file is not valid UTF-8 text") } else { error };
                AttachmentIngestionResult { attachment, status: AttachmentIngestionStatus::Failed(label) }
            }
        },
    }
}

/// Ingests every attachment with what the file system said of its file, in order.
pub fn ingest_attachment_texts(items: Vec<(ChatAttachmentDraft, AttachmentFileOutcome)>) -> (r: Vec<
    AttachmentIngestionResult,
>)
    ensures
        r@.len() == items@.len(),
        forall|i: int|
            0 <= i < items@.len() ==> (#[trigger] r@[i].attachment@, r@[i].status@) == ingest_spec(
                items@[i].0@,
                items@[i].1,
            ),
{
    let ghost all = items@;
    let mut rest = items;
    let mut out: Vec<AttachmentIngestionResult> = Vec::new();
    while rest.len() > 0
        invariant
            out@.len() + rest@.len() == all.len(),
            forall|k: int| 0 <= k < rest@.len() ==> #[trigger] rest@[k] == all[out@.len() + k],
            forall|i: int|
                0 <= i < out@.len() ==> (#[trigger] out@[i].attachment@, out@[i].status@) == ingest_spec(
                    all[i].0@,
                    all[i].1,
                ),
        decreases rest.len(),
    {
        let ghost before = rest@;
        let (a, f) = rest.remove(0);
        assert(before[0] == all[out@.len() as int]);
        assert forall|k: int| 0 <= k < rest@.len() implies #[trigger] rest@[k] == all[out@.len() + 1 + k] by {
            assert(rest@[k] == before[k + 1]);
        }
        out.push(ingest_attachment_text(a, f));
    }
    out
}

/// The message shown in the timeline for an ingestion outcome, if any.
pub open spec fn status_message(a: ChatAttachmentView, status: AttachmentIngestionStatus) -> Option<Seq<char>> {
    match status {
        AttachmentIngestionStatus::Read { char_count, truncated } => Some(
            "Read attachment text: "@ + a.display_name + " ("@ + decimal(char_count as nat)
                + " chars"@ + (if truncated { ", truncated"@ } else { ""@ }) + ")"@,
        ),
        AttachmentIngestionStatus::TooLarge { size_bytes, max_bytes } => Some(
            "Attachment skipped as too large for mobile prompt ingestion: "@ + a.display_name
                + " ("@ + decimal(size_bytes as nat) + " > "@ + decimal(max_bytes as nat)
                + " bytes)"@,
        ),
        AttachmentIngestionStatus::Failed(error) => Some(
            "Attachment text read failed: "@ + a.display_name + " ("@ + error@ + ")"@,
        ),
        _ => None,
    }
}

/// The timeline message for an ingestion result (none for skipped kinds and missing paths).
pub fn ingestion_status_message(result: &AttachmentIngestionResult) -> (r: Option<String>)
    ensures
        opt_view(r) == status_message(result.attachment@, result.status),
{
    let name = result.attachment.display_name.as_str();
    match &result.status {
        AttachmentIngestionStatus::Read { char_count, truncated } => {
            let mut s = owned("Read attachment text: ");
            s.append(name);
            s.append(" (");
            push_decimal(&mut s, *char_count as u128);
            s.append(" chars");
            if *truncated {
                s.append(", truncated");
            } else {
                s.append("");
            }
            s.append(")");
            Some(s)
        },
        AttachmentIngestionStatus::TooLarge { size_bytes, max_bytes } => {
            let mut s = owned("Attachment skipped as too large for mobile prompt ingestion: ");
            s.append(name);
            s.append(" (");
            push_decimal(&mut s, *size_bytes as u128);
            s.append(" > ");
            push_decimal(&mut s, *max_bytes as u128);
            s.append(" bytes)");
            Some(s)
        },
        AttachmentIngestionStatus::Failed(error) => {
            let mut s = owned("Attachment text read failed: ");
            s.append(name);
            s.append(" (");
            s.append(error.as_str());
            s.append(")");
            Some(s)
        },
        _ => None,
    }
}

/// The text that goes into the prompt is the whole text when it is short
/// enough, and otherwise its first `MAX_INGEST_CHARS` characters and the note.
pub proof fn lemma_ingested_text_bounded(text: Seq<char>)
    ensures
        ingested_text(text).len() <= MAX_INGEST_CHARS + TRUNCATION_NOTE@.len(),
        text.len() <= MAX_INGEST_CHARS ==> ingested_text(text) == text,
        text.len() > MAX_INGEST_CHARS ==> ingested_text(text).take(MAX_INGEST_CHARS as int) == text.take(
            MAX_INGEST_CHARS as int,
        ),
{
    if text.len() > MAX_INGEST_CHARS {
        let t = text.take(MAX_INGEST_CHARS as int) + TRUNCATION_NOTE@;
        assert(t.take(MAX_INGEST_CHARS as int) =~= text.take(MAX_INGEST_CHARS as int));
    }
}

} // verus!
