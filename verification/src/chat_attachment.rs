//! The chat composer: draft text and attached documents.
use crate::agent_timeline::opt_view;
use crate::document_picker::{PickedDocument, PickedDocumentView};
use crate::text::{decimal, is_blank, is_blank_str, owned, push_decimal};
use vstd::prelude::*;

verus! {

broadcast use vstd::string::group_string_axioms;

/// What kind of document an attachment is.
#[derive(Clone, Copy, Debug, PartialEq, Eq, Structural)]
pub enum ChatAttachmentKind {
    Document,
    Image,
    Archive,
    SourceFile,
    Unknown,
}

/// A document attached to the next chat message.
#[derive(Clone, Debug, PartialEq, Eq)]
pub struct ChatAttachmentDraft {
    pub id: String,
    pub display_name: String,
    /// Local file path of the document, when the picker gave one.
    pub path: Option<String>,
    pub mime_type: Option<String>,
    pub size_bytes: Option<u64>,
    pub kind: ChatAttachmentKind,
    /// The text read from the document for the prompt, once ingested.
    pub extracted_text: Option<String>,
}

/// An attachment as values.
pub struct ChatAttachmentView {
    pub id: Seq<char>,
    pub display_name: Seq<char>,
    pub path: Option<Seq<char>>,
    pub mime_type: Option<Seq<char>>,
    pub size_bytes: Option<u64>,
    pub kind: ChatAttachmentKind,
    pub extracted_text: Option<Seq<char>>,
}

impl View for ChatAttachmentDraft {
    type V = ChatAttachmentView;

    open spec fn view(&self) -> ChatAttachmentView {
        ChatAttachmentView {
            id: self.id@,
            display_name: self.display_name@,
            path: opt_view(self.path),
            mime_type: opt_view(self.mime_type),
            size_bytes: self.size_bytes,
            kind: self.kind,
            extracted_text: opt_view(self.extracted_text),
        }
    }
}

impl ChatAttachmentDraft {
    /// A document attachment with only an id and a name.
    pub fn new_document(id: &str, display_name: &str) -> (r: Self)
        ensures
            r@ == (ChatAttachmentView {
                id: id@,
                display_name: display_name@,
                path: None,
                mime_type: None,
                size_bytes: None,
                kind: ChatAttachmentKind::Document,
                extracted_text: None,
            }),
    {
        ChatAttachmentDraft {
            id: owned(id),
            display_name: owned(display_name),
            path: None,
            mime_type: None,
            size_bytes: None,
            kind: ChatAttachmentKind::Document,
            extracted_text: None,
        }
    }

    /// The attachment with a local path.
    pub fn with_path(self, path: &str) -> (r: Self)
        ensures
            r@ == (ChatAttachmentView { path: Some(path@), ..self@ }),
    {
        let mut s = self;
        s.path = Some(owned(path));
        s
    }

    /// The attachment with a MIME type.
    pub fn with_mime_type(self, mime_type: &str) -> (r: Self)
        ensures
            r@ == (ChatAttachmentView { mime_type: Some(mime_type@), ..self@ }),
    {
        let mut s = self;
        s.mime_type = Some(owned(mime_type));
        s
    }

    /// The attachment with a size in bytes.
    pub fn with_size_bytes(self, size_bytes: u64) -> (r: Self)
        ensures
            r@ == (ChatAttachmentView { size_bytes: Some(size_bytes), ..self@ }),
    {
        let mut s = self;
        s.size_bytes = Some(size_bytes);
        s
    }
}

/// The attachment made from a picked document.
pub open spec fn picked_attachment(d: PickedDocumentView) -> ChatAttachmentView {
    ChatAttachmentView {
        id: d.id,
        display_name: d.display_name,
        path: d.path,
        mime_type: d.mime_type,
        size_bytes: d.size_bytes,
        kind: ChatAttachmentKind::Document,
        extracted_text: None,
    }
}

/// The views of a list of attachments.
pub open spec fn attachments_view(v: Seq<ChatAttachmentDraft>) -> Seq<ChatAttachmentView> {
    v.map_values(|a: ChatAttachmentDraft| a@)
}

/// The draft of the next chat message.
#[derive(Clone, Debug, PartialEq, Eq)]
pub struct ChatComposerState {
    pub draft_text: String,
    pub attachments: Vec<ChatAttachmentDraft>,
}

/// The one-line summary of the attachments of a draft.
pub open spec fn attachment_summary_text(atts: Seq<ChatAttachmentView>) -> Seq<char> {
    if atts.len() == 0 {
        "No attachments"@
    } else if atts.len() == 1 {
        "1 attachment: "@ + atts[0].display_name
    } else {
        decimal(atts.len()) + " attachments"@
    }
}

impl Default for ChatComposerState {
    fn default() -> (r: Self)
        ensures
            r.draft_text@ == Seq::<char>::empty(),
            r.attachments@.len() == 0,
    {
        ChatComposerState { draft_text: String::new(), attachments: Vec::new() }
    }
}

impl ChatComposerState {
    /// Attaches a document.
    pub fn add_attachment(&mut self, attachment: ChatAttachmentDraft)
        ensures
            final(self).draft_text@ == old(self).draft_text@,
            final(self).attachments@ == old(self).attachments@.push(attachment),
    {
        self.attachments.push(attachment);
    }

    /// Attaches a document that the picker returned, as a document attachment
    /// with the picked document's id, name, local path, MIME type and size.
    pub fn add_picked_document(&mut self, document: PickedDocument)
        ensures
            final(self).draft_text@ == old(self).draft_text@,
            attachments_view(final(self).attachments@) == attachments_view(old(self).attachments@).push(
                picked_attachment(document@),
            ),
    {
        let ghost before = self.attachments@;
        let ghost d = document@;
        let PickedDocument { id, display_name, uri: _, path, mime_type, size_bytes } = document;
        self.attachments.push(
            ChatAttachmentDraft {
                id,
                display_name,
                path,
                mime_type,
                size_bytes,
                kind: ChatAttachmentKind::Document,
                extracted_text: None,
            },
        );
        assert(attachments_view(self.attachments@) =~= attachments_view(before).push(picked_attachment(d)));
    }

    /// Empties the draft text and drops all attachments.
    pub fn clear(&mut self)
        ensures
            final(self).draft_text@ == Seq::<char>::empty(),
            final(self).attachments@.len() == 0,
    {
        self.draft_text = String::new();
        self.attachments.clear();
    }

    /// Whether there is anything to send: non-blank text or an attachment.
    pub fn has_content(&self) -> (r: bool)
        ensures
            r == (!is_blank(self.draft_text@) || self.attachments@.len() > 0),
    {
        !is_blank_str(self.draft_text.as_str()) || self.attachments.len() > 0
    }

    /// `No attachments`, `1 attachment: {name}` or `{n} attachments`.
    pub fn attachment_summary(&self) -> (r: String)
        ensures
            r@ == attachment_summary_text(attachments_view(self.attachments@)),
    {
        let n = self.attachments.len();
        if n == 0 {
            owned("No attachments")
        } else if n == 1 {
            let mut s = owned("1 attachment: ");
            s.append(self.attachments[0].display_name.as_str());
            s
        } else {
            let mut s = String::new();
            push_decimal(&mut s, n as u128);
            s.append(" attachments");
            s
        }
    }
}

} // verus!
