//! Requests to the platform document picker and their state.
use crate::agent_timeline::opt_view;
use crate::chat_file_links::strings_view;
use crate::text::owned;
use vstd::prelude::*;

verus! {

broadcast use vstd::string::group_string_axioms;

/// Whether one or several documents may be picked.
#[derive(Clone, Copy, Debug, PartialEq, Eq, Structural)]
pub enum DocumentPickerMode {
    Single,
    Multiple,
}

/// What the picked documents are for.
#[derive(Clone, Copy, Debug, PartialEq, Eq, Structural)]
pub enum DocumentPickerPurpose {
    ChatAttachment,
    ProjectImport,
    SettingsImport,
}

/// A request to open the document picker.
#[derive(Clone, Debug, PartialEq, Eq)]
pub struct DocumentPickerRequest {
    pub purpose: DocumentPickerPurpose,
    pub mode: DocumentPickerMode,
    pub mime_types: Vec<String>,
    pub allow_archives: bool,
    pub allow_images: bool,
    pub allow_source_files: bool,
}

/// The MIME types offered for chat attachments.
pub open spec fn chat_attachment_mime_types() -> Seq<Seq<char>> {
    seq![
        "application/pdf"@,
        "text/plain"@,
        "text/markdown"@,
        "application/json"@,
        "application/zip"@,
        "image/*"@,
        "*/*"@,
    ]
}

/// The MIME types offered for project imports.
pub open spec fn project_import_mime_types() -> Seq<Seq<char>> {
    seq!["application/zip"@, "application/x-tar"@, "application/gzip"@]
}

fn strings_of(v: Vec<&'static str>) -> (r: Vec<String>)
    ensures
        strings_view(r@) == v@.map_values(|s: &str| s@),
{
    let mut r: Vec<String> = Vec::new();
    let mut i: usize = 0;
    while i < v.len()
        invariant
            i <= v.len(),
            strings_view(r@) == v@.map_values(|s: &str| s@).take(i as int),
        decreases v.len() - i,
    {
        let ghost before = r@;
        r.push(owned(v[i]));
        assert(strings_view(r@) =~= strings_view(before).push(v@[i as int]@));
        i = i + 1;
        assert(strings_view(r@) =~= v@.map_values(|s: &str| s@).take(i as int));
    }
    assert(v@.map_values(|s: &str| s@).take(v.len() as int) == v@.map_values(|s: &str| s@));
    r
}

impl DocumentPickerRequest {
    /// Several documents of any common type, archives, images and sources allowed.
    pub fn chat_attachment() -> (r: Self)
        ensures
            r.purpose == DocumentPickerPurpose::ChatAttachment,
            r.mode == DocumentPickerMode::Multiple,
            strings_view(r.mime_types@) == chat_attachment_mime_types(),
            r.allow_archives && r.allow_images && r.allow_source_files,
    {
        let types = vec![
            "application/pdf",
            "text/plain",
            "text/markdown",
            "application/json",
            "application/zip",
            "image/*",
            "*/*",
        ];
        assert(types@.map_values(|s: &str| s@) =~= chat_attachment_mime_types());
        DocumentPickerRequest {
            purpose: DocumentPickerPurpose::ChatAttachment,
            mode: DocumentPickerMode::Multiple,
            mime_types: strings_of(types),
            allow_archives: true,
            allow_images: true,
            allow_source_files: true,
        }
    }

    /// One archive (zip, tar or gzip).
    pub fn project_import() -> (r: Self)
        ensures
            r.purpose == DocumentPickerPurpose::ProjectImport,
            r.mode == DocumentPickerMode::Single,
            strings_view(r.mime_types@) == project_import_mime_types(),
            r.allow_archives && !r.allow_images && !r.allow_source_files,
    {
        let types = vec!["application/zip", "application/x-tar", "application/gzip"];
        assert(types@.map_values(|s: &str| s@) =~= project_import_mime_types());
        DocumentPickerRequest {
            purpose: DocumentPickerPurpose::ProjectImport,
            mode: DocumentPickerMode::Single,
            mime_types: strings_of(types),
            allow_archives: true,
            allow_images: false,
            allow_source_files: false,
        }
    }

    /// The Android intent action that opens documents.
    pub fn android_intent_action(&self) -> (r: &'static str)
        ensures
            r@ == "android.intent.action.OPEN_DOCUMENT"@,
    {
        "android.intent.action.OPEN_DOCUMENT"
    }

    /// The Android intent category of openable documents.
    pub fn android_intent_category(&self) -> (r: &'static str)
        ensures
            r@ == "android.intent.category.OPENABLE"@,
    {
        "android.intent.category.OPENABLE"
    }

    /// Whether several documents may be picked.
    pub fn allows_multiple(&self) -> (r: bool)
        ensures
            r == (self.mode == DocumentPickerMode::Multiple),
    {
        self.mode == DocumentPickerMode::Multiple
    }
}

/// A document that the picker returned.
#[derive(Clone, Debug, PartialEq, Eq)]
pub struct PickedDocument {
    pub id: String,
    pub display_name: String,
    pub uri: Option<String>,
    /// Local file path of the document, when the platform gave one.
    pub path: Option<String>,
    pub mime_type: Option<String>,
    pub size_bytes: Option<u64>,
}

/// A picked document as values.
pub struct PickedDocumentView {
    pub id: Seq<char>,
    pub display_name: Seq<char>,
    pub uri: Option<Seq<char>>,
    pub path: Option<Seq<char>>,
    pub mime_type: Option<Seq<char>>,
    pub size_bytes: Option<u64>,
}

impl View for PickedDocument {
    type V = PickedDocumentView;

    open spec fn view(&self) -> PickedDocumentView {
        PickedDocumentView {
            id: self.id@,
            display_name: self.display_name@,
            uri: opt_view(self.uri),
            path: opt_view(self.path),
            mime_type: opt_view(self.mime_type),
            size_bytes: self.size_bytes,
        }
    }
}

impl PickedDocument {
    /// A picked document with only an id and a name.
    pub fn new(id: &str, display_name: &str) -> (r: Self)
        ensures
            r@ == (PickedDocumentView {
                id: id@,
                display_name: display_name@,
                uri: None,
                path: None,
                mime_type: None,
                size_bytes: None,
            }),
    {
        PickedDocument {
            id: owned(id),
            display_name: owned(display_name),
            uri: None,
            path: None,
            mime_type: None,
            size_bytes: None,
        }
    }

    /// The document with a content URI.
    pub fn with_uri(self, uri: &str) -> (r: Self)
        ensures
            r@ == (PickedDocumentView { uri: Some(uri@), ..self@ }),
    {
        let mut s = self;
        s.uri = Some(owned(uri));
        s
    }

    /// The document with a local path.
    pub fn with_path(self, path: &str) -> (r: Self)
        ensures
            r@ == (PickedDocumentView { path: Some(path@), ..self@ }),
    {
        let mut s = self;
        s.path = Some(owned(path));
        s
    }

    /// The document with a MIME type.
    pub fn with_mime_type(self, mime_type: &str) -> (r: Self)
        ensures
            r@ == (PickedDocumentView { mime_type: Some(mime_type@), ..self@ }),
    {
        let mut s = self;
        s.mime_type = Some(owned(mime_type));
        s
    }

    /// The document with a size in bytes.
    pub fn with_size_bytes(self, size_bytes: u64) -> (r: Self)
        ensures
            r@ == (PickedDocumentView { size_bytes: Some(size_bytes), ..self@ }),
    {
        let mut s = self;
        s.size_bytes = Some(size_bytes);
        s
    }
}

/// The request that waits for the native picker, and the last picker error.
#[derive(Clone, Debug, PartialEq, Eq)]
pub struct DocumentPickerState {
    pub pending_request: Option<DocumentPickerRequest>,
    pub last_error: Option<String>,
}

impl Default for DocumentPickerState {
    fn default() -> (r: Self)
        ensures
            r.pending_request is None,
            r.last_error is None,
    {
        DocumentPickerState { pending_request: None, last_error: None }
    }
}

impl DocumentPickerState {
    /// A request now waits for the picker; the error is cleared.
    pub fn request(&mut self, request: DocumentPickerRequest)
        ensures
            final(self).pending_request == Some(request),
            final(self).last_error is None,
    {
        self.pending_request = Some(request);
        self.last_error = None;
    }

    /// The picker finished: nothing waits and there is no error.
    pub fn complete(&mut self)
        ensures
            final(self).pending_request is None,
            final(self).last_error is None,
    {
        self.pending_request = None;
        self.last_error = None;
    }

    /// The picker failed: nothing waits and the error is recorded.
    pub fn fail(&mut self, error: &str)
        ensures
            final(self).pending_request is None,
            opt_view(final(self).last_error) == Some(error@),
    {
        self.pending_request = None;
        self.last_error = Some(owned(error));
    }

    /// Whether a request waits for the native picker.
    pub fn is_waiting_for_native_picker(&self) -> (r: bool)
        ensures
            r == self.pending_request is Some,
    {
        self.pending_request.is_some()
    }
}

} // verus!
