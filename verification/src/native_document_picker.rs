//! The Android side of the document picker: the command sent to the host and
//! the documents it returns.
use crate::agent_timeline::opt_view;
use crate::chat_file_links::strings_view;
use crate::native_bridge::{documents_view, NativeMobileEvent, NativeMobileEventView};
use crate::document_picker::{DocumentPickerMode, DocumentPickerRequest, PickedDocument, PickedDocumentView};
use crate::text::{decimal, owned, push_decimal};
use vstd::prelude::*;

verus! {

broadcast use vstd::string::group_string_axioms;

/// The intent that the Android host should launch for a picker request.
#[derive(Clone, Debug, PartialEq, Eq)]
pub struct AndroidDocumentPickerCommand {
    pub request_id: String,
    pub action: String,
    pub category: String,
    pub allow_multiple: bool,
    pub mime_types: Vec<String>,
}

/// The id of the `sequence`-th picker request of the process.
pub open spec fn picker_request_id(sequence: u64) -> Seq<char> {
    "android-document-picker-"@ + decimal(sequence as nat)
}

/// The id of the `sequence`-th picker request (the host numbers requests from 1).
pub fn next_request_id(sequence: u64) -> (r: String)
    ensures
        r@ == picker_request_id(sequence),
{
    let mut r = owned("android-document-picker-");
    push_decimal(&mut r, sequence as u128);
    r
}

/// `c` is the open-document intent for `request`, numbered `sequence`.
pub open spec fn command_for_request(c: AndroidDocumentPickerCommand, request: DocumentPickerRequest, sequence: u64) -> bool {
    &&& c.request_id@ == picker_request_id(sequence)
    &&& c.action@ == "android.intent.action.OPEN_DOCUMENT"@
    &&& c.category@ == "android.intent.category.OPENABLE"@
    &&& c.allow_multiple == (request.mode == DocumentPickerMode::Multiple)
    &&& strings_view(c.mime_types@) == strings_view(request.mime_types@)
}

impl AndroidDocumentPickerCommand {
    /// The open-document intent for `request`, numbered `sequence`. The bridge
    /// hands out the numbers from its picker counter, so that each command it
    /// takes out gets an id of its own.
    pub fn from_request(request: &DocumentPickerRequest, sequence: u64) -> (r: Self)
        ensures
            command_for_request(r, *request, sequence),
    {
        AndroidDocumentPickerCommand {
            request_id: next_request_id(sequence),
            action: owned(request.android_intent_action()),
            category: owned(request.android_intent_category()),
            allow_multiple: request.allows_multiple(),
            mime_types: clone_strings(&request.mime_types),
        }
    }
}

/// A copy of a list of strings.
pub fn clone_strings(v: &Vec<String>) -> (r: Vec<String>)
    ensures
        strings_view(r@) == strings_view(v@),
{
    let mut r: Vec<String> = Vec::new();
    let mut i: usize = 0;
    while i < v.len()
        invariant
            i <= v.len(),
            strings_view(r@) == strings_view(v@).take(i as int),
        decreases v.len() - i,
    {
        let ghost before = r@;
        r.push(v[i].clone());
        assert(strings_view(r@) =~= strings_view(before).push(v@[i as int]@));
        i = i + 1;
        assert(strings_view(r@) =~= strings_view(v@).take(i as int));
    }
    assert(strings_view(v@).take(v.len() as int) == strings_view(v@));
    r
}

/// A document as the Android host reports it.
#[derive(Clone, Debug, PartialEq, Eq)]
pub struct AndroidPickedDocumentPayload {
    pub id: String,
    pub display_name: String,
    pub uri: Option<String>,
    pub local_path: Option<String>,
    pub mime_type: Option<String>,
    pub size_bytes: Option<u64>,
}

impl AndroidPickedDocumentPayload {
    /// A payload with only an id and a name.
    pub fn new(id: &str, display_name: &str) -> (r: Self)
        ensures
            r.id@ == id@,
            r.display_name@ == display_name@,
            r.uri is None && r.local_path is None && r.mime_type is None && r.size_bytes is None,
    {
        AndroidPickedDocumentPayload {
            id: owned(id),
            display_name: owned(display_name),
            uri: None,
            local_path: None,
            mime_type: None,
            size_bytes: None,
        }
    }

    /// The payload with a content URI.
    pub fn with_uri(self, uri: &str) -> (r: Self)
        ensures
            opt_view(r.uri) == Some(uri@),
            r.id == self.id && r.display_name == self.display_name && r.local_path
                == self.local_path && r.mime_type == self.mime_type && r.size_bytes
                == self.size_bytes,
    {
        let mut s = self;
        s.uri = Some(owned(uri));
        s
    }

    /// The payload with a local file path.
    pub fn with_local_path(self, path: &str) -> (r: Self)
        ensures
            opt_view(r.local_path) == Some(path@),
            r.id == self.id && r.display_name == self.display_name && r.uri == self.uri
                && r.mime_type == self.mime_type && r.size_bytes == self.size_bytes,
    {
        let mut s = self;
        s.local_path = Some(owned(path));
        s
    }

    /// The payload with a MIME type.
    pub fn with_mime_type(self, mime_type: &str) -> (r: Self)
        ensures
            opt_view(r.mime_type) == Some(mime_type@),
            r.id == self.id && r.display_name == self.display_name && r.uri == self.uri
                && r.local_path == self.local_path && r.size_bytes == self.size_bytes,
    {
        let mut s = self;
        s.mime_type = Some(owned(mime_type));
        s
    }

    /// The payload with a size in bytes.
    pub fn with_size_bytes(self, size_bytes: u64) -> (r: Self)
        ensures
            r.size_bytes == Some(size_bytes),
            r.id == self.id && r.display_name == self.display_name && r.uri == self.uri
                && r.local_path == self.local_path && r.mime_type == self.mime_type,
    {
        let mut s = self;
        s.size_bytes = Some(size_bytes);
        s
    }

    /// The picked document that the payload describes, field for field.
    pub fn into_picked_document(self) -> (r: PickedDocument)
        ensures
            r@ == payload_document(self),
    {
        PickedDocument {
            id: self.id,
            display_name: self.display_name,
            uri: self.uri,
            path: self.local_path,
            mime_type: self.mime_type,
            size_bytes: self.size_bytes,
        }
    }
}

/// The picked document that a payload describes, field for field.
pub open spec fn payload_document(p: AndroidPickedDocumentPayload) -> PickedDocumentView {
    PickedDocumentView {
        id: p.id@,
        display_name: p.display_name@,
        uri: opt_view(p.uri),
        path: opt_view(p.local_path),
        mime_type: opt_view(p.mime_type),
        size_bytes: p.size_bytes,
    }
}

/// The event for a picker callback: the picked documents, a cancellation or a failure.
pub open spec fn picker_callback_event(cb: AndroidDocumentPickerCallback) -> NativeMobileEventView {
    match cb {
        AndroidDocumentPickerCallback::Picked { documents, .. } => NativeMobileEventView::DocumentsPicked(
            documents@.map_values(|p: AndroidPickedDocumentPayload| payload_document(p)),
        ),
        AndroidDocumentPickerCallback::Cancelled { .. } => NativeMobileEventView::DocumentPickerCancelled,
        AndroidDocumentPickerCallback::Failed { message, .. } => NativeMobileEventView::DocumentPickerFailed(message@),
    }
}

/// What the Android host answers to a picker command.
#[derive(Clone, Debug, PartialEq, Eq)]
pub enum AndroidDocumentPickerCallback {
    Picked { request_id: String, documents: Vec<AndroidPickedDocumentPayload> },
    Cancelled { request_id: String },
    Failed { request_id: String, message: String },
}

impl AndroidDocumentPickerCallback {
    /// The id of the request that the callback answers.
    pub open spec fn request_id_spec(&self) -> Seq<char> {
        match self {
            AndroidDocumentPickerCallback::Picked { request_id, .. } => request_id@,
            AndroidDocumentPickerCallback::Cancelled { request_id } => request_id@,
            AndroidDocumentPickerCallback::Failed { request_id, .. } => request_id@,
        }
    }

    /// The event that the callback stands for.
    pub fn into_native_event(self) -> (r: NativeMobileEvent)
        ensures
            r@ == picker_callback_event(self),
    {
        match self {
            AndroidDocumentPickerCallback::Picked { documents, .. } => {
                let ghost dv = documents@.map_values(|p: AndroidPickedDocumentPayload| payload_document(p));
                let mut rest = documents;
                let mut picked: Vec<PickedDocument> = Vec::new();
                let ghost mut i: int = 0;
                while rest.len() > 0
                    invariant
                        0 <= i <= dv.len(),
                        rest@.len() == dv.len() - i,
                        forall|k: int| 0 <= k < rest@.len() ==> payload_document(#[trigger] rest@[k]) == dv[i + k],
                        documents_view(picked@) == dv.take(i),
                    decreases rest.len(),
                {
                    let ghost before_rest = rest@;
                    let ghost before = picked@;
                    let p = rest.remove(0);
                    assert(payload_document(before_rest[0]) == dv[i]);
                    assert forall|k: int| 0 <= k < rest@.len() implies payload_document(#[trigger] rest@[k]) == dv[i + 1 + k] by {
                        assert(rest@[k] == before_rest[k + 1]);
                    }
                    picked.push(p.into_picked_document());
                    assert(documents_view(picked@) =~= documents_view(before).push(dv[i]));
                    proof {
                        i = i + 1;
                    }
                    assert(documents_view(picked@) =~= dv.take(i));
                }
                assert(dv.take(i) =~= dv);
                NativeMobileEvent::DocumentsPicked(picked)
            },
            AndroidDocumentPickerCallback::Cancelled { .. } => NativeMobileEvent::DocumentPickerCancelled,
            AndroidDocumentPickerCallback::Failed { message, .. } => NativeMobileEvent::DocumentPickerFailed(message),
        }
    }

    /// The id of the request that the callback answers.
    pub fn request_id(&self) -> (r: &str)
        ensures
            r@ == self.request_id_spec(),
    {
        match self {
            AndroidDocumentPickerCallback::Picked { request_id, .. } => request_id.as_str(),
            AndroidDocumentPickerCallback::Cancelled { request_id } => request_id.as_str(),
            AndroidDocumentPickerCallback::Failed { request_id, .. } => request_id.as_str(),
        }
    }
}

} // verus!
