//! The callbacks of the Android host, read from their JSON form: picked
//! documents, PC discovery progress and Termux results.
use crate::agent_timeline::opt_view;
use crate::document_picker::PickedDocumentView;
use crate::json::{
    array_field, as_str, get, get_array, get_i64, get_str, get_u64, json_bool, json_get, json_i64, json_str,
    opt_owned, str_field, u64_field, JsonNumber, JsonValue,
};
use crate::native_document_picker::{payload_document, AndroidDocumentPickerCallback, AndroidPickedDocumentPayload};
use crate::native_pc_discovery::{
    records_view, AndroidPcGatewayDiscoveryCallback, AndroidPcGatewayMdnsRecordPayload, MdnsRecordView,
    PC_GATEWAY_SERVICE_TYPE,
};
use crate::native_termux::{AndroidTermuxCallback, TermuxExecResult, TermuxExecResultView};
use crate::text::{owned, str_eq};
use std::collections::BTreeMap;
use vstd::prelude::*;

verus! {

broadcast use vstd::string::group_string_axioms;

/// The message of a picker failure that names none.
pub const PICKER_FAILED_MESSAGE: &'static str = "document picker failed";

/// The message of a discovery failure that names none.
pub const DISCOVERY_FAILED_MESSAGE: &'static str = "pc gateway discovery failed";

/// The message of a Termux failure that names none.
pub const TERMUX_FAILED_MESSAGE: &'static str = "termux command failed";

/// A picked document as the host reports it: `id` and `display_name` are
/// required; `uri`, `local_path`, `mime_type` and `size_bytes` are optional.
pub open spec fn picked_document_from_json(v: JsonValue) -> Option<PickedDocumentView> {
    match (str_field(v, "id"@), str_field(v, "display_name"@)) {
        (Some(id), Some(name)) => Some(
            PickedDocumentView {
                id,
                display_name: name,
                uri: str_field(v, "uri"@),
                path: str_field(v, "local_path"@),
                mime_type: str_field(v, "mime_type"@),
                size_bytes: u64_field(v, "size_bytes"@),
            },
        ),
        _ => None,
    }
}

/// Reads a picked document.
pub fn parse_picked_document(v: &JsonValue) -> (r: Option<AndroidPickedDocumentPayload>)
    ensures
        match r {
            Some(p) => picked_document_from_json(*v) == Some(payload_document(p)),
            None => picked_document_from_json(*v) is None,
        },
{
    let id = match get_str(v, "id") {
        Some(s) => s,
        None => return None,
    };
    let name = match get_str(v, "display_name") {
        Some(s) => s,
        None => return None,
    };
    let p = AndroidPickedDocumentPayload {
        id: owned(id),
        display_name: owned(name),
        uri: opt_owned(get_str(v, "uri")),
        local_path: opt_owned(get_str(v, "local_path")),
        mime_type: opt_owned(get_str(v, "mime_type")),
        size_bytes: get_u64(v, "size_bytes"),
    };
    Some(p)
}

/// A picker callback as values.
pub enum PickerCallbackView {
    Picked { request_id: Seq<char>, documents: Seq<PickedDocumentView> },
    Cancelled { request_id: Seq<char> },
    Failed { request_id: Seq<char>, message: Seq<char> },
}

/// The values of a picker callback.
pub open spec fn picker_callback_view(cb: AndroidDocumentPickerCallback) -> PickerCallbackView {
    match cb {
        AndroidDocumentPickerCallback::Picked { request_id, documents } => PickerCallbackView::Picked {
            request_id: request_id@,
            documents: documents@.map_values(|p: AndroidPickedDocumentPayload| payload_document(p)),
        },
        AndroidDocumentPickerCallback::Cancelled { request_id } => PickerCallbackView::Cancelled {
            request_id: request_id@,
        },
        AndroidDocumentPickerCallback::Failed { request_id, message } => PickerCallbackView::Failed {
            request_id: request_id@,
            message: message@,
        },
    }
}

/// The text of the member `key`, or `default` when it is missing or not a string.
pub open spec fn str_or(v: JsonValue, key: Seq<char>, default: Seq<char>) -> Seq<char> {
    match str_field(v, key) {
        Some(s) => s,
        None => default,
    }
}

/// A picker callback: a `type` (`picked` with a `documents` list, whose
/// unreadable entries are skipped, `cancelled`, or `failed` with an optional
/// `message`) and a `request_id`.
pub open spec fn picker_callback_from_json(v: JsonValue) -> Option<PickerCallbackView> {
    match (str_field(v, "type"@), str_field(v, "request_id"@)) {
        (Some(t), Some(rid)) => if t == "picked"@ {
            match array_field(v, "documents"@) {
                Some(items) => Some(
                    PickerCallbackView::Picked {
                        request_id: rid,
                        documents: items.filter_map(|x: JsonValue| picked_document_from_json(x)),
                    },
                ),
                None => None,
            }
        } else if t == "cancelled"@ {
            Some(PickerCallbackView::Cancelled { request_id: rid })
        } else if t == "failed"@ {
            Some(
                PickerCallbackView::Failed {
                    request_id: rid,
                    message: str_or(v, "message"@, PICKER_FAILED_MESSAGE@),
                },
            )
        } else {
            None
        },
        _ => None,
    }
}

fn str_or_default(v: &JsonValue, key: &str, default: &str) -> (r: String)
    ensures
        r@ == str_or(*v, key@, default@),
{
    match get_str(v, key) {
        Some(s) => owned(s),
        None => owned(default),
    }
}

/// Reads a picker callback.
pub fn parse_document_picker_callback(v: &JsonValue) -> (r: Option<AndroidDocumentPickerCallback>)
    ensures
        match r {
            Some(cb) => picker_callback_from_json(*v) == Some(picker_callback_view(cb)),
            None => picker_callback_from_json(*v) is None,
        },
{
    let t = match get_str(v, "type") {
        Some(t) => t,
        None => return None,
    };
    let rid = match get_str(v, "request_id") {
        Some(s) => owned(s),
        None => return None,
    };
    if str_eq(t, "picked") {
        let items = match get_array(v, "documents") {
            Some(items) => items,
            None => return None,
        };
        let ghost f = |x: JsonValue| picked_document_from_json(x);
        let mut documents: Vec<AndroidPickedDocumentPayload> = Vec::new();
        let mut i: usize = 0;
        assert(items@.take(0).filter_map(f) =~= Seq::<PickedDocumentView>::empty());
        while i < items.len()
            invariant
                i <= items.len(),
                f == (|x: JsonValue| picked_document_from_json(x)),
                documents@.map_values(|p: AndroidPickedDocumentPayload| payload_document(p)) == items@.take(
                    i as int,
                ).filter_map(f),
            decreases items.len() - i,
        {
            proof {
                items@.lemma_filter_map_take_succ(f, i as int);
            }
            let ghost before = documents@;
            match parse_picked_document(&items[i]) {
                Some(p) => {
                    documents.push(p);
                    assert(documents@.map_values(|p: AndroidPickedDocumentPayload| payload_document(p))
                        =~= before.map_values(|p: AndroidPickedDocumentPayload| payload_document(p)) + seq![
                        payload_document(p),
                    ]);
                },
                None => {},
            }
            i = i + 1;
        }
        assert(items@.take(items.len() as int) == items@);
        Some(AndroidDocumentPickerCallback::Picked { request_id: rid, documents })
    } else if str_eq(t, "cancelled") {
        Some(AndroidDocumentPickerCallback::Cancelled { request_id: rid })
    } else if str_eq(t, "failed") {
        Some(
            AndroidDocumentPickerCallback::Failed {
                request_id: rid,
                message: str_or_default(v, "message", PICKER_FAILED_MESSAGE),
            },
        )
    } else {
        None
    }
}

/// The TXT entries of a record: every member whose value is a string, a
/// later member replacing an earlier one with the same key.
pub open spec fn txt_entries(es: Seq<(String, JsonValue)>) -> Map<String, String>
    decreases es.len(),
{
    if es.len() == 0 {
        Map::empty()
    } else {
        let m = txt_entries(es.drop_last());
        match es.last().1 {
            JsonValue::Str(s) => m.insert(es.last().0, s),
            _ => m,
        }
    }
}

/// `std::collections::BTreeMap::insert` on string keys: afterwards the map
/// holds `value` under `key` and is otherwise unchanged.
#[verifier::external_body]
fn txt_insert(m: &mut BTreeMap<String, String>, key: String, value: String)
    ensures
        final(m)@ == old(m)@.insert(key, value),
{
    m.insert(key, value);
}

/// A service record: `instance_name`, `host` and `port` are required (the
/// port taken modulo 2^16, as a cast to `u16` does); `txt` is optional.
pub open spec fn mdns_record_from_json(v: JsonValue) -> Option<MdnsRecordView> {
    match (str_field(v, "instance_name"@), str_field(v, "host"@), u64_field(v, "port"@)) {
        (Some(name), Some(host), Some(port)) => Some(
            MdnsRecordView {
                instance_name: name,
                host,
                port: (port % 65536) as u16,
                txt: match json_get(v, "txt"@) {
                    Some(JsonValue::Object(es)) => txt_entries(es@),
                    _ => Map::empty(),
                },
            },
        ),
        _ => None,
    }
}

fn port_of(n: u64) -> (r: u16)
    ensures
        r == (n % 65536) as u16,
{
    (n % 65536) as u16
}

/// Reads a service record.
pub fn parse_mdns_record(v: &JsonValue) -> (r: Option<AndroidPcGatewayMdnsRecordPayload>)
    ensures
        match r {
            Some(x) => mdns_record_from_json(*v) == Some(x@),
            None => mdns_record_from_json(*v) is None,
        },
{
    let name = match get_str(v, "instance_name") {
        Some(s) => s,
        None => return None,
    };
    let host = match get_str(v, "host") {
        Some(s) => s,
        None => return None,
    };
    let port = match get_u64(v, "port") {
        Some(p) => port_of(p),
        None => return None,
    };
    let mut txt: BTreeMap<String, String> = BTreeMap::new();
    match get(v, "txt") {
        Some(JsonValue::Object(es)) => {
            let mut i: usize = 0;
            assert(es@.take(0) =~= Seq::<(String, JsonValue)>::empty());
            while i < es.len()
                invariant
                    i <= es.len(),
                    txt@ == txt_entries(es@.take(i as int)),
                decreases es.len() - i,
            {
                assert(es@.take(i + 1).drop_last() == es@.take(i as int));
                assert(es@.take(i + 1).last() == es@[i as int]);
                match &es[i].1 {
                    JsonValue::Str(s) => {
                        txt_insert(&mut txt, es[i].0.clone(), s.clone());
                    },
                    _ => {},
                }
                i = i + 1;
            }
            assert(es@.take(es.len() as int) == es@);
        },
        _ => {},
    }
    Some(AndroidPcGatewayMdnsRecordPayload { instance_name: owned(name), host: owned(host), port, txt })
}

/// A discovery callback as values.
pub enum DiscoveryCallbackView {
    Started { request_id: Seq<char>, service_type: Seq<char> },
    Candidate { request_id: Seq<char>, record: MdnsRecordView },
    Completed { request_id: Seq<char>, records: Seq<MdnsRecordView> },
    Failed { request_id: Seq<char>, message: Seq<char> },
}

/// The values of a discovery callback.
pub open spec fn discovery_callback_view(cb: AndroidPcGatewayDiscoveryCallback) -> DiscoveryCallbackView {
    match cb {
        AndroidPcGatewayDiscoveryCallback::Started { request_id, service_type } => DiscoveryCallbackView::Started {
            request_id: request_id@,
            service_type: service_type@,
        },
        AndroidPcGatewayDiscoveryCallback::Candidate { request_id, record } => DiscoveryCallbackView::Candidate {
            request_id: request_id@,
            record: record@,
        },
        AndroidPcGatewayDiscoveryCallback::Completed { request_id, records } =>
            DiscoveryCallbackView::Completed { request_id: request_id@, records: records_view(records@) },
        AndroidPcGatewayDiscoveryCallback::Failed { request_id, message } => DiscoveryCallbackView::Failed {
            request_id: request_id@,
            message: message@,
        },
    }
}

/// A discovery callback: a `type` (`started` with an optional
/// `service_type`, `updated` with a `record`, `completed` with a `records`
/// list whose unreadable entries are skipped, or `failed` with an optional
/// `message`) and a `request_id`.
pub open spec fn discovery_callback_from_json(v: JsonValue) -> Option<DiscoveryCallbackView> {
    match (str_field(v, "type"@), str_field(v, "request_id"@)) {
        (Some(t), Some(rid)) => if t == "started"@ {
            Some(
                DiscoveryCallbackView::Started {
                    request_id: rid,
                    service_type: str_or(v, "service_type"@, PC_GATEWAY_SERVICE_TYPE@),
                },
            )
        } else if t == "updated"@ {
            match json_get(v, "record"@) {
                Some(x) => match mdns_record_from_json(x) {
                    Some(record) => Some(DiscoveryCallbackView::Candidate { request_id: rid, record }),
                    None => None,
                },
                None => None,
            }
        } else if t == "completed"@ {
            match array_field(v, "records"@) {
                Some(items) => Some(
                    DiscoveryCallbackView::Completed {
                        request_id: rid,
                        records: items.filter_map(|x: JsonValue| mdns_record_from_json(x)),
                    },
                ),
                None => None,
            }
        } else if t == "failed"@ {
            Some(
                DiscoveryCallbackView::Failed {
                    request_id: rid,
                    message: str_or(v, "message"@, DISCOVERY_FAILED_MESSAGE@),
                },
            )
        } else {
            None
        },
        _ => None,
    }
}

/// Reads a discovery callback.
pub fn parse_pc_discovery_callback(v: &JsonValue) -> (r: Option<AndroidPcGatewayDiscoveryCallback>)
    ensures
        match r {
            Some(cb) => discovery_callback_from_json(*v) == Some(discovery_callback_view(cb)),
            None => discovery_callback_from_json(*v) is None,
        },
{
    let t = match get_str(v, "type") {
        Some(t) => t,
        None => return None,
    };
    let rid = match get_str(v, "request_id") {
        Some(s) => owned(s),
        None => return None,
    };
    if str_eq(t, "started") {
        Some(
            AndroidPcGatewayDiscoveryCallback::Started {
                request_id: rid,
                service_type: str_or_default(v, "service_type", PC_GATEWAY_SERVICE_TYPE),
            },
        )
    } else if str_eq(t, "updated") {
        let x = match get(v, "record") {
            Some(x) => x,
            None => return None,
        };
        match parse_mdns_record(x) {
            Some(record) => Some(AndroidPcGatewayDiscoveryCallback::Candidate { request_id: rid, record }),
            None => None,
        }
    } else if str_eq(t, "completed") {
        let items = match get_array(v, "records") {
            Some(items) => items,
            None => return None,
        };
        let ghost f = |x: JsonValue| mdns_record_from_json(x);
        let mut records: Vec<AndroidPcGatewayMdnsRecordPayload> = Vec::new();
        let mut i: usize = 0;
        assert(items@.take(0).filter_map(f) =~= Seq::<MdnsRecordView>::empty());
        assert(records_view(records@) =~= Seq::<MdnsRecordView>::empty());
        while i < items.len()
            invariant
                i <= items.len(),
                f == (|x: JsonValue| mdns_record_from_json(x)),
                records_view(records@) == items@.take(i as int).filter_map(f),
            decreases items.len() - i,
        {
            proof {
                items@.lemma_filter_map_take_succ(f, i as int);
            }
            let ghost before = records@;
            match parse_mdns_record(&items[i]) {
                Some(x) => {
                    records.push(x);
                    assert(records_view(records@) =~= records_view(before) + seq![x@]);
                },
                None => {},
            }
            i = i + 1;
        }
        assert(items@.take(items.len() as int) == items@);
        Some(AndroidPcGatewayDiscoveryCallback::Completed { request_id: rid, records })
    } else if str_eq(t, "failed") {
        Some(
            AndroidPcGatewayDiscoveryCallback::Failed {
                request_id: rid,
                message: str_or_default(v, "message", DISCOVERY_FAILED_MESSAGE),
            },
        )
    } else {
        None
    }
}

/// An optional member: missing or `null` reads as nothing, a value of the
/// right kind as that value, anything else fails.
pub open spec fn optional_member<T>(v: JsonValue, key: Seq<char>, read: spec_fn(JsonValue) -> Option<T>) -> Option<
    Option<T>,
> {
    match json_get(v, key) {
        None => Some(None),
        Some(JsonValue::Null) => Some(None),
        Some(x) => match read(x) {
            Some(t) => Some(Some(t)),
            None => None,
        },
    }
}

/// A JSON number read as an `i32`, when it is an integer in range.
pub open spec fn json_i32(v: JsonValue) -> Option<i32> {
    match json_i64(v) {
        Some(n) => if i32::MIN <= n <= i32::MAX {
            Some(n as i32)
        } else {
            None
        },
        None => None,
    }
}

/// A Termux result object, read the way a derived `Deserialize` reads it:
/// `request_id`, `stdout`, `stderr` (strings) and `timed_out` (a flag) are
/// required; `exit_code` (an `i32`) and `error` (a string) may be missing or `null`.
pub open spec fn termux_result_from_json(v: JsonValue) -> Option<TermuxExecResultView> {
    match v {
        JsonValue::Object(_) => match (
            str_field(v, "request_id"@),
            str_field(v, "stdout"@),
            str_field(v, "stderr"@),
            json_get(v, "timed_out"@),
            optional_member(v, "exit_code"@, |x: JsonValue| json_i32(x)),
            optional_member(v, "error"@, |x: JsonValue| json_str(x)),
        ) {
            (Some(rid), Some(out), Some(err), Some(JsonValue::Bool(t)), Some(code), Some(e)) => Some(
                TermuxExecResultView {
                    request_id: rid,
                    stdout: out,
                    stderr: err,
                    exit_code: code,
                    timed_out: t,
                    error: e,
                },
            ),
            _ => None,
        },
        _ => None,
    }
}

fn read_exit_code(v: &JsonValue) -> (r: Option<Option<i32>>)
    ensures
        r == optional_member(*v, "exit_code"@, |x: JsonValue| json_i32(x)),
{
    match get(v, "exit_code") {
        None => Some(None),
        Some(JsonValue::Null) => Some(None),
        Some(x) => match crate::json::as_i64(x) {
            Some(n) => if -2147483648i64 <= n && n <= 2147483647i64 {
                Some(Some(n as i32))
            } else {
                None
            },
            None => None,
        },
    }
}

fn read_error(v: &JsonValue) -> (r: Option<Option<String>>)
    ensures
        match r {
            Some(o) => optional_member(*v, "error"@, |x: JsonValue| json_str(x)) == Some(opt_view(o)),
            None => optional_member(*v, "error"@, |x: JsonValue| json_str(x)) is None,
        },
{
    match get(v, "error") {
        None => Some(None),
        Some(JsonValue::Null) => Some(None),
        Some(x) => match as_str(x) {
            Some(s) => Some(Some(owned(s))),
            None => None,
        },
    }
}

/// Reads a Termux result.
pub fn parse_termux_result(v: &JsonValue) -> (r: Option<TermuxExecResult>)
    ensures
        match r {
            Some(x) => termux_result_from_json(*v) == Some(x@),
            None => termux_result_from_json(*v) is None,
        },
{
    match v {
        JsonValue::Object(_) => {},
        _ => return None,
    }
    let rid = match get_str(v, "request_id") {
        Some(s) => s,
        None => return None,
    };
    let out = match get_str(v, "stdout") {
        Some(s) => s,
        None => return None,
    };
    let err = match get_str(v, "stderr") {
        Some(s) => s,
        None => return None,
    };
    let timed_out = match get(v, "timed_out") {
        Some(JsonValue::Bool(b)) => *b,
        _ => return None,
    };
    let exit_code = match read_exit_code(v) {
        Some(c) => c,
        None => return None,
    };
    let error = match read_error(v) {
        Some(e) => e,
        None => return None,
    };
    Some(
        TermuxExecResult {
            request_id: owned(rid),
            stdout: owned(out),
            stderr: owned(err),
            exit_code,
            timed_out,
            error,
        },
    )
}

/// A Termux callback as values.
pub enum TermuxCallbackView {
    Completed(TermuxExecResultView),
    Failed { request_id: Seq<char>, message: Seq<char> },
}

/// The values of a Termux callback.
pub open spec fn termux_callback_view(cb: AndroidTermuxCallback) -> TermuxCallbackView {
    match cb {
        AndroidTermuxCallback::Completed(r) => TermuxCallbackView::Completed(r@),
        AndroidTermuxCallback::Failed { request_id, message } => TermuxCallbackView::Failed {
            request_id: request_id@,
            message: message@,
        },
    }
}

/// A callback of the host, of one of three kinds.
#[derive(Clone, Debug, PartialEq, Eq)]
pub enum HostCallback {
    DocumentPicker(AndroidDocumentPickerCallback),
    PcDiscovery(AndroidPcGatewayDiscoveryCallback),
    Termux(AndroidTermuxCallback),
}

/// A host callback as values.
pub enum HostCallbackView {
    DocumentPicker(PickerCallbackView),
    PcDiscovery(DiscoveryCallbackView),
    Termux(TermuxCallbackView),
}

/// The values of a host callback.
pub open spec fn host_callback_view(cb: HostCallback) -> HostCallbackView {
    match cb {
        HostCallback::DocumentPicker(c) => HostCallbackView::DocumentPicker(picker_callback_view(c)),
        HostCallback::PcDiscovery(c) => HostCallbackView::PcDiscovery(discovery_callback_view(c)),
        HostCallback::Termux(c) => HostCallbackView::Termux(termux_callback_view(c)),
    }
}

/// A host callback payload: its `kind` says what it carries.
/// `document_picker_picked` and `pc_discovery` carry a `callback`;
/// `document_picker_cancelled` a `request_id`; `document_picker_failed` and
/// `termux_failed` a `request_id` and an optional `message`;
/// `termux_completed` a `result`.
pub open spec fn host_callback_from_json(v: JsonValue) -> Option<HostCallbackView> {
    match str_field(v, "kind"@) {
        Some(kind) => if kind == "document_picker_picked"@ {
            match json_get(v, "callback"@) {
                Some(c) => match picker_callback_from_json(c) {
                    Some(cb) => Some(HostCallbackView::DocumentPicker(cb)),
                    None => None,
                },
                None => None,
            }
        } else if kind == "document_picker_cancelled"@ {
            match str_field(v, "request_id"@) {
                Some(rid) => Some(HostCallbackView::DocumentPicker(PickerCallbackView::Cancelled { request_id: rid })),
                None => None,
            }
        } else if kind == "document_picker_failed"@ {
            match str_field(v, "request_id"@) {
                Some(rid) => Some(
                    HostCallbackView::DocumentPicker(
                        PickerCallbackView::Failed {
                            request_id: rid,
                            message: str_or(v, "message"@, PICKER_FAILED_MESSAGE@),
                        },
                    ),
                ),
                None => None,
            }
        } else if kind == "pc_discovery"@ {
            match json_get(v, "callback"@) {
                Some(c) => match discovery_callback_from_json(c) {
                    Some(cb) => Some(HostCallbackView::PcDiscovery(cb)),
                    None => None,
                },
                None => None,
            }
        } else if kind == "termux_completed"@ {
            match json_get(v, "result"@) {
                Some(x) => match termux_result_from_json(x) {
                    Some(r) => Some(HostCallbackView::Termux(TermuxCallbackView::Completed(r))),
                    None => None,
                },
                None => None,
            }
        } else if kind == "termux_failed"@ {
            match str_field(v, "request_id"@) {
                Some(rid) => Some(
                    HostCallbackView::Termux(
                        TermuxCallbackView::Failed {
                            request_id: rid,
                            message: str_or(v, "message"@, TERMUX_FAILED_MESSAGE@),
                        },
                    ),
                ),
                None => None,
            }
        } else {
            None
        },
        None => None,
    }
}

/// Reads a host callback payload.
pub fn parse_host_callback(v: &JsonValue) -> (r: Option<HostCallback>)
    ensures
        match r {
            Some(cb) => host_callback_from_json(*v) == Some(host_callback_view(cb)),
            None => host_callback_from_json(*v) is None,
        },
{
    let kind = match get_str(v, "kind") {
        Some(k) => k,
        None => return None,
    };
    if str_eq(kind, "document_picker_picked") {
        let c = match get(v, "callback") {
            Some(c) => c,
            None => return None,
        };
        match parse_document_picker_callback(c) {
            Some(cb) => Some(HostCallback::DocumentPicker(cb)),
            None => None,
        }
    } else if str_eq(kind, "document_picker_cancelled") {
        match get_str(v, "request_id") {
            Some(rid) => Some(
                HostCallback::DocumentPicker(AndroidDocumentPickerCallback::Cancelled { request_id: owned(rid) }),
            ),
            None => None,
        }
    } else if str_eq(kind, "document_picker_failed") {
        match get_str(v, "request_id") {
            Some(rid) => Some(
                HostCallback::DocumentPicker(
                    AndroidDocumentPickerCallback::Failed {
                        request_id: owned(rid),
                        message: str_or_default(v, "message", PICKER_FAILED_MESSAGE),
                    },
                ),
            ),
            None => None,
        }
    } else if str_eq(kind, "pc_discovery") {
        let c = match get(v, "callback") {
            Some(c) => c,
            None => return None,
        };
        match parse_pc_discovery_callback(c) {
            Some(cb) => Some(HostCallback::PcDiscovery(cb)),
            None => None,
        }
    } else if str_eq(kind, "termux_completed") {
        let x = match get(v, "result") {
            Some(x) => x,
            None => return None,
        };
        match parse_termux_result(x) {
            Some(r) => Some(HostCallback::Termux(AndroidTermuxCallback::Completed(r))),
            None => None,
        }
    } else if str_eq(kind, "termux_failed") {
        match get_str(v, "request_id") {
            Some(rid) => Some(
                HostCallback::Termux(
                    AndroidTermuxCallback::Failed {
                        request_id: owned(rid),
                        message: str_or_default(v, "message", TERMUX_FAILED_MESSAGE),
                    },
                ),
            ),
            None => None,
        }
    } else {
        None
    }
}

} // verus!
