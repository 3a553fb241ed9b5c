//! The request from which a PC host pairing bundle is built, and the name of its ZIP file.
use crate::agent_timeline::opt_view;
use crate::chat_file_links::strings_view;
use crate::text::{chars_of, class_pred, owned, string_from_chars, trim_by, trim_chars, CharClass};
use vstd::prelude::*;

verus! {

broadcast use vstd::string::group_string_axioms;

/// What the phone asks the PC host to be paired with.
#[derive(Clone, Debug, PartialEq, Eq)]
pub struct MobilePcPairingRequest {
    pub gateway_id: String,
    pub gateway_label: String,
    pub device_id: String,
    pub device_label: String,
    pub workspace_id: String,
    pub workspace_root: String,
    pub auth_token: String,
    pub bind_addr: String,
    pub expected_base_url: Option<String>,
    pub expires_at_unix: Option<u64>,
    pub auto_start: bool,
    pub trusted_paths: Vec<String>,
}

/// A pairing request as values.
pub struct MobilePcPairingRequestView {
    pub gateway_id: Seq<char>,
    pub gateway_label: Seq<char>,
    pub device_id: Seq<char>,
    pub device_label: Seq<char>,
    pub workspace_id: Seq<char>,
    pub workspace_root: Seq<char>,
    pub auth_token: Seq<char>,
    pub bind_addr: Seq<char>,
    pub expected_base_url: Option<Seq<char>>,
    pub expires_at_unix: Option<u64>,
    pub auto_start: bool,
    pub trusted_paths: Seq<Seq<char>>,
}

impl View for MobilePcPairingRequest {
    type V = MobilePcPairingRequestView;

    open spec fn view(&self) -> MobilePcPairingRequestView {
        MobilePcPairingRequestView {
            gateway_id: self.gateway_id@,
            gateway_label: self.gateway_label@,
            device_id: self.device_id@,
            device_label: self.device_label@,
            workspace_id: self.workspace_id@,
            workspace_root: self.workspace_root@,
            auth_token: self.auth_token@,
            bind_addr: self.bind_addr@,
            expected_base_url: opt_view(self.expected_base_url),
            expires_at_unix: self.expires_at_unix,
            auto_start: self.auto_start,
            trusted_paths: strings_view(self.trusted_paths@),
        }
    }
}

impl MobilePcPairingRequest {
    /// A request that binds `0.0.0.0:8787`, starts automatically, never
    /// expires and trusts no extra paths.
    pub fn new(
        gateway_id: &str,
        gateway_label: &str,
        device_id: &str,
        device_label: &str,
        workspace_id: &str,
        workspace_root: &str,
        auth_token: &str,
    ) -> (r: Self)
        ensures
            r@ == (MobilePcPairingRequestView {
                gateway_id: gateway_id@,
                gateway_label: gateway_label@,
                device_id: device_id@,
                device_label: device_label@,
                workspace_id: workspace_id@,
                workspace_root: workspace_root@,
                auth_token: auth_token@,
                bind_addr: "0.0.0.0:8787"@,
                expected_base_url: None,
                expires_at_unix: None,
                auto_start: true,
                trusted_paths: Seq::empty(),
            }),
    {
        let r = MobilePcPairingRequest {
            gateway_id: owned(gateway_id),
            gateway_label: owned(gateway_label),
            device_id: owned(device_id),
            device_label: owned(device_label),
            workspace_id: owned(workspace_id),
            workspace_root: owned(workspace_root),
            auth_token: owned(auth_token),
            bind_addr: owned("0.0.0.0:8787"),
            expected_base_url: None,
            expires_at_unix: None,
            auto_start: true,
            trusted_paths: Vec::new(),
        };
        assert(strings_view(r.trusted_paths@) =~= Seq::<Seq<char>>::empty());
        r
    }

    /// A copy with the same values.
    pub fn duplicate(&self) -> (r: Self)
        ensures
            r@ == self@,
    {
        MobilePcPairingRequest {
            gateway_id: self.gateway_id.clone(),
            gateway_label: self.gateway_label.clone(),
            device_id: self.device_id.clone(),
            device_label: self.device_label.clone(),
            workspace_id: self.workspace_id.clone(),
            workspace_root: self.workspace_root.clone(),
            auth_token: self.auth_token.clone(),
            bind_addr: self.bind_addr.clone(),
            expected_base_url: crate::native_termux::copy_opt_string(&self.expected_base_url),
            expires_at_unix: self.expires_at_unix,
            auto_start: self.auto_start,
            trusted_paths: crate::native_document_picker::clone_strings(&self.trusted_paths),
        }
    }

    /// The request with these trusted paths.
    pub fn with_trusted_paths(self, paths: Vec<String>) -> (r: Self)
        ensures
            r@ == (MobilePcPairingRequestView { trusted_paths: strings_view(paths@), ..self@ }),
    {
        let mut s = self;
        s.trusted_paths = paths;
        s
    }

    /// The request with another bind address.
    pub fn with_bind_addr(self, bind_addr: &str) -> (r: Self)
        ensures
            r@ == (MobilePcPairingRequestView { bind_addr: bind_addr@, ..self@ }),
    {
        let mut s = self;
        s.bind_addr = owned(bind_addr);
        s
    }

    /// The request with the base URL that the phone expects the host at.
    pub fn with_expected_base_url(self, base_url: &str) -> (r: Self)
        ensures
            r@ == (MobilePcPairingRequestView { expected_base_url: Some(base_url@), ..self@ }),
    {
        let mut s = self;
        s.expected_base_url = Some(owned(base_url));
        s
    }

    /// The request with an expiry time.
    pub fn with_expiry(self, expires_at_unix: u64) -> (r: Self)
        ensures
            r@ == (MobilePcPairingRequestView { expires_at_unix: Some(expires_at_unix), ..self@ }),
    {
        let mut s = self;
        s.expires_at_unix = Some(expires_at_unix);
        s
    }

    /// The request with the auto-start choice.
    pub fn with_auto_start(self, auto_start: bool) -> (r: Self)
        ensures
            r@ == (MobilePcPairingRequestView { auto_start, ..self@ }),
    {
        let mut s = self;
        s.auto_start = auto_start;
        s
    }
}

/// A character that may stay in a file name component: ASCII letter or digit, `-` or `_`.
pub open spec fn is_file_component_char(c: char) -> bool {
    ('a' <= c <= 'z') || ('A' <= c <= 'Z') || ('0' <= c <= '9') || c == '-' || c == '_'
}

/// `value` as a file name component: other characters become `-`, dashes
/// at both ends go, and an empty result becomes `pc`.
pub open spec fn sanitized_component(value: Seq<char>) -> Seq<char> {
    let mapped = value.map_values(|c: char| if is_file_component_char(c) { c } else { '-' });
    let t = trim_by(mapped, class_pred(CharClass::Dash));
    if t.len() == 0 {
        "pc"@
    } else {
        t
    }
}

/// `value` made safe to use in a file name.
pub fn sanitize_file_component(value: &str) -> (r: String)
    ensures
        r@ == sanitized_component(value@),
{
    let chars = chars_of(value);
    let mut out: Vec<char> = Vec::new();
    let mut i: usize = 0;
    while i < chars.len()
        invariant
            i <= chars.len(),
            out@ == chars@.take(i as int).map_values(
                |c: char| if is_file_component_char(c) { c } else { '-' },
            ),
        decreases chars.len() - i,
    {
        let c = chars[i];
        let keep = ('a' <= c && c <= 'z') || ('A' <= c && c <= 'Z') || ('0' <= c && c <= '9') || c
            == '-' || c == '_';
        out.push(if keep { c } else { '-' });
        i = i + 1;
        assert(out@ =~= chars@.take(i as int).map_values(
            |c: char| if is_file_component_char(c) { c } else { '-' },
        ));
    }
    assert(chars@.take(chars.len() as int) == chars@);
    let t = trim_chars(&out, CharClass::Dash);
    if t.len() == 0 {
        owned("pc")
    } else {
        string_from_chars(&t)
    }
}

/// Exports PC pairing bundles.
pub struct PcPairingManager;

/// The ZIP file name of the pairing bundle of a gateway.
pub open spec fn pairing_zip_name(gateway_id: Seq<char>) -> Seq<char> {
    "deepseek-pc-host-pairing-"@ + sanitized_component(gateway_id) + ".zip"@
}

impl PcPairingManager {
    /// The ZIP file name of the pairing bundle of a gateway.
    pub fn zip_file_name(gateway_id: &str) -> (r: String)
        ensures
            r@ == pairing_zip_name(gateway_id@),
    {
        let mut r = owned("deepseek-pc-host-pairing-");
        let safe = sanitize_file_component(gateway_id);
        r.append(safe.as_str());
        r.append(".zip");
        r
    }
}

} // verus!
