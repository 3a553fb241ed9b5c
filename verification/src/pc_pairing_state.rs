//! The PC pairing screen: from an unconfigured phone through the exported
//! pairing ZIP to a PC host that is online or offline.
use crate::agent_timeline::opt_view;
use crate::pc_pairing_manager::{MobilePcPairingRequest, MobilePcPairingRequestView};
use crate::text::{decimal, owned, push_decimal};
use vstd::prelude::*;

verus! {

broadcast use vstd::string::group_string_axioms;

/// Where the pairing stands.
#[derive(Clone, Debug, PartialEq, Eq)]
pub enum PcPairingUiStatus {
    NotConfigured,
    ReadyToExport,
    Exported,
    WaitingForPc,
    Online,
    Offline,
    Error(String),
}

/// A pairing status as a value.
pub enum PcPairingUiStatusView {
    NotConfigured,
    ReadyToExport,
    Exported,
    WaitingForPc,
    Online,
    Offline,
    Error(Seq<char>),
}

impl View for PcPairingUiStatus {
    type V = PcPairingUiStatusView;

    open spec fn view(&self) -> PcPairingUiStatusView {
        match self {
            PcPairingUiStatus::NotConfigured => PcPairingUiStatusView::NotConfigured,
            PcPairingUiStatus::ReadyToExport => PcPairingUiStatusView::ReadyToExport,
            PcPairingUiStatus::Exported => PcPairingUiStatusView::Exported,
            PcPairingUiStatus::WaitingForPc => PcPairingUiStatusView::WaitingForPc,
            PcPairingUiStatus::Online => PcPairingUiStatusView::Online,
            PcPairingUiStatus::Offline => PcPairingUiStatusView::Offline,
            PcPairingUiStatus::Error(m) => PcPairingUiStatusView::Error(m@),
        }
    }
}

/// What the phone measured of one route to the PC host.
#[derive(Clone, Debug, PartialEq, Eq)]
pub struct PcGatewayEndpointHealth {
    pub label: String,
    pub base_url: String,
    pub success_count: u64,
    pub failure_count: u64,
    pub last_latency_ms: Option<u128>,
    pub last_error: Option<String>,
}

/// A route's health as values.
pub struct EndpointHealthView {
    pub label: Seq<char>,
    pub base_url: Seq<char>,
    pub success_count: u64,
    pub failure_count: u64,
    pub last_latency_ms: Option<u128>,
    pub last_error: Option<Seq<char>>,
}

impl View for PcGatewayEndpointHealth {
    type V = EndpointHealthView;

    open spec fn view(&self) -> EndpointHealthView {
        EndpointHealthView {
            label: self.label@,
            base_url: self.base_url@,
            success_count: self.success_count,
            failure_count: self.failure_count,
            last_latency_ms: self.last_latency_ms,
            last_error: opt_view(self.last_error),
        }
    }
}

/// What the pairing screen shows.
#[derive(Clone, Debug, PartialEq, Eq)]
pub struct PcPairingUiState {
    pub status: PcPairingUiStatus,
    pub request: Option<MobilePcPairingRequest>,
    /// Where the exported pairing ZIP was written.
    pub export_zip_path: Option<String>,
    pub active_endpoint: Option<PcGatewayEndpointHealth>,
    pub endpoint_health: Vec<PcGatewayEndpointHealth>,
    pub last_error: Option<String>,
}

/// The pairing screen as values.
pub struct PcPairingUiView {
    pub status: PcPairingUiStatusView,
    pub request: Option<MobilePcPairingRequestView>,
    pub export_zip_path: Option<Seq<char>>,
    pub active_endpoint: Option<EndpointHealthView>,
    pub endpoint_health: Seq<EndpointHealthView>,
    pub last_error: Option<Seq<char>>,
}

/// The optional request as a value.
pub open spec fn opt_request_view(r: Option<MobilePcPairingRequest>) -> Option<MobilePcPairingRequestView> {
    match r {
        Some(r) => Some(r@),
        None => None,
    }
}

/// The optional route as a value.
pub open spec fn opt_endpoint_view(e: Option<PcGatewayEndpointHealth>) -> Option<EndpointHealthView> {
    match e {
        Some(e) => Some(e@),
        None => None,
    }
}

/// The routes as values.
pub open spec fn endpoints_view(v: Seq<PcGatewayEndpointHealth>) -> Seq<EndpointHealthView> {
    v.map_values(|e: PcGatewayEndpointHealth| e@)
}

impl View for PcPairingUiState {
    type V = PcPairingUiView;

    open spec fn view(&self) -> PcPairingUiView {
        PcPairingUiView {
            status: self.status@,
            request: opt_request_view(self.request),
            export_zip_path: opt_view(self.export_zip_path),
            active_endpoint: opt_endpoint_view(self.active_endpoint),
            endpoint_health: endpoints_view(self.endpoint_health@),
            last_error: opt_view(self.last_error),
        }
    }
}

/// A screen where nothing is configured yet.
pub open spec fn unconfigured_pairing() -> PcPairingUiView {
    PcPairingUiView {
        status: PcPairingUiStatusView::NotConfigured,
        request: None,
        export_zip_path: None,
        active_endpoint: None,
        endpoint_health: Seq::empty(),
        last_error: None,
    }
}

impl Default for PcPairingUiState {
    fn default() -> (r: Self)
        ensures
            r@ == unconfigured_pairing(),
    {
        let r = PcPairingUiState {
            status: PcPairingUiStatus::NotConfigured,
            request: None,
            export_zip_path: None,
            active_endpoint: None,
            endpoint_health: Vec::new(),
            last_error: None,
        };
        assert(r@.endpoint_health =~= Seq::<EndpointHealthView>::empty());
        r
    }
}

/// The error when a ZIP is asked for before a request was configured.
pub open spec fn not_configured_message() -> Seq<char> {
    "PC pairing request is not configured"@
}

/// The label of the screen's main button.
pub open spec fn primary_action_label_spec(s: PcPairingUiStatusView) -> Seq<char> {
    match s {
        PcPairingUiStatusView::NotConfigured => "Configure PC pairing"@,
        PcPairingUiStatusView::ReadyToExport => "Create PC pairing ZIP"@,
        PcPairingUiStatusView::Exported => "Share pairing ZIP"@,
        PcPairingUiStatusView::WaitingForPc => "Check PC connection"@,
        PcPairingUiStatusView::Online => "Open PC workspace"@,
        PcPairingUiStatusView::Offline => "Retry PC connection"@,
        PcPairingUiStatusView::Error(_) => "Fix and retry"@,
    }
}

/// The status line of the screen.
pub open spec fn status_text_spec(v: PcPairingUiView) -> Seq<char> {
    match v.status {
        PcPairingUiStatusView::NotConfigured => "PC is not configured"@,
        PcPairingUiStatusView::ReadyToExport => "Ready to create PC pairing ZIP"@,
        PcPairingUiStatusView::Exported => match v.export_zip_path {
            Some(p) => "Pairing ZIP created: "@ + p,
            None => "Pairing ZIP created"@,
        },
        PcPairingUiStatusView::WaitingForPc => "Waiting for PC host to come online"@,
        PcPairingUiStatusView::Online => match v.active_endpoint {
            Some(e) => "PC host is online via "@ + e.label,
            None => "PC host is online"@,
        },
        PcPairingUiStatusView::Offline => "PC host is offline"@,
        PcPairingUiStatusView::Error(m) => "PC pairing error: "@ + m,
    }
}

/// A latency in milliseconds, or `not measured`.
pub open spec fn latency_text(latency_ms: Option<u128>) -> Seq<char> {
    match latency_ms {
        Some(l) => decimal(l as nat) + " ms"@,
        None => "not measured"@,
    }
}

/// The text of the active route: label, URL, latency and counts on their
/// own lines, or a hint when there is none.
pub open spec fn active_route_text_spec(v: PcPairingUiView) -> Seq<char> {
    match v.active_endpoint {
        Some(e) => e.label + "\n"@ + e.base_url + "\nlatency: "@ + latency_text(e.last_latency_ms) + "\nsuccess: "@
            + decimal(e.success_count as nat) + " | failure: "@ + decimal(e.failure_count as nat),
        None => "No active PC route yet. Run a connection check or execute a PC workspace request."@,
    }
}

/// A latency as text.
pub fn format_latency(latency_ms: Option<u128>) -> (r: String)
    ensures
        r@ == latency_text(latency_ms),
{
    match latency_ms {
        Some(l) => {
            let mut s = String::new();
            push_decimal(&mut s, l);
            s.append(" ms");
            s
        },
        None => owned("not measured"),
    }
}

fn any_failures(all: &Vec<PcGatewayEndpointHealth>) -> (r: bool)
    ensures
        r == exists|i: int| 0 <= i < all@.len() && (#[trigger] all@[i]).failure_count > 0,
{
    let mut i: usize = 0;
    while i < all.len()
        invariant
            i <= all.len(),
            forall|j: int| 0 <= j < i ==> (#[trigger] all@[j]).failure_count == 0,
        decreases all.len() - i,
    {
        if all[i].failure_count > 0 {
            return true;
        }
        i = i + 1;
    }
    false
}

impl PcPairingUiState {
    /// Takes a request: export, routes and error are cleared, and the ZIP can be made.
    pub fn configure(&mut self, request: MobilePcPairingRequest)
        ensures
            final(self)@ == (PcPairingUiView {
                status: PcPairingUiStatusView::ReadyToExport,
                request: Some(request@),
                export_zip_path: None,
                active_endpoint: None,
                endpoint_health: Seq::empty(),
                last_error: None,
            }),
    {
        self.request = Some(request);
        self.export_zip_path = None;
        self.active_endpoint = None;
        self.endpoint_health = Vec::new();
        self.last_error = None;
        self.status = PcPairingUiStatus::ReadyToExport;
        assert(self@.endpoint_health =~= Seq::<EndpointHealthView>::empty());
    }

    /// The request to export as a ZIP; without one the screen shows the
    /// error and there is nothing to export.
    pub fn export_request(&mut self) -> (r: Option<MobilePcPairingRequest>)
        ensures
            match old(self)@.request {
                Some(q) => r matches Some(x) && x@ == q && final(self)@ == old(self)@,
                None => r is None && final(self)@ == (PcPairingUiView {
                    status: PcPairingUiStatusView::Error(not_configured_message()),
                    last_error: Some(not_configured_message()),
                    ..old(self)@
                }),
            },
    {
        match &self.request {
            Some(q) => Some(q.duplicate()),
            None => {
                self.set_error("PC pairing request is not configured");
                None
            },
        }
    }

    /// Takes the outcome of writing the ZIP: its path, or the error shown.
    pub fn apply_export_result(&mut self, result: Result<String, String>) -> (r: Option<String>)
        ensures
            match result {
                Ok(p) => r matches Some(x) && x@ == p@ && final(self)@ == (PcPairingUiView {
                    status: PcPairingUiStatusView::Exported,
                    export_zip_path: Some(p@),
                    last_error: None,
                    ..old(self)@
                }),
                Err(e) => r is None && final(self)@ == (PcPairingUiView {
                    status: PcPairingUiStatusView::Error(e@),
                    last_error: Some(e@),
                    ..old(self)@
                }),
            },
    {
        match result {
            Ok(path) => {
                self.export_zip_path = Some(path.clone());
                self.last_error = None;
                self.status = PcPairingUiStatus::Exported;
                Some(path)
            },
            Err(e) => {
                self.set_error(e.as_str());
                None
            },
        }
    }

    /// Waiting for the PC host; the error is cleared.
    pub fn mark_waiting_for_pc(&mut self)
        ensures
            final(self)@ == (PcPairingUiView {
                status: PcPairingUiStatusView::WaitingForPc,
                last_error: None,
                ..old(self)@
            }),
    {
        self.status = PcPairingUiStatus::WaitingForPc;
        self.last_error = None;
    }

    /// The PC host is online; the error is cleared.
    pub fn mark_online(&mut self)
        ensures
            final(self)@ == (PcPairingUiView { status: PcPairingUiStatusView::Online, last_error: None, ..old(self)@ }),
    {
        self.status = PcPairingUiStatus::Online;
        self.last_error = None;
    }

    /// The PC host is offline; the error stays.
    pub fn mark_offline(&mut self)
        ensures
            final(self)@ == (PcPairingUiView { status: PcPairingUiStatusView::Offline, ..old(self)@ }),
    {
        self.status = PcPairingUiStatus::Offline;
    }

    /// Takes what a discovery scan found: online when a candidate answered,
    /// waiting when there are candidates, offline otherwise.
    pub fn apply_discovery_result(&mut self, has_online: bool, has_candidates: bool)
        ensures
            final(self)@ == (if has_online {
                PcPairingUiView { status: PcPairingUiStatusView::Online, last_error: None, ..old(self)@ }
            } else if has_candidates {
                PcPairingUiView { status: PcPairingUiStatusView::WaitingForPc, last_error: None, ..old(self)@ }
            } else {
                PcPairingUiView { status: PcPairingUiStatusView::Offline, ..old(self)@ }
            }),
    {
        if has_online {
            self.mark_online();
        } else if has_candidates {
            self.mark_waiting_for_pc();
        } else {
            self.mark_offline();
        }
    }

    /// Takes a discovery report: online when a gateway answered, waiting when
    /// it lists gateways, offline otherwise.
    pub fn apply_discovery_report(&mut self, report: &crate::pc_discovery_probe::PcGatewayDiscoveryReport)
        ensures
            ({
                let c = crate::pc_discovery_probe::candidates_view(report.candidates@);
                final(self)@ == (if crate::pc_discovery_probe::has_online(c) {
                    PcPairingUiView { status: PcPairingUiStatusView::Online, last_error: None, ..old(self)@ }
                } else if c.len() > 0 {
                    PcPairingUiView { status: PcPairingUiStatusView::WaitingForPc, last_error: None, ..old(self)@ }
                } else {
                    PcPairingUiView { status: PcPairingUiStatusView::Offline, ..old(self)@ }
                })
            }),
    {
        let online = crate::pc_discovery_probe::report_has_online(report);
        let candidates = report.candidates.len() > 0;
        self.apply_discovery_result(online, candidates);
    }

    /// Takes the measured routes: online when there is an active one,
    /// offline when some route failed, and the status unchanged otherwise.
    pub fn apply_endpoint_health(&mut self, active: Option<PcGatewayEndpointHealth>, all: Vec<PcGatewayEndpointHealth>)
        ensures
            ({
                let v = PcPairingUiView {
                    active_endpoint: opt_endpoint_view(active),
                    endpoint_health: endpoints_view(all@),
                    ..old(self)@
                };
                final(self)@ == (if active is Some {
                    PcPairingUiView { status: PcPairingUiStatusView::Online, last_error: None, ..v }
                } else if exists|i: int| 0 <= i < all@.len() && (#[trigger] all@[i]).failure_count > 0 {
                    PcPairingUiView { status: PcPairingUiStatusView::Offline, ..v }
                } else {
                    v
                })
            }),
    {
        let failed = any_failures(&all);
        let has_active = active.is_some();
        self.active_endpoint = active;
        self.endpoint_health = all;
        if has_active {
            self.mark_online();
        } else if failed {
            self.mark_offline();
        }
    }

    /// Shows an error.
    pub fn set_error(&mut self, message: &str)
        ensures
            final(self)@ == (PcPairingUiView {
                status: PcPairingUiStatusView::Error(message@),
                last_error: Some(message@),
                ..old(self)@
            }),
    {
        self.last_error = Some(owned(message));
        self.status = PcPairingUiStatus::Error(owned(message));
    }

    /// The label of the main button.
    pub fn primary_action_label(&self) -> (r: &'static str)
        ensures
            r@ == primary_action_label_spec(self@.status),
    {
        match &self.status {
            PcPairingUiStatus::NotConfigured => "Configure PC pairing",
            PcPairingUiStatus::ReadyToExport => "Create PC pairing ZIP",
            PcPairingUiStatus::Exported => "Share pairing ZIP",
            PcPairingUiStatus::WaitingForPc => "Check PC connection",
            PcPairingUiStatus::Online => "Open PC workspace",
            PcPairingUiStatus::Offline => "Retry PC connection",
            PcPairingUiStatus::Error(_) => "Fix and retry",
        }
    }

    /// The status line.
    pub fn status_text(&self) -> (r: String)
        ensures
            r@ == status_text_spec(self@),
    {
        match &self.status {
            PcPairingUiStatus::NotConfigured => owned("PC is not configured"),
            PcPairingUiStatus::ReadyToExport => owned("Ready to create PC pairing ZIP"),
            PcPairingUiStatus::Exported => match &self.export_zip_path {
                Some(p) => {
                    let mut s = owned("Pairing ZIP created: ");
                    s.append(p.as_str());
                    s
                },
                None => owned("Pairing ZIP created"),
            },
            PcPairingUiStatus::WaitingForPc => owned("Waiting for PC host to come online"),
            PcPairingUiStatus::Online => match &self.active_endpoint {
                Some(e) => {
                    let mut s = owned("PC host is online via ");
                    s.append(e.label.as_str());
                    s
                },
                None => owned("PC host is online"),
            },
            PcPairingUiStatus::Offline => owned("PC host is offline"),
            PcPairingUiStatus::Error(m) => {
                let mut s = owned("PC pairing error: ");
                s.append(m.as_str());
                s
            },
        }
    }

    /// The active route as text.
    pub fn active_route_text(&self) -> (r: String)
        ensures
            r@ == active_route_text_spec(self@),
    {
        match &self.active_endpoint {
            Some(e) => {
                let mut s = e.label.clone();
                s.append("\n");
                s.append(e.base_url.as_str());
                s.append("\nlatency: ");
                s.append(format_latency(e.last_latency_ms).as_str());
                s.append("\nsuccess: ");
                push_decimal(&mut s, e.success_count as u128);
                s.append(" | failure: ");
                push_decimal(&mut s, e.failure_count as u128);
                s
            },
            None => owned("No active PC route yet. Run a connection check or execute a PC workspace request."),
        }
    }
}

/// The badge text of a pairing status.
pub open spec fn status_badge(s: PcPairingUiStatusView) -> Seq<char> {
    match s {
        PcPairingUiStatusView::NotConfigured => "SETUP"@,
        PcPairingUiStatusView::ReadyToExport => "READY"@,
        PcPairingUiStatusView::Exported => "ZIP READY"@,
        PcPairingUiStatusView::WaitingForPc => "WAITING"@,
        PcPairingUiStatusView::Online => "ONLINE"@,
        PcPairingUiStatusView::Offline => "OFFLINE"@,
        PcPairingUiStatusView::Error(_) => "ERROR"@,
    }
}

/// The badge text of a pairing status.
pub fn status_badge_text(status: &PcPairingUiStatus) -> (r: &'static str)
    ensures
        r@ == status_badge(status@),
{
    match status {
        PcPairingUiStatus::NotConfigured => "SETUP",
        PcPairingUiStatus::ReadyToExport => "READY",
        PcPairingUiStatus::Exported => "ZIP READY",
        PcPairingUiStatus::WaitingForPc => "WAITING",
        PcPairingUiStatus::Online => "ONLINE",
        PcPairingUiStatus::Offline => "OFFLINE",
        PcPairingUiStatus::Error(_) => "ERROR",
    }
}

/// The badge colour of a pairing status: green online, blue on the way,
/// red for an error, dark red offline, grey unconfigured.
pub fn status_badge_color(status: &PcPairingUiStatus) -> (r: &'static str)
    ensures
        r@ == match status@ {
            PcPairingUiStatusView::Online => "#059669"@,
            PcPairingUiStatusView::WaitingForPc | PcPairingUiStatusView::ReadyToExport
            | PcPairingUiStatusView::Exported => "#2563eb"@,
            PcPairingUiStatusView::Error(_) => "#dc2626"@,
            PcPairingUiStatusView::Offline => "#7f1d1d"@,
            PcPairingUiStatusView::NotConfigured => "#4b5563"@,
        },
{
    match status {
        PcPairingUiStatus::Online => "#059669",
        PcPairingUiStatus::WaitingForPc | PcPairingUiStatus::ReadyToExport | PcPairingUiStatus::Exported => "#2563eb",
        PcPairingUiStatus::Error(_) => "#dc2626",
        PcPairingUiStatus::Offline => "#7f1d1d",
        PcPairingUiStatus::NotConfigured => "#4b5563",
    }
}

} // verus!
