//! The Android side of PC gateway discovery over mDNS: the command sent to the
//! host and the records it reports back.
use crate::text::owned;
use std::collections::BTreeMap;
use vstd::prelude::*;

verus! {

broadcast use vstd::string::group_string_axioms;

/// The mDNS service type that PC gateways announce.
pub const PC_GATEWAY_SERVICE_TYPE: &'static str = "_deepseek-pc-gateway._tcp.";

/// How long the host browses for gateways, in milliseconds.
pub const PC_GATEWAY_DISCOVERY_TIMEOUT_MS: u64 = 5000;

/// The browse request handed to the Android host.
#[derive(Clone, Debug, PartialEq, Eq)]
pub struct AndroidPcGatewayDiscoveryCommand {
    pub request_id: String,
    pub service_type: String,
    pub timeout_ms: u64,
}

impl AndroidPcGatewayDiscoveryCommand {
    /// A browse for the gateway service type with the default timeout.
    pub fn new(request_id: &str) -> (r: Self)
        ensures
            r.request_id@ == request_id@,
            r.service_type@ == PC_GATEWAY_SERVICE_TYPE@,
            r.timeout_ms == PC_GATEWAY_DISCOVERY_TIMEOUT_MS,
    {
        AndroidPcGatewayDiscoveryCommand {
            request_id: owned(request_id),
            service_type: owned(PC_GATEWAY_SERVICE_TYPE),
            timeout_ms: PC_GATEWAY_DISCOVERY_TIMEOUT_MS,
        }
    }
}

/// One resolved mDNS service record.
#[derive(Clone, Debug, PartialEq, Eq)]
pub struct AndroidPcGatewayMdnsRecordPayload {
    pub instance_name: String,
    pub host: String,
    pub port: u16,
    pub txt: BTreeMap<String, String>,
}

/// A service record as values.
pub struct MdnsRecordView {
    pub instance_name: Seq<char>,
    pub host: Seq<char>,
    pub port: u16,
    pub txt: Map<String, String>,
}

impl View for AndroidPcGatewayMdnsRecordPayload {
    type V = MdnsRecordView;

    open spec fn view(&self) -> MdnsRecordView {
        MdnsRecordView {
            instance_name: self.instance_name@,
            host: self.host@,
            port: self.port,
            txt: self.txt@,
        }
    }
}

impl AndroidPcGatewayMdnsRecordPayload {
    /// A record with no TXT entries.
    pub fn new(instance_name: &str, host: &str, port: u16) -> (r: Self)
        ensures
            r@ == (MdnsRecordView {
                instance_name: instance_name@,
                host: host@,
                port,
                txt: Map::empty(),
            }),
    {
        AndroidPcGatewayMdnsRecordPayload {
            instance_name: owned(instance_name),
            host: owned(host),
            port,
            txt: BTreeMap::new(),
        }
    }

    /// A copy with the same fields.
    pub fn duplicate(&self) -> (r: Self)
        ensures
            r@ == self@,
    {
        AndroidPcGatewayMdnsRecordPayload {
            instance_name: self.instance_name.clone(),
            host: self.host.clone(),
            port: self.port,
            txt: self.txt.clone(),
        }
    }
}

/// The records as values.
pub open spec fn records_view(v: Seq<AndroidPcGatewayMdnsRecordPayload>) -> Seq<MdnsRecordView> {
    v.map_values(|r: AndroidPcGatewayMdnsRecordPayload| r@)
}

/// A copy of a list of records.
pub fn copy_records(v: &Vec<AndroidPcGatewayMdnsRecordPayload>) -> (r: Vec<AndroidPcGatewayMdnsRecordPayload>)
    ensures
        records_view(r@) == records_view(v@),
{
    let mut r: Vec<AndroidPcGatewayMdnsRecordPayload> = Vec::new();
    let mut i: usize = 0;
    while i < v.len()
        invariant
            i <= v.len(),
            records_view(r@) == records_view(v@).take(i as int),
        decreases v.len() - i,
    {
        let ghost before = r@;
        r.push(v[i].duplicate());
        assert(records_view(r@) =~= records_view(before).push(v@[i as int]@));
        i = i + 1;
        assert(records_view(r@) =~= records_view(v@).take(i as int));
    }
    assert(records_view(v@).take(v.len() as int) == records_view(v@));
    r
}

/// What the Android host reports while and after it browses.
#[derive(Clone, Debug, PartialEq, Eq)]
pub enum AndroidPcGatewayDiscoveryCallback {
    Started { request_id: String, service_type: String },
    Candidate { request_id: String, record: AndroidPcGatewayMdnsRecordPayload },
    Completed { request_id: String, records: Vec<AndroidPcGatewayMdnsRecordPayload> },
    Failed { request_id: String, message: String },
}

impl AndroidPcGatewayDiscoveryCallback {
    /// The id of the browse that the callback belongs to.
    pub open spec fn request_id_spec(&self) -> Seq<char> {
        match self {
            AndroidPcGatewayDiscoveryCallback::Started { request_id, .. } => request_id@,
            AndroidPcGatewayDiscoveryCallback::Candidate { request_id, .. } => request_id@,
            AndroidPcGatewayDiscoveryCallback::Completed { request_id, .. } => request_id@,
            AndroidPcGatewayDiscoveryCallback::Failed { request_id, .. } => request_id@,
        }
    }

    /// The id of the browse that the callback belongs to.
    pub fn request_id(&self) -> (r: &str)
        ensures
            r@ == self.request_id_spec(),
    {
        match self {
            AndroidPcGatewayDiscoveryCallback::Started { request_id, .. } => request_id.as_str(),
            AndroidPcGatewayDiscoveryCallback::Candidate { request_id, .. } => request_id.as_str(),
            AndroidPcGatewayDiscoveryCallback::Completed { request_id, .. } => request_id.as_str(),
            AndroidPcGatewayDiscoveryCallback::Failed { request_id, .. } => request_id.as_str(),
        }
    }
}

} // verus!
