//! The values of the multicast DNS layer, and what the discovery service
//! reads from them and hands to them.
use vstd::prelude::*;
use mdns_sd::ServiceEvent;
use mdns_sd::ServiceInfo;
use crate::discovery::mdns_discovery::MdnsDiscovery;
use crate::discovery::DiscoveryEvent;
use crate::discovery::DiscoveryEventView;
use crate::discovery::EventOutcome;
use crate::discovery::service_fullname_of;
use crate::discovery::service_record_of;
use crate::discovery::service_type_text;
use crate::discovery::ServiceRecord;
use crate::discovery::ServiceRecordView;
use crate::error::TsunaguError;
use crate::models::device_info::DeviceInfo;
use crate::models::device_info::DeviceInfoView;

verus! {

/// `mdns_sd::ServiceInfo`, carried through as an opaque value.
#[verifier::external_type_specification]
#[verifier::external_body]
pub struct ExServiceInfo(ServiceInfo);

/// `mdns_sd::ServiceEvent`, carried through as an opaque value.
#[verifier::external_type_specification]
#[verifier::external_body]
pub struct ExServiceEvent(ServiceEvent);

/// `mdns_sd::Error`, carried through as an opaque value.
#[verifier::external_type_specification]
#[verifier::external_body]
pub struct ExMdnsError(mdns_sd::Error);

/// The full name of a service, as `ServiceInfo::get_fullname` gives it.
pub uninterp spec fn service_fullname(info: ServiceInfo) -> Seq<char>;

/// The host name of a service, as `ServiceInfo::get_hostname` gives it.
pub uninterp spec fn service_hostname(info: ServiceInfo) -> Seq<char>;

/// The port of a service, as `ServiceInfo::get_port` gives it.
pub uninterp spec fn service_port(info: ServiceInfo) -> u16;

/// The addresses that a service holds, each as text.
pub uninterp spec fn service_addresses(info: ServiceInfo) -> Set<Seq<char>>;

/// The value of the property `key` of a service, as
/// `ServiceInfo::get_property_val_str` gives it: nothing where the service
/// has no such property.
pub uninterp spec fn service_property(info: ServiceInfo, key: Seq<char>) -> Option<Seq<char>>;

/// Whether `ServiceInfo::new` makes a service of the values of a record.
pub uninterp spec fn service_record_accepted(record: ServiceRecordView) -> bool;

/// What a service event holds, as far as discovery reads it.
pub enum ServiceEventParts {
    /// A service was resolved, with its details.
    Resolved(ServiceInfo),
    /// The service with this full name is gone.
    Removed(Seq<char>),
    /// A search began or ended, or a service was found but not yet resolved.
    Other,
}

/// The variant of a service event and what it holds.
pub uninterp spec fn event_parts(event: ServiceEvent) -> ServiceEventParts;

/// A service event with its variant told apart.
enum MdnsEvent {
    /// A service was resolved, with its details.
    Resolved(ServiceInfo),
    /// The service with this full name is gone.
    Removed(String),
    /// A search began or ended, or a service was found but not yet resolved.
    Other,
}

impl View for MdnsEvent {
    type V = ServiceEventParts;

    closed spec fn view(&self) -> ServiceEventParts {
        match *self {
            MdnsEvent::Resolved(info) => ServiceEventParts::Resolved(info),
            MdnsEvent::Removed(fullname) => ServiceEventParts::Removed(fullname@),
            MdnsEvent::Other => ServiceEventParts::Other,
        }
    }
}

/// Whether a service type names a subtype, that is, holds `._sub.`.
pub open spec fn names_subtype(service_type: Seq<char>) -> bool {
    exists|i: int|
        0 <= i && i + 6 <= service_type.len() && #[trigger] service_type.subrange(i, i + 6)
            == "._sub."@
}

/// Tells the variants of an `mdns_sd::ServiceEvent` apart and moves out
/// what the resolved and the removed variant hold.
///
/// Trusted: what comes back is the variant of the event with what it holds:
/// the details of a resolved service, the full name of a removed one.
#[verifier::external_body]
fn split_event(event: ServiceEvent) -> (told_apart: MdnsEvent)
    ensures
        told_apart@ == event_parts(event),
{
    match event {
        ServiceEvent::ServiceResolved(info) => MdnsEvent::Resolved(info),
        ServiceEvent::ServiceRemoved(_service_type, fullname) => MdnsEvent::Removed(fullname),
        ServiceEvent::SearchStarted(_) => MdnsEvent::Other,
        ServiceEvent::ServiceFound(_, _) => MdnsEvent::Other,
        ServiceEvent::SearchStopped(_) => MdnsEvent::Other,
    }
}

/// Calls `ServiceInfo::get_fullname`.
///
/// Trusted: the text is the service's full name.
#[verifier::external_body]
fn info_fullname(info: &ServiceInfo) -> (fullname: String)
    ensures
        fullname@ == service_fullname(*info),
{
    info.get_fullname().to_string()
}

/// Calls `ServiceInfo::get_hostname`.
///
/// Trusted: the text is the service's host name.
#[verifier::external_body]
fn info_hostname(info: &ServiceInfo) -> (hostname: String)
    ensures
        hostname@ == service_hostname(*info),
{
    info.get_hostname().to_string()
}

/// Calls `ServiceInfo::get_port`.
///
/// Trusted: the number is the service's port.
#[verifier::external_body]
fn info_port(info: &ServiceInfo) -> (port: u16)
    ensures
        port == service_port(*info),
{
    info.get_port()
}

/// Calls `ServiceInfo::get_addresses` and hands the addresses back as
/// text, in the order in which the set gives them out.
///
/// Trusted: every text is one of the service's addresses, and there is none
/// only where the service has none. Nothing is claimed about the order: the
/// set decides it.
#[verifier::external_body]
fn info_addresses(info: &ServiceInfo) -> (addresses: Vec<String>)
    ensures
        forall|i: int|
            0 <= i < addresses@.len() ==> service_addresses(*info).contains(
                #[trigger] addresses@[i]@,
            ),
        addresses@.len() == 0 <==> service_addresses(*info) == Set::<Seq<char>>::empty(),
{
    info.get_addresses().iter().map(|address| address.to_string()).collect()
}

/// Calls `ServiceInfo::get_property_val_str`.
///
/// Trusted: the text is the value of the service's property `key`, and
/// there is none where the service has no such property.
#[verifier::external_body]
fn info_property(info: &ServiceInfo, key: &str) -> (value: Option<String>)
    ensures
        match value {
            Some(text) => service_property(*info, key@) == Some(text@),
            None => service_property(*info, key@) is None,
        },
{
    info.get_property_val_str(key).map(|value| value.to_string())
}

/// Calls `ServiceInfo::new` with the values of the record, the properties
/// as a slice of pairs of key and value.
///
/// Trusted: whether a service is made depends on the record alone. A
/// service that is made has the record's port, and, where the service type
/// names no subtype, the full name made of the instance name, a dot and the
/// service type.
#[verifier::external_body]
fn new_service_info(record: &ServiceRecord) -> (info: Result<ServiceInfo, mdns_sd::Error>)
    ensures
        info is Ok <==> service_record_accepted(record@),
        info matches Ok(made) ==> {
            &&& service_port(made) == record.port
            &&& !names_subtype(record.service_type@) ==> service_fullname(made)
                == record.instance_name@ + "."@ + record.service_type@
        },
{
    let properties: Vec<(&str, &str)> = record.properties.iter().map(
        |property| (property.key.as_str(), property.value.as_str()),
    ).collect();
    ServiceInfo::new(
        record.service_type.as_str(),
        record.instance_name.as_str(),
        record.host_name.as_str(),
        record.ip.as_str(),
        record.port,
        &properties[..],
    )
}

/// The message of an `mdns_sd::Error`, by its `Display` impl. Nothing is
/// claimed about the text.
#[verifier::external_body]
fn error_text(error: &mdns_sd::Error) -> (text: String) {
    error.to_string()
}

/// The address under which a peer without any address is recorded.
pub open spec fn unspecified_address() -> Seq<char> {
    "0.0.0.0"@
}

/// The text of a property, empty where the property is missing.
pub open spec fn text_or_empty(text: Option<String>) -> Seq<char> {
    match text {
        Some(t) => t@,
        None => Seq::empty(),
    }
}

/// The first of the addresses, or the unspecified address where there is
/// none.
pub open spec fn first_address(addresses: Seq<String>) -> Seq<char> {
    if addresses.len() > 0 {
        addresses[0]@
    } else {
        unspecified_address()
    }
}

fn or_empty(text: Option<String>) -> (r: String)
    ensures
        r@ == text_or_empty(text),
{
    match text {
        Some(t) => t,
        None => String::new(),
    }
}

/// The record of a peer, made of what its service tells: the service's
/// full name as identifier, its host name as name, the first of its
/// addresses, its port, and its metadata, empty where missing.
pub fn peer_from_parts(
    fullname: String,
    hostname: String,
    addresses: Vec<String>,
    port: u16,
    model: Option<String>,
    os: Option<String>,
    version: Option<String>,
) -> (device: DeviceInfo)
    ensures
        device@ == (DeviceInfoView {
            id: fullname@,
            name: hostname@,
            model: text_or_empty(model),
            ip: first_address(addresses@),
            port,
            os: text_or_empty(os),
            version: text_or_empty(version),
        }),
{
    let ip = if addresses.len() > 0 {
        addresses[0].clone()
    } else {
        "0.0.0.0".to_owned()
    };
    DeviceInfo::with_id(
        fullname,
        hostname,
        or_empty(model),
        ip,
        port,
        or_empty(os),
        or_empty(version),
    )
}

/// The text of a property of a service, empty where the property is
/// missing.
pub open spec fn property_text(value: Option<Seq<char>>) -> Seq<char> {
    match value {
        Some(text) => text,
        None => Seq::empty(),
    }
}

/// Whether `device` is the record of the peer that the service `info`
/// stands for: the service's full name as identifier, its host name as
/// name, its port, its model, operating system and version, empty where
/// missing, and one of its addresses, or the unspecified address where it
/// has none.
pub open spec fn is_peer_of(info: ServiceInfo, device: DeviceInfoView) -> bool {
    &&& device.id == service_fullname(info)
    &&& device.name == service_hostname(info)
    &&& device.port == service_port(info)
    &&& device.model == property_text(service_property(info, "model"@))
    &&& device.os == property_text(service_property(info, "os"@))
    &&& device.version == property_text(service_property(info, "version"@))
    &&& if service_addresses(info) == Set::<Seq<char>>::empty() {
        device.ip == unspecified_address()
    } else {
        service_addresses(info).contains(device.ip)
    }
}

/// Whether `meaning` is what a service event means to the discovery
/// service: a resolved service means its peer, a removed one the removal
/// of the peer with its full name, every other event nothing.
pub open spec fn means(event: ServiceEvent, meaning: DiscoveryEventView) -> bool {
    match event_parts(event) {
        ServiceEventParts::Resolved(info) => meaning matches DiscoveryEventView::Resolved(device)
            && is_peer_of(info, device),
        ServiceEventParts::Removed(fullname) => meaning == DiscoveryEventView::Removed(fullname),
        ServiceEventParts::Other => meaning == DiscoveryEventView::Other,
    }
}

/// The record of the peer that a resolved service stands for.
fn peer_from_service_info(info: &ServiceInfo) -> (device: DeviceInfo)
    ensures
        is_peer_of(*info, device@),
{
    peer_from_parts(
        info_fullname(info),
        info_hostname(info),
        info_addresses(info),
        info_port(info),
        info_property(info, "model"),
        info_property(info, "os"),
        info_property(info, "version"),
    )
}

/// What a service event means to the discovery service.
fn event_from_mdns(event: ServiceEvent) -> (meaning: DiscoveryEvent)
    ensures
        means(event, meaning@),
{
    match split_event(event) {
        MdnsEvent::Resolved(info) => DiscoveryEvent::Resolved(peer_from_service_info(&info)),
        MdnsEvent::Removed(fullname) => DiscoveryEvent::Removed(fullname),
        MdnsEvent::Other => DiscoveryEvent::Other,
    }
}

/// The service type of this library names no subtype.
pub proof fn lemma_service_type_names_no_subtype()
    ensures
        !names_subtype(service_type_text()),
{
    reveal_strlit("_tsunagu._tcp.local.");
    reveal_strlit("._sub.");
    let text = service_type_text();
    let mark = "._sub."@;
    assert forall|i: int| 0 <= i && i + 6 <= text.len() implies #[trigger] text.subrange(i, i + 6)
        != mark by {
        let part = text.subrange(i, i + 6);
        if part == mark {
            assert(part[0] == mark[0]);
            assert(part[1] == mark[1]);
            assert(part[2] == mark[2]);
        }
    }
}

impl MdnsDiscovery {
    /// Takes a service event into the catalog, at time `now`: the service
    /// handles what the event means as [`MdnsDiscovery::handle_event`]
    /// says. Where a resolved service has several addresses, the peer is
    /// recorded under one of them.
    pub fn handle_mdns_event(&mut self, event: ServiceEvent, now: u64) -> (outcome: EventOutcome)
        requires
            old(self).wf(),
        ensures
            final(self).wf(),
            exists|meaning: DiscoveryEventView|
                means(event, meaning) && outcome == old(self)@.outcome(meaning)
                    && final(self)@ == #[trigger] old(self)@.handled(meaning, now),
    {
        let meaning = event_from_mdns(event);
        self.handle_event(meaning, now)
    }

    /// The local device's record in the form that the multicast DNS layer
    /// registers: a service under the device's port and under the full name
    /// that [`MdnsDiscovery::service_fullname`] gives. That layer makes the
    /// service where it accepts the record, and refuses, among others, an
    /// address that it cannot parse.
    pub fn service_info(&self) -> (info: Result<ServiceInfo, TsunaguError>)
        ensures
            info is Ok <==> service_record_accepted(service_record_of(self@.local_device)),
            info matches Ok(made) ==> service_port(made) == self@.local_device.port
                && service_fullname(made) == service_fullname_of(self@.local_device),
            info matches Err(e) ==> e is Mdns,
    {
        let record = self.create_service_info();
        proof {
            lemma_service_type_names_no_subtype();
            assert(record@.instance_name + "."@ + record@.service_type =~= service_fullname_of(
                self@.local_device,
            ));
        }
        match new_service_info(&record) {
            Ok(info) => Ok(info),
            Err(error) => Err(TsunaguError::Mdns(error_text(&error))),
        }
    }
}

} // verus!
