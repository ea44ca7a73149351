//! Discovery of peers: what is advertised, what comes in from the network,
//! and what the discovery service asks its driver to do.
use vstd::prelude::*;
use crate::catalog::device_views;
use crate::error::TsunaguError;
use crate::models::device_info::DeviceInfo;
use crate::models::device_info::DeviceInfoView;

pub mod mdns;
pub mod mdns_discovery;

pub use mdns_discovery::MdnsDiscovery;

verus! {

/// The service type under which devices advertise themselves.
pub fn service_type() -> (name: &'static str)
    ensures
        name@ == service_type_text(),
{
    "_tsunagu._tcp.local."
}

/// The service type as a sequence of characters.
pub open spec fn service_type_text() -> Seq<char> {
    "_tsunagu._tcp.local."@
}

/// Mathematical value of a [`Property`].
pub struct PropertyView {
    pub key: Seq<char>,
    pub value: Seq<char>,
}

/// One key and value of a service's metadata.
#[derive(Debug)]
pub struct Property {
    pub key: String,
    pub value: String,
}

impl View for Property {
    type V = PropertyView;

    open spec fn view(&self) -> PropertyView {
        PropertyView { key: self.key@, value: self.value@ }
    }
}

/// The views of a list of properties, in order.
pub open spec fn property_views(properties: Seq<Property>) -> Seq<PropertyView> {
    properties.map_values(|property: Property| property@)
}

/// Mathematical value of a [`ServiceRecord`].
pub struct ServiceRecordView {
    pub service_type: Seq<char>,
    pub instance_name: Seq<char>,
    pub host_name: Seq<char>,
    pub ip: Seq<char>,
    pub port: u16,
    pub properties: Seq<PropertyView>,
}

/// What a device publishes about itself.
#[derive(Debug)]
pub struct ServiceRecord {
    pub service_type: String,
    pub instance_name: String,
    pub host_name: String,
    pub ip: String,
    pub port: u16,
    pub properties: Vec<Property>,
}

impl View for ServiceRecord {
    type V = ServiceRecordView;

    open spec fn view(&self) -> ServiceRecordView {
        ServiceRecordView {
            service_type: self.service_type@,
            instance_name: self.instance_name@,
            host_name: self.host_name@,
            ip: self.ip@,
            port: self.port,
            properties: property_views(self.properties@),
        }
    }
}

/// The record that a device with this identity publishes: its name as
/// instance name, the name followed by a dot as host name, its address and
/// port, and its model, operating system and version as metadata.
pub open spec fn service_record_of(device: DeviceInfoView) -> ServiceRecordView {
    ServiceRecordView {
        service_type: service_type_text(),
        instance_name: device.name,
        host_name: device.name + "."@,
        ip: device.ip,
        port: device.port,
        properties: seq![
            PropertyView { key: "model"@, value: device.model },
            PropertyView { key: "os"@, value: device.os },
            PropertyView { key: "version"@, value: device.version },
        ],
    }
}

/// The full name under which the record of a device is registered: the
/// instance name, a dot, and the service type.
pub open spec fn service_fullname_of(device: DeviceInfoView) -> Seq<char> {
    device.name + "."@ + service_type_text()
}

/// What the discovery service asks its driver to do next.
#[derive(Debug)]
pub enum DiscoveryAction {
    /// Nothing to do.
    Nothing,
    /// Browse for services of this type and feed the events back.
    Browse(String),
    /// Publish this record.
    Register(ServiceRecord),
    /// Withdraw the record registered under this full name.
    Unregister(String),
    /// Withdraw the record registered under this full name, if there is
    /// one, and end browsing.
    Shutdown(Option<String>),
}

/// Mathematical value of a [`DiscoveryAction`].
pub enum DiscoveryActionView {
    Nothing,
    Browse(Seq<char>),
    Register(ServiceRecordView),
    Unregister(Seq<char>),
    Shutdown(Option<Seq<char>>),
}

impl View for DiscoveryAction {
    type V = DiscoveryActionView;

    open spec fn view(&self) -> DiscoveryActionView {
        match *self {
            DiscoveryAction::Nothing => DiscoveryActionView::Nothing,
            DiscoveryAction::Browse(service) => DiscoveryActionView::Browse(service@),
            DiscoveryAction::Register(record) => DiscoveryActionView::Register(record@),
            DiscoveryAction::Unregister(fullname) => DiscoveryActionView::Unregister(fullname@),
            DiscoveryAction::Shutdown(fullname) => DiscoveryActionView::Shutdown(
                match fullname {
                    Some(name) => Some(name@),
                    None => None,
                },
            ),
        }
    }
}

/// What the network reports to the discovery service.
#[derive(Debug)]
pub enum DiscoveryEvent {
    /// A peer was resolved, with its record; the record's identifier is the
    /// full name of the peer's service.
    Resolved(DeviceInfo),
    /// The service with this full name is gone.
    Removed(String),
    /// Anything else.
    Other,
}

/// Mathematical value of a [`DiscoveryEvent`].
pub enum DiscoveryEventView {
    Resolved(DeviceInfoView),
    Removed(Seq<char>),
    Other,
}

impl View for DiscoveryEvent {
    type V = DiscoveryEventView;

    open spec fn view(&self) -> DiscoveryEventView {
        match *self {
            DiscoveryEvent::Resolved(device) => DiscoveryEventView::Resolved(device@),
            DiscoveryEvent::Removed(fullname) => DiscoveryEventView::Removed(fullname@),
            DiscoveryEvent::Other => DiscoveryEventView::Other,
        }
    }
}

/// What an event did to the catalog of peers.
#[derive(Debug, Clone, Copy, PartialEq, Eq)]
pub enum EventOutcome {
    PeerAdded,
    PeerUpdated,
    PeerUnchanged,
    PeerRemoved,
    /// The event changed nothing: it concerns no peer, or a peer that is
    /// not known, or discovery is not running.
    Ignored,
}

/// The time at which an advertisement made at `now` for `duration` ends;
/// one that would end beyond the range of the clock ends with that range.
pub open spec fn deadline_of(now: u64, duration: u64) -> u64 {
    if now + duration > u64::MAX {
        u64::MAX
    } else {
        (now + duration) as u64
    }
}

/// What the driver is to do when discovery stops: end browsing where it
/// runs, and withdraw the record where one is published under `fullname`.
pub open spec fn stop_action(
    running: bool,
    advertised: bool,
    fullname: Seq<char>,
) -> DiscoveryActionView {
    if running {
        DiscoveryActionView::Shutdown(
            if advertised {
                Some(fullname)
            } else {
                None
            },
        )
    } else if advertised {
        DiscoveryActionView::Unregister(fullname)
    } else {
        DiscoveryActionView::Nothing
    }
}

/// The operations of a discovery service.
///
/// The service decides and keeps the catalog; the caller drives the network
/// and carries out the action that each operation hands back. Times are in
/// milliseconds on a clock of the caller's choice.
pub trait Discovery {
    /// Whether discovery is running.
    spec fn running(&self) -> bool;

    /// The records of the peers found so far.
    spec fn peers(&self) -> Seq<DeviceInfoView>;

    /// The time at which the current advertisement ends, if there is one.
    spec fn advertised_until(&self) -> Option<u64>;

    /// The identity that is advertised.
    spec fn local(&self) -> DeviceInfoView;

    /// The service's invariant.
    spec fn valid(&self) -> bool;

    /// Starts discovery: the driver is to browse for the service type.
    /// Starting what is running already is refused.
    fn start(&mut self) -> (action: Result<DiscoveryAction, TsunaguError>)
        requires
            old(self).valid(),
        ensures
            final(self).valid(),
            final(self).running(),
            final(self).peers() == old(self).peers(),
            final(self).advertised_until() == old(self).advertised_until(),
            final(self).local() == old(self).local(),
            !old(self).running() ==> (action matches Ok(a) && a@ == DiscoveryActionView::Browse(
                service_type_text(),
            )),
            old(self).running() ==> action matches Err(TsunaguError::InvalidState),
    ;

    /// Stops discovery: the driver is to withdraw the advertisement, if one
    /// is active, and to end browsing. Where discovery is not running there
    /// is only the advertisement to withdraw, and nothing to do without
    /// one.
    fn stop(&mut self) -> (action: Result<DiscoveryAction, TsunaguError>)
        requires
            old(self).valid(),
        ensures
            final(self).valid(),
            !final(self).running(),
            final(self).advertised_until() is None,
            final(self).peers() == old(self).peers(),
            final(self).local() == old(self).local(),
            action matches Ok(a) && a@ == stop_action(
                old(self).running(),
                old(self).advertised_until() is Some,
                service_fullname_of(old(self).local()),
            ),
    ;

    /// The peers found so far, as they are now.
    fn discover_devices(&self) -> (devices: Result<Vec<DeviceInfo>, TsunaguError>)
        requires
            self.valid(),
        ensures
            devices matches Ok(found) && device_views(found@) == self.peers(),
    ;

    /// Advertises the local identity from `now` on for `duration`: the
    /// driver is to publish the record. An advertisement that is active is
    /// replaced.
    fn make_discoverable(&mut self, duration: u64, now: u64) -> (action: Result<
        DiscoveryAction,
        TsunaguError,
    >)
        requires
            old(self).valid(),
        ensures
            final(self).valid(),
            final(self).running() == old(self).running(),
            final(self).peers() == old(self).peers(),
            final(self).local() == old(self).local(),
            final(self).advertised_until() == Some(deadline_of(now, duration)),
            action matches Ok(a) && a@ == DiscoveryActionView::Register(
                service_record_of(old(self).local()),
            ),
    ;
}

} // verus!
