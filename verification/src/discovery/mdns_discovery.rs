//! The discovery service over multicast DNS.
use vstd::prelude::*;
use vstd::string::StringExecFns;
use crate::catalog::entry_devices;
use crate::catalog::lemma_departed_wf;
use crate::catalog::lemma_resolved_wf;
use crate::catalog::PeerCatalog;
use crate::catalog::PeerCatalogView;
use crate::catalog::Resolution;
use crate::discovery::deadline_of;
use crate::discovery::service_fullname_of;
use crate::discovery::service_record_of;
use crate::discovery::service_type;
use crate::discovery::service_type_text;
use crate::discovery::Discovery;
use crate::discovery::DiscoveryAction;
use crate::discovery::DiscoveryActionView;
use crate::discovery::DiscoveryEvent;
use crate::discovery::DiscoveryEventView;
use crate::discovery::EventOutcome;
use crate::discovery::Property;
use crate::discovery::ServiceRecord;
use crate::error::TsunaguError;
use crate::models::device_info::DeviceInfo;
use crate::models::device_info::DeviceInfoView;

verus! {

/// Mathematical value of an [`MdnsDiscovery`].
pub struct MdnsDiscoveryView {
    pub running: bool,
    pub local_device: DeviceInfoView,
    pub catalog: PeerCatalogView,
    pub advertised_until: Option<u64>,
}

impl MdnsDiscoveryView {
    /// The service's invariant: a well-formed catalog.
    pub open spec fn wf(self) -> bool {
        self.catalog.wf()
    }

    /// What `event` does to the catalog.
    pub open spec fn outcome(self, event: DiscoveryEventView) -> EventOutcome {
        if !self.running {
            EventOutcome::Ignored
        } else {
            match event {
                DiscoveryEventView::Resolved(device) => match self.catalog.resolution(device) {
                    Resolution::Added => EventOutcome::PeerAdded,
                    Resolution::Updated => EventOutcome::PeerUpdated,
                    Resolution::Unchanged => EventOutcome::PeerUnchanged,
                },
                DiscoveryEventView::Removed(fullname) => if self.catalog.knows(fullname) {
                    EventOutcome::PeerRemoved
                } else {
                    EventOutcome::Ignored
                },
                DiscoveryEventView::Other => EventOutcome::Ignored,
            }
        }
    }

    /// The service after `event` at time `now`.
    pub open spec fn handled(self, event: DiscoveryEventView, now: u64) -> MdnsDiscoveryView {
        if !self.running {
            self
        } else {
            match event {
                DiscoveryEventView::Resolved(device) => MdnsDiscoveryView {
                    catalog: self.catalog.resolved(device, now),
                    ..self
                },
                DiscoveryEventView::Removed(fullname) => MdnsDiscoveryView {
                    catalog: self.catalog.departed(fullname),
                    ..self
                },
                DiscoveryEventView::Other => self,
            }
        }
    }

    /// The service after an advertisement was made at `now` for `duration`.
    pub open spec fn advertised(self, duration: u64, now: u64) -> MdnsDiscoveryView {
        MdnsDiscoveryView { advertised_until: Some(deadline_of(now, duration)), ..self }
    }

    /// Whether the advertisement has run out at `now`.
    pub open spec fn expired(self, now: u64) -> bool {
        self.advertised_until matches Some(deadline) && deadline <= now
    }

    /// The service after the clock was looked at, at `now`.
    pub open spec fn polled(self, now: u64) -> MdnsDiscoveryView {
        if self.expired(now) {
            MdnsDiscoveryView { advertised_until: None, ..self }
        } else {
            self
        }
    }

    /// What the driver is to do after the clock was looked at, at `now`.
    pub open spec fn poll_action(self, now: u64) -> DiscoveryActionView {
        if self.expired(now) {
            DiscoveryActionView::Unregister(service_fullname_of(self.local_device))
        } else {
            DiscoveryActionView::Nothing
        }
    }
}

/// Whatever the network reports, the service keeps its invariant: the
/// catalog never holds an identifier twice.
pub proof fn lemma_handled_wf(service: MdnsDiscoveryView, event: DiscoveryEventView, now: u64)
    requires
        service.wf(),
    ensures
        service.handled(event, now).wf(),
{
    match event {
        DiscoveryEventView::Resolved(device) => {
            lemma_resolved_wf(service.catalog, device, now);
        },
        DiscoveryEventView::Removed(fullname) => {
            lemma_departed_wf(service.catalog, fullname);
        },
        DiscoveryEventView::Other => {},
    }
}

/// An advertisement ends when its time is up: once the clock has reached
/// the time of the advertisement plus its duration, the next look at the
/// clock withdraws it, and no advertisement is left.
pub proof fn lemma_advertisement_expires(
    service: MdnsDiscoveryView,
    duration: u64,
    made_at: u64,
    now: u64,
)
    requires
        made_at + duration <= now,
    ensures
        service.advertised(duration, made_at).poll_action(now) == DiscoveryActionView::Unregister(
            service_fullname_of(service.local_device),
        ),
        service.advertised(duration, made_at).polled(now).advertised_until is None,
{
}

/// Before its time is up an advertisement stays.
pub proof fn lemma_advertisement_lasts(
    service: MdnsDiscoveryView,
    duration: u64,
    made_at: u64,
    now: u64,
)
    requires
        now < deadline_of(made_at, duration),
    ensures
        service.advertised(duration, made_at).poll_action(now) == DiscoveryActionView::Nothing,
        service.advertised(duration, made_at).polled(now) == service.advertised(duration, made_at),
{
}

/// The discovery service: the local identity, the catalog of peers, and
/// whether discovery runs and until when the identity is advertised. The
/// identity can be advertised whether or not discovery runs.
#[derive(Debug)]
pub struct MdnsDiscovery {
    running: bool,
    catalog: PeerCatalog,
    local_device: DeviceInfo,
    advertised_until: Option<u64>,
}

impl View for MdnsDiscovery {
    type V = MdnsDiscoveryView;

    closed spec fn view(&self) -> MdnsDiscoveryView {
        MdnsDiscoveryView {
            running: self.running,
            local_device: self.local_device@,
            catalog: self.catalog@,
            advertised_until: self.advertised_until,
        }
    }
}

impl MdnsDiscovery {
    /// The service's invariant: see [`MdnsDiscoveryView::wf`].
    pub open spec fn wf(&self) -> bool {
        self@.wf()
    }

    /// A service for `local_device`: not running, no peers, no
    /// advertisement.
    pub fn new(local_device: DeviceInfo) -> (service: Self)
        ensures
            service.wf(),
            service@ == (MdnsDiscoveryView {
                running: false,
                local_device: local_device@,
                catalog: PeerCatalogView { entries: Seq::empty(), version: 0 },
                advertised_until: None,
            }),
    {
        MdnsDiscovery {
            running: false,
            catalog: PeerCatalog::new(),
            local_device,
            advertised_until: None,
        }
    }

    pub fn is_running(&self) -> (running: bool)
        ensures
            running == self@.running,
    {
        self.running
    }

    pub fn local_device(&self) -> (device: &DeviceInfo)
        ensures
            device@ == self@.local_device,
    {
        &self.local_device
    }

    /// The catalog of peers.
    pub fn catalog(&self) -> (catalog: &PeerCatalog)
        ensures
            catalog@ == self@.catalog,
    {
        &self.catalog
    }

    /// The time at which the current advertisement ends, if there is one.
    pub fn discoverable_until(&self) -> (deadline: Option<u64>)
        ensures
            deadline == self@.advertised_until,
    {
        self.advertised_until
    }

    /// The record that the local device publishes.
    pub fn create_service_info(&self) -> (record: ServiceRecord)
        ensures
            record@ == service_record_of(self@.local_device),
    {
        let device = &self.local_device;
        let mut properties: Vec<Property> = Vec::new();
        properties.push(Property { key: "model".to_owned(), value: device.model().to_owned() });
        properties.push(Property { key: "os".to_owned(), value: device.os().to_owned() });
        properties.push(
            Property { key: "version".to_owned(), value: device.version().to_owned() },
        );
        let record = ServiceRecord {
            service_type: service_type().to_owned(),
            instance_name: device.name().to_owned(),
            host_name: device.name().to_owned().concat("."),
            ip: device.ip().to_owned(),
            port: device.port(),
            properties,
        };
        assert(record@.properties =~= service_record_of(self@.local_device).properties);
        record
    }

    /// The full name under which the local device's record is registered.
    pub fn service_fullname(&self) -> (fullname: String)
        ensures
            fullname@ == service_fullname_of(self@.local_device),
    {
        self.local_device.name().to_owned().concat(".").concat(service_type())
    }

    /// Takes an event from the network into the catalog, at time `now`.
    ///
    /// A resolved peer is added, or replaces its earlier record, or changes
    /// nothing if the record is the same. A removal takes the peer with
    /// that full name out. Everything else, and every event while discovery
    /// is not running, is ignored.
    pub fn handle_event(&mut self, event: DiscoveryEvent, now: u64) -> (outcome: EventOutcome)
        requires
            old(self).wf(),
        ensures
            final(self).wf(),
            outcome == old(self)@.outcome(event@),
            final(self)@ == old(self)@.handled(event@, now),
    {
        if !self.running {
            return EventOutcome::Ignored;
        }
        match event {
            DiscoveryEvent::Resolved(device) => match self.catalog.resolve(device, now) {
                Resolution::Added => EventOutcome::PeerAdded,
                Resolution::Updated => EventOutcome::PeerUpdated,
                Resolution::Unchanged => EventOutcome::PeerUnchanged,
            },
            DiscoveryEvent::Removed(fullname) => {
                if self.catalog.remove(fullname.as_str()) {
                    EventOutcome::PeerRemoved
                } else {
                    EventOutcome::Ignored
                }
            },
            DiscoveryEvent::Other => EventOutcome::Ignored,
        }
    }

    /// Looks at the clock: an advertisement whose time is up is over, and
    /// the driver is to withdraw the record.
    pub fn poll(&mut self, now: u64) -> (action: DiscoveryAction)
        requires
            old(self).wf(),
        ensures
            final(self).wf(),
            action@ == old(self)@.poll_action(now),
            final(self)@ == old(self)@.polled(now),
    {
        match self.advertised_until {
            Some(deadline) => {
                if deadline <= now {
                    self.advertised_until = None;
                    DiscoveryAction::Unregister(self.service_fullname())
                } else {
                    DiscoveryAction::Nothing
                }
            },
            None => DiscoveryAction::Nothing,
        }
    }

    /// Asks for another round of browsing: the driver is to browse for the
    /// service type, whether or not discovery runs.
    pub fn manual_discover(&self) -> (action: Result<DiscoveryAction, TsunaguError>)
        ensures
            action matches Ok(a) && a@ == DiscoveryActionView::Browse(service_type_text()),
    {
        Ok(DiscoveryAction::Browse(service_type().to_owned()))
    }
}

impl Discovery for MdnsDiscovery {
    open spec fn running(&self) -> bool {
        self@.running
    }

    open spec fn peers(&self) -> Seq<DeviceInfoView> {
        entry_devices(self@.catalog.entries)
    }

    open spec fn advertised_until(&self) -> Option<u64> {
        self@.advertised_until
    }

    open spec fn local(&self) -> DeviceInfoView {
        self@.local_device
    }

    open spec fn valid(&self) -> bool {
        self.wf()
    }

    fn start(&mut self) -> (action: Result<DiscoveryAction, TsunaguError>)
        ensures
            final(self)@ == (MdnsDiscoveryView { running: true, ..old(self)@ }),
    {
        if self.running {
            Err(TsunaguError::InvalidState)
        } else {
            self.running = true;
            Ok(DiscoveryAction::Browse(service_type().to_owned()))
        }
    }

    fn stop(&mut self) -> (action: Result<DiscoveryAction, TsunaguError>)
        ensures
            final(self)@ == (MdnsDiscoveryView {
                running: false,
                advertised_until: None,
                ..old(self)@
            }),
    {
        let unregister = match self.advertised_until {
            Some(_) => Some(self.service_fullname()),
            None => None,
        };
        let was_running = self.running;
        self.running = false;
        self.advertised_until = None;
        if was_running {
            Ok(DiscoveryAction::Shutdown(unregister))
        } else {
            match unregister {
                Some(fullname) => Ok(DiscoveryAction::Unregister(fullname)),
                None => Ok(DiscoveryAction::Nothing),
            }
        }
    }

    fn discover_devices(&self) -> (devices: Result<Vec<DeviceInfo>, TsunaguError>) {
        Ok(self.catalog.snapshot())
    }

    fn make_discoverable(&mut self, duration: u64, now: u64) -> (action: Result<
        DiscoveryAction,
        TsunaguError,
    >)
        ensures
            final(self)@ == old(self)@.advertised(duration, now),
    {
        let deadline = match now.checked_add(duration) {
            Some(deadline) => deadline,
            None => u64::MAX,
        };
        self.advertised_until = Some(deadline);
        Ok(DiscoveryAction::Register(self.create_service_info()))
    }
}

} // verus!
