//! The table of peers that discovery has found.
//!
//! Every peer is kept under its identifier, at most once. Resolving a peer
//! that is already there with the same record changes nothing; resolving it
//! with another record replaces the entry; a departure removes it. Every
//! change moves the catalog's version on by one.
use vstd::prelude::*;
use crate::models::device_info::DeviceInfo;
use crate::models::device_info::DeviceInfoView;

verus! {

/// Mathematical value of a [`PeerEntry`].
pub struct PeerEntryView {
    pub device: DeviceInfoView,
    pub last_seen: u64,
}

/// One peer and the time at which its record was taken in.
#[derive(Debug)]
pub struct PeerEntry {
    device: DeviceInfo,
    last_seen: u64,
}

impl View for PeerEntry {
    type V = PeerEntryView;

    closed spec fn view(&self) -> PeerEntryView {
        PeerEntryView { device: self.device@, last_seen: self.last_seen }
    }
}

impl Clone for PeerEntry {
    fn clone(&self) -> (copy: Self)
        ensures
            copy@ == self@,
    {
        PeerEntry { device: self.device.clone(), last_seen: self.last_seen }
    }
}

impl PeerEntry {
    pub fn device(&self) -> (device: &DeviceInfo)
        ensures
            device@ == self@.device,
    {
        &self.device
    }

    /// Time at which this record was taken into the catalog.
    pub fn last_seen(&self) -> (last_seen: u64)
        ensures
            last_seen == self@.last_seen,
    {
        self.last_seen
    }
}

/// What resolving a peer did to the catalog.
#[derive(Debug, Clone, Copy, PartialEq, Eq)]
pub enum Resolution {
    /// The peer was not known and has been added.
    Added,
    /// The peer was known under another record, which has been replaced.
    Updated,
    /// The peer was known under this very record; nothing has changed.
    Unchanged,
}

/// Mathematical value of a [`PeerCatalog`].
pub struct PeerCatalogView {
    /// The entries, in the order in which their peers were first added.
    pub entries: Seq<PeerEntryView>,
    /// Number of changes made so far, counted modulo 2^64.
    pub version: u64,
}

/// The views of a list of entries, in order.
pub open spec fn entry_views(entries: Seq<PeerEntry>) -> Seq<PeerEntryView> {
    entries.map_values(|entry: PeerEntry| entry@)
}

/// The identifiers of a list of entries, in order.
pub open spec fn entry_ids(entries: Seq<PeerEntryView>) -> Seq<Seq<char>> {
    entries.map_values(|entry: PeerEntryView| entry.device.id)
}

/// The devices of a list of entries, in order.
pub open spec fn entry_devices(entries: Seq<PeerEntryView>) -> Seq<DeviceInfoView> {
    entries.map_values(|entry: PeerEntryView| entry.device)
}

/// The version that follows `version`.
pub open spec fn next_version(version: u64) -> u64 {
    if version == u64::MAX {
        0
    } else {
        (version + 1) as u64
    }
}

impl PeerCatalogView {
    /// The catalog's invariant: no identifier occurs twice.
    pub open spec fn wf(self) -> bool {
        entry_ids(self.entries).no_duplicates()
    }

    /// Whether a peer with this identifier is in the catalog.
    pub open spec fn knows(self, id: Seq<char>) -> bool {
        entry_ids(self.entries).contains(id)
    }

    /// Position of the peer with this identifier; meaningful where
    /// `knows(id)` holds.
    pub open spec fn position(self, id: Seq<char>) -> int {
        entry_ids(self.entries).index_of(id)
    }

    /// What resolving `device` does to the catalog.
    pub open spec fn resolution(self, device: DeviceInfoView) -> Resolution {
        if !self.knows(device.id) {
            Resolution::Added
        } else if self.entries[self.position(device.id)].device == device {
            Resolution::Unchanged
        } else {
            Resolution::Updated
        }
    }

    /// The catalog after resolving `device` at time `now`.
    pub open spec fn resolved(self, device: DeviceInfoView, now: u64) -> PeerCatalogView {
        let entry = PeerEntryView { device, last_seen: now };
        match self.resolution(device) {
            Resolution::Added => PeerCatalogView {
                entries: self.entries.push(entry),
                version: next_version(self.version),
            },
            Resolution::Updated => PeerCatalogView {
                entries: self.entries.update(self.position(device.id), entry),
                version: next_version(self.version),
            },
            Resolution::Unchanged => self,
        }
    }

    /// The catalog after the departure of the peer `id`.
    pub open spec fn departed(self, id: Seq<char>) -> PeerCatalogView {
        if self.knows(id) {
            PeerCatalogView {
                entries: self.entries.remove(self.position(id)),
                version: next_version(self.version),
            }
        } else {
            self
        }
    }
}

/// Resolving keeps the invariant.
pub proof fn lemma_resolved_wf(catalog: PeerCatalogView, device: DeviceInfoView, now: u64)
    requires
        catalog.wf(),
    ensures
        catalog.resolved(device, now).wf(),
        catalog.resolved(device, now).knows(device.id),
        catalog.resolved(device, now).entries[catalog.resolved(device, now).position(
            device.id,
        )].device == device,
{
    let after = catalog.resolved(device, now);
    let ids = entry_ids(catalog.entries);
    let entry = PeerEntryView { device, last_seen: now };
    match catalog.resolution(device) {
        Resolution::Added => {
            assert(entry_ids(after.entries) =~= ids.push(device.id));
            let k = ids.len() as int;
            assert(entry_ids(after.entries)[k] == device.id);
        },
        Resolution::Updated => {
            let i = catalog.position(device.id);
            assert(0 <= i < ids.len() && ids[i] == device.id);
            assert(entry_ids(after.entries) =~= ids);
        },
        Resolution::Unchanged => {
            let i = catalog.position(device.id);
            assert(0 <= i < ids.len() && ids[i] == device.id);
        },
    }
    let after_ids = entry_ids(after.entries);
    let j = after_ids.index_of(device.id);
    assert(0 <= j < after_ids.len() && after_ids[j] == device.id);
}

/// Resolving the same record a second time changes nothing: neither the
/// entries nor the version.
pub proof fn lemma_resolve_idempotent(
    catalog: PeerCatalogView,
    device: DeviceInfoView,
    first: u64,
    second: u64,
)
    requires
        catalog.wf(),
    ensures
        catalog.resolved(device, first).resolution(device) == Resolution::Unchanged,
        catalog.resolved(device, first).resolved(device, second) == catalog.resolved(device, first),
{
    lemma_resolved_wf(catalog, device, first);
}

/// Resolving a record that differs from the one in the catalog replaces
/// that entry and nothing else, and moves the version on by exactly one.
pub proof fn lemma_resolve_changed_updates_once(
    catalog: PeerCatalogView,
    device: DeviceInfoView,
    now: u64,
)
    requires
        catalog.wf(),
        catalog.knows(device.id),
        catalog.entries[catalog.position(device.id)].device != device,
    ensures
        catalog.resolved(device, now).version == next_version(catalog.version),
        catalog.resolved(device, now).entries.len() == catalog.entries.len(),
        catalog.resolved(device, now).position(device.id) == catalog.position(device.id),
        forall|k: int|
            0 <= k < catalog.entries.len() ==> #[trigger] catalog.resolved(device, now).entries[k]
                == if k == catalog.position(device.id) {
                PeerEntryView { device, last_seen: now }
            } else {
                catalog.entries[k]
            },
{
    let after = catalog.resolved(device, now);
    let ids = entry_ids(catalog.entries);
    let i = catalog.position(device.id);
    assert(0 <= i < ids.len() && ids[i] == device.id);
    assert(entry_ids(after.entries) =~= ids);
}

/// Two resolutions for one identifier leave one entry for it: the catalog
/// grows by one entry if the identifier was unknown and not at all if it
/// was known, and still no identifier occurs twice.
pub proof fn lemma_same_id_one_entry(
    catalog: PeerCatalogView,
    first: DeviceInfoView,
    second: DeviceInfoView,
    at_first: u64,
    at_second: u64,
)
    requires
        catalog.wf(),
        first.id == second.id,
    ensures
        ({
            let after = catalog.resolved(first, at_first).resolved(second, at_second);
            &&& after.wf()
            &&& after.knows(first.id)
            &&& after.entries[after.position(first.id)].device == second
            &&& after.entries.len() == if catalog.knows(first.id) {
                catalog.entries.len()
            } else {
                catalog.entries.len() + 1
            }
        }),
{
    let middle = catalog.resolved(first, at_first);
    lemma_resolved_wf(catalog, first, at_first);
    lemma_resolved_wf(middle, second, at_second);
}

/// A departure keeps the invariant and leaves no entry for the identifier.
pub proof fn lemma_departed_wf(catalog: PeerCatalogView, id: Seq<char>)
    requires
        catalog.wf(),
    ensures
        catalog.departed(id).wf(),
        !catalog.departed(id).knows(id),
{
    let ids = entry_ids(catalog.entries);
    if catalog.knows(id) {
        let i = catalog.position(id);
        assert(0 <= i < ids.len() && ids[i] == id);
        let after = catalog.departed(id);
        assert(entry_ids(after.entries) =~= ids.remove(i));
        let after_ids = entry_ids(after.entries);
        assert forall|a: int, b: int|
            0 <= a < after_ids.len() && 0 <= b < after_ids.len() && a != b implies after_ids[a]
            != after_ids[b] by {
            let a0 = if a < i {
                a
            } else {
                a + 1
            };
            let b0 = if b < i {
                b
            } else {
                b + 1
            };
            assert(after_ids[a] == ids[a0]);
            assert(after_ids[b] == ids[b0]);
        }
        if after_ids.contains(id) {
            let k = choose|k: int| 0 <= k < after_ids.len() && after_ids[k] == id;
            let k0 = if k < i {
                k
            } else {
                k + 1
            };
            assert(ids[k0] == id);
            assert(false);
        }
    }
}

/// The peers that discovery has found, each under its identifier.
#[derive(Debug)]
pub struct PeerCatalog {
    entries: Vec<PeerEntry>,
    version: u64,
}

impl View for PeerCatalog {
    type V = PeerCatalogView;

    closed spec fn view(&self) -> PeerCatalogView {
        PeerCatalogView { entries: entry_views(self.entries@), version: self.version }
    }
}

impl PeerCatalog {
    /// The catalog's invariant: no identifier occurs twice.
    pub open spec fn wf(&self) -> bool {
        self@.wf()
    }

    /// An empty catalog at version 0.
    pub fn new() -> (catalog: Self)
        ensures
            catalog.wf(),
            catalog@ == (PeerCatalogView { entries: Seq::empty(), version: 0 }),
    {
        let catalog = PeerCatalog { entries: Vec::new(), version: 0 };
        assert(entry_views(catalog.entries@) =~= Seq::empty());
        assert(entry_ids(catalog@.entries) =~= Seq::empty());
        catalog
    }

    /// Number of peers.
    pub fn len(&self) -> (len: usize)
        ensures
            len == self@.entries.len(),
    {
        self.entries.len()
    }

    pub fn is_empty(&self) -> (empty: bool)
        ensures
            empty == (self@.entries.len() == 0),
    {
        self.entries.len() == 0
    }

    /// Number of changes made so far, counted modulo 2^64.
    pub fn version(&self) -> (version: u64)
        ensures
            version == self@.version,
    {
        self.version
    }

    /// The entries, in the order in which their peers were first added.
    pub fn entries(&self) -> (entries: &Vec<PeerEntry>)
        ensures
            entry_views(entries@) == self@.entries,
    {
        &self.entries
    }

    /// Position of the peer that goes by `id`, if there is one.
    fn find(&self, id: &String) -> (found: Option<usize>)
        requires
            self.wf(),
        ensures
            match found {
                Some(i) => i < self.entries@.len() && self@.knows(id@) && self@.position(id@) == i,
                None => !self@.knows(id@),
            },
    {
        let ghost ids = entry_ids(self@.entries);
        let mut i: usize = 0;
        while i < self.entries.len()
            invariant
                i <= self.entries.len(),
                ids == entry_ids(self@.entries),
                ids.len() == self.entries@.len(),
                ids.no_duplicates(),
                forall|k: int| 0 <= k < i ==> ids[k] != id@,
            decreases self.entries.len() - i,
        {
            let here = self.entries[i].device.id().to_owned();
            if here == *id {
                proof {
                    assert(ids[i as int] == id@);
                    let j = ids.index_of(id@);
                    assert(0 <= j < ids.len() && ids[j] == id@);
                }
                return Some(i);
            }
            i = i + 1;
        }
        None
    }

    fn bump(&mut self)
        ensures
            final(self).entries == old(self).entries,
            final(self).version == next_version(old(self).version),
    {
        if self.version == u64::MAX {
            self.version = 0;
        } else {
            self.version = self.version + 1;
        }
    }

    /// Takes the record of a peer in, as it was resolved at time `now`.
    ///
    /// An unknown peer is added at the end; a known peer whose record
    /// differs has its entry replaced; a known peer with this very record
    /// leaves the catalog untouched, time stamp and version included.
    pub fn resolve(&mut self, device: DeviceInfo, now: u64) -> (outcome: Resolution)
        requires
            old(self).wf(),
        ensures
            final(self).wf(),
            outcome == old(self)@.resolution(device@),
            final(self)@ == old(self)@.resolved(device@, now),
    {
        proof {
            lemma_resolved_wf(self@, device@, now);
        }
        let ghost before = self@;
        let id = device.id().to_owned();
        match self.find(&id) {
            None => {
                self.entries.push(PeerEntry { device, last_seen: now });
                self.bump();
                proof {
                    assert(self@.entries =~= before.entries.push(
                        PeerEntryView { device: device@, last_seen: now },
                    ));
                }
                Resolution::Added
            },
            Some(i) => {
                if self.entries[i].device == device {
                    Resolution::Unchanged
                } else {
                    self.entries[i] = PeerEntry { device, last_seen: now };
                    self.bump();
                    proof {
                        assert(self@.entries =~= before.entries.update(
                            i as int,
                            PeerEntryView { device: device@, last_seen: now },
                        ));
                    }
                    Resolution::Updated
                }
            },
        }
    }

    /// Takes the peer `id` out, if it is there, and says whether it was.
    pub fn remove(&mut self, id: &str) -> (removed: bool)
        requires
            old(self).wf(),
        ensures
            final(self).wf(),
            removed == old(self)@.knows(id@),
            final(self)@ == old(self)@.departed(id@),
    {
        proof {
            lemma_departed_wf(self@, id@);
        }
        let ghost before = self@;
        let key = id.to_owned();
        match self.find(&key) {
            None => false,
            Some(i) => {
                self.entries.remove(i);
                self.bump();
                proof {
                    assert(self@.entries =~= before.entries.remove(i as int));
                }
                true
            },
        }
    }

    /// A copy of the record of the peer `id`, if it is there.
    pub fn get(&self, id: &str) -> (device: Option<DeviceInfo>)
        requires
            self.wf(),
        ensures
            self@.knows(id@) ==> (device matches Some(d) && d@ == self@.entries[self@.position(
                id@,
            )].device),
            !self@.knows(id@) ==> device is None,
    {
        let key = id.to_owned();
        match self.find(&key) {
            None => None,
            Some(i) => Some(self.entries[i].device.clone()),
        }
    }

    /// Copies of the records of all peers, as they are now, in the order
    /// in which the peers were first added.
    pub fn snapshot(&self) -> (devices: Vec<DeviceInfo>)
        ensures
            device_views(devices@) == entry_devices(self@.entries),
    {
        let mut devices: Vec<DeviceInfo> = Vec::new();
        let mut i: usize = 0;
        while i < self.entries.len()
            invariant
                i <= self.entries.len(),
                devices.len() == i,
                forall|k: int| 0 <= k < i ==> devices@[k]@ == self.entries@[k].device@,
            decreases self.entries.len() - i,
        {
            devices.push(self.entries[i].device.clone());
            i = i + 1;
        }
        assert(device_views(devices@) =~= entry_devices(self@.entries));
        devices
    }
}

/// The views of a list of devices, in order.
pub open spec fn device_views(devices: Seq<DeviceInfo>) -> Seq<DeviceInfoView> {
    devices.map_values(|device: DeviceInfo| device@)
}

} // verus!
