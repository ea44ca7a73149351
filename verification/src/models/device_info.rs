//! The identity record of a device on the local network.
use vstd::prelude::*;
use vstd::std_specs::cmp::PartialEqSpecImpl;
use crate::ident::fresh_id;
use crate::ident::ID_LEN;

verus! {

/// Mathematical value of a [`DeviceInfo`].
pub struct DeviceInfoView {
    pub id: Seq<char>,
    pub name: Seq<char>,
    pub model: Seq<char>,
    pub ip: Seq<char>,
    pub port: u16,
    pub os: Seq<char>,
    pub version: Seq<char>,
}

/// Identity of one device: a stable identifier plus the values it advertises.
#[derive(Debug)]
pub struct DeviceInfo {
    id: String,
    name: String,
    model: String,
    ip: String,
    port: u16,
    os: String,
    version: String,
}

impl View for DeviceInfo {
    type V = DeviceInfoView;

    closed spec fn view(&self) -> DeviceInfoView {
        DeviceInfoView {
            id: self.id@,
            name: self.name@,
            model: self.model@,
            ip: self.ip@,
            port: self.port,
            os: self.os@,
            version: self.version@,
        }
    }
}

impl Clone for DeviceInfo {
    fn clone(&self) -> (copy: Self)
        ensures
            copy@ == self@,
    {
        DeviceInfo {
            id: self.id.clone(),
            name: self.name.clone(),
            model: self.model.clone(),
            ip: self.ip.clone(),
            port: self.port,
            os: self.os.clone(),
            version: self.version.clone(),
        }
    }
}

impl PartialEq for DeviceInfo {
    fn eq(&self, other: &Self) -> (same: bool) {
        self.id == other.id && self.name == other.name && self.model == other.model
            && self.ip == other.ip && self.port == other.port && self.os == other.os
            && self.version == other.version
    }
}

impl PartialEqSpecImpl for DeviceInfo {
    open spec fn obeys_eq_spec() -> bool {
        true
    }

    open spec fn eq_spec(&self, other: &Self) -> bool {
        self@ == other@
    }
}

impl DeviceInfo {
    /// Builds a record under a fresh random identifier.
    pub fn new(
        name: String,
        model: String,
        ip: String,
        port: u16,
        os: String,
        version: String,
    ) -> (device: Self)
        ensures
            device@.id.len() == ID_LEN,
            device@ == (DeviceInfoView {
                id: device@.id,
                name: name@,
                model: model@,
                ip: ip@,
                port,
                os: os@,
                version: version@,
            }),
    {
        Self::with_id(fresh_id(), name, model, ip, port, os, version)
    }

    /// Builds a record for a service seen on the network; there is none
    /// without an address.
    pub fn new_from_mdns(
        name: String,
        model: String,
        ip: Option<String>,
        port: u16,
        os: String,
        version: String,
    ) -> (device: Option<Self>)
        ensures
            device is Some <==> ip is Some,
            device matches Some(d) ==> d@.id.len() == ID_LEN && d@ == (DeviceInfoView {
                id: d@.id,
                name: name@,
                model: model@,
                ip: ip->0@,
                port,
                os: os@,
                version: version@,
            }),
    {
        match ip {
            Some(address) => Some(Self::new(name, model, address, port, os, version)),
            None => None,
        }
    }

    /// Builds a record from an identifier that the caller supplies.
    pub fn with_id(
        id: String,
        name: String,
        model: String,
        ip: String,
        port: u16,
        os: String,
        version: String,
    ) -> (device: Self)
        ensures
            device@ == (DeviceInfoView {
                id: id@,
                name: name@,
                model: model@,
                ip: ip@,
                port,
                os: os@,
                version: version@,
            }),
    {
        DeviceInfo { id, name, model, ip, port, os, version }
    }

    pub fn id(&self) -> (id: &str)
        ensures
            id@ == self@.id,
    {
        self.id.as_str()
    }

    pub fn name(&self) -> (name: &str)
        ensures
            name@ == self@.name,
    {
        self.name.as_str()
    }

    pub fn model(&self) -> (model: &str)
        ensures
            model@ == self@.model,
    {
        self.model.as_str()
    }

    pub fn ip(&self) -> (ip: &str)
        ensures
            ip@ == self@.ip,
    {
        self.ip.as_str()
    }

    pub fn port(&self) -> (port: u16)
        ensures
            port == self@.port,
    {
        self.port
    }

    pub fn set_port(&mut self, port: u16)
        ensures
            final(self)@ == (DeviceInfoView { port, ..old(self)@ }),
    {
        self.port = port;
    }

    pub fn os(&self) -> (os: &str)
        ensures
            os@ == self@.os,
    {
        self.os.as_str()
    }

    pub fn version(&self) -> (version: &str)
        ensures
            version@ == self@.version,
    {
        self.version.as_str()
    }
}

} // verus!
