//! The identity under which this process advertises itself.
use vstd::prelude::*;
use crate::error::DeviceError;
use crate::error::TsunaguError;
use crate::host::host_name;
use crate::ident::ID_LEN;
use crate::models::device_info::DeviceInfo;
use crate::models::device_info::DeviceInfoView;

verus! {

/// The port of a device whose listening socket is not bound yet.
pub const UNBOUND_PORT: u16 = 0;

/// Owner of the local identity.
///
/// The identifier never changes, and the port is set once, when the
/// listening socket binds.
#[derive(Debug)]
pub struct DeviceManager {
    device_info: DeviceInfo,
}

impl View for DeviceManager {
    type V = DeviceInfoView;

    closed spec fn view(&self) -> DeviceInfoView {
        self.device_info@
    }
}

/// The identity after `info` was put in its place: the identifier stays,
/// a port that is bound stays, and everything else is taken from `info`.
pub open spec fn replaced(current: DeviceInfoView, info: DeviceInfoView) -> DeviceInfoView {
    DeviceInfoView {
        id: current.id,
        port: if current.port == UNBOUND_PORT {
            info.port
        } else {
            current.port
        },
        ..info
    }
}

/// Replacing the identity never changes the identifier and never moves a
/// port that is bound.
pub proof fn lemma_replaced_keeps_identity(current: DeviceInfoView, info: DeviceInfoView)
    ensures
        replaced(current, info).id == current.id,
        current.port != UNBOUND_PORT ==> replaced(current, info).port == current.port,
{
}

impl DeviceManager {
    /// Resolves the local identity: the machine's host name, the local
    /// address that the caller has looked up, a fresh identifier and an
    /// unbound port. The operating system's name, which also serves as the
    /// model, and the machine architecture, which serves as the version, are
    /// the caller's to give.
    ///
    /// Without a usable host name the result is `NoHostname`; with one but
    /// without an address it is `NoAddress`.
    pub fn new(address: Option<String>, os: String, arch: String) -> (manager: Result<
        Self,
        TsunaguError,
    >)
        ensures
            manager matches Ok(m) ==> {
                &&& address is Some
                &&& m@.id.len() == ID_LEN
                &&& m@.model == os@
                &&& m@.ip == address->0@
                &&& m@.os == os@
                &&& m@.version == arch@
                &&& m@.port == UNBOUND_PORT
            },
            manager matches Err(e) ==> e == TsunaguError::Device(DeviceError::NoHostname) || (e
                == TsunaguError::Device(DeviceError::NoAddress) && address is None),
    {
        let (name, valid) = host_name();
        Self::from_lookup(name, valid, address, os, arch)
    }

    /// The identity that a look-up gives: the host name with whether it is
    /// valid, and the address if one was found. A host name that is not
    /// valid is refused with `NoHostname`; with a valid one, a missing
    /// address is refused with `NoAddress`; otherwise the identity is made
    /// of the values given, under a fresh identifier and with an unbound
    /// port.
    pub fn from_lookup(
        name: String,
        valid: bool,
        address: Option<String>,
        os: String,
        arch: String,
    ) -> (manager: Result<Self, TsunaguError>)
        ensures
            !valid ==> manager matches Err(TsunaguError::Device(DeviceError::NoHostname)),
            valid && address is None ==> manager matches Err(
                TsunaguError::Device(DeviceError::NoAddress),
            ),
            valid && address is Some ==> (manager matches Ok(m) && m@.id.len() == ID_LEN && m@ == (
            DeviceInfoView {
                id: m@.id,
                name: name@,
                model: os@,
                ip: address->0@,
                port: UNBOUND_PORT,
                os: os@,
                version: arch@,
            })),
    {
        let hostname = match Self::hostname_or_error(name, valid) {
            Ok(hostname) => hostname,
            Err(e) => {
                return Err(e);
            },
        };
        let address = match Self::address_or_error(address) {
            Ok(address) => address,
            Err(e) => {
                return Err(e);
            },
        };
        Ok(Self::with_identity(hostname, address, os, arch))
    }

    /// The identity made of the values given, under a fresh identifier and
    /// with an unbound port.
    pub fn with_identity(hostname: String, address: String, os: String, arch: String) -> (manager:
        Self)
        ensures
            manager@.id.len() == ID_LEN,
            manager@ == (DeviceInfoView {
                id: manager@.id,
                name: hostname@,
                model: os@,
                ip: address@,
                port: UNBOUND_PORT,
                os: os@,
                version: arch@,
            }),
    {
        let model = os.clone();
        DeviceManager {
            device_info: DeviceInfo::new(hostname, model, address, UNBOUND_PORT, os, arch),
        }
    }

    /// A copy of the identity as it is now.
    pub fn get_current_device_info(&self) -> (info: DeviceInfo)
        ensures
            info@ == self@,
    {
        self.device_info.clone()
    }

    /// Puts `info` in the place of the identity. The identifier stays as
    /// it is, whatever identifier `info` carries, and so does a port that
    /// is bound; everything else is taken from `info`.
    pub fn update_device_info(&mut self, info: DeviceInfo) -> (done: Result<(), TsunaguError>)
        ensures
            done is Ok,
            final(self)@ == replaced(old(self)@, info@),
    {
        let port = if self.device_info.port() == UNBOUND_PORT {
            info.port()
        } else {
            self.device_info.port()
        };
        self.device_info = DeviceInfo::with_id(
            self.device_info.id().to_owned(),
            info.name().to_owned(),
            info.model().to_owned(),
            info.ip().to_owned(),
            port,
            info.os().to_owned(),
            info.version().to_owned(),
        );
        Ok(())
    }

    /// Records the port that the listening socket was bound to. A port
    /// that is bound is not bound anew: another port is then refused with
    /// `InvalidState`, and the identity stays as it was.
    pub fn update_port(&mut self, port: u16) -> (done: Result<(), TsunaguError>)
        ensures
            old(self)@.port == UNBOUND_PORT || port == old(self)@.port ==> done is Ok
                && final(self)@ == (DeviceInfoView { port, ..old(self)@ }),
            old(self)@.port != UNBOUND_PORT && port != old(self)@.port ==> (done matches Err(
                TsunaguError::InvalidState,
            )) && final(self)@ == old(self)@,
    {
        if self.device_info.port() == UNBOUND_PORT || port == self.device_info.port() {
            self.device_info.set_port(port);
            Ok(())
        } else {
            Err(TsunaguError::InvalidState)
        }
    }

    /// The machine's host name.
    pub fn get_hostname() -> (hostname: Result<String, TsunaguError>)
        ensures
            hostname matches Err(e) ==> e == TsunaguError::Device(DeviceError::NoHostname),
    {
        let (name, valid) = host_name();
        Self::hostname_or_error(name, valid)
    }

    /// A host name is usable if it is valid Unicode.
    pub fn hostname_or_error(name: String, valid: bool) -> (hostname: Result<String, TsunaguError>)
        ensures
            valid ==> (hostname matches Ok(text) && text@ == name@),
            !valid ==> hostname matches Err(TsunaguError::Device(DeviceError::NoHostname)),
    {
        if valid {
            Ok(name)
        } else {
            Err(TsunaguError::Device(DeviceError::NoHostname))
        }
    }

    /// An address that was found is usable; none is an error.
    pub fn address_or_error(found: Option<String>) -> (address: Result<String, TsunaguError>)
        ensures
            found matches Some(text) ==> (address matches Ok(a) && a@ == text@),
            found is None ==> address matches Err(TsunaguError::Device(DeviceError::NoAddress)),
    {
        match found {
            Some(text) => Ok(text),
            None => Err(TsunaguError::Device(DeviceError::NoAddress)),
        }
    }
}

} // verus!
