//! Settings that the library is run with.
use vstd::prelude::*;
use std::path::PathBuf;
use crate::host::host_name;
use crate::paths::path_from_text;
use crate::paths::path_of_text;

verus! {

/// Port on which peers are discovered, unless set otherwise.
pub const DEFAULT_DISCOVERY_PORT: u16 = 5353;

/// Port on which transfers are accepted, unless set otherwise.
pub const DEFAULT_TRANSFER_PORT: u16 = 5354;

/// What a user has settled for a device: its name, where received files
/// are saved, and whether files are received without asking.
#[derive(Debug)]
pub struct Config {
    pub device_name: String,
    pub save_directory: PathBuf,
    pub allow_auto_receive: bool,
}

/// Settings of one run: the name to advertise, the two ports and the
/// directory for received files.
#[derive(Debug)]
pub struct CliConfig {
    pub device_name: String,
    pub discovery_port: u16,
    pub transfer_port: u16,
    pub download_dir: PathBuf,
}

/// The machine's host name, with replacement characters where it is not
/// valid Unicode.
fn default_device_name() -> (name: String) {
    host_name().0
}

pub fn default_discovery_port() -> (port: u16)
    ensures
        port == DEFAULT_DISCOVERY_PORT,
{
    DEFAULT_DISCOVERY_PORT
}

pub fn default_transfer_port() -> (port: u16)
    ensures
        port == DEFAULT_TRANSFER_PORT,
{
    DEFAULT_TRANSFER_PORT
}

pub fn default_download_dir() -> (dir: PathBuf)
    ensures
        dir == path_of_text("./downloads"@),
{
    path_from_text("./downloads")
}

impl Default for CliConfig {
    fn default() -> (config: Self)
        ensures
            config.discovery_port == DEFAULT_DISCOVERY_PORT,
            config.transfer_port == DEFAULT_TRANSFER_PORT,
            config.download_dir == path_of_text("./downloads"@),
    {
        CliConfig {
            device_name: default_device_name(),
            discovery_port: default_discovery_port(),
            transfer_port: default_transfer_port(),
            download_dir: default_download_dir(),
        }
    }
}

impl CliConfig {
    /// The settings that result where some are given and the others are
    /// left at their defaults.
    pub fn with_overrides(
        device_name: Option<String>,
        discovery_port: Option<u16>,
        transfer_port: Option<u16>,
        download_dir: Option<PathBuf>,
    ) -> (config: Self)
        ensures
            device_name matches Some(name) ==> config.device_name@ == name@,
            config.discovery_port == match discovery_port {
                Some(port) => port,
                None => DEFAULT_DISCOVERY_PORT,
            },
            config.transfer_port == match transfer_port {
                Some(port) => port,
                None => DEFAULT_TRANSFER_PORT,
            },
            config.download_dir == match download_dir {
                Some(dir) => dir,
                None => path_of_text("./downloads"@),
            },
    {
        CliConfig {
            device_name: match device_name {
                Some(name) => name,
                None => default_device_name(),
            },
            discovery_port: match discovery_port {
                Some(port) => port,
                None => default_discovery_port(),
            },
            transfer_port: match transfer_port {
                Some(port) => port,
                None => default_transfer_port(),
            },
            download_dir: match download_dir {
                Some(dir) => dir,
                None => default_download_dir(),
            },
        }
    }
}

} // verus!
