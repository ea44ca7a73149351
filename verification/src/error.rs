//! Error kinds of the library.
use vstd::prelude::*;
use vstd::string::StringExecFns;

verus! {

/// Why the encryption layer refused an operation.
#[derive(Debug, Clone, Copy, PartialEq, Eq)]
pub enum EncryptionError {
    /// The message is malformed, was altered, or arrived ahead of its turn.
    AuthenticationFailure,
    /// The message carries a counter value that was already accepted.
    ReplayDetected,
    /// The key text does not decode to a usable 256-bit key.
    InvalidKey,
    /// No counter value is left to this session; it seals no further message.
    CounterExhausted,
    /// The system could not provide random bytes for a new key.
    KeyGeneration,
    /// The cipher refused to seal the message.
    SealFailed,
}

/// Why the transfer engine refused an operation.
#[derive(Debug, Clone, Copy, PartialEq, Eq)]
pub enum TransferError {
    /// A transfer needs at least one file.
    NoFiles,
    /// The files' sizes do not add up to a 64-bit byte count.
    SizeOverflow,
    /// The engine holds no transfer with this identifier.
    UnknownTransfer,
    /// A transfer with this identifier already exists.
    DuplicateTransfer,
    /// More bytes arrived than the files declare, or the stream ended short.
    SizeMismatch,
    /// A frame or handshake does not follow the wire format.
    ProtocolViolation,
}

/// Why the local identity could not be created or changed.
#[derive(Debug, Clone, Copy, PartialEq, Eq)]
pub enum DeviceError {
    /// The host name is missing or is not valid text.
    NoHostname,
    /// No usable local network address was found.
    NoAddress,
}

/// Every error the library reports.
#[derive(Debug, PartialEq, Eq)]
pub enum TsunaguError {
    Io(String),
    Network(String),
    Encryption(EncryptionError),
    Transfer(TransferError),
    Device(DeviceError),
    Discovery(String),
    /// The service-discovery layer refused a value, with its message.
    Mdns(String),
    /// The operation is not a legal transition from the current state.
    InvalidState,
    AddrParse(String),
}

impl Clone for TsunaguError {
    fn clone(&self) -> (copy: Self)
        ensures
            copy == *self,
    {
        match self {
            TsunaguError::Io(message) => TsunaguError::Io(message.clone()),
            TsunaguError::Network(message) => TsunaguError::Network(message.clone()),
            TsunaguError::Encryption(kind) => TsunaguError::Encryption(*kind),
            TsunaguError::Transfer(kind) => TsunaguError::Transfer(*kind),
            TsunaguError::Device(kind) => TsunaguError::Device(*kind),
            TsunaguError::Discovery(message) => TsunaguError::Discovery(message.clone()),
            TsunaguError::Mdns(message) => TsunaguError::Mdns(message.clone()),
            TsunaguError::InvalidState => TsunaguError::InvalidState,
            TsunaguError::AddrParse(message) => TsunaguError::AddrParse(message.clone()),
        }
    }
}

impl TsunaguError {
    /// Description for logs and user messages: the kind of error, then its
    /// detail.
    pub fn message(&self) -> (text: String)
        ensures
            text@ == match *self {
                TsunaguError::Io(message) => "IO error: "@ + message@,
                TsunaguError::Network(message) => "Network error: "@ + message@,
                TsunaguError::Encryption(kind) => "Encryption error: "@ + kind.message_text(),
                TsunaguError::Transfer(kind) => "Transfer error: "@ + kind.message_text(),
                TsunaguError::Device(kind) => "Device error: "@ + kind.message_text(),
                TsunaguError::Discovery(message) => "Discovery error: "@ + message@,
                TsunaguError::Mdns(message) => "mDNS error: "@ + message@,
                TsunaguError::InvalidState => "Invalid state"@,
                TsunaguError::AddrParse(message) => "Address parse error: "@ + message@,
            },
    {
        match self {
            TsunaguError::Io(message) => "IO error: ".to_owned().concat(message.as_str()),
            TsunaguError::Network(message) => "Network error: ".to_owned().concat(
                message.as_str(),
            ),
            TsunaguError::Encryption(kind) => "Encryption error: ".to_owned().concat(
                kind.message(),
            ),
            TsunaguError::Transfer(kind) => "Transfer error: ".to_owned().concat(kind.message()),
            TsunaguError::Device(kind) => "Device error: ".to_owned().concat(kind.message()),
            TsunaguError::Discovery(message) => "Discovery error: ".to_owned().concat(
                message.as_str(),
            ),
            TsunaguError::Mdns(message) => "mDNS error: ".to_owned().concat(message.as_str()),
            TsunaguError::InvalidState => "Invalid state".to_owned(),
            TsunaguError::AddrParse(message) => "Address parse error: ".to_owned().concat(
                message.as_str(),
            ),
        }
    }
}

impl EncryptionError {
    /// The text of [`EncryptionError::message`].
    pub open spec fn message_text(self) -> Seq<char> {
        match self {
            EncryptionError::AuthenticationFailure => "authentication failure"@,
            EncryptionError::ReplayDetected => "replay detected"@,
            EncryptionError::InvalidKey => "invalid key"@,
            EncryptionError::CounterExhausted => "message counter exhausted"@,
            EncryptionError::KeyGeneration => "key generation failed"@,
            EncryptionError::SealFailed => "sealing failed"@,
        }
    }

    /// Short description for logs and user messages.
    pub fn message(&self) -> (text: &'static str)
        ensures
            text@ == self.message_text(),
    {
        match self {
            EncryptionError::AuthenticationFailure => "authentication failure",
            EncryptionError::ReplayDetected => "replay detected",
            EncryptionError::InvalidKey => "invalid key",
            EncryptionError::CounterExhausted => "message counter exhausted",
            EncryptionError::KeyGeneration => "key generation failed",
            EncryptionError::SealFailed => "sealing failed",
        }
    }
}

impl TransferError {
    /// The text of [`TransferError::message`].
    pub open spec fn message_text(self) -> Seq<char> {
        match self {
            TransferError::NoFiles => "no files to transfer"@,
            TransferError::SizeOverflow => "total size too large"@,
            TransferError::UnknownTransfer => "unknown transfer"@,
            TransferError::DuplicateTransfer => "duplicate transfer"@,
            TransferError::SizeMismatch => "size mismatch"@,
            TransferError::ProtocolViolation => "protocol violation"@,
        }
    }

    /// Short description for logs and user messages.
    pub fn message(&self) -> (text: &'static str)
        ensures
            text@ == self.message_text(),
    {
        match self {
            TransferError::NoFiles => "no files to transfer",
            TransferError::SizeOverflow => "total size too large",
            TransferError::UnknownTransfer => "unknown transfer",
            TransferError::DuplicateTransfer => "duplicate transfer",
            TransferError::SizeMismatch => "size mismatch",
            TransferError::ProtocolViolation => "protocol violation",
        }
    }
}

impl DeviceError {
    /// The text of [`DeviceError::message`].
    pub open spec fn message_text(self) -> Seq<char> {
        match self {
            DeviceError::NoHostname => "Failed to get hostname"@,
            DeviceError::NoAddress => "Failed to get local IP"@,
        }
    }

    /// Short description for logs and user messages.
    pub fn message(&self) -> (text: &'static str)
        ensures
            text@ == self.message_text(),
    {
        match self {
            DeviceError::NoHostname => "Failed to get hostname",
            DeviceError::NoAddress => "Failed to get local IP",
        }
    }
}

} // verus!
