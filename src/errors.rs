use vstd::prelude::*;

verus! {

/// Failure kinds reported by the library.
#[derive(Debug, Clone, Copy, PartialEq, Eq, Structural)]
pub enum Errors {
    /// The device transport is unavailable.
    NoConnection,
    /// No paired device could be resolved.
    NoDevice,
    /// The pairing data is malformed or lacks a `UDID` string.
    PairingFile,
    /// The file access session could not be opened.
    CreateAfc,
    /// A directory or file query, creation, open or write failed on the device.
    RwAfc,
    /// The install management session could not be opened.
    CreateInstproxy,
    /// The device rejected the install request.
    InstallApp,
    /// The device rejected the uninstall request.
    UninstallApp,
    /// A frame was shorter than its header, or its payload could not be read.
    ProtocolDecode,
    /// A response could not be serialized as a property list.
    ProtocolEncode,
    /// The request named a message type that is not served.
    UnsupportedMessage,
}

} // verus!
