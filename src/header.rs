//! The message header, held as structured values: the transceiver turns it
//! into the 16-bit wire word and back.

use crate::PowerRole;
use vstd::prelude::*;

verus! {

/// Control message kinds (messages that carry no data objects).
#[derive(Clone, Copy, Debug, PartialEq, Eq, Structural)]
pub enum ControlMessageType {
    GoodCRC,
    GotoMin,
    Accept,
    Reject,
    Ping,
    PsRdy,
    GetSourceCap,
    GetSinkCap,
    DrSwap,
    PrSwap,
    VconnSwap,
    Wait,
    SoftReset,
    NotSupported,
    Reserved,
}

/// Data message kinds (messages that carry data objects).
#[derive(Clone, Copy, Debug, PartialEq, Eq, Structural)]
pub enum DataMessageType {
    SourceCapabilities,
    Request,
    Bist,
    SinkCapabilities,
    BatteryStatus,
    Alert,
    GetCountryInfo,
    EnterUsb,
    EprRequest,
    EprMode,
    SourceInfo,
    Revision,
    VendorDefined,
    Reserved,
}

#[derive(Clone, Copy, Debug, PartialEq, Eq, Structural)]
pub enum MessageType {
    Control(ControlMessageType),
    Data(DataMessageType),
}

/// Specification revision carried in a header; the wire encodes
/// `R1_0` as 0, `R2_0` as 1 and `R3_0` as 2.
#[derive(Clone, Copy, Debug, PartialEq, Eq, Structural)]
pub enum SpecificationRevision {
    R1_0,
    R2_0,
    R3_0,
}

/// Message header. `num_objects` is the number of 32-bit data objects that
/// follow the header (0 to 7 on the wire).
#[derive(Clone, Copy, Debug, PartialEq, Eq, Structural)]
pub struct Header {
    pub message_type: MessageType,
    pub num_objects: u8,
    pub spec_revision: SpecificationRevision,
    pub port_power_role: PowerRole,
}

} // verus!
