//! The generations of the wire protocol.

use vstd::prelude::*;

verus! {

/// A generation of the wire protocol. A session speaks one of them from
/// the moment it is opened until it is closed.
#[derive(Clone, Copy, Debug, PartialEq, Eq, Structural)]
pub enum ProtocolVersion {
    /// Flat command space, one target, 32-bit payloads.
    V0,
    /// Adds addressed debug-port and access-port commands.
    V1,
    /// Adds the negative acknowledgement that is safe to retry.
    V2,
    /// Adds 64-bit register access and addressing within a JTAG chain.
    V3,
}

impl ProtocolVersion {
    /// The number by which a probe names this version.
    pub open spec fn number(self) -> u8 {
        match self {
            ProtocolVersion::V0 => 0,
            ProtocolVersion::V1 => 1,
            ProtocolVersion::V2 => 2,
            ProtocolVersion::V3 => 3,
        }
    }

    /// Whether responses of this version tell a negative acknowledgement
    /// apart from a fault.
    pub open spec fn has_nack(self) -> bool {
        self == ProtocolVersion::V2 || self == ProtocolVersion::V3
    }

    /// The number by which a probe names this version.
    pub fn to_number(self) -> (n: u8)
        ensures
            n == self.number(),
    {
        match self {
            ProtocolVersion::V0 => 0,
            ProtocolVersion::V1 => 1,
            ProtocolVersion::V2 => 2,
            ProtocolVersion::V3 => 3,
        }
    }

    /// The version that a probe names by `n`, if there is one.
    pub fn from_number(n: u64) -> (version: Option<ProtocolVersion>)
        ensures
            n <= 3 ==> (version matches Some(v) && v.number() == n),
            n > 3 ==> version.is_none(),
    {
        if n == 0 {
            Some(ProtocolVersion::V0)
        } else if n == 1 {
            Some(ProtocolVersion::V1)
        } else if n == 2 {
            Some(ProtocolVersion::V2)
        } else if n == 3 {
            Some(ProtocolVersion::V3)
        } else {
            None
        }
    }

    /// Whether responses of this version tell a negative acknowledgement
    /// apart from a fault.
    pub fn supports_nack(self) -> (yes: bool)
        ensures
            yes == self.has_nack(),
    {
        match self {
            ProtocolVersion::V0 => false,
            ProtocolVersion::V1 => false,
            ProtocolVersion::V2 => true,
            ProtocolVersion::V3 => true,
        }
    }
}

} // verus!
