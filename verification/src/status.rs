//! Read-only status snapshots decoded from the raw status register words.

use vstd::prelude::*;

verus! {

/// Decoded protocol status register: bus activity, error flags and the
/// CAN-FD specific indications of the last received frame.
#[derive(Clone, Copy, Debug, PartialEq, Eq, Structural)]
pub struct ProtocolStatus {
    /// Last error code (3 bits).
    pub lec: u8,
    /// Activity state of the bus (2 bits).
    pub act: u8,
    /// Error passive flag.
    pub ep: bool,
    /// Warning status flag.
    pub ew: bool,
    /// Bus-off flag.
    pub bo: bool,
    /// Data-phase last error code (3 bits).
    pub dlec: u8,
    /// ESI flag of the last received CAN-FD message.
    pub resi: bool,
    /// BRS flag of the last received CAN-FD message.
    pub rbrs: bool,
    /// A CAN-FD message was received since this flag was last cleared.
    pub rfdf: bool,
    /// Protocol exception event occurred.
    pub pxe: bool,
    /// Transmitter delay compensation value (7 bits).
    pub tdcv: u8,
}

/// Decoded error counter register.
#[derive(Clone, Copy, Debug, PartialEq, Eq, Structural)]
pub struct ErrorCounters {
    /// Transmit error counter (8 bits).
    pub tec: u8,
    /// Receive error counter (7 bits).
    pub rec: u8,
    /// Receive error passive: the receive counter reached its passive level.
    pub rp: bool,
    /// CAN error logging counter (8 bits).
    pub cel: u8,
}

impl ProtocolStatus {
    /// Field layout of the protocol status word.
    pub open spec fn decode_spec(raw: u32) -> ProtocolStatus {
        ProtocolStatus {
            lec: (raw & 0x7) as u8,
            act: ((raw >> 3) & 0x3) as u8,
            ep: (raw >> 5) & 1 == 1,
            ew: (raw >> 6) & 1 == 1,
            bo: (raw >> 7) & 1 == 1,
            dlec: ((raw >> 8) & 0x7) as u8,
            resi: (raw >> 11) & 1 == 1,
            rbrs: (raw >> 12) & 1 == 1,
            rfdf: (raw >> 13) & 1 == 1,
            pxe: (raw >> 14) & 1 == 1,
            tdcv: ((raw >> 16) & 0x7f) as u8,
        }
    }

    /// Decode a raw protocol status word into its fields.
    pub fn decode(raw: u32) -> (r: ProtocolStatus)
        ensures
            r == ProtocolStatus::decode_spec(raw),
    {
        proof {
            assert((raw & 0x7) < 256 && ((raw >> 3) & 0x3) < 256 && ((raw >> 8) & 0x7) < 256
                && ((raw >> 16) & 0x7f) < 256) by (bit_vector);
        }
        ProtocolStatus {
            lec: (raw & 0x7) as u8,
            act: ((raw >> 3) & 0x3) as u8,
            ep: (raw >> 5) & 1 == 1,
            ew: (raw >> 6) & 1 == 1,
            bo: (raw >> 7) & 1 == 1,
            dlec: ((raw >> 8) & 0x7) as u8,
            resi: (raw >> 11) & 1 == 1,
            rbrs: (raw >> 12) & 1 == 1,
            rfdf: (raw >> 13) & 1 == 1,
            pxe: (raw >> 14) & 1 == 1,
            tdcv: ((raw >> 16) & 0x7f) as u8,
        }
    }
}

impl ErrorCounters {
    /// Field layout of the error counter word.
    pub open spec fn decode_spec(raw: u32) -> ErrorCounters {
        ErrorCounters {
            tec: (raw & 0xff) as u8,
            rec: ((raw >> 8) & 0x7f) as u8,
            rp: (raw >> 15) & 1 == 1,
            cel: ((raw >> 16) & 0xff) as u8,
        }
    }

    /// Decode a raw error counter word into its fields.
    pub fn decode(raw: u32) -> (r: ErrorCounters)
        ensures
            r == ErrorCounters::decode_spec(raw),
    {
        proof {
            assert((raw & 0xff) < 256 && ((raw >> 8) & 0x7f) < 256 && ((raw >> 16) & 0xff) < 256)
                by (bit_vector);
        }
        ErrorCounters {
            tec: (raw & 0xff) as u8,
            rec: ((raw >> 8) & 0x7f) as u8,
            rp: (raw >> 15) & 1 == 1,
            cel: ((raw >> 16) & 0xff) as u8,
        }
    }
}

} // verus!
