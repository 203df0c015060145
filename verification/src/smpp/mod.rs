//! The SMPP protocol data units.

pub mod pdu;
