//! The primitive field types of a body.

pub mod addr;
pub mod c_octet;
pub mod data_coding;
pub mod esm_class;
pub mod time;
pub mod tlv;

pub use addr::{Npi, Ton};
pub use c_octet::COctet;
pub use data_coding::DataCoding;
pub use esm_class::{
    EsmClass, EsmClassAnsi41, EsmClassGsm, EsmClassMessageMode, EsmClassMessageType,
};
pub use time::{AbsoluteTime, Time};
pub use tlv::{Tag, TlvView, TLV};
