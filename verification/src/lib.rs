//! A codec for the Short Message Peer-to-Peer protocol: the fixed header, the
//! primitive field types and the operation bodies, each with the bytes it
//! takes on the wire stated as a specification and the executable encoder and
//! decoder proved against it.

pub mod smpp;
