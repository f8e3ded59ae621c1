//! A verified model of a VR runtime's loader interface: the lifecycle and
//! interface-discovery protocol (initialization, versioned interface lookup,
//! shutdown), together with the enumerations and plain data types that cross
//! that boundary.

pub mod vr;
