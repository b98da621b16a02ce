//! Steam Input support: the typed side of the native controller interface.
//!
//! The native entry points are reached by the host crate; this library holds
//! what is decided around them: which controller type a native code names,
//! how callback records are decoded, how strings cross the boundary and how
//! many entries of a filled buffer are meaningful.

pub mod callbacks;
pub mod input_type;
pub mod marshal;
