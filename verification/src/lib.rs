//! Portable names for native socket constants, and decoding of the local
//! hostname as the operating system reports it.
//!
//! The crate makes no native call itself. [`types`] maps socket types,
//! protocols and address families to the integers of a platform family,
//! [`hostname`] turns the results of the native hostname call into text, and
//! [`platform`] names the platform families.

pub mod hostname;
pub mod platform;
pub mod types;

pub use crate::hostname::{
    canonical_bytes, check_status, decode_name, hostname_from_bytes, hostname_from_units,
    name_length, HostnameError, HOSTNAME_CAPACITY, NON_UTF8_HOSTNAME, TERMINATOR,
};
pub use crate::platform::Platform;
pub use crate::types::{AddrFamily, Protocol, SockType};
