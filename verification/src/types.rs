//! Portable names for the socket types, protocols and address families that
//! native socket interfaces take as integers.
//!
//! Each enumeration names a few common constants. The integer behind a name
//! is fixed by the platform family, so every mapping takes the family as an
//! argument. A caller that needs a constant without a name here uses the
//! platform's own integer directly.

use vstd::prelude::*;
use crate::platform::Platform;

verus! {

/// Socket type: the communication semantics of a socket.
#[derive(Copy, Clone, Debug, PartialEq, Eq, Structural)]
pub enum SockType {
    /// Sequenced, reliable, connection-based byte streams.
    Stream,
    /// Connectionless, unreliable datagrams of fixed maximum length.
    DGram,
    /// Raw protocol interface.
    Raw,
    /// Reliably delivered messages.
    RDM,
}

impl SockType {
    /// The native integer of the socket type.
    ///
    /// |             | Unix | Windows |
    /// |-------------|------|---------|
    /// | SOCK_STREAM | 1    | 1       |
    /// | SOCK_DGRAM  | 2    | 2       |
    /// | SOCK_RAW    | 3    | 3       |
    /// | SOCK_RDM    | 4    | 4       |
    pub open spec fn native_code(self, platform: Platform) -> int {
        match self {
            SockType::Stream => 1,
            SockType::DGram => 2,
            SockType::Raw => 3,
            SockType::RDM => 4,
        }
    }

    /// The relation between a socket type and an integer taken from a native
    /// interface of `platform`: the integer is the code of the socket type.
    pub open spec fn is_native(self, platform: Platform, code: int) -> bool {
        code == self.native_code(platform)
    }

    /// Maps the socket type to the integer that `platform` expects.
    pub fn to_native(self, platform: Platform) -> (code: i32)
        ensures
            code == self.native_code(platform),
            self.is_native(platform, code as int),
    {
        match self {
            SockType::Stream => 1,
            SockType::DGram => 2,
            SockType::Raw => 3,
            SockType::RDM => 4,
        }
    }

    /// Compares an integer taken from a native interface of `platform`
    /// against the socket type.
    pub fn eq_native(self, platform: Platform, code: i32) -> (same: bool)
        ensures
            same == self.is_native(platform, code as int),
    {
        code == self.to_native(platform)
    }

    /// A socket type compares equal to its own native code.
    pub proof fn lemma_own_code(self, platform: Platform)
        ensures
            self.is_native(platform, self.native_code(platform)),
    {
    }

    /// Two different socket types have different native codes on one
    /// platform, so neither compares equal to the code of the other.
    pub proof fn lemma_codes_distinct(self, other: SockType, platform: Platform)
        requires
            self != other,
        ensures
            self.native_code(platform) != other.native_code(platform),
            !self.is_native(platform, other.native_code(platform)),
    {
    }
}

/// Protocol: the wire protocol that a socket speaks.
#[derive(Copy, Clone, Debug, PartialEq, Eq, Structural)]
pub enum Protocol {
    /// Internet Control Message Protocol.
    ICMP,
    /// Transmission Control Protocol.
    TCP,
    /// User Datagram Protocol.
    UDP,
}

impl Protocol {
    /// The native integer of the protocol.
    ///
    /// |              | Unix | Windows |
    /// |--------------|------|---------|
    /// | IPPROTO_ICMP | 1    | 1       |
    /// | IPPROTO_TCP  | 6    | 6       |
    /// | IPPROTO_UDP  | 17   | 17      |
    pub open spec fn native_code(self, platform: Platform) -> int {
        match self {
            Protocol::ICMP => 1,
            Protocol::TCP => 6,
            Protocol::UDP => 17,
        }
    }

    /// The relation between a protocol and an integer taken from a native
    /// interface of `platform`: the integer is the code of the protocol.
    pub open spec fn is_native(self, platform: Platform, code: int) -> bool {
        code == self.native_code(platform)
    }

    /// Maps the protocol to the integer that `platform` expects.
    pub fn to_native(self, platform: Platform) -> (code: i32)
        ensures
            code == self.native_code(platform),
            self.is_native(platform, code as int),
    {
        match self {
            Protocol::ICMP => 1,
            Protocol::TCP => 6,
            Protocol::UDP => 17,
        }
    }

    /// Compares an integer taken from a native interface of `platform`
    /// against the protocol.
    pub fn eq_native(self, platform: Platform, code: i32) -> (same: bool)
        ensures
            same == self.is_native(platform, code as int),
    {
        code == self.to_native(platform)
    }

    /// A protocol compares equal to its own native code.
    pub proof fn lemma_own_code(self, platform: Platform)
        ensures
            self.is_native(platform, self.native_code(platform)),
    {
    }

    /// Two different protocols have different native codes on one platform,
    /// so neither compares equal to the code of the other.
    pub proof fn lemma_codes_distinct(self, other: Protocol, platform: Platform)
        requires
            self != other,
        ensures
            self.native_code(platform) != other.native_code(platform),
            !self.is_native(platform, other.native_code(platform)),
    {
    }
}

/// Address family: the kind of addresses that a socket uses.
#[derive(Copy, Clone, Debug, PartialEq, Eq, Structural)]
pub enum AddrFamily {
    /// Local to the host (pipes and file domain).
    Unix,
    /// IP version 4.
    Inet,
    /// IP version 6.
    Inet6,
}

impl AddrFamily {
    /// The native integer of the address family.
    ///
    /// |          | Unix | Windows |
    /// |----------|------|---------|
    /// | AF_UNIX  | 1    | 1       |
    /// | AF_INET  | 2    | 2       |
    /// | AF_INET6 | 10   | 23      |
    pub open spec fn native_code(self, platform: Platform) -> int {
        match self {
            AddrFamily::Unix => 1,
            AddrFamily::Inet => 2,
            AddrFamily::Inet6 => match platform {
                Platform::Unix => 10,
                Platform::Windows => 23,
            },
        }
    }

    /// The relation between an address family and an integer taken from a
    /// native interface of `platform`: the integer is the code of the family.
    pub open spec fn is_native(self, platform: Platform, code: int) -> bool {
        code == self.native_code(platform)
    }

    /// Maps the address family to the integer that `platform` expects.
    pub fn to_native(self, platform: Platform) -> (code: i32)
        ensures
            code == self.native_code(platform),
            self.is_native(platform, code as int),
    {
        match self {
            AddrFamily::Unix => 1,
            AddrFamily::Inet => 2,
            AddrFamily::Inet6 => match platform {
                Platform::Unix => 10,
                Platform::Windows => 23,
            },
        }
    }

    /// Compares an integer taken from a native interface of `platform`
    /// against the address family.
    pub fn eq_native(self, platform: Platform, code: i32) -> (same: bool)
        ensures
            same == self.is_native(platform, code as int),
    {
        code == self.to_native(platform)
    }

    /// An address family compares equal to its own native code.
    pub proof fn lemma_own_code(self, platform: Platform)
        ensures
            self.is_native(platform, self.native_code(platform)),
    {
    }

    /// Two different address families have different native codes on one
    /// platform, so neither compares equal to the code of the other.
    pub proof fn lemma_codes_distinct(self, other: AddrFamily, platform: Platform)
        requires
            self != other,
        ensures
            self.native_code(platform) != other.native_code(platform),
            !self.is_native(platform, other.native_code(platform)),
    {
    }
}

} // verus!
