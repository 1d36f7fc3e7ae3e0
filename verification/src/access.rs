//! Local-client check for the transport layer.
//!
//! The event stream is served only to clients on the machine itself.
//! A client address in IPv6 form may be an IPv4-mapped address
//! (`::ffff:a.b.c.d`); it is judged by the IPv4 address it carries.

use vstd::prelude::*;

verus! {

/// A client address: four IPv4 octets, or eight IPv6 segments in
/// order from most to least significant.
pub enum IpAddress {
    /// An IPv4 address as its four octets.
    V4([u8; 4]),
    /// An IPv6 address as its eight 16-bit segments.
    V6([u16; 8]),
}

/// Whether the IPv6 segments form an IPv4-mapped address
/// (`::ffff:a.b.c.d`).
pub open spec fn v6_is_v4_mapped(s: [u16; 8]) -> bool {
    s[0] == 0 && s[1] == 0 && s[2] == 0 && s[3] == 0 && s[4] == 0 && s[5] == 0xffff
}

/// Whether the IPv6 segments are the loopback address `::1`.
pub open spec fn v6_is_loopback(s: [u16; 8]) -> bool {
    s[0] == 0 && s[1] == 0 && s[2] == 0 && s[3] == 0 && s[4] == 0 && s[5] == 0 && s[6] == 0
        && s[7] == 1
}

/// Whether the address denotes the machine itself: an IPv4 loopback
/// address (first octet 127), the IPv6 loopback `::1`, or an
/// IPv4-mapped IPv6 address whose carried IPv4 address is loopback.
pub open spec fn spec_is_local(ip: IpAddress) -> bool {
    match ip {
        IpAddress::V4(o) => o[0] == 127,
        IpAddress::V6(s) => if v6_is_v4_mapped(s) {
            s[6] / 256 == 127
        } else {
            v6_is_loopback(s)
        },
    }
}

/// Decide whether a client address belongs to the machine itself; a
/// request from any other address is refused by the transport layer.
pub fn is_local_client(ip: &IpAddress) -> (r: bool)
    ensures
        r == spec_is_local(*ip),
{
    match ip {
        IpAddress::V4(o) => o[0] == 127,
        IpAddress::V6(s) => {
            let mapped = s[0] == 0 && s[1] == 0 && s[2] == 0 && s[3] == 0 && s[4] == 0 && s[5]
                == 0xffff;
            if mapped {
                s[6] / 256 == 127
            } else {
                s[0] == 0 && s[1] == 0 && s[2] == 0 && s[3] == 0 && s[4] == 0 && s[5] == 0 && s[6]
                    == 0 && s[7] == 1
            }
        },
    }
}

} // verus!
