//! The computed parts of the process entry points.
//!
//! The drivers themselves bind sockets or hand control to a hosting
//! runtime; what the library fixes is the address the local driver binds
//! and the line it writes on startup.

use vstd::prelude::*;
use vstd::string::*;

verus! {

/// The fixed address the local driver binds, as its four loopback octets
/// and port: 127.0.0.1, port 8080.
pub fn local_bind_addr() -> (a: ((u8, u8, u8, u8), u16))
    ensures
        a == ((127u8, 0u8, 0u8, 1u8), 8080u16),
{
    ((127, 0, 0, 1), 8080)
}

/// The human-readable line the local driver writes to standard output on
/// startup.
pub fn startup_line() -> (s: String)
    ensures
        s@ == "listening on 127.0.0.1:8080"@,
{
    String::from_str("listening on 127.0.0.1:8080")
}

} // verus!
