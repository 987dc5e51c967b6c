//! Address kinds and a route stub.

use vstd::prelude::*;

verus! {

/// The two families of IP address.
#[derive(Clone, Copy, Debug, PartialEq, Eq, Structural)]
pub enum IpAddrKind {
    V4,
    V6,
}

/// An address together with its kind: four octets, or textual form.
#[derive(Debug)]
pub enum IpAddr {
    V4(u8, u8, u8, u8),
    V6(String),
}

/// Routing stub: accepts an address kind and does nothing with it yet.
pub fn route(ip_kind: IpAddrKind) {
}

} // verus!
