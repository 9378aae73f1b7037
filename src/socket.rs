//! A TCP client socket: the address it connects to and what the socket
//! layer's replies mean.
use vstd::prelude::*;

use crate::ll::{self, sock_handle_t, sockaddr_t};

verus! {

/// The socket type that `socket_create` takes for a stream socket.
pub const SOCK_STREAM: u8 = 1;

/// The protocol number of TCP.
pub const IPPROTO_TCP: u8 = 6;

/// The local port that a new client socket is bound to.
pub const CLIENT_PORT: u16 = 1337;

/// The network interface that a new client socket uses.
pub const CLIENT_INTERFACE: u32 = 0;

/// A TCP client, identified by the handle that the socket layer gave it.
pub struct TCPClient {
    socket: sock_handle_t,
}

/// The data of an IPv4 socket address: the port, most significant byte
/// first, then the four bytes of the address, then zeros.
pub open spec fn ipv4_data(ip: [u8; 4], port: u16) -> Seq<u8> {
    seq![
        (port / 256) as u8,
        (port % 256) as u8,
        ip[0],
        ip[1],
        ip[2],
        ip[3],
        0u8,
        0u8,
        0u8,
        0u8,
        0u8,
        0u8,
        0u8,
        0u8,
    ]
}

/// What a reply of `socket_connect` means: zero is success.
pub open spec fn connect_outcome_of(code: i32) -> Result<(), ()> {
    if code == 0 {
        Ok(())
    } else {
        Err(())
    }
}

impl TCPClient {
    /// The client for the socket with `handle`, as `socket_create` returned it.
    pub fn from_handle(handle: sock_handle_t) -> (r: TCPClient)
        ensures
            r.handle() == handle,
    {
        TCPClient { socket: handle }
    }

    /// The handle of this client's socket.
    pub closed spec fn handle(&self) -> sock_handle_t {
        self.socket
    }

    /// The handle of this client's socket, to hand to the socket layer.
    pub fn socket(&self) -> (r: sock_handle_t)
        ensures
            r == self.handle(),
    {
        self.socket
    }

    /// The address that `connect` hands to `socket_connect` for `ip` and `port`.
    pub fn address(ip: [u8; 4], port: u16) -> (r: sockaddr_t)
        ensures
            r.sa_family == ll::AF_INET as u16,
            r.sa_data@ == ipv4_data(ip, port),
    {
        let mut socket_addr = sockaddr_t { sa_family: ll::AF_INET as u16, sa_data: [0u8; 14] };
        socket_addr.sa_data[0] = (port >> 8) as u8;
        socket_addr.sa_data[1] = (port & 0xFF) as u8;
        socket_addr.sa_data[2] = ip[0];
        socket_addr.sa_data[3] = ip[1];
        socket_addr.sa_data[4] = ip[2];
        socket_addr.sa_data[5] = ip[3];
        assert((port >> 8) as u8 == (port / 256) as u8) by (bit_vector);
        assert((port & 0xFF) as u8 == (port % 256) as u8) by (bit_vector);
        assert(socket_addr.sa_data@ =~= ipv4_data(ip, port));
        socket_addr
    }

    /// Turns the reply of `socket_connect` into a result: zero is success,
    /// anything else is an error.
    pub fn connect_outcome(code: i32) -> (r: Result<(), ()>)
        ensures
            r == connect_outcome_of(code),
    {
        if code == 0 {
            Ok(())
        } else {
            Err(())
        }
    }
}

} // verus!
