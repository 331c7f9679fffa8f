//! A TCP client connection for a pre-boot firmware environment, driven as a
//! state machine: the library decides which firmware call comes next, and the
//! caller performs it and hands back the reply.
pub mod addr;
pub mod stream;
pub mod ledger;

pub use addr::{IpAddr, Ipv4Addr, Ipv6Addr, SocketAddr, SocketAddrV4, SocketAddrV6};
pub use ledger::Input;
pub use stream::{Call, Completion, NetError, Reply, Request, Stage, Tcp4Config, Tcp4Stream};
