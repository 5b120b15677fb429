//! Connection metadata: a descriptor that a transport fills in once it is
//! established, with an optional typed payload such as the address pair of a
//! stream socket.

mod addr;
mod connected;
mod http_info;

pub use addr::SocketAddress;
pub use connected::{Connected, ConnectedView, Connection, Extra};
pub use http_info::{connected_from_addrs, HttpInfo, HttpInfoView};
