//! Verified core of a GlobalProtect VPN client: the wire types shared by the
//! GUI and the privileged service, the parsing of PKCS#11 URIs and tool output,
//! version and install logic, the encrypted identity vault, and the decisions
//! the connection manager makes.

pub mod protocol;
pub mod text;
pub mod version;
pub mod certs;
pub mod pkcs11_uri;
pub mod paths;
pub mod pkcs11;
pub mod crypto;
pub mod vault;
pub mod session;
pub mod state;
pub mod config;
pub mod connect;
pub mod service;
pub mod system;
pub mod signing;
pub mod encoding;
pub mod winsign;
pub mod client;
pub mod tray;
pub mod identity;
pub mod desktop;
