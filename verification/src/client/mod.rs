pub mod proxy;
pub mod socks5_server;
