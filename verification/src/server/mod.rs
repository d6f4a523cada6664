pub mod proxy;
pub mod remote_client;
