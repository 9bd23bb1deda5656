pub mod certs;
pub mod filesystem;
pub mod proxy;
pub mod renewal;
