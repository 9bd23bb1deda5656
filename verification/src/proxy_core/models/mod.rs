pub mod certs;
pub mod dns;
pub mod filesystem;
pub mod host_map;
pub mod proxy;
pub mod routes;
pub mod tasks;
