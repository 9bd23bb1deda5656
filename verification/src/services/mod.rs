pub mod certs;
pub mod dns;
