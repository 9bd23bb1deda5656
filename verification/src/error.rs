use vstd::prelude::*;

verus! {

/// Every failure the proxy reports; each variant carries a human-readable detail.
#[derive(Debug)]
pub enum Error {
    /// A required environment variable is not set; holds the variable's name.
    Env(String),
    MainLoopClosed,
    Io(String),
    Request(String),
    FileSystem(String),
    Certificate(String),
    Acme(String),
    Proxy(String),
    Dns(String),
    Config(String),
    Unknown,
}

pub type Result<T> = core::result::Result<T, Error>;

} // verus!
