pub mod cloudflare;

use vstd::prelude::*;

verus! {

/// The Cloudflare DNS service, as a provider name.
#[derive(Debug)]
pub struct CloudflareDns {}

} // verus!
