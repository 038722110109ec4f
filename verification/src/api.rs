//! The job description fetched from the external source, and the client
//! identity used to talk to it. The transport itself lives outside this
//! library; only the plain data it carries is modeled here.

use vstd::prelude::*;

verus! {

/// The current job: a hex-encoded challenge, where a solution must be
/// deposited, the required difficulty, a display label, and a job id.
#[derive(Clone, Debug)]
pub struct Ticker {
    pub challenge: String,
    pub current_location: String,
    pub difficulty: i32,
    pub ticker: String,
    pub id: String,
}

/// The remote endpoint and the address credited for accepted shares.
#[derive(Clone, Debug)]
pub struct ApiClient {
    pub url: String,
    pub address: String,
}

impl ApiClient {
    pub fn new(url: String, address: String) -> (c: ApiClient)
        ensures
            c.url == url,
            c.address == address,
    {
        ApiClient { url, address }
    }
}

} // verus!
