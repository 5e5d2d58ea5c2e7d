//! The DNS provider backends, and what their calls report back.
use vstd::prelude::*;

verus! {

/// A failed provider call: an HTTP error status with its body, or a failure
/// to reach the provider at all.
#[derive(Debug, Clone, PartialEq, Eq)]
pub enum ProviderFailure {
    Http { status: u16, body: String },
    Transport { message: String },
}

/// The Cloudflare API client; opaque here, it is only carried to the code
/// that makes the network calls.
#[verifier::external_type_specification]
#[verifier::external_body]
pub struct ExCloudflareApiClient(cloudflare::framework::async_api::Client);

/// A Cloudflare backend: an API client and the zone that records go to.
pub struct CloudflareClient {
    pub client: cloudflare::framework::async_api::Client,
    pub zone_identifier: String,
}

/// The DNS backend in use; one variant per supported provider.
pub enum ProviderClient {
    Cloudflare(CloudflareClient),
}

} // verus!
