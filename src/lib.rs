//! Vanity subdomain provisioning: label normalization, a provider-independent
//! DNS record model, its mapping to the DNS provider's request shape, and the
//! add / delete workflows that drive the provider.

pub mod label;
pub mod record;
pub mod wire;
pub mod provider;
pub mod subdomain;
pub mod site;
