//! What the web front end keeps between provisioning a subdomain and showing
//! the result page.
use vstd::prelude::*;
use vstd::string::*;

use crate::provider::ProviderClient;
use crate::subdomain::{host_name, qualify, Subdomain};

verus! {

/// The scheme of the public URLs handed out.
pub open spec fn http_scheme() -> Seq<char> {
    seq!['h', 't', 't', 'p', ':', '/', '/']
}

/// The public URL of a label: `http://label.<parent domain>`.
pub open spec fn url_of(label: Seq<char>) -> Seq<char> {
    http_scheme() + host_name(label)
}

/// `http://label.<parent domain>`.
pub fn public_url(label: &str) -> (r: String)
    ensures
        r@ == url_of(label@),
{
    let scheme = "http://";
    proof {
        reveal_strlit("http://");
    }
    let host = qualify(label);
    String::from_str(scheme).concat(host.as_str())
}

/// The result of the last provisioning: the URL under the normalized label,
/// and the same URL as the requester typed it.
#[derive(Debug, Clone, PartialEq, Eq)]
pub struct Output {
    pub url: String,
    pub url_visual: String,
}

impl Output {
    /// The result for a request whose label was typed as `requested` and
    /// normalized to `label`.
    pub fn new(label: &str, requested: &str) -> (r: Output)
        ensures
            r.url@ == url_of(label@),
            r.url_visual@ == url_of(requested@),
    {
        Output { url: public_url(label), url_visual: public_url(requested) }
    }
}

/// Shared state of the web front end: the provider backend, and the last
/// request with its result.
pub struct Data {
    pub api_client: ProviderClient,
    pub subdomain: Option<Subdomain>,
    pub output: Option<Output>,
}

impl Data {
    /// State with no request served yet.
    pub fn new(api_client: ProviderClient) -> (r: Data)
        ensures
            r.api_client == api_client,
            r.subdomain is None,
            r.output is None,
    {
        Data { api_client, subdomain: None, output: None }
    }

    /// Keeps a served request and its result: the request as given, and the
    /// URLs under the normalized `label` and under the label as typed.
    pub fn record_result(&mut self, request: Subdomain, label: &str)
        ensures
            final(self).api_client == old(self).api_client,
            final(self).subdomain == Some(request),
            final(self).output matches Some(o) && o.url@ == url_of(label@) && o.url_visual@
                == url_of(request.subdomain@),
    {
        let out = Output::new(label, request.subdomain.as_str());
        self.subdomain = Some(request);
        self.output = Some(out);
    }
}

} // verus!
