//! The client handle: configuration fixed at construction, and the planning
//! of each outgoing request (target URL, API-key header, body).

use vstd::prelude::*;
use vstd::string::StringExecFns;
use crate::decimal::spec_decimal;
use crate::decimal::u16_to_decimal;

verus! {

/// Declares reqwest's asynchronous HTTP client handle, held by `HelixDB` and
/// used by callers to perform the exchange a `RequestPlan` describes.
#[verifier::external_type_specification]
#[verifier::external_body]
pub struct ExClient(reqwest::Client);

/// Relies on `reqwest::Client::new`: constructs a fresh handle with default
/// settings.
#[verifier::external_body]
fn fresh_client() -> reqwest::Client {
    reqwest::Client::new()
}

/// What a `HelixDB` handle is configured with.
pub struct ClientView {
    pub endpoint: Seq<char>,
    pub port: Option<u16>,
    pub api_key: Option<Seq<char>>,
}

/// A handle on the remote service: the base endpoint, an optional port, an
/// optional API key, and a reusable HTTP client instance. Immutable after
/// construction.
pub struct HelixDB {
    port: Option<u16>,
    client: reqwest::Client,
    endpoint: String,
    api_key: Option<String>,
}

impl View for HelixDB {
    type V = ClientView;

    closed spec fn view(&self) -> ClientView {
        ClientView {
            endpoint: self.endpoint@,
            port: self.port,
            api_key: (match self.api_key {
                Some(key) => Some(key@),
                None => None,
            }),
        }
    }
}

/// The port segment of a request URL: `:port` when a port is configured,
/// empty otherwise.
pub open spec fn spec_port_segment(port: Option<u16>) -> Seq<char> {
    match port {
        Some(p) => ":"@ + spec_decimal(p as nat),
        None => Seq::<char>::empty(),
    }
}

/// The target URL of a request: `{endpoint}{:port}/{endpoint_name}`.
pub open spec fn spec_url(c: ClientView, endpoint_name: Seq<char>) -> Seq<char> {
    c.endpoint + spec_port_segment(c.port) + "/"@ + endpoint_name
}

/// A handle constructed with no explicit port omits the port segment from
/// the URLs it generates: each is exactly the endpoint, `/`, and the
/// endpoint name.
pub proof fn lemma_url_without_port(c: ClientView, endpoint_name: Seq<char>)
    requires
        c.port is None,
    ensures
        spec_url(c, endpoint_name) == c.endpoint + "/"@ + endpoint_name,
{
    assert(spec_url(c, endpoint_name) =~= c.endpoint + "/"@ + endpoint_name);
}

/// A handle constructed with an explicit port includes it in the URLs it
/// generates, as `:port` in decimal between the endpoint and the `/`.
pub proof fn lemma_url_with_port(c: ClientView, endpoint_name: Seq<char>, p: u16)
    requires
        c.port == Some(p),
    ensures
        spec_url(c, endpoint_name) == c.endpoint + ":"@ + spec_decimal(p as nat) + "/"@
            + endpoint_name,
{
    assert(spec_url(c, endpoint_name) =~= c.endpoint + ":"@ + spec_decimal(p as nat) + "/"@
        + endpoint_name);
}

/// One HTTP header of an outgoing request.
pub struct Header {
    pub name: String,
    pub value: String,
}

/// Everything that determines an outgoing request: the target URL, the
/// API-key header when one is configured, and the serialized body.
pub struct RequestPlan {
    pub url: String,
    pub api_key_header: Option<Header>,
    pub body: String,
}

impl HelixDB {
    /// A new handle. The endpoint defaults to `http://localhost` when none
    /// is given; port and API key stay absent unless supplied.
    pub fn new(endpoint: Option<&str>, port: Option<u16>, api_key: Option<&str>) -> (r: Self)
        ensures
            r@.endpoint == (match endpoint {
                Some(e) => e@,
                None => "http://localhost"@,
            }),
            r@.port == port,
            r@.api_key == (match api_key {
                Some(key) => Some(key@),
                None => None::<Seq<char>>,
            }),
    {
        HelixDB {
            port,
            client: fresh_client(),
            endpoint: (match endpoint {
                Some(e) => e.to_owned(),
                None => "http://localhost".to_owned(),
            }),
            api_key: (match api_key {
                Some(key) => Some(key.to_owned()),
                None => None,
            }),
        }
    }

    /// The HTTP client instance this handle was constructed with.
    pub fn http_client(&self) -> &reqwest::Client {
        &self.client
    }

    /// The URL a query against `endpoint_name` is sent to: the configured
    /// endpoint, the `:port` segment exactly when a port is configured, then
    /// `/` and the endpoint name.
    pub fn request_url(&self, endpoint_name: &str) -> (r: String)
        ensures
            r@ == spec_url(self@, endpoint_name@),
    {
        let mut url = self.endpoint.clone();
        match self.port {
            Some(p) => {
                url.append(":");
                url.append(u16_to_decimal(p).as_str());
            },
            None => {},
        }
        url.append("/");
        url.append(endpoint_name);
        proof {
            assert(url@ =~= spec_url(self@, endpoint_name@));
        }
        url
    }

    /// The full plan of one outgoing request: the URL of `spec_url`, the
    /// serialized body unchanged, and the `x-api-key` header present exactly
    /// when an API key is configured, carrying that key.
    pub fn plan_request(&self, endpoint_name: &str, body: String) -> (r: RequestPlan)
        ensures
            r.url@ == spec_url(self@, endpoint_name@),
            r.body@ == body@,
            r.api_key_header is Some <==> self@.api_key is Some,
            r.api_key_header matches Some(h) ==> h.name@ == "x-api-key"@
                && Some(h.value@) == self@.api_key,
    {
        let api_key_header = match &self.api_key {
            Some(key) => Some(
                Header { name: "x-api-key".to_owned(), value: key.clone() },
            ),
            None => None,
        };
        RequestPlan { url: self.request_url(endpoint_name), api_key_header, body }
    }
}

} // verus!
