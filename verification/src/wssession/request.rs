use crate::wssession::session::SessionType;
use vstd::prelude::*;

verus! {

/// One header of a request.
#[derive(Debug, Clone, PartialEq)]
pub struct Header {
    pub name: String,
    pub value: String,
}

/// The request that asks the provisioning endpoint for a session, for the
/// caller to send as it stands.
#[derive(Debug, Clone, PartialEq)]
pub struct ProvisioningRequest {
    pub method: String,
    pub url: String,
    pub headers: Vec<Header>,
    pub body: String,
}

/// A `ProvisioningRequest` with its texts as sequences of characters; a
/// header is its name and its value.
pub struct RequestView {
    pub method: Seq<char>,
    pub url: Seq<char>,
    pub headers: Seq<(Seq<char>, Seq<char>)>,
    pub body: Seq<char>,
}

/// What the endpoint sent back: the status code and the body as received.
#[derive(Debug, Clone, PartialEq)]
pub struct HttpResponse {
    pub status: u16,
    pub body: String,
}

impl View for Header {
    type V = (Seq<char>, Seq<char>);

    open spec fn view(&self) -> (Seq<char>, Seq<char>) {
        (self.name@, self.value@)
    }
}

impl View for ProvisioningRequest {
    type V = RequestView;

    open spec fn view(&self) -> RequestView {
        RequestView {
            method: self.method@,
            url: self.url@,
            headers: Seq::new(self.headers@.len(), |i: int| self.headers@[i]@),
            body: self.body@,
        }
    }
}

/// The URL of the endpoint that issues sessions of `kind`, below `base_url`.
pub open spec fn endpoint_url(base_url: Seq<char>, kind: SessionType) -> Seq<char> {
    base_url + kind.endpoint_path_spec()
}

/// The request for a session of `kind`: a POST to the endpoint of that kind,
/// authorised by `token`, asking for JSON, with an empty body whose length is
/// stated.
pub open spec fn provisioning_request(
    base_url: Seq<char>,
    kind: SessionType,
    token: Seq<char>,
) -> RequestView {
    RequestView {
        method: "POST"@,
        url: endpoint_url(base_url, kind),
        headers: seq![
            ("Authorization"@, "Bearer "@ + token),
            ("Accept"@, "application/json"@),
            ("Content-Length"@, "0"@),
        ],
        body: Seq::empty(),
    }
}

/// Whether a status code reports success: 200 to 299.
pub open spec fn is_success_status(status: u16) -> bool {
    200 <= status <= 299
}

impl Header {
    /// A header with the given name and value.
    pub fn new(name: &str, value: String) -> (header: Header)
        ensures
            header@ == (name@, value@),
    {
        Header { name: String::from_str(name), value }
    }
}

impl ProvisioningRequest {
    /// Builds the request for a session of `kind`.
    pub fn new(base_url: &str, kind: SessionType, token: &str) -> (request: ProvisioningRequest)
        ensures
            request@ == provisioning_request(base_url@, kind, token@),
    {
        let mut url = String::from_str(base_url);
        url.append(kind.endpoint_path());
        let mut bearer = String::from_str("Bearer ");
        bearer.append(token);
        let mut headers: Vec<Header> = Vec::new();
        headers.push(Header::new("Authorization", bearer));
        headers.push(Header::new("Accept", String::from_str("application/json")));
        headers.push(Header::new("Content-Length", String::from_str("0")));
        let request = ProvisioningRequest {
            method: String::from_str("POST"),
            url,
            headers,
            body: String::new(),
        };
        assert(request@.headers =~= provisioning_request(base_url@, kind, token@).headers);
        request
    }
}

impl HttpResponse {
    /// Whether the status reports success.
    pub fn is_success(&self) -> (success: bool)
        ensures
            success == is_success_status(self.status),
    {
        200 <= self.status && self.status <= 299
    }
}

} // verus!
