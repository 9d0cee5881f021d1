use vstd::prelude::*;
use vstd::string::StringExecFns;
use crate::zone::{Zone, zone_code, zone_name};

verus! {

/// The root shared by every endpoint.
pub const BASE_URL: &'static str = "https://compute.googleapis.com/compute/v1";

/// Why a client could not be formed or a request prepared.
#[derive(Debug, Clone, Copy, PartialEq, Eq, Structural)]
pub enum ClientError {
    /// The primary credential key is absent or empty.
    MissingKey,
    /// The endpoint URL could not be parsed when query parameters were added.
    InvalidUrl,
}

/// An HTTP verb.
#[derive(Debug, Clone, Copy, PartialEq, Eq, Structural)]
pub enum Method {
    Get,
    Post,
    Put,
    Delete,
}

/// One request, ready to be sent: verb, URL, basic-auth credentials and the
/// body (none for `Get`).
#[derive(Clone, Debug)]
pub struct HttpRequest {
    pub method: Method,
    pub url: String,
    pub user: String,
    pub password: Option<String>,
    pub body: Option<String>,
}

/// `r` is the request with verb `m` that a builder holding `v` describes, sent
/// to `url`.
pub open spec fn request_to(v: ClientView, m: Method, url: Seq<char>, r: HttpRequest) -> bool {
    &&& r.method == m
    &&& r.url@ == url
    &&& r.user@ == v.key_1
    &&& opt_view(r.password) == v.key_2
    &&& opt_view(r.body) == if m == Method::Get { None } else { Some(v.body) }
}

/// `r` is the request with verb `m` that a builder holding `v` describes.
pub open spec fn request_of(v: ClientView, m: Method, r: HttpRequest) -> bool {
    request_to(v, m, url_of(v), r)
}

/// What `reqwest::Url::parse_with_params` gives for a URL text and a list of
/// query pairs: the serialised URL, or nothing where the text does not parse.
pub uninterp spec fn query_url(input: Seq<char>, params: Seq<(Seq<char>, Seq<char>)>) -> Option<Seq<char>>;

pub open spec fn pairs_view(params: Seq<(String, String)>) -> Seq<(Seq<char>, Seq<char>)> {
    params.map_values(|p: (String, String)| (p.0@, p.1@))
}

/// Relies on `reqwest::Url::parse_with_params` (the `url` crate's): it parses
/// the text and appends the pairs, form-encoded, to its query. Its result
/// depends on the arguments alone.
#[verifier::external_body]
fn parse_with_params(input: &str, params: &Vec<(String, String)>) -> (r: Option<String>)
    ensures
        opt_view(r) == query_url(input@, pairs_view(params@)),
{
    reqwest::Url::parse_with_params(input, params.iter()).ok().map(String::from)
}

fn clone_opt(o: &Option<String>) -> (r: Option<String>)
    ensures
        opt_view(r) == opt_view(*o),
{
    match o {
        Some(s) => Some(s.clone()),
        None => None,
    }
}

/// A request builder: credentials, zone, service family and the request's
/// accumulated path suffix and pending body.
#[derive(Clone, Debug)]
pub struct Client {
    key_1: String,
    key_2: Option<String>,
    zone: Zone,
    service: String,
    api_version: String,
    url: String,
    body: String,
}

/// What a client holds, as mathematical values.
pub ghost struct ClientView {
    pub key_1: Seq<char>,
    pub key_2: Option<Seq<char>>,
    pub zone: Zone,
    pub service: Seq<char>,
    pub api_version: Seq<char>,
    pub suffix: Seq<char>,
    pub body: Seq<char>,
}

pub open spec fn opt_view(o: Option<String>) -> Option<Seq<char>> {
    match o {
        Some(s) => Some(s@),
        None => None,
    }
}

impl View for Client {
    type V = ClientView;

    closed spec fn view(&self) -> ClientView {
        ClientView {
            key_1: self.key_1@,
            key_2: opt_view(self.key_2),
            zone: self.zone,
            service: self.service@,
            api_version: self.api_version@,
            suffix: self.url@,
            body: self.body@,
        }
    }
}

/// The general compute service family.
pub open spec fn compute_service() -> Seq<char> {
    "cloud"@
}

pub open spec fn compute_version() -> Seq<char> {
    "1.1"@
}

/// The managed-container service family.
pub open spec fn container_service() -> Seq<char> {
    "managed-container"@
}

pub open spec fn container_version() -> Seq<char> {
    "1.0"@
}

/// `<base>/<zone name>/api/<service>/<version><suffix>`.
pub open spec fn url_of(v: ClientView) -> Seq<char> {
    BASE_URL@ + "/"@ + zone_name(v.zone) + "/api/"@ + v.service + "/"@ + v.api_version + v.suffix
}

/// `/projects/<project>/zones/<zone code>/instances`.
pub open spec fn instances_path(project_id: Seq<char>, zone: Zone) -> Seq<char> {
    "/projects/"@ + project_id + "/zones/"@ + zone_code(zone) + "/instances"@
}

/// The collection endpoint as listing reaches it.
pub open spec fn list_path(project_id: Seq<char>, zone: Zone) -> Seq<char> {
    "/projects/"@ + project_id + "/zones/"@ + zone_code(zone) + "/instances"@
}

/// The URL of a builder before any path segment: `<base>/<zone name>/api/<service>/<version>`.
pub open spec fn root_url(v: ClientView) -> Seq<char> {
    BASE_URL@ + "/"@ + zone_name(v.zone) + "/api/"@ + v.service + "/"@ + v.api_version
}

/// A builder's state after `clear`.
pub open spec fn cleared(v: ClientView) -> ClientView {
    ClientView { suffix: Seq::empty(), body: Seq::empty(), ..v }
}

/// Listing and creating share one endpoint: `list` and `instances` append
/// the same suffix to the same builder.
pub proof fn lemma_list_is_instances(v: ClientView, project_id: Seq<char>, zone: Zone)
    ensures
        list_path(project_id, zone) == instances_path(project_id, zone),
        (ClientView { suffix: v.suffix + list_path(project_id, zone), ..v })
            == (ClientView { suffix: v.suffix + instances_path(project_id, zone), ..v }),
{
}

/// A cleared builder has an empty suffix and body, and the next request made
/// from it goes to the bare root URL, with an empty body where it has one.
pub proof fn lemma_cleared_request(v: ClientView, m: Method, r: HttpRequest)
    requires
        request_of(cleared(v), m, r),
    ensures
        cleared(v).suffix.len() == 0,
        cleared(v).body.len() == 0,
        r.url@ == root_url(v),
        m != Method::Get ==> opt_view(r.body) == Some(Seq::<char>::empty()),
{
    assert(url_of(cleared(v)) =~= root_url(v));
}

/// The path of one instance in a project's zone.
pub open spec fn instance_path(project_id: Seq<char>, instance_name: Seq<char>, zone: Zone) -> Seq<char> {
    instances_path(project_id, zone) + "/"@ + instance_name
}

pub open spec fn launch_path(project_id: Seq<char>, instance_name: Seq<char>, zone: Zone) -> Seq<char> {
    instance_path(project_id, instance_name, zone) + "/start"@
}

pub open spec fn shutdown_path(project_id: Seq<char>, instance_name: Seq<char>, zone: Zone) -> Seq<char> {
    instance_path(project_id, instance_name, zone) + "/stop"@
}

/// A fresh builder for the general compute family in the first Tokyo zone.
pub open spec fn fresh(key_1: Seq<char>, key_2: Option<Seq<char>>) -> ClientView {
    ClientView {
        key_1,
        key_2,
        zone: Zone::Tokyo1,
        service: compute_service(),
        api_version: compute_version(),
        suffix: Seq::empty(),
        body: Seq::empty(),
    }
}

/// The builder behind every lifecycle operation: fresh, with the keys of `v`,
/// zone `Ishikari1` and suffix `path`.
pub open spec fn lifecycle_view(v: ClientView, path: Seq<char>) -> ClientView {
    ClientView { zone: Zone::Ishikari1, suffix: path, ..fresh(v.key_1, v.key_2) }
}

impl Client {
    /// A builder for the general compute family, zone `Tokyo1`, with an empty
    /// suffix and body.
    pub fn new(key_1: String, key_2: Option<String>) -> (r: Client)
        requires
            key_1@.len() > 0,
        ensures
            r@ == fresh(key_1@, opt_view(key_2)),
    {
        Client {
            key_1,
            key_2,
            zone: Zone::Tokyo1,
            service: String::from_str("cloud"),
            api_version: String::from_str("1.1"),
            url: String::new(),
            body: String::new(),
        }
    }

    /// Forms a builder from credentials that may be missing: without a
    /// non-empty primary key it fails before anything else is done.
    pub fn from_credentials(key_1: Option<String>, key_2: Option<String>) -> (r: Result<Client, ClientError>)
        ensures
            match key_1 {
                Some(k) => if k@.len() > 0 {
                    r is Ok && r->Ok_0@ == fresh(k@, opt_view(key_2))
                } else {
                    r == Err::<Client, ClientError>(ClientError::MissingKey)
                },
                None => r == Err::<Client, ClientError>(ClientError::MissingKey),
            },
    {
        match key_1 {
            Some(k) => {
                if k.as_str().is_empty() {
                    Err(ClientError::MissingKey)
                } else {
                    Ok(Client::new(k, key_2))
                }
            },
            None => Err(ClientError::MissingKey),
        }
    }

    /// Switches to the managed-container family: service, API version and
    /// default zone change together.
    pub fn dok(self) -> (r: Client)
        ensures
            r@ == (ClientView {
                service: container_service(),
                api_version: container_version(),
                zone: Zone::Ishikari1,
                ..self@
            }),
    {
        let mut c = self;
        c.service = String::from_str("managed-container");
        c.api_version = String::from_str("1.0");
        c.zone = Zone::Ishikari1;
        c
    }

    pub fn get_zone(&self) -> (r: Zone)
        ensures
            r == self@.zone,
    {
        self.zone
    }

    pub fn set_zone(self, zone: Zone) -> (r: Client)
        ensures
            r@ == (ClientView { zone, ..self@ }),
    {
        let mut c = self;
        c.zone = zone;
        c
    }

    /// Empties the accumulated suffix and the pending body.
    pub fn clear(self) -> (r: Client)
        ensures
            r@ == cleared(self@),
    {
        let mut c = self;
        c.url = String::new();
        c.body = String::new();
        c
    }

    /// Replaces the pending body with an encoded JSON text.
    pub fn set_body(self, body: String) -> (r: Client)
        ensures
            r@ == (ClientView { body: body@, ..self@ }),
    {
        let mut c = self;
        c.body = body;
        c
    }

    /// The full request URL.
    pub fn full_url(&self) -> (r: String)
        ensures
            r@ == url_of(self@),
    {
        let mut s = String::from_str(BASE_URL);
        s.append("/");
        let name = self.zone.name();
        s.append(name.as_str());
        s.append("/api/");
        s.append(self.service.as_str());
        s.append("/");
        s.append(self.api_version.as_str());
        s.append(self.url.as_str());
        s
    }

    fn extend_url(self, s: &str) -> (r: Client)
        ensures
            r@ == (ClientView { suffix: self@.suffix + s@, ..self@ }),
    {
        let mut c = self;
        c.url.append(s);
        c
    }

    /// A fresh builder with the same credentials, its zone set to `Ishikari1`
    /// whatever this builder holds.
    pub fn lifecycle_base(&self) -> (r: Client)
        ensures
            r@ == lifecycle_view(self@, Seq::empty()),
    {
        Client {
            key_1: self.key_1.clone(),
            key_2: clone_opt(&self.key_2),
            zone: Zone::Ishikari1,
            service: String::from_str("cloud"),
            api_version: String::from_str("1.1"),
            url: String::new(),
            body: String::new(),
        }
    }

    /// The request with verb `method` that this builder describes.
    pub fn request(&self, method: Method) -> (r: HttpRequest)
        ensures
            request_of(self@, method, r),
    {
        let url = self.full_url();
        self.request_to(method, url)
    }

    /// The request with verb `method` that this builder describes, sent to
    /// `url` in place of its own URL.
    pub fn request_to(&self, method: Method, url: String) -> (r: HttpRequest)
        ensures
            request_to(self@, method, url@, r),
    {
        let body = match method {
            Method::Get => None,
            _ => Some(self.body.clone()),
        };
        HttpRequest {
            method,
            url,
            user: self.key_1.clone(),
            password: clone_opt(&self.key_2),
            body,
        }
    }

    /// A `Get` request whose URL carries `params` as its query; fails where
    /// the URL does not parse.
    pub fn request_with_params(&self, params: &Vec<(String, String)>) -> (r: Result<HttpRequest, ClientError>)
        ensures
            match query_url(url_of(self@), pairs_view(params@)) {
                Some(u) => r is Ok && request_to(self@, Method::Get, u, r->Ok_0),
                None => r == Err::<HttpRequest, ClientError>(ClientError::InvalidUrl),
            },
    {
        let base = self.full_url();
        match parse_with_params(base.as_str(), params) {
            Some(url) => Ok(self.request_to(Method::Get, url)),
            None => Err(ClientError::InvalidUrl),
        }
    }

    /// Appends the collection endpoint of a project's zone.
    pub fn instances(self, project_id: &str, zone: &Zone) -> (r: Client)
        ensures
            r@ == (ClientView { suffix: self@.suffix + instances_path(project_id@, *zone), ..self@ }),
    {
        let path = instances_suffix(project_id, zone);
        self.extend_url(path.as_str())
    }

    /// Appends the start endpoint of one instance.
    pub fn launch(self, project_id: &str, instance_name: &str, zone: &Zone) -> (r: Client)
        ensures
            r@ == (ClientView {
                suffix: self@.suffix + launch_path(project_id@, instance_name@, *zone),
                ..self@
            }),
    {
        let mut path = instance_suffix(project_id, instance_name, zone);
        path.append("/start");
        self.extend_url(path.as_str())
    }

    /// Appends the stop endpoint of one instance.
    pub fn shutdown(self, project_id: &str, instance_name: &str, zone: &Zone) -> (r: Client)
        ensures
            r@ == (ClientView {
                suffix: self@.suffix + shutdown_path(project_id@, instance_name@, *zone),
                ..self@
            }),
    {
        let mut path = instance_suffix(project_id, instance_name, zone);
        path.append("/stop");
        self.extend_url(path.as_str())
    }

    /// Appends the endpoint of one instance, with no verb after it.
    pub fn delete_instance(self, project_id: &str, instance_name: &str, zone: &Zone) -> (r: Client)
        ensures
            r@ == (ClientView {
                suffix: self@.suffix + instance_path(project_id@, instance_name@, *zone),
                ..self@
            }),
    {
        let path = instance_suffix(project_id, instance_name, zone);
        self.extend_url(path.as_str())
    }

    /// Appends the collection endpoint; listing and creating share it.
    pub fn list(self, project_id: &str, zone: &Zone) -> (r: Client)
        ensures
            r@ == (ClientView { suffix: self@.suffix + list_path(project_id@, *zone), ..self@ }),
    {
        let path = instances_suffix(project_id, zone);
        self.extend_url(path.as_str())
    }
}

fn instances_suffix(project_id: &str, zone: &Zone) -> (r: String)
    ensures
        r@ == instances_path(project_id@, *zone),
{
    let mut s = String::from_str("/projects/");
    s.append(project_id);
    s.append("/zones/");
    let code = zone.code();
    s.append(code.as_str());
    s.append("/instances");
    s
}

fn instance_suffix(project_id: &str, instance_name: &str, zone: &Zone) -> (r: String)
    ensures
        r@ == instance_path(project_id@, instance_name@, *zone),
{
    let mut s = instances_suffix(project_id, zone);
    s.append("/");
    s.append(instance_name);
    s
}

} // verus!
