//! The API client: where requests go and with which credentials, and the
//! request that each operation of the API sends.
use vstd::prelude::*;
use crate::http::{header, ApiRequest, ApiRequestView, HttpMethod};

verus! {

/// The endpoint used when none is configured.
pub open spec fn default_endpoint() -> Seq<char> {
    "https://api.openai.com/v1"@
}

fn default_endpoint_str() -> (s: &'static str)
    ensures
        s@ == default_endpoint(),
{
    "https://api.openai.com/v1"
}

/// A client of the API: the endpoint that paths are appended to, the key
/// that authorizes requests and, optionally, the organization they are
/// billed to.
pub struct Client {
    pub api_endpoint: String,
    pub api_key: String,
    pub organization: Option<String>,
}

impl Client {
    /// The headers every request made through [`Client::build_request`]
    /// receives, in order: the JSON content type, the bearer key, and the
    /// organization where one is set.
    pub open spec fn auth_headers(&self) -> Seq<(Seq<char>, Seq<char>)> {
        seq![("Content-Type"@, "application/json"@), ("Authorization"@, "Bearer "@ + self.api_key@)]
            + match self.organization {
            Some(org) => seq![("openai-organization"@, org@)],
            None => Seq::<(Seq<char>, Seq<char>)>::empty(),
        }
    }

    /// The URL of a path of the API.
    pub open spec fn url_of(&self, path: Seq<char>) -> Seq<char> {
        self.api_endpoint@ + path
    }

    /// The request that `method` on `path` sends, with an optional JSON body.
    pub open spec fn request_view(
        &self,
        method: HttpMethod,
        path: Seq<char>,
        json_body: Option<Seq<char>>,
    ) -> ApiRequestView {
        ApiRequestView {
            method,
            url: self.url_of(path),
            headers: self.auth_headers(),
            json_body,
        }
    }

    /// The request of a `POST` on `path` with a JSON body.
    pub open spec fn post_view(&self, path: Seq<char>, json_body: Seq<char>) -> ApiRequestView {
        self.request_view(HttpMethod::Post, path, Some(json_body))
    }

    /// The request of a `GET` on `path`.
    pub open spec fn get_view(&self, path: Seq<char>) -> ApiRequestView {
        self.request_view(HttpMethod::Get, path, None)
    }

    /// The request of a `DELETE` on `path`.
    pub open spec fn delete_view(&self, path: Seq<char>) -> ApiRequestView {
        self.request_view(HttpMethod::Delete, path, None)
    }

    /// A client of the default endpoint, or of `api_base` where the caller
    /// has one configured (the `OPENAI_API_BASE` setting of the
    /// environment).
    pub fn new(api_key: String, api_base: Option<String>) -> (c: Client)
        ensures
            c.api_endpoint@ == (match api_base {
                Some(base) => base@,
                None => default_endpoint(),
            }),
            c.api_key@ == api_key@,
            c.organization is None,
    {
        let endpoint = match api_base {
            Some(base) => base,
            None => default_endpoint_str().to_owned(),
        };
        Client::new_with_endpoint(endpoint, api_key)
    }

    /// A client of the given endpoint, with no organization.
    pub fn new_with_endpoint(api_endpoint: String, api_key: String) -> (c: Client)
        ensures
            c.api_endpoint@ == api_endpoint@,
            c.api_key@ == api_key@,
            c.organization is None,
    {
        Client { api_endpoint, api_key, organization: None }
    }

    /// A client billed to `organization`, of the default endpoint or of
    /// `api_base` where the caller has one configured.
    pub fn new_with_organization(
        api_key: String,
        organization: String,
        api_base: Option<String>,
    ) -> (c: Client)
        ensures
            c.api_endpoint@ == (match api_base {
                Some(base) => base@,
                None => default_endpoint(),
            }),
            c.api_key@ == api_key@,
            c.organization matches Some(org) && org@ == organization@,
    {
        let endpoint = match api_base {
            Some(base) => base,
            None => default_endpoint_str().to_owned(),
        };
        Client { api_endpoint: endpoint, api_key, organization: Some(organization) }
    }

    /// Adds the client's headers to a request, after those it has: the JSON
    /// content type, `Authorization: Bearer <key>`, and
    /// `openai-organization` where an organization is set.
    pub fn build_request(&self, request: ApiRequest) -> (r: ApiRequest)
        ensures
            r@ == (ApiRequestView { headers: request@.headers + self.auth_headers(), ..request@ }),
    {
        let ApiRequest { method, url, headers, json_body } = request;
        let mut headers = headers;
        let ghost before = headers@;
        proof { reveal_strlit("Bearer "); }
        let mut bearer = String::from_str("Bearer ");
        bearer.append(self.api_key.as_str());
        headers.push(header("Content-Type", String::from_str("application/json")));
        headers.push(header("Authorization", bearer));
        match &self.organization {
            Some(org) => {
                headers.push(header("openai-organization", org.clone()));
            },
            None => {},
        }
        let r = ApiRequest { method, url, headers, json_body };
        assert(crate::http::headers_view(r.headers@) =~= crate::http::headers_view(before) + self.auth_headers());
        r
    }

    fn url_for(&self, path: &str) -> (u: String)
        ensures
            u@ == self.url_of(path@),
    {
        let mut url = self.api_endpoint.clone();
        url.append(path);
        url
    }

    fn request(&self, method: HttpMethod, path: &str, json_body: Option<String>) -> (r: ApiRequest)
        ensures
            r@ == self.request_view(method, path@, crate::http::string_option_view(json_body)),
    {
        let bare = ApiRequest {
            method,
            url: self.url_for(path),
            headers: Vec::new(),
            json_body,
        };
        let r = self.build_request(bare);
        assert(r@.headers =~= self.auth_headers());
        r
    }

    /// Every request that a client sends through `post`, `get` or `delete`
    /// carries its key as a bearer token, goes to its endpoint followed by
    /// the path, and names an organization exactly when the client has one,
    /// and then that one.
    pub proof fn lemma_requests_carry_credentials(
        &self,
        method: HttpMethod,
        path: Seq<char>,
        json_body: Option<Seq<char>>,
    )
        ensures
            self.request_view(method, path, json_body).headers.contains(
                ("Authorization"@, "Bearer "@ + self.api_key@),
            ),
            self.request_view(method, path, json_body).url == self.api_endpoint@ + path,
            (exists|v: Seq<char>|
                #[trigger] self.request_view(method, path, json_body).headers.contains(
                    ("openai-organization"@, v),
                )) <==> self.organization is Some,
            self.organization matches Some(org) ==> self.request_view(
                method,
                path,
                json_body,
            ).headers.contains(("openai-organization"@, org@)),
    {
        reveal_strlit("Content-Type");
        reveal_strlit("Authorization");
        reveal_strlit("openai-organization");
        let h = self.request_view(method, path, json_body).headers;
        assert(h[1] == ("Authorization"@, "Bearer "@ + self.api_key@));
        match self.organization {
            Some(org) => {
                assert(h[2] == ("openai-organization"@, org@));
                assert(self.request_view(method, path, json_body).headers.contains(
                    ("openai-organization"@, org@),
                ));
            },
            None => {
                assert(h.len() == 2);
                assert forall|v: Seq<char>| !h.contains(("openai-organization"@, v)) by {
                    if h.contains(("openai-organization"@, v)) {
                        let k = choose|k: int| 0 <= k < h.len() && h[k] == ("openai-organization"@, v);
                        assert(k == 0 || k == 1);
                        assert(h[k].0.len() != "openai-organization"@.len());
                    }
                }
            },
        }
    }

    /// A `POST` goes to the endpoint followed by the path, carries the JSON
    /// body, the JSON content type and the bearer key, and is billed to the
    /// client's organization when it has one (never to another).
    pub proof fn lemma_post_request(&self, path: Seq<char>, json_body: Seq<char>)
        ensures
            ({
                let r = self.post_view(path, json_body);
                &&& r.method == HttpMethod::Post
                &&& r.url == self.api_endpoint@ + path
                &&& r.json_body == Some(json_body)
                &&& r.headers.contains(("Content-Type"@, "application/json"@))
                &&& r.headers.contains(("Authorization"@, "Bearer "@ + self.api_key@))
                &&& (self.organization matches Some(org) ==> r.headers.contains(
                    ("openai-organization"@, org@),
                ))
                &&& ((exists|v: Seq<char>| #[trigger] r.headers.contains(("openai-organization"@, v)))
                    <==> self.organization is Some)
            }),
    {
        self.lemma_requests_carry_credentials(HttpMethod::Post, path, Some(json_body));
        assert(self.post_view(path, json_body).headers[0] == ("Content-Type"@, "application/json"@));
    }

    /// A `GET` goes to the endpoint followed by the path, has no body,
    /// carries the JSON content type and the bearer key, and is billed to
    /// the client's organization when it has one (never to another).
    pub proof fn lemma_get_request(&self, path: Seq<char>)
        ensures
            ({
                let r = self.get_view(path);
                &&& r.method == HttpMethod::Get
                &&& r.url == self.api_endpoint@ + path
                &&& r.json_body is None
                &&& r.headers.contains(("Content-Type"@, "application/json"@))
                &&& r.headers.contains(("Authorization"@, "Bearer "@ + self.api_key@))
                &&& (self.organization matches Some(org) ==> r.headers.contains(
                    ("openai-organization"@, org@),
                ))
                &&& ((exists|v: Seq<char>| #[trigger] r.headers.contains(("openai-organization"@, v)))
                    <==> self.organization is Some)
            }),
    {
        self.lemma_requests_carry_credentials(HttpMethod::Get, path, None);
        assert(self.get_view(path).headers[0] == ("Content-Type"@, "application/json"@));
    }

    /// A `DELETE` goes to the endpoint followed by the path, has no body,
    /// carries the JSON content type and the bearer key, and is billed to
    /// the client's organization when it has one (never to another).
    pub proof fn lemma_delete_request(&self, path: Seq<char>)
        ensures
            ({
                let r = self.delete_view(path);
                &&& r.method == HttpMethod::Delete
                &&& r.url == self.api_endpoint@ + path
                &&& r.json_body is None
                &&& r.headers.contains(("Content-Type"@, "application/json"@))
                &&& r.headers.contains(("Authorization"@, "Bearer "@ + self.api_key@))
                &&& (self.organization matches Some(org) ==> r.headers.contains(
                    ("openai-organization"@, org@),
                ))
                &&& ((exists|v: Seq<char>| #[trigger] r.headers.contains(("openai-organization"@, v)))
                    <==> self.organization is Some)
            }),
    {
        self.lemma_requests_carry_credentials(HttpMethod::Delete, path, None);
        assert(self.delete_view(path).headers[0] == ("Content-Type"@, "application/json"@));
    }

    /// The `POST` of a JSON body to `path`.
    pub fn post(&self, path: &str, params_json: String) -> (r: ApiRequest)
        ensures
            r@ == self.post_view(path@, params_json@),
    {
        self.request(HttpMethod::Post, path, Some(params_json))
    }

    /// The `GET` of `path`.
    pub fn get(&self, path: &str) -> (r: ApiRequest)
        ensures
            r@ == self.get_view(path@),
    {
        self.request(HttpMethod::Get, path, None)
    }

    /// The `DELETE` of `path`.
    pub fn delete(&self, path: &str) -> (r: ApiRequest)
        ensures
            r@ == self.delete_view(path@),
    {
        self.request(HttpMethod::Delete, path, None)
    }
}

} // verus!
