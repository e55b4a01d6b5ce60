use vstd::prelude::*;
use vstd::string::StringExecFns;

verus! {

/// HTTP request methods.
#[derive(Debug, Clone, Copy, PartialEq, Eq, Structural)]
pub enum HttpMethod {
    GET,
    POST,
    PUT,
    PATCH,
    DELETE,
    HEAD,
    OPTIONS,
}

/// The wire name of a method.
pub open spec fn method_name(m: HttpMethod) -> Seq<char> {
    match m {
        HttpMethod::GET => "GET"@,
        HttpMethod::POST => "POST"@,
        HttpMethod::PUT => "PUT"@,
        HttpMethod::PATCH => "PATCH"@,
        HttpMethod::DELETE => "DELETE"@,
        HttpMethod::HEAD => "HEAD"@,
        HttpMethod::OPTIONS => "OPTIONS"@,
    }
}

/// Every method, in menu order.
pub open spec fn all_methods() -> Seq<HttpMethod> {
    seq![
        HttpMethod::GET,
        HttpMethod::POST,
        HttpMethod::PUT,
        HttpMethod::PATCH,
        HttpMethod::DELETE,
        HttpMethod::HEAD,
        HttpMethod::OPTIONS,
    ]
}

impl HttpMethod {
    pub fn as_str(&self) -> (r: &'static str)
        ensures
            r@ == method_name(*self),
    {
        match self {
            HttpMethod::GET => "GET",
            HttpMethod::POST => "POST",
            HttpMethod::PUT => "PUT",
            HttpMethod::PATCH => "PATCH",
            HttpMethod::DELETE => "DELETE",
            HttpMethod::HEAD => "HEAD",
            HttpMethod::OPTIONS => "OPTIONS",
        }
    }

    pub fn all() -> (r: Vec<HttpMethod>)
        ensures
            r@ == all_methods(),
    {
        let r = vec![
            HttpMethod::GET,
            HttpMethod::POST,
            HttpMethod::PUT,
            HttpMethod::PATCH,
            HttpMethod::DELETE,
            HttpMethod::HEAD,
            HttpMethod::OPTIONS,
        ];
        assert(r@ =~= all_methods());
        r
    }
}

/// HTTP header key-value pair.
#[derive(Debug, Clone, PartialEq)]
pub struct HttpHeader {
    pub name: String,
    pub value: String,
    pub enabled: bool,
}

impl HttpHeader {
    pub fn new(name: &str, value: &str) -> (r: HttpHeader)
        ensures
            r.name@ == name@,
            r.value@ == value@,
            r.enabled,
    {
        HttpHeader { name: String::from_str(name), value: String::from_str(value), enabled: true }
    }

    pub fn with_enabled(self, enabled: bool) -> (r: HttpHeader)
        ensures
            r.name == self.name,
            r.value == self.value,
            r.enabled == enabled,
    {
        let mut h = self;
        h.enabled = enabled;
        h
    }
}

/// Query parameter key-value pair.
#[derive(Debug, Clone)]
pub struct HttpQueryParam {
    pub name: String,
    pub value: String,
    pub enabled: bool,
}

impl HttpQueryParam {
    pub fn new(name: &str, value: &str) -> (r: HttpQueryParam)
        ensures
            r.name@ == name@,
            r.value@ == value@,
            r.enabled,
    {
        HttpQueryParam {
            name: String::from_str(name),
            value: String::from_str(value),
            enabled: true,
        }
    }
}

/// Request body types.
#[derive(Debug, Clone, PartialEq)]
pub enum HttpRequestBody {
    Empty,
    Text { content: String, content_type: String },
    Json { content: String },
    Form { fields: Vec<HttpFormField> },
    Raw { content: String },
}

/// Form field for form-data requests.
#[derive(Debug, Clone, PartialEq)]
pub struct HttpFormField {
    pub name: String,
    pub value: String,
    pub enabled: bool,
}

impl HttpFormField {
    pub fn new(name: &str, value: &str) -> (r: HttpFormField)
        ensures
            r.name@ == name@,
            r.value@ == value@,
            r.enabled,
    {
        HttpFormField {
            name: String::from_str(name),
            value: String::from_str(value),
            enabled: true,
        }
    }
}

/// Authentication types for HTTP requests.
#[derive(Debug, Clone, PartialEq)]
pub enum HttpAuth {
    NoAuth,
    Basic { username: String, password: String },
    Bearer { token: String },
    ApiKey { key: String, value: String, location: ApiKeyLocation },
}

#[derive(Debug, Clone, Copy, PartialEq, Eq, Structural)]
pub enum ApiKeyLocation {
    Header,
    QueryParam,
}

/// HTTP request model.
#[derive(Debug, Clone)]
pub struct HttpRequest {
    pub name: String,
    pub method: HttpMethod,
    pub url: String,
    pub headers: Vec<HttpHeader>,
    pub query_params: Vec<HttpQueryParam>,
    pub body: HttpRequestBody,
    pub auth: HttpAuth,
    pub description: String,
}

/// A request named `name` with nothing else set.
pub open spec fn is_blank_request(r: HttpRequest, name: Seq<char>) -> bool {
    &&& r.name@ == name
    &&& r.method == HttpMethod::GET
    &&& r.url@.len() == 0
    &&& r.headers@.len() == 0
    &&& r.query_params@.len() == 0
    &&& r.body is Empty
    &&& r.auth is NoAuth
    &&& r.description@.len() == 0
}

impl HttpRequest {
    pub fn new(name: &str) -> (r: HttpRequest)
        ensures
            is_blank_request(r, name@),
    {
        HttpRequest {
            name: String::from_str(name),
            method: HttpMethod::GET,
            url: String::new(),
            headers: Vec::new(),
            query_params: Vec::new(),
            body: HttpRequestBody::Empty,
            auth: HttpAuth::NoAuth,
            description: String::new(),
        }
    }

    pub fn with_method(self, method: HttpMethod) -> (r: HttpRequest)
        ensures
            r == (HttpRequest { method, ..self }),
    {
        let mut q = self;
        q.method = method;
        q
    }

    pub fn with_url(self, url: &str) -> (r: HttpRequest)
        ensures
            r.url@ == url@,
            r == (HttpRequest { url: r.url, ..self }),
    {
        let mut q = self;
        q.url = String::from_str(url);
        q
    }

    pub fn with_header(self, name: &str, value: &str) -> (r: HttpRequest)
        ensures
            r.headers@.len() == self.headers@.len() + 1,
            r.headers@.drop_last() == self.headers@,
            r.headers@.last().name@ == name@,
            r.headers@.last().value@ == value@,
            r.headers@.last().enabled,
            r == (HttpRequest { headers: r.headers, ..self }),
    {
        let mut q = self;
        q.headers.push(HttpHeader::new(name, value));
        assert(q.headers@.drop_last() =~= self.headers@);
        q
    }
}

/// HTTP response model.
#[derive(Debug, Clone, PartialEq)]
pub struct HttpResponse {
    pub status_code: u16,
    pub status_text: String,
    pub headers: Vec<HttpHeader>,
    pub body: String,
    pub content_type: String,
    pub duration_ms: u64,
}

impl HttpResponse {
    pub fn is_success(&self) -> (r: bool)
        ensures
            r == (200 <= self.status_code < 300),
    {
        self.status_code >= 200 && self.status_code < 300
    }

    pub fn is_error(&self) -> (r: bool)
        ensures
            r == (self.status_code >= 400),
    {
        self.status_code >= 400
    }
}

/// HTTP collection: requests and nested folders.
#[derive(Debug)]
pub struct HttpCollection {
    pub name: String,
    pub requests: Vec<HttpRequest>,
    pub folders: Vec<HttpCollection>,
    pub description: String,
}

impl HttpCollection {
    pub fn new(name: &str) -> (r: HttpCollection)
        ensures
            r.name@ == name@,
            r.requests@.len() == 0,
            r.folders@.len() == 0,
            r.description@.len() == 0,
    {
        HttpCollection {
            name: String::from_str(name),
            requests: Vec::new(),
            folders: Vec::new(),
            description: String::new(),
        }
    }

    pub fn add_request(&mut self, request: HttpRequest)
        ensures
            final(self).requests@ == old(self).requests@.push(request),
            final(self).folders == old(self).folders,
            final(self).name == old(self).name,
            final(self).description == old(self).description,
    {
        self.requests.push(request);
    }

    pub fn add_folder(&mut self, folder: HttpCollection)
        ensures
            final(self).folders@ == old(self).folders@.push(folder),
            final(self).requests == old(self).requests,
            final(self).name == old(self).name,
            final(self).description == old(self).description,
    {
        self.folders.push(folder);
    }
}

} // verus!

verus! {

/// Two bodies hold the same content.
pub open spec fn same_body(a: HttpRequestBody, b: HttpRequestBody) -> bool {
    match (a, b) {
        (HttpRequestBody::Form { fields: x }, HttpRequestBody::Form { fields: y }) => x@ == y@,
        (HttpRequestBody::Form { .. }, _) => false,
        (_, HttpRequestBody::Form { .. }) => false,
        _ => a == b,
    }
}

/// Two requests hold the same content.
pub open spec fn same_request(a: HttpRequest, b: HttpRequest) -> bool {
    &&& a.name == b.name
    &&& a.method == b.method
    &&& a.url == b.url
    &&& a.headers@ == b.headers@
    &&& a.query_params@ == b.query_params@
    &&& same_body(a.body, b.body)
    &&& a.auth == b.auth
    &&& a.description == b.description
}

impl HttpHeader {
    pub fn duplicate(&self) -> (r: HttpHeader)
        ensures
            r == *self,
    {
        HttpHeader { name: self.name.clone(), value: self.value.clone(), enabled: self.enabled }
    }
}

impl HttpQueryParam {
    pub fn duplicate(&self) -> (r: HttpQueryParam)
        ensures
            r == *self,
    {
        HttpQueryParam {
            name: self.name.clone(),
            value: self.value.clone(),
            enabled: self.enabled,
        }
    }
}

impl HttpFormField {
    pub fn duplicate(&self) -> (r: HttpFormField)
        ensures
            r == *self,
    {
        HttpFormField {
            name: self.name.clone(),
            value: self.value.clone(),
            enabled: self.enabled,
        }
    }
}

impl HttpAuth {
    pub fn duplicate(&self) -> (r: HttpAuth)
        ensures
            r == *self,
    {
        match self {
            HttpAuth::NoAuth => HttpAuth::NoAuth,
            HttpAuth::Basic { username, password } => HttpAuth::Basic {
                username: username.clone(),
                password: password.clone(),
            },
            HttpAuth::Bearer { token } => HttpAuth::Bearer { token: token.clone() },
            HttpAuth::ApiKey { key, value, location } => HttpAuth::ApiKey {
                key: key.clone(),
                value: value.clone(),
                location: *location,
            },
        }
    }
}

impl HttpRequestBody {
    pub fn duplicate(&self) -> (r: HttpRequestBody)
        ensures
            same_body(r, *self),
    {
        match self {
            HttpRequestBody::Empty => HttpRequestBody::Empty,
            HttpRequestBody::Text { content, content_type } => HttpRequestBody::Text {
                content: content.clone(),
                content_type: content_type.clone(),
            },
            HttpRequestBody::Json { content } => HttpRequestBody::Json { content: content.clone() },
            HttpRequestBody::Form { fields } => {
                let mut out: Vec<HttpFormField> = Vec::new();
                let mut i: usize = 0;
                while i < fields.len()
                    invariant
                        i <= fields@.len(),
                        out@ == fields@.subrange(0, i as int),
                    decreases fields@.len() - i,
                {
                    out.push(fields[i].duplicate());
                    assert(out@ =~= fields@.subrange(0, i + 1));
                    i = i + 1;
                }
                assert(out@ =~= fields@);
                HttpRequestBody::Form { fields: out }
            },
            HttpRequestBody::Raw { content } => HttpRequestBody::Raw { content: content.clone() },
        }
    }
}

impl HttpRequest {
    /// A copy of the request.
    pub fn duplicate(&self) -> (r: HttpRequest)
        ensures
            same_request(r, *self),
    {
        let mut headers: Vec<HttpHeader> = Vec::new();
        let mut i: usize = 0;
        while i < self.headers.len()
            invariant
                i <= self.headers@.len(),
                headers@ == self.headers@.subrange(0, i as int),
            decreases self.headers@.len() - i,
        {
            headers.push(self.headers[i].duplicate());
            assert(headers@ =~= self.headers@.subrange(0, i + 1));
            i = i + 1;
        }
        assert(headers@ =~= self.headers@);
        let mut params: Vec<HttpQueryParam> = Vec::new();
        let mut j: usize = 0;
        while j < self.query_params.len()
            invariant
                j <= self.query_params@.len(),
                params@ == self.query_params@.subrange(0, j as int),
            decreases self.query_params@.len() - j,
        {
            params.push(self.query_params[j].duplicate());
            assert(params@ =~= self.query_params@.subrange(0, j + 1));
            j = j + 1;
        }
        assert(params@ =~= self.query_params@);
        HttpRequest {
            name: self.name.clone(),
            method: self.method,
            url: self.url.clone(),
            headers,
            query_params: params,
            body: self.body.duplicate(),
            auth: self.auth.duplicate(),
            description: self.description.clone(),
        }
    }
}

} // verus!
