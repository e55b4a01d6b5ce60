use vstd::prelude::*;
use vstd::string::StringExecFns;
use crate::http_client::{
    is_blank_request, HttpHeader, HttpMethod, HttpQueryParam, HttpRequest, HttpRequestBody,
    HttpResponse,
};
use crate::automation::string_texts;
use crate::text::{has_prefix, is_blank, same_text, starts_with, trimmed};

verus! {

/// Tabs of the request editor.
#[derive(Debug, Clone, Copy, PartialEq, Eq, Structural)]
pub enum HttpRequestTab {
    Headers,
    Body,
    QueryParams,
    Auth,
    Settings,
}

pub open spec fn request_tabs() -> Seq<HttpRequestTab> {
    seq![
        HttpRequestTab::Headers,
        HttpRequestTab::Body,
        HttpRequestTab::QueryParams,
        HttpRequestTab::Auth,
        HttpRequestTab::Settings,
    ]
}

pub open spec fn request_tab_index(t: HttpRequestTab) -> int {
    match t {
        HttpRequestTab::Headers => 0,
        HttpRequestTab::Body => 1,
        HttpRequestTab::QueryParams => 2,
        HttpRequestTab::Auth => 3,
        HttpRequestTab::Settings => 4,
    }
}

impl HttpRequestTab {
    pub fn all() -> (r: Vec<HttpRequestTab>)
        ensures
            r@ == request_tabs(),
    {
        let r = vec![
            HttpRequestTab::Headers,
            HttpRequestTab::Body,
            HttpRequestTab::QueryParams,
            HttpRequestTab::Auth,
            HttpRequestTab::Settings,
        ];
        assert(r@ =~= request_tabs());
        r
    }

    pub fn title(&self) -> (r: &'static str)
        ensures
            r@ == match *self {
                HttpRequestTab::Headers => "Headers"@,
                HttpRequestTab::Body => "Body"@,
                HttpRequestTab::QueryParams => "Query"@,
                HttpRequestTab::Auth => "Auth"@,
                HttpRequestTab::Settings => "Settings"@,
            },
    {
        match self {
            HttpRequestTab::Headers => "Headers",
            HttpRequestTab::Body => "Body",
            HttpRequestTab::QueryParams => "Query",
            HttpRequestTab::Auth => "Auth",
            HttpRequestTab::Settings => "Settings",
        }
    }
}

/// Tabs of the response viewer.
#[derive(Debug, Clone, Copy, PartialEq, Eq, Structural)]
pub enum HttpResponseTab {
    Body,
    Headers,
    Info,
}

pub open spec fn response_tabs() -> Seq<HttpResponseTab> {
    seq![HttpResponseTab::Body, HttpResponseTab::Headers, HttpResponseTab::Info]
}

pub open spec fn response_tab_index(t: HttpResponseTab) -> int {
    match t {
        HttpResponseTab::Body => 0,
        HttpResponseTab::Headers => 1,
        HttpResponseTab::Info => 2,
    }
}

impl HttpResponseTab {
    pub fn all() -> (r: Vec<HttpResponseTab>)
        ensures
            r@ == response_tabs(),
    {
        let r = vec![HttpResponseTab::Body, HttpResponseTab::Headers, HttpResponseTab::Info];
        assert(r@ =~= response_tabs());
        r
    }

    pub fn title(&self) -> (r: &'static str)
        ensures
            r@ == match *self {
                HttpResponseTab::Body => "Body"@,
                HttpResponseTab::Headers => "Headers"@,
                HttpResponseTab::Info => "Info"@,
            },
    {
        match self {
            HttpResponseTab::Body => "Body",
            HttpResponseTab::Headers => "Headers",
            HttpResponseTab::Info => "Info",
        }
    }
}

/// Body kinds the editor offers.
#[derive(Debug, Clone, Copy, PartialEq, Eq, Structural)]
pub enum BodyContentType {
    Empty,
    Json,
    Text,
    Form,
    Raw,
}

pub open spec fn body_types() -> Seq<BodyContentType> {
    seq![
        BodyContentType::Empty,
        BodyContentType::Json,
        BodyContentType::Text,
        BodyContentType::Form,
        BodyContentType::Raw,
    ]
}

/// The editor's body kind for a request body.
pub open spec fn body_type_of(b: HttpRequestBody) -> BodyContentType {
    match b {
        HttpRequestBody::Empty => BodyContentType::Empty,
        HttpRequestBody::Json { .. } => BodyContentType::Json,
        HttpRequestBody::Text { .. } => BodyContentType::Text,
        HttpRequestBody::Form { .. } => BodyContentType::Form,
        HttpRequestBody::Raw { .. } => BodyContentType::Raw,
    }
}

impl BodyContentType {
    pub fn all() -> (r: Vec<BodyContentType>)
        ensures
            r@ == body_types(),
    {
        let r = vec![
            BodyContentType::Empty,
            BodyContentType::Json,
            BodyContentType::Text,
            BodyContentType::Form,
            BodyContentType::Raw,
        ];
        assert(r@ =~= body_types());
        r
    }

    pub fn title(&self) -> (r: &'static str)
        ensures
            r@ == match *self {
                BodyContentType::Empty => "None"@,
                BodyContentType::Json => "JSON"@,
                BodyContentType::Text => "Text"@,
                BodyContentType::Form => "Form"@,
                BodyContentType::Raw => "Raw"@,
            },
    {
        match self {
            BodyContentType::Empty => "None",
            BodyContentType::Json => "JSON",
            BodyContentType::Text => "Text",
            BodyContentType::Form => "Form",
            BodyContentType::Raw => "Raw",
        }
    }
}

/// How many recent URLs are remembered.
pub const RECENT_URL_LIMIT: usize = 20;

/// The recent-URL list after `url` was set.
pub open spec fn recent_after(recent: Seq<Seq<char>>, url: Seq<char>) -> Seq<Seq<char>> {
    if url.len() > 0 && !recent.contains(url) {
        let grown = seq![url] + recent;
        if grown.len() > RECENT_URL_LIMIT {
            grown.take(RECENT_URL_LIMIT as int)
        } else {
            grown
        }
    } else {
        recent
    }
}

/// The messages for a request URL that cannot be sent.
pub open spec fn url_errors(url: Seq<char>) -> Seq<Seq<char>> {
    let a: Seq<Seq<char>> = if trimmed(url).len() == 0 {
        seq!["URL is required"@]
    } else {
        seq![]
    };
    if url.len() > 0 && !has_prefix(url, "http://"@) && !has_prefix(url, "https://"@) {
        a.push("URL must start with http:// or https://"@)
    } else {
        a
    }
}

/// State of the HTTP mode: the request being edited and the last response.
#[derive(Debug, Clone)]
pub struct HttpState {
    /// Currently edited request
    pub current_request: HttpRequest,
    /// Current tab in request editor
    pub current_request_tab: HttpRequestTab,
    /// Current tab in response viewer
    pub current_response_tab: HttpResponseTab,
    /// Current body content type being edited
    pub current_body_type: BodyContentType,
    /// Currently focused field index
    pub focused_field: usize,
    /// Most recent response, if any
    pub last_response: Option<HttpResponse>,
    /// Whether a request is in flight
    pub is_sending: bool,
    /// Recent URLs, newest first
    pub recent_urls: Vec<String>,
    /// Variables for template substitution, by name
    pub environment_vars: Vec<(String, String)>,
}

impl HttpState {
    pub fn new() -> (r: HttpState)
        ensures
            is_blank_request(r.current_request, "New Request"@),
            r.current_request_tab == HttpRequestTab::Headers,
            r.current_response_tab == HttpResponseTab::Body,
            r.current_body_type == BodyContentType::Empty,
            r.focused_field == 0,
            r.last_response is None,
            !r.is_sending,
            r.recent_urls@.len() == 0,
            r.environment_vars@.len() == 0,
    {
        HttpState {
            current_request: HttpRequest::new("New Request"),
            current_request_tab: HttpRequestTab::Headers,
            current_response_tab: HttpResponseTab::Body,
            current_body_type: BodyContentType::Empty,
            focused_field: 0,
            last_response: None,
            is_sending: false,
            recent_urls: Vec::new(),
            environment_vars: Vec::new(),
        }
    }

    /// Switches to the next request tab, wrapping around.
    pub fn next_request_tab(&mut self)
        ensures
            final(self).current_request_tab == request_tabs()[(request_tab_index(
                old(self).current_request_tab,
            ) + 1) % 5],
            *final(self) == (HttpState {
                current_request_tab: final(self).current_request_tab,
                ..*old(self)
            }),
    {
        self.current_request_tab = match self.current_request_tab {
            HttpRequestTab::Headers => HttpRequestTab::Body,
            HttpRequestTab::Body => HttpRequestTab::QueryParams,
            HttpRequestTab::QueryParams => HttpRequestTab::Auth,
            HttpRequestTab::Auth => HttpRequestTab::Settings,
            HttpRequestTab::Settings => HttpRequestTab::Headers,
        };
    }

    /// Switches to the previous request tab, wrapping around.
    pub fn prev_request_tab(&mut self)
        ensures
            final(self).current_request_tab == request_tabs()[(request_tab_index(
                old(self).current_request_tab,
            ) + 4) % 5],
            *final(self) == (HttpState {
                current_request_tab: final(self).current_request_tab,
                ..*old(self)
            }),
    {
        self.current_request_tab = match self.current_request_tab {
            HttpRequestTab::Headers => HttpRequestTab::Settings,
            HttpRequestTab::Body => HttpRequestTab::Headers,
            HttpRequestTab::QueryParams => HttpRequestTab::Body,
            HttpRequestTab::Auth => HttpRequestTab::QueryParams,
            HttpRequestTab::Settings => HttpRequestTab::Auth,
        };
    }

    /// Switches to the next response tab, wrapping around.
    pub fn next_response_tab(&mut self)
        ensures
            final(self).current_response_tab == response_tabs()[(response_tab_index(
                old(self).current_response_tab,
            ) + 1) % 3],
            *final(self) == (HttpState {
                current_response_tab: final(self).current_response_tab,
                ..*old(self)
            }),
    {
        self.current_response_tab = match self.current_response_tab {
            HttpResponseTab::Body => HttpResponseTab::Headers,
            HttpResponseTab::Headers => HttpResponseTab::Info,
            HttpResponseTab::Info => HttpResponseTab::Body,
        };
    }

    /// Switches to the previous response tab, wrapping around.
    pub fn prev_response_tab(&mut self)
        ensures
            final(self).current_response_tab == response_tabs()[(response_tab_index(
                old(self).current_response_tab,
            ) + 2) % 3],
            *final(self) == (HttpState {
                current_response_tab: final(self).current_response_tab,
                ..*old(self)
            }),
    {
        self.current_response_tab = match self.current_response_tab {
            HttpResponseTab::Body => HttpResponseTab::Info,
            HttpResponseTab::Headers => HttpResponseTab::Body,
            HttpResponseTab::Info => HttpResponseTab::Headers,
        };
    }

    /// Appends an enabled header to the request.
    pub fn add_header(&mut self, name: String, value: String)
        ensures
            final(self).current_request.headers@ == old(self).current_request.headers@.push(
                HttpHeader { name, value, enabled: true },
            ),
            final(self).current_request == (HttpRequest {
                headers: final(self).current_request.headers,
                ..old(self).current_request
            }),
    {
        self.current_request.headers.push(HttpHeader { name, value, enabled: true });
    }

    /// Removes the header at `index`, if there is one.
    pub fn remove_header(&mut self, index: usize)
        ensures
            index < old(self).current_request.headers@.len() ==> final(self).current_request.headers@
                == old(self).current_request.headers@.remove(index as int),
            index >= old(self).current_request.headers@.len() ==> final(self).current_request.headers@
                == old(self).current_request.headers@,
            final(self).current_request == (HttpRequest {
                headers: final(self).current_request.headers,
                ..old(self).current_request
            }),
    {
        if index < self.current_request.headers.len() {
            self.current_request.headers.remove(index);
        }
    }

    /// Appends an enabled query parameter to the request.
    pub fn add_query_param(&mut self, name: String, value: String)
        ensures
            final(self).current_request.query_params@ == old(self).current_request.query_params@.push(HttpQueryParam { name, value, enabled: true }),
            final(self).current_request == (HttpRequest {
                query_params: final(self).current_request.query_params,
                ..old(self).current_request
            }),
    {
        self.current_request.query_params.push(HttpQueryParam { name, value, enabled: true });
    }

    /// Removes the query parameter at `index`, if there is one.
    pub fn remove_query_param(&mut self, index: usize)
        ensures
            index < old(self).current_request.query_params@.len() ==> final(self).current_request.query_params@ == old(self).current_request.query_params@.remove(
                index as int,
            ),
            index >= old(self).current_request.query_params@.len() ==> final(self).current_request.query_params@ == old(self).current_request.query_params@,
            final(self).current_request == (HttpRequest {
                query_params: final(self).current_request.query_params,
                ..old(self).current_request
            }),
    {
        if index < self.current_request.query_params.len() {
            self.current_request.query_params.remove(index);
        }
    }

    pub fn set_method(&mut self, method: HttpMethod)
        ensures
            final(self).current_request == (HttpRequest { method, ..old(self).current_request }),
    {
        self.current_request.method = method;
    }

    /// Sets the URL and remembers it among the recent ones.
    pub fn set_url(&mut self, url: String)
        ensures
            final(self).current_request == (HttpRequest { url, ..old(self).current_request }),
            string_texts(final(self).recent_urls@) == recent_after(
                string_texts(old(self).recent_urls@),
                url@,
            ),
    {
        let ghost old_texts = string_texts(self.recent_urls@);
        if url.unicode_len() > 0 && !self.has_recent_url(&url) {
            self.recent_urls.insert(0, url.clone());
            assert(string_texts(self.recent_urls@) =~= seq![url@] + old_texts);
            if self.recent_urls.len() > RECENT_URL_LIMIT {
                self.recent_urls.truncate(RECENT_URL_LIMIT);
                assert(string_texts(self.recent_urls@) =~= (seq![url@] + old_texts).take(
                    RECENT_URL_LIMIT as int,
                ));
            }
        }
        self.current_request.url = url;
    }

    fn has_recent_url(&self, url: &String) -> (r: bool)
        ensures
            r == string_texts(self.recent_urls@).contains(url@),
    {
        let mut i: usize = 0;
        while i < self.recent_urls.len()
            invariant
                i <= self.recent_urls@.len(),
                forall|k: int| 0 <= k < i ==> self.recent_urls@[k]@ != url@,
            decreases self.recent_urls@.len() - i,
        {
            if same_text(self.recent_urls[i].as_str(), url.as_str()) {
                assert(string_texts(self.recent_urls@)[i as int] == url@);
                return true;
            }
            i = i + 1;
        }
        assert(!string_texts(self.recent_urls@).contains(url@));
        false
    }

    pub fn set_body(&mut self, body: HttpRequestBody)
        ensures
            final(self).current_request == (HttpRequest { body, ..old(self).current_request }),
    {
        self.current_request.body = body;
    }

    /// The body as editable text; form bodies are edited elsewhere.
    pub fn get_body_content(&self) -> (r: String)
        ensures
            r@ == match self.current_request.body {
                HttpRequestBody::Text { content, .. } => content@,
                HttpRequestBody::Json { content } => content@,
                HttpRequestBody::Raw { content } => content@,
                _ => Seq::empty(),
            },
    {
        match &self.current_request.body {
            HttpRequestBody::Empty => String::new(),
            HttpRequestBody::Text { content, .. } => content.clone(),
            HttpRequestBody::Json { content } => content.clone(),
            HttpRequestBody::Raw { content } => content.clone(),
            HttpRequestBody::Form { .. } => String::new(),
        }
    }

    /// Stores edited text as the body, in the kind chosen in the editor.
    pub fn update_body_content(&mut self, content: String)
        ensures
            final(self).current_request.body == match old(self).current_body_type {
                BodyContentType::Empty => HttpRequestBody::Empty,
                BodyContentType::Json => HttpRequestBody::Json { content },
                BodyContentType::Raw => HttpRequestBody::Raw { content },
                BodyContentType::Text => HttpRequestBody::Text {
                    content,
                    content_type: final(self).current_request.body->Text_content_type,
                },
                BodyContentType::Form => old(self).current_request.body,
            },
            old(self).current_body_type == BodyContentType::Text ==> final(self).current_request.body->Text_content_type@ == "text/plain"@,
            final(self).current_request == (HttpRequest {
                body: final(self).current_request.body,
                ..old(self).current_request
            }),
            final(self).current_body_type == old(self).current_body_type,
    {
        match self.current_body_type {
            BodyContentType::Empty => {
                self.current_request.body = HttpRequestBody::Empty;
            },
            BodyContentType::Json => {
                self.current_request.body = HttpRequestBody::Json { content };
            },
            BodyContentType::Text => {
                self.current_request.body = HttpRequestBody::Text {
                    content,
                    content_type: String::from_str("text/plain"),
                };
            },
            BodyContentType::Raw => {
                self.current_request.body = HttpRequestBody::Raw { content };
            },
            BodyContentType::Form => {},
        }
    }

    /// A request can be sent once its URL holds more than white space.
    pub fn is_valid(&self) -> (r: bool)
        ensures
            r == (trimmed(self.current_request.url@).len() > 0),
    {
        !is_blank(self.current_request.url.as_str())
    }

    /// The reasons the request cannot be sent.
    pub fn get_validation_errors(&self) -> (r: Vec<String>)
        ensures
            string_texts(r@) == url_errors(self.current_request.url@),
    {
        let mut errors: Vec<String> = Vec::new();
        let url = self.current_request.url.as_str();
        if is_blank(url) {
            errors.push(String::from_str("URL is required"));
        }
        let ghost first = string_texts(errors@);
        if url.unicode_len() > 0 && !starts_with(url, "http://") && !starts_with(url, "https://") {
            errors.push(String::from_str("URL must start with http:// or https://"));
            assert(string_texts(errors@) =~= first.push(
                "URL must start with http:// or https://"@,
            ));
        }
        assert(string_texts(errors@) =~= url_errors(self.current_request.url@));
        errors
    }

    /// Loads a request into the editor and resets the editor's view.
    pub fn load_request(&mut self, request: HttpRequest)
        ensures
            final(self).current_request == request,
            final(self).current_request_tab == HttpRequestTab::Headers,
            final(self).current_response_tab == HttpResponseTab::Body,
            final(self).focused_field == 0,
            final(self).current_body_type == body_type_of(request.body),
            final(self).last_response == old(self).last_response,
            final(self).is_sending == old(self).is_sending,
            final(self).recent_urls == old(self).recent_urls,
    {
        self.current_body_type = match &request.body {
            HttpRequestBody::Empty => BodyContentType::Empty,
            HttpRequestBody::Json { .. } => BodyContentType::Json,
            HttpRequestBody::Text { .. } => BodyContentType::Text,
            HttpRequestBody::Form { .. } => BodyContentType::Form,
            HttpRequestBody::Raw { .. } => BodyContentType::Raw,
        };
        self.current_request = request;
        self.current_request_tab = HttpRequestTab::Headers;
        self.current_response_tab = HttpResponseTab::Body;
        self.focused_field = 0;
    }

    /// Starts over with an empty request.
    pub fn new_request(&mut self)
        ensures
            is_blank_request(final(self).current_request, "New Request"@),
            final(self).current_request_tab == HttpRequestTab::Headers,
            final(self).current_response_tab == HttpResponseTab::Body,
            final(self).current_body_type == BodyContentType::Empty,
            final(self).focused_field == 0,
            final(self).last_response is None,
            final(self).is_sending == old(self).is_sending,
            final(self).recent_urls == old(self).recent_urls,
    {
        self.current_request = HttpRequest::new("New Request");
        self.current_request_tab = HttpRequestTab::Headers;
        self.current_response_tab = HttpResponseTab::Body;
        self.current_body_type = BodyContentType::Empty;
        self.focused_field = 0;
        self.last_response = None;
    }
}

} // verus!
