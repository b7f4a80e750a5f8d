//! The service assembly: the fixed route table, the responses it serves,
//! and the laws that tie the table to the published documentation.

use vstd::prelude::*;
use vstd::string::*;
use crate::json::{
    json_object, lemma_hello_body_exact, lemma_message_json_is_object, message_json,
    message_response_json,
};
use crate::openapi::{
    is_api_doc, lemma_openapi_text_canonical, openapi_document_text, openapi_json, ApiDoc,
    OpenApiDocument,
};
use crate::response::{hello, hello_text};
use crate::strutil::{str_eq, str_has_prefix};

verus! {

/// Where the router sends a GET request's path.
#[derive(PartialEq, Eq, Structural, Clone, Copy, Debug)]
pub enum RouteTarget {
    /// The hello route handler.
    Hello,
    /// The machine-readable OpenAPI document.
    OpenApiJson,
    /// A file of the interactive documentation UI.
    SwaggerUiAsset,
    /// No registered route matches.
    NotFound,
}

/// An HTTP response at the level the library models it: a status code
/// and a body.
pub struct HttpResponse {
    /// The status code.
    pub status: u16,
    /// The body text.
    pub body: String,
}

/// The assembled service: the fixed route table, with or without the
/// documentation endpoints mounted.
pub struct Service {
    /// Whether the OpenAPI document and the documentation UI are mounted.
    pub docs_mounted: bool,
}

/// Builds the service as the project template assembles it: the hello
/// route plus the documentation endpoints.
pub fn app() -> (s: Service)
    ensures
        s.docs_mounted,
{
    Service { docs_mounted: true }
}

impl Service {
    /// Builds the service variant deployed behind the serverless adapter,
    /// which leaves the documentation endpoints out.
    pub fn without_docs() -> (s: Service)
        ensures
            !s.docs_mounted,
    {
        Service { docs_mounted: false }
    }

    /// Where this service sends a GET for `path`: one static path match
    /// for the hello route, the two documentation endpoints when they are
    /// mounted, and not-found for everything else.
    pub open spec fn spec_route(self, path: Seq<char>) -> RouteTarget {
        if path == "/api/hello"@ {
            RouteTarget::Hello
        } else if self.docs_mounted && path == "/api-docs/openapi.json"@ {
            RouteTarget::OpenApiJson
        } else if self.docs_mounted && (path == "/swagger-ui"@ || "/swagger-ui/"@.is_prefix_of(
            path,
        )) {
            RouteTarget::SwaggerUiAsset
        } else {
            RouteTarget::NotFound
        }
    }

    /// The status code of the response for `path`: 200 on every
    /// registered route, 404 elsewhere.
    pub open spec fn spec_status(self, path: Seq<char>) -> u16 {
        if self.spec_route(path) == RouteTarget::NotFound {
            404
        } else {
            200
        }
    }

    /// The body of the response for `path`, for the routes whose content
    /// the library itself determines; the documentation UI's files are
    /// supplied by its host and carry no body here.
    pub open spec fn spec_body(self, path: Seq<char>) -> Option<Seq<char>> {
        match self.spec_route(path) {
            RouteTarget::Hello => Some(message_json(hello_text())),
            RouteTarget::OpenApiJson => Some(openapi_document_text()),
            RouteTarget::SwaggerUiAsset => None,
            RouteTarget::NotFound => Some(Seq::empty()),
        }
    }

    /// Decides which registered route serves a GET for `path`.
    pub fn route(&self, path: &str) -> (t: RouteTarget)
        ensures
            t == self.spec_route(path@),
    {
        if str_eq(path, "/api/hello") {
            RouteTarget::Hello
        } else if self.docs_mounted && str_eq(path, "/api-docs/openapi.json") {
            RouteTarget::OpenApiJson
        } else if self.docs_mounted && (str_eq(path, "/swagger-ui") || str_has_prefix(
            path,
            "/swagger-ui/",
        )) {
            RouteTarget::SwaggerUiAsset
        } else {
            RouteTarget::NotFound
        }
    }

    /// Responds to a GET for `path`: the hello payload, the OpenAPI
    /// document, or an empty 404; `None` where the documentation UI host
    /// supplies the asset body itself.
    pub fn respond(&self, path: &str) -> (r: Option<HttpResponse>)
        ensures
            match r {
                Some(resp) => self.spec_body(path@) == Some(resp.body@) && resp.status
                    == self.spec_status(path@),
                None => self.spec_body(path@) is None && self.spec_status(path@) == 200,
            },
    {
        match self.route(path) {
            RouteTarget::Hello => {
                let m = hello();
                let body = message_response_json(&m);
                Some(HttpResponse { status: 200, body })
            },
            RouteTarget::OpenApiJson => {
                let doc = ApiDoc::openapi();
                let body = openapi_json(&doc);
                proof {
                    lemma_openapi_text_canonical(doc);
                }
                Some(HttpResponse { status: 200, body })
            },
            RouteTarget::SwaggerUiAsset => None,
            RouteTarget::NotFound => Some(HttpResponse { status: 404, body: String::new() }),
        }
    }
}

/// Every request to the hello path is answered the same way, whichever
/// assembled service variant receives it and however often it is asked:
/// status 200 and exactly the advertised JSON body. Requests share no
/// state, so this holds of each of any number of sequential or
/// concurrent requests independently.
pub proof fn lemma_hello_requests_identical(s1: Service, s2: Service, path: Seq<char>)
    requires
        path == "/api/hello"@,
    ensures
        s1.spec_status(path) == 200,
        s1.spec_body(path) == Some(message_json(hello_text())),
        s1.spec_body(path) == Some("{\"message\":\"Hello from Kratestack!\"}"@),
        s1.spec_status(path) == s2.spec_status(path),
        s1.spec_body(path) == s2.spec_body(path),
{
    lemma_hello_body_exact();
}

/// A GET to any path other than the registered ones is answered with the
/// not-found status, which is not 200.
pub proof fn lemma_unregistered_not_found(s: Service, path: Seq<char>)
    requires
        path != "/api/hello"@,
        path != "/api-docs/openapi.json"@,
        path != "/swagger-ui"@,
        !"/swagger-ui/"@.is_prefix_of(path),
    ensures
        s.spec_route(path) == RouteTarget::NotFound,
        s.spec_status(path) == 404,
        s.spec_status(path) != 200,
{
}

/// The operational route binding and the declarative document agree:
/// every path item the document declares is a registered route of every
/// service variant, served with exactly the status the document declares.
pub proof fn lemma_doc_matches_routes(s: Service, d: OpenApiDocument, i: int)
    requires
        is_api_doc(d),
        0 <= i < d.paths@.len(),
    ensures
        s.spec_route(d.paths@[i].path@) == RouteTarget::Hello,
        s.spec_status(d.paths@[i].path@) == d.paths@[i].get.status,
{
}

/// The documented schema and the served payload agree: the hello
/// response's body is a JSON object with exactly the one field the
/// schema requires, holding the greeting as its value.
pub proof fn lemma_schema_matches_payload(s: Service, d: OpenApiDocument)
    requires
        is_api_doc(d),
    ensures
        s.spec_body("/api/hello"@) == Some(
            json_object(d.schemas@[0].fields@[0].name@, hello_text()),
        ),
{
    lemma_message_json_is_object(hello_text());
}

} // verus!
