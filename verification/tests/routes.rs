use kratestack_api::entry::local_bind_addr;
use kratestack_api::entry::startup_line;
use kratestack_api::openapi::ApiDoc;
use kratestack_api::response::hello;
use kratestack_api::service::app;
use kratestack_api::service::RouteTarget;
use kratestack_api::service::Service;

const HELLO_BODY: &str = "{\"message\":\"Hello from Kratestack!\"}";

#[test]
fn hello_returns_greeting() {
    let r = hello();
    assert_eq!(r.message, "Hello from Kratestack!");
}

#[test]
fn get_hello_is_ok_with_exact_body() {
    let s = app();
    let r = s.respond("/api/hello").expect("the hello route carries a body");
    assert_eq!(r.status, 200);
    assert_eq!(r.body, HELLO_BODY);
}

#[test]
fn get_nonexistent_is_not_found() {
    let s = app();
    let r = s.respond("/nonexistent").expect("a 404 carries an empty body");
    assert_eq!(r.status, 404);
    assert_eq!(r.body, "");
}

#[test]
fn unregistered_paths_are_not_found() {
    let s = app();
    for path in ["", "/", "/api", "/api/hello/", "/api/hello2", "/API/hello", "/swagger-uix"] {
        let r = s.respond(path).expect("a 404 carries an empty body");
        assert_eq!(r.status, 404, "path {path:?}");
        assert_ne!(r.status, 200, "path {path:?}");
    }
}

#[test]
fn repeated_hello_requests_are_identical() {
    let s = app();
    let first = s.respond("/api/hello").unwrap();
    for _ in 0..8 {
        let again = s.respond("/api/hello").unwrap();
        assert_eq!(again.status, first.status);
        assert_eq!(again.body, first.body);
        assert_eq!(again.body, HELLO_BODY);
    }
}

#[test]
fn both_service_variants_serve_hello_alike() {
    let with_docs = app();
    let without_docs = Service::without_docs();
    let a = with_docs.respond("/api/hello").unwrap();
    let b = without_docs.respond("/api/hello").unwrap();
    assert_eq!(a.status, b.status);
    assert_eq!(a.body, b.body);
}

#[test]
fn route_table_matches_registrations() {
    let s = app();
    assert_eq!(s.route("/api/hello"), RouteTarget::Hello);
    assert_eq!(s.route("/api-docs/openapi.json"), RouteTarget::OpenApiJson);
    assert_eq!(s.route("/swagger-ui"), RouteTarget::SwaggerUiAsset);
    assert_eq!(s.route("/swagger-ui/index.html"), RouteTarget::SwaggerUiAsset);
    assert_eq!(s.route("/nonexistent"), RouteTarget::NotFound);
}

#[test]
fn swagger_assets_have_no_library_body() {
    let s = app();
    assert!(s.respond("/swagger-ui").is_none());
    assert!(s.respond("/swagger-ui/index.html").is_none());
}

#[test]
fn docs_routes_vanish_without_docs() {
    let s = Service::without_docs();
    assert_eq!(s.route("/api-docs/openapi.json"), RouteTarget::NotFound);
    assert_eq!(s.route("/swagger-ui"), RouteTarget::NotFound);
    assert_eq!(s.route("/swagger-ui/index.html"), RouteTarget::NotFound);
    assert_eq!(s.respond("/api-docs/openapi.json").unwrap().status, 404);
}

#[test]
fn openapi_document_declares_the_hello_route() {
    let d = ApiDoc::openapi();
    assert_eq!(d.paths.len(), 1);
    assert_eq!(d.paths[0].path, "/api/hello");
    assert_eq!(d.paths[0].get.status, 200);
    assert_eq!(d.paths[0].get.description, "Hello message");
    assert_eq!(d.paths[0].get.schema, "MessageResponse");
    assert_eq!(d.schemas.len(), 1);
    assert_eq!(d.schemas[0].name, "MessageResponse");
    assert_eq!(d.schemas[0].fields.len(), 1);
    assert_eq!(d.schemas[0].fields[0].name, "message");
    assert_eq!(d.schemas[0].fields[0].json_type, "string");
    assert!(d.schemas[0].fields[0].required);
}

#[test]
fn openapi_route_serves_the_document_text() {
    let s = app();
    let r = s.respond("/api-docs/openapi.json").unwrap();
    assert_eq!(r.status, 200);
    let expected = "{\"openapi\":\"3.0.3\",\"info\":{\"title\":\"kratestack-api\",\"version\":\"0.1.0\"},\"paths\":{\"/api/hello\":{\"get\":{\"responses\":{\"200\":{\"description\":\"Hello message\",\"content\":{\"application/json\":{\"schema\":{\"$ref\":\"#/components/schemas/MessageResponse\"}}}}}}}},\"components\":{\"schemas\":{\"MessageResponse\":{\"type\":\"object\",\"required\":[\"message\"],\"properties\":{\"message\":{\"type\":\"string\"}}}}}}";
    assert_eq!(r.body, expected);
}

#[test]
fn local_driver_constants() {
    let (octets, port) = local_bind_addr();
    assert_eq!(octets, (127, 0, 0, 1));
    assert_eq!(port, 8080);
    assert_eq!(startup_line(), "listening on 127.0.0.1:8080");
}
