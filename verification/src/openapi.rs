//! The declarative half of the route binding: a model of the OpenAPI
//! document that the service publishes, and its JSON text.
//!
//! The same method-and-path binding is registered twice in this kind of
//! service — once operationally in the route table and once declaratively
//! here — so the document is modelled as plain values that proofs can
//! relate to the route table.

use vstd::prelude::*;
use vstd::string::*;
use crate::json::{escape_json, json_escape};

verus! {

/// A field of an object schema.
pub struct SchemaField {
    /// The field's name.
    pub name: String,
    /// The JSON type of the field, e.g. `string`.
    pub json_type: String,
    /// Whether the schema requires the field to be present.
    pub required: bool,
}

/// A named object schema among the document's components.
pub struct SchemaDoc {
    /// The schema's name, as responses refer to it.
    pub name: String,
    /// The schema's fields.
    pub fields: Vec<SchemaField>,
}

/// The single response documented for an operation.
pub struct ResponseDoc {
    /// The documented status code.
    pub status: u16,
    /// The human-readable description of the response.
    pub description: String,
    /// The name of the component schema the response body refers to.
    pub schema: String,
}

/// A path item: one GET operation with one documented response.
pub struct PathDoc {
    /// The documented request path.
    pub path: String,
    /// The GET operation's documented response.
    pub get: ResponseDoc,
}

/// The OpenAPI document: path items and component schemas.
pub struct OpenApiDocument {
    /// The documented path items.
    pub paths: Vec<PathDoc>,
    /// The component schemas.
    pub schemas: Vec<SchemaDoc>,
}

/// The shape of this service's document: exactly one path item, for the
/// hello route, whose GET operation documents a 200 response referencing
/// the message schema; and exactly one component schema, an object with
/// one required string field named `message`.
pub open spec fn is_api_doc(d: OpenApiDocument) -> bool {
    &&& d.paths@.len() == 1
    &&& d.paths@[0].path@ == "/api/hello"@
    &&& d.paths@[0].get.status == 200
    &&& d.paths@[0].get.description@ == "Hello message"@
    &&& d.paths@[0].get.schema@ == "MessageResponse"@
    &&& d.schemas@.len() == 1
    &&& d.schemas@[0].name@ == "MessageResponse"@
    &&& d.schemas@[0].fields@.len() == 1
    &&& d.schemas@[0].fields@[0].name@ == "message"@
    &&& d.schemas@[0].fields@[0].json_type@ == "string"@
    &&& d.schemas@[0].fields@[0].required
}

/// The declarative description of the HTTP surface.
pub struct ApiDoc;

impl ApiDoc {
    /// Builds the OpenAPI document for this service.
    pub fn openapi() -> (d: OpenApiDocument)
        ensures
            is_api_doc(d),
    {
        let field = SchemaField {
            name: String::from_str("message"),
            json_type: String::from_str("string"),
            required: true,
        };
        let mut fields: Vec<SchemaField> = Vec::new();
        fields.push(field);
        let schema = SchemaDoc { name: String::from_str("MessageResponse"), fields };
        let mut schemas: Vec<SchemaDoc> = Vec::new();
        schemas.push(schema);
        let response = ResponseDoc {
            status: 200,
            description: String::from_str("Hello message"),
            schema: String::from_str("MessageResponse"),
        };
        let path = PathDoc { path: String::from_str("/api/hello"), get: response };
        let mut paths: Vec<PathDoc> = Vec::new();
        paths.push(path);
        OpenApiDocument { paths, schemas }
    }
}

/// The exact JSON text of a document of this service's shape, assembled
/// from the document's own values so that the served text cannot drift
/// from the model.
pub open spec fn openapi_json_text(d: OpenApiDocument) -> Seq<char> {
    "{\"openapi\":\"3.0.3\",\"info\":{\"title\":\"kratestack-api\",\"version\":\"0.1.0\"},\"paths\":{\""@
        + json_escape(d.paths@[0].path@)
        + "\":{\"get\":{\"responses\":{\"200\":{\"description\":\""@
        + json_escape(d.paths@[0].get.description@)
        + "\",\"content\":{\"application/json\":{\"schema\":{\"$ref\":\"#/components/schemas/"@
        + json_escape(d.paths@[0].get.schema@)
        + "\"}}}}}}}},\"components\":{\"schemas\":{\""@
        + json_escape(d.schemas@[0].name@)
        + "\":{\"type\":\"object\",\"required\":[\""@
        + json_escape(d.schemas@[0].fields@[0].name@)
        + "\"],\"properties\":{\""@
        + json_escape(d.schemas@[0].fields@[0].name@)
        + "\":{\"type\":\""@
        + json_escape(d.schemas@[0].fields@[0].json_type@)
        + "\"}}}}}}"@
}

/// The JSON text of the service's document, as a fixed value: the text of
/// any document of the service's shape.
pub open spec fn openapi_document_text() -> Seq<char> {
    "{\"openapi\":\"3.0.3\",\"info\":{\"title\":\"kratestack-api\",\"version\":\"0.1.0\"},\"paths\":{\""@
        + json_escape("/api/hello"@)
        + "\":{\"get\":{\"responses\":{\"200\":{\"description\":\""@
        + json_escape("Hello message"@)
        + "\",\"content\":{\"application/json\":{\"schema\":{\"$ref\":\"#/components/schemas/"@
        + json_escape("MessageResponse"@)
        + "\"}}}}}}}},\"components\":{\"schemas\":{\""@
        + json_escape("MessageResponse"@)
        + "\":{\"type\":\"object\",\"required\":[\""@
        + json_escape("message"@)
        + "\"],\"properties\":{\""@
        + json_escape("message"@)
        + "\":{\"type\":\""@
        + json_escape("string"@)
        + "\"}}}}}}"@
}

/// Every document of the service's shape has the same, fixed JSON text,
/// so the route table can promise that text exactly.
pub proof fn lemma_openapi_text_canonical(d: OpenApiDocument)
    requires
        is_api_doc(d),
    ensures
        openapi_json_text(d) == openapi_document_text(),
{
}

/// Renders the OpenAPI document to its JSON text.
pub fn openapi_json(d: &OpenApiDocument) -> (r: String)
    requires
        is_api_doc(*d),
    ensures
        r@ == openapi_json_text(*d),
{
    let mut out = String::from_str(
        "{\"openapi\":\"3.0.3\",\"info\":{\"title\":\"kratestack-api\",\"version\":\"0.1.0\"},\"paths\":{\"",
    );
    let part = escape_json(d.paths[0].path.as_str());
    out.append(part.as_str());
    out.append("\":{\"get\":{\"responses\":{\"200\":{\"description\":\"");
    let part = escape_json(d.paths[0].get.description.as_str());
    out.append(part.as_str());
    out.append("\",\"content\":{\"application/json\":{\"schema\":{\"$ref\":\"#/components/schemas/");
    let part = escape_json(d.paths[0].get.schema.as_str());
    out.append(part.as_str());
    out.append("\"}}}}}}}},\"components\":{\"schemas\":{\"");
    let part = escape_json(d.schemas[0].name.as_str());
    out.append(part.as_str());
    out.append("\":{\"type\":\"object\",\"required\":[\"");
    let part = escape_json(d.schemas[0].fields[0].name.as_str());
    out.append(part.as_str());
    out.append("\"],\"properties\":{\"");
    let part = escape_json(d.schemas[0].fields[0].name.as_str());
    out.append(part.as_str());
    out.append("\":{\"type\":\"");
    let part = escape_json(d.schemas[0].fields[0].json_type.as_str());
    out.append(part.as_str());
    out.append("\"}}}}}}");
    out
}

} // verus!
