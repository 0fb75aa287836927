//! The first-generation schemas client.  It shares the record types of the
//! newer client and the same routes; its update payload carries no `name`
//! field.

use crate::codec::{
    json_opt_props, json_opt_string, append_json_opt_props, append_json_opt_string, attach_query,
    bool_text, append_query_pair, push_char,
};
use crate::errors::{result_model, ErrorModel, ResourceKind, UCRSResult};
use crate::oss::api::schemas::{
    schemas_collection_route, schemas_delete_route, schemas_item_route, schemas_list_route,
    spec_full_name,
};
use crate::request::{Exchange, HttpMethod, HttpRequest, HttpRequestModel, RequestClient, url_resolve};
use crate::resource::{
    append_pagination, interpret, interpret_delete, spec_interpret, spec_interpret_delete,
    Operation,
};
use vstd::prelude::*;
use vstd::string::StringExecFns;

pub use crate::oss::api::schemas::{CreateSchema, ListSchemasResponse, SchemaInfo};

verus! {

/// The payload of a schema update; only the fields to change are set.
#[derive(Debug, Default, Clone, PartialEq, Eq)]
pub struct UpdateSchema {
    pub new_name: Option<String>,
    pub properties: Option<Vec<(String, String)>>,
    pub comment: Option<String>,
}

/// The JSON body of this generation's schema update, fields in wire order.
pub open spec fn update_schema_json(
    new_name: Option<Seq<char>>,
    properties: Option<Seq<(Seq<char>, Seq<char>)>>,
    comment: Option<Seq<char>>,
) -> Seq<char> {
    "{\"new_name\":"@ + json_opt_string(new_name) + ",\"properties\":"@ + json_opt_props(
        properties,
    ) + ",\"comment\":"@ + json_opt_string(comment) + "}"@
}

impl UpdateSchema {
    /// The JSON body this payload is marshaled to.
    pub open spec fn spec_json(&self) -> Seq<char> {
        update_schema_json(self.new_name.deep_view(), self.properties.deep_view(), self.comment.deep_view())
    }

    /// Marshals the payload as JSON.
    pub fn to_json(&self) -> (r: String)
        ensures
            r@ == self.spec_json(),
    {
        let mut out = String::from_str("{\"new_name\":");
        append_json_opt_string(&mut out, &self.new_name);
        out.append(",\"properties\":");
        append_json_opt_props(&mut out, &self.properties);
        out.append(",\"comment\":");
        append_json_opt_string(&mut out, &self.comment);
        out.append("}");
        proof {
            assert(out@ =~= self.spec_json());
        }
        out
    }
}

/// A stateless borrow of the transport client, specialized to schemas.
pub struct SchemasClient<'a> {
    client: &'a RequestClient,
}

/// A schemas client's mathematical value is its transport's base URL.
impl<'a> View for SchemasClient<'a> {
    type V = Seq<char>;

    closed spec fn view(&self) -> Seq<char> {
        self.client@
    }
}

impl<'a> SchemasClient<'a> {
    pub fn new(client: &'a RequestClient) -> (r: Self)
        ensures
            r@ == client@,
    {
        SchemasClient { client }
    }

    /// The dotted full name `catalog.schema`; the join is purely textual.
    pub fn full_name(catalog_name: &str, name: &str) -> (r: String)
        ensures
            r@ == spec_full_name(catalog_name@, name@),
    {
        let mut out = String::new();
        out.append(catalog_name);
        push_char(&mut out, '.');
        out.append(name);
        out
    }

    /// Plans one listing request: a GET of the collection scoped to one
    /// catalog, pagination parameters attached only when supplied.
    pub fn list_request(
        &self,
        catalog_name: &str,
        page_token: Option<String>,
        max_results: Option<i32>,
    ) -> (r: UCRSResult<HttpRequest>)
        ensures
            url_resolve(
                self@,
                schemas_list_route(catalog_name@, page_token.deep_view(), max_results),
            ) matches Some(u) ==> (r matches Ok(req) && req@ == (HttpRequestModel {
                method: HttpMethod::Get,
                url: u,
                body: None,
                json_headers: false,
            })),
            url_resolve(
                self@,
                schemas_list_route(catalog_name@, page_token.deep_view(), max_results),
            ) is None ==> (r matches Err(e) && e@ matches ErrorModel::MalformedURL(_)),
    {
        let mut route = String::from_str("/api/2.1/unity-catalog/schemas");
        let mut q = String::new();
        append_query_pair(&mut q, "catalog_name", catalog_name);
        append_pagination(&mut q, &page_token, &max_results);
        attach_query(&mut route, q.as_str());
        self.client.get(route.as_str(), None)
    }

    /// Reads one listing exchange: the server's page is returned unchanged.
    pub fn list_response(&self, ex: Exchange<ListSchemasResponse>) -> (r: UCRSResult<
        ListSchemasResponse,
    >)
        ensures
            result_model(r) == spec_interpret(ResourceKind::Schema, Operation::List, ""@, ex),
    {
        interpret(ResourceKind::Schema, Operation::List, "", ex)
    }

    /// Plans one creation request: a POST of the payload to the collection.
    pub fn create_request(&self, props: &CreateSchema) -> (r: UCRSResult<HttpRequest>)
        ensures
            url_resolve(self@, schemas_collection_route()) matches Some(u) ==> (r matches Ok(req)
                && req@ == (HttpRequestModel {
                method: HttpMethod::Post,
                url: u,
                body: Some(props.spec_json()),
                json_headers: true,
            })),
            url_resolve(self@, schemas_collection_route()) is None ==> (r matches Err(e) && e@
                matches ErrorModel::MalformedURL(_)),
    {
        let body = props.to_json();
        self.client.post("/api/2.1/unity-catalog/schemas", Some(body))
    }

    /// Reads one creation exchange: a 409 becomes a duplicate-name error
    /// carrying the dotted full name that was being created.
    pub fn create_response(&self, full_name: &str, ex: Exchange<SchemaInfo>) -> (r: UCRSResult<
        SchemaInfo,
    >)
        ensures
            result_model(r) == spec_interpret(
                ResourceKind::Schema,
                Operation::Create,
                full_name@,
                ex,
            ),
    {
        interpret(ResourceKind::Schema, Operation::Create, full_name, ex)
    }

    /// Plans one fetch request: a GET of the schema's route.
    pub fn get_request(&self, full_name: &str) -> (r: UCRSResult<HttpRequest>)
        ensures
            url_resolve(self@, schemas_item_route(full_name@)) matches Some(u) ==> (r matches Ok(
                req,
            ) && req@ == (HttpRequestModel {
                method: HttpMethod::Get,
                url: u,
                body: None,
                json_headers: false,
            })),
            url_resolve(self@, schemas_item_route(full_name@)) is None ==> (r matches Err(e) && e@
                matches ErrorModel::MalformedURL(_)),
    {
        let mut route = String::from_str("/api/2.1/unity-catalog/schemas/");
        route.append(full_name);
        self.client.get(route.as_str(), None)
    }

    /// Reads one fetch exchange: a 404 becomes not-found for the full name.
    pub fn get_response(&self, full_name: &str, ex: Exchange<SchemaInfo>) -> (r: UCRSResult<
        SchemaInfo,
    >)
        ensures
            result_model(r) == spec_interpret(ResourceKind::Schema, Operation::Get, full_name@, ex),
    {
        interpret(ResourceKind::Schema, Operation::Get, full_name, ex)
    }

    /// Plans one delete request: a DELETE of the schema's route, the
    /// `force` flag always attached.
    pub fn delete_request(&self, full_name: &str, force: bool) -> (r: UCRSResult<HttpRequest>)
        ensures
            url_resolve(self@, schemas_delete_route(full_name@, force)) matches Some(u) ==> (r
                matches Ok(req) && req@ == (HttpRequestModel {
                method: HttpMethod::Delete,
                url: u,
                body: None,
                json_headers: false,
            })),
            url_resolve(self@, schemas_delete_route(full_name@, force)) is None ==> (r matches Err(
                e,
            ) && e@ matches ErrorModel::MalformedURL(_)),
    {
        let mut route = String::from_str("/api/2.1/unity-catalog/schemas/");
        route.append(full_name);
        let mut q = String::new();
        append_query_pair(&mut q, "force", bool_text(force));
        attach_query(&mut route, q.as_str());
        self.client.delete(route.as_str(), None)
    }

    /// Reads one delete exchange: a 404 becomes not-found first; on a
    /// success status the undecodable body is disregarded and the result is
    /// unit.
    pub fn delete_response(&self, full_name: &str, ex: Exchange<()>) -> (r: UCRSResult<()>)
        ensures
            result_model(r) == spec_interpret_delete(ResourceKind::Schema, full_name@, ex),
    {
        interpret_delete(ResourceKind::Schema, full_name, ex)
    }

    /// Plans one update request: a PATCH of the payload to the schema's
    /// route.
    pub fn update_request(&self, full_name: &str, update_props: &UpdateSchema) -> (r: UCRSResult<
        HttpRequest,
    >)
        ensures
            url_resolve(self@, schemas_item_route(full_name@)) matches Some(u) ==> (r matches Ok(
                req,
            ) && req@ == (HttpRequestModel {
                method: HttpMethod::Patch,
                url: u,
                body: Some(update_props.spec_json()),
                json_headers: true,
            })),
            url_resolve(self@, schemas_item_route(full_name@)) is None ==> (r matches Err(e) && e@
                matches ErrorModel::MalformedURL(_)),
    {
        let mut route = String::from_str("/api/2.1/unity-catalog/schemas/");
        route.append(full_name);
        let body = update_props.to_json();
        self.client.patch(route.as_str(), Some(body))
    }

    /// Reads one update exchange: a 404 becomes not-found for the full name.
    pub fn update_response(&self, full_name: &str, ex: Exchange<SchemaInfo>) -> (r: UCRSResult<
        SchemaInfo,
    >)
        ensures
            result_model(r) == spec_interpret(
                ResourceKind::Schema,
                Operation::Update,
                full_name@,
                ex,
            ),
    {
        interpret(ResourceKind::Schema, Operation::Update, full_name, ex)
    }
}

} // verus!
