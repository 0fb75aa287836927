//! The catalogs client: list, create, get, update and delete over the
//! `/api/2.1/unity-catalog/catalogs` collection.  Each operation is split
//! into a request planner, which fixes the URL and the JSON body, and a
//! response reader, which classifies the exchange the embedding application
//! observed.

use crate::codec::{
    json_opt_props, json_opt_string, json_string, spec_add_pair, spec_bool_text, spec_with_query,
    append_json_opt_props, append_json_opt_string, append_json_string, attach_query, bool_text,
    append_query_pair,
};
use crate::errors::{result_model, ErrorModel, ResourceKind, UCRSResult};
use crate::request::{Exchange, HttpMethod, HttpRequest, HttpRequestModel, RequestClient, url_resolve};
use crate::resource::{
    append_pagination, interpret, interpret_delete, spec_interpret, spec_interpret_delete,
    spec_pagination, Operation,
};
use vstd::prelude::*;
use vstd::string::StringExecFns;

verus! {

/// The payload of a catalog-creation request.
#[derive(Debug, Default, Clone, PartialEq, Eq)]
pub struct CreateCatalog {
    pub name: String,
    pub comment: Option<String>,
    pub properties: Option<Vec<(String, String)>>,
}

/// The JSON body of a catalog-creation request, fields in wire order.
pub open spec fn create_catalog_json(
    name: Seq<char>,
    comment: Option<Seq<char>>,
    properties: Option<Seq<(Seq<char>, Seq<char>)>>,
) -> Seq<char> {
    "{\"name\":"@ + json_string(name) + ",\"comment\":"@ + json_opt_string(comment)
        + ",\"properties\":"@ + json_opt_props(properties) + "}"@
}

impl CreateCatalog {
    /// The JSON body this payload is marshaled to.
    pub open spec fn spec_json(&self) -> Seq<char> {
        create_catalog_json(self.name@, self.comment.deep_view(), self.properties.deep_view())
    }

    /// Marshals the payload as JSON.
    pub fn to_json(&self) -> (r: String)
        ensures
            r@ == self.spec_json(),
    {
        let mut out = String::from_str("{\"name\":");
        append_json_string(&mut out, self.name.as_str());
        out.append(",\"comment\":");
        append_json_opt_string(&mut out, &self.comment);
        out.append(",\"properties\":");
        append_json_opt_props(&mut out, &self.properties);
        out.append("}");
        proof {
            assert(out@ =~= self.spec_json());
        }
        out
    }
}

/// One page of a catalog listing, with the opaque cursor for the next page
/// if there is one.
#[derive(Debug, Default, Clone, PartialEq, Eq)]
pub struct ListCatalogResponse {
    pub catalogs: Vec<CatalogInfo>,
    pub next_page_token: Option<String>,
}

/// A catalog as the server describes it; the server may omit any field.
#[derive(Debug, Default, Clone, PartialEq, Eq)]
pub struct CatalogInfo {
    pub name: Option<String>,
    pub comment: Option<String>,
    pub properties: Option<Vec<(String, String)>>,
    pub created_at: Option<i64>,
    pub updated_at: Option<i64>,
    pub id: Option<String>,
}

/// The payload of a catalog update; only the fields to change are set.
#[derive(Debug, Default, Clone, PartialEq, Eq)]
pub struct UpdateCatalog {
    pub new_name: Option<String>,
    pub properties: Option<Vec<(String, String)>>,
    pub comment: Option<String>,
}

/// The JSON body of a catalog update, fields in wire order.
pub open spec fn update_catalog_json(
    new_name: Option<Seq<char>>,
    properties: Option<Seq<(Seq<char>, Seq<char>)>>,
    comment: Option<Seq<char>>,
) -> Seq<char> {
    "{\"new_name\":"@ + json_opt_string(new_name) + ",\"properties\":"@ + json_opt_props(
        properties,
    ) + ",\"comment\":"@ + json_opt_string(comment) + "}"@
}

impl UpdateCatalog {
    /// The JSON body this payload is marshaled to.
    pub open spec fn spec_json(&self) -> Seq<char> {
        update_catalog_json(self.new_name.deep_view(), self.properties.deep_view(), self.comment.deep_view())
    }

    /// Marshals the payload as JSON.
    pub fn to_json(&self) -> (r: String)
        ensures
            r@ == self.spec_json(),
    {
        let mut out = String::from_str("{\"new_name\":");
        append_json_opt_string(&mut out, &self.new_name);
        out.append(",\"properties\":");
        append_json_opt_props(&mut out, &self.properties);
        out.append(",\"comment\":");
        append_json_opt_string(&mut out, &self.comment);
        out.append("}");
        proof {
            assert(out@ =~= self.spec_json());
        }
        out
    }
}

/// The catalogs collection route.
pub open spec fn catalogs_collection_route() -> Seq<char> {
    "/api/2.1/unity-catalog/catalogs"@
}

/// The route of one catalog, the name standing in the path unescaped.
pub open spec fn catalogs_item_route(name: Seq<char>) -> Seq<char> {
    "/api/2.1/unity-catalog/catalogs/"@ + name
}

/// The listing route with the optional pagination parameters attached.
pub open spec fn catalogs_list_route(
    page_token: Option<Seq<char>>,
    max_results: Option<i32>,
) -> Seq<char> {
    spec_with_query(
        catalogs_collection_route(),
        spec_pagination(Seq::<char>::empty(), page_token, max_results),
    )
}

/// The route of one catalog with the `force` flag attached.
pub open spec fn catalogs_delete_route(name: Seq<char>, force: bool) -> Seq<char> {
    spec_with_query(
        catalogs_item_route(name),
        spec_add_pair(Seq::<char>::empty(), "force"@, spec_bool_text(force)),
    )
}

/// A stateless borrow of the transport client, specialized to catalogs.
pub struct CatalogsClient<'a> {
    client: &'a RequestClient,
}

/// A catalogs client's mathematical value is its transport's base URL.
impl<'a> View for CatalogsClient<'a> {
    type V = Seq<char>;

    closed spec fn view(&self) -> Seq<char> {
        self.client@
    }
}

impl<'a> CatalogsClient<'a> {
    pub fn new(client: &'a RequestClient) -> (r: Self)
        ensures
            r@ == client@,
    {
        CatalogsClient { client }
    }

    /// Plans one listing request: a GET of the collection, pagination
    /// parameters attached only when supplied.
    pub fn list_request(&self, page_token: Option<String>, max_results: Option<i32>) -> (r:
        UCRSResult<HttpRequest>)
        ensures
            url_resolve(self@, catalogs_list_route(page_token.deep_view(), max_results))
                matches Some(u) ==> (r matches Ok(req) && req@ == (HttpRequestModel {
                method: HttpMethod::Get,
                url: u,
                body: None,
                json_headers: false,
            })),
            url_resolve(self@, catalogs_list_route(page_token.deep_view(), max_results)) is None
                ==> (r matches Err(e) && e@ matches ErrorModel::MalformedURL(_)),
    {
        let mut route = String::from_str("/api/2.1/unity-catalog/catalogs");
        let mut q = String::new();
        append_pagination(&mut q, &page_token, &max_results);
        attach_query(&mut route, q.as_str());
        self.client.get(route.as_str(), None)
    }

    /// Reads one listing exchange: the server's page is returned unchanged.
    pub fn list_response(&self, ex: Exchange<ListCatalogResponse>) -> (r: UCRSResult<
        ListCatalogResponse,
    >)
        ensures
            result_model(r) == spec_interpret(ResourceKind::Catalog, Operation::List, ""@, ex),
    {
        interpret(ResourceKind::Catalog, Operation::List, "", ex)
    }

    /// Plans one creation request: a POST of the payload to the collection.
    pub fn create_request(&self, props: &CreateCatalog) -> (r: UCRSResult<HttpRequest>)
        ensures
            url_resolve(self@, catalogs_collection_route()) matches Some(u) ==> (r matches Ok(req)
                && req@ == (HttpRequestModel {
                method: HttpMethod::Post,
                url: u,
                body: Some(props.spec_json()),
                json_headers: true,
            })),
            url_resolve(self@, catalogs_collection_route()) is None ==> (r matches Err(e) && e@
                matches ErrorModel::MalformedURL(_)),
    {
        let body = props.to_json();
        self.client.post("/api/2.1/unity-catalog/catalogs", Some(body))
    }

    /// Reads one creation exchange: a 409 becomes a duplicate-name error
    /// carrying the name that was being created.
    pub fn create_response(&self, name: &str, ex: Exchange<CatalogInfo>) -> (r: UCRSResult<
        CatalogInfo,
    >)
        ensures
            result_model(r) == spec_interpret(ResourceKind::Catalog, Operation::Create, name@, ex),
    {
        interpret(ResourceKind::Catalog, Operation::Create, name, ex)
    }

    /// Plans one fetch request: a GET of the catalog's route.
    pub fn get_request(&self, name: &str) -> (r: UCRSResult<HttpRequest>)
        ensures
            url_resolve(self@, catalogs_item_route(name@)) matches Some(u) ==> (r matches Ok(req)
                && req@ == (HttpRequestModel {
                method: HttpMethod::Get,
                url: u,
                body: None,
                json_headers: false,
            })),
            url_resolve(self@, catalogs_item_route(name@)) is None ==> (r matches Err(e) && e@
                matches ErrorModel::MalformedURL(_)),
    {
        let mut route = String::from_str("/api/2.1/unity-catalog/catalogs/");
        route.append(name);
        self.client.get(route.as_str(), None)
    }

    /// Reads one fetch exchange: a 404 becomes not-found for the name.
    pub fn get_response(&self, name: &str, ex: Exchange<CatalogInfo>) -> (r: UCRSResult<
        CatalogInfo,
    >)
        ensures
            result_model(r) == spec_interpret(ResourceKind::Catalog, Operation::Get, name@, ex),
    {
        interpret(ResourceKind::Catalog, Operation::Get, name, ex)
    }

    /// Plans one update request: a PATCH of the payload to the catalog's
    /// route.
    pub fn update_request(&self, name: &str, update_props: &UpdateCatalog) -> (r: UCRSResult<
        HttpRequest,
    >)
        ensures
            url_resolve(self@, catalogs_item_route(name@)) matches Some(u) ==> (r matches Ok(req)
                && req@ == (HttpRequestModel {
                method: HttpMethod::Patch,
                url: u,
                body: Some(update_props.spec_json()),
                json_headers: true,
            })),
            url_resolve(self@, catalogs_item_route(name@)) is None ==> (r matches Err(e) && e@
                matches ErrorModel::MalformedURL(_)),
    {
        let mut route = String::from_str("/api/2.1/unity-catalog/catalogs/");
        route.append(name);
        let body = update_props.to_json();
        self.client.patch(route.as_str(), Some(body))
    }

    /// Reads one update exchange: a 404 becomes not-found for the name.
    pub fn update_response(&self, name: &str, ex: Exchange<CatalogInfo>) -> (r: UCRSResult<
        CatalogInfo,
    >)
        ensures
            result_model(r) == spec_interpret(ResourceKind::Catalog, Operation::Update, name@, ex),
    {
        interpret(ResourceKind::Catalog, Operation::Update, name, ex)
    }

    /// Plans one delete request: a DELETE of the catalog's route, the
    /// `force` flag always attached.
    pub fn delete_request(&self, name: &str, force: bool) -> (r: UCRSResult<HttpRequest>)
        ensures
            url_resolve(self@, catalogs_delete_route(name@, force)) matches Some(u) ==> (r
                matches Ok(req) && req@ == (HttpRequestModel {
                method: HttpMethod::Delete,
                url: u,
                body: None,
                json_headers: false,
            })),
            url_resolve(self@, catalogs_delete_route(name@, force)) is None ==> (r matches Err(e)
                && e@ matches ErrorModel::MalformedURL(_)),
    {
        let mut route = String::from_str("/api/2.1/unity-catalog/catalogs/");
        route.append(name);
        let mut q = String::new();
        append_query_pair(&mut q, "force", bool_text(force));
        attach_query(&mut route, q.as_str());
        self.client.delete(route.as_str(), None)
    }

    /// Reads one delete exchange: a 404 becomes not-found first; on a
    /// success status the undecodable body is disregarded and the result is
    /// unit.
    pub fn delete_response(&self, name: &str, ex: Exchange<()>) -> (r: UCRSResult<()>)
        ensures
            result_model(r) == spec_interpret_delete(ResourceKind::Catalog, name@, ex),
    {
        interpret_delete(ResourceKind::Catalog, name, ex)
    }
}

} // verus!
