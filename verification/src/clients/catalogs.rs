//! The first-generation catalogs client.  It shares the record types of the
//! newer client and the same routes; creation and update take the payload
//! fields as arguments instead of a payload value.

use crate::codec::{append_query_pair, attach_query};
use crate::errors::{result_model, ErrorModel, ResourceKind, UCRSResult};
use crate::oss::api::catalogs::{
    catalogs_collection_route, catalogs_delete_route, catalogs_item_route, catalogs_list_route,
    create_catalog_json, update_catalog_json,
};
use crate::request::{Exchange, HttpMethod, HttpRequest, HttpRequestModel, RequestClient, url_resolve};
use crate::resource::{
    append_pagination, interpret, interpret_delete, spec_interpret, spec_interpret_delete,
    Operation,
};
use vstd::prelude::*;
use vstd::string::StringExecFns;

pub use crate::oss::api::catalogs::{CatalogInfo, CreateCatalog, ListCatalogResponse, UpdateCatalog};

verus! {

/// A stateless borrow of the transport client, specialized to catalogs.
pub struct CatalogsClient<'a> {
    client: &'a RequestClient,
}

/// A catalogs client's mathematical value is its transport's base URL.
impl<'a> View for CatalogsClient<'a> {
    type V = Seq<char>;

    closed spec fn view(&self) -> Seq<char> {
        self.client@
    }
}

impl<'a> CatalogsClient<'a> {
    pub fn new(client: &'a RequestClient) -> (r: Self)
        ensures
            r@ == client@,
    {
        CatalogsClient { client }
    }

    /// Plans one listing request: a GET of the collection, pagination
    /// parameters attached only when supplied.
    pub fn list_request(&self, page_token: Option<String>, max_results: Option<i32>) -> (r:
        UCRSResult<HttpRequest>)
        ensures
            url_resolve(self@, catalogs_list_route(page_token.deep_view(), max_results))
                matches Some(u) ==> (r matches Ok(req) && req@ == (HttpRequestModel {
                method: HttpMethod::Get,
                url: u,
                body: None,
                json_headers: false,
            })),
            url_resolve(self@, catalogs_list_route(page_token.deep_view(), max_results)) is None
                ==> (r matches Err(e) && e@ matches ErrorModel::MalformedURL(_)),
    {
        let mut route = String::from_str("/api/2.1/unity-catalog/catalogs");
        let mut q = String::new();
        append_pagination(&mut q, &page_token, &max_results);
        attach_query(&mut route, q.as_str());
        self.client.get(route.as_str(), None)
    }

    /// Reads one listing exchange: the server's page is returned unchanged.
    pub fn list_response(&self, ex: Exchange<ListCatalogResponse>) -> (r: UCRSResult<
        ListCatalogResponse,
    >)
        ensures
            result_model(r) == spec_interpret(ResourceKind::Catalog, Operation::List, ""@, ex),
    {
        interpret(ResourceKind::Catalog, Operation::List, "", ex)
    }

    /// Plans one creation request from the payload fields: a POST of the
    /// assembled payload to the collection.
    pub fn create_request(
        &self,
        name: &str,
        comment: Option<&str>,
        properties: Option<Vec<(String, String)>>,
    ) -> (r: UCRSResult<HttpRequest>)
        ensures
            url_resolve(self@, catalogs_collection_route()) matches Some(u) ==> (r matches Ok(req)
                && req@ == (HttpRequestModel {
                method: HttpMethod::Post,
                url: u,
                body: Some(
                    create_catalog_json(name@, comment.deep_view(), properties.deep_view()),
                ),
                json_headers: true,
            })),
            url_resolve(self@, catalogs_collection_route()) is None ==> (r matches Err(e) && e@
                matches ErrorModel::MalformedURL(_)),
    {
        let comment_owned = match comment {
            Option::Some(c) => Some(c.to_owned()),
            Option::None => None,
        };
        let body = CreateCatalog { name: name.to_owned(), comment: comment_owned, properties };
        let text = body.to_json();
        self.client.post("/api/2.1/unity-catalog/catalogs", Some(text))
    }

    /// Reads one creation exchange: a 409 becomes a duplicate-name error
    /// carrying the name that was being created.
    pub fn create_response(&self, name: &str, ex: Exchange<CatalogInfo>) -> (r: UCRSResult<
        CatalogInfo,
    >)
        ensures
            result_model(r) == spec_interpret(ResourceKind::Catalog, Operation::Create, name@, ex),
    {
        interpret(ResourceKind::Catalog, Operation::Create, name, ex)
    }

    /// Plans one fetch request: a GET of the catalog's route.
    pub fn get_request(&self, name: &str) -> (r: UCRSResult<HttpRequest>)
        ensures
            url_resolve(self@, catalogs_item_route(name@)) matches Some(u) ==> (r matches Ok(req)
                && req@ == (HttpRequestModel {
                method: HttpMethod::Get,
                url: u,
                body: None,
                json_headers: false,
            })),
            url_resolve(self@, catalogs_item_route(name@)) is None ==> (r matches Err(e) && e@
                matches ErrorModel::MalformedURL(_)),
    {
        let mut route = String::from_str("/api/2.1/unity-catalog/catalogs/");
        route.append(name);
        self.client.get(route.as_str(), None)
    }

    /// Reads one fetch exchange: a 404 becomes not-found for the name.
    pub fn get_response(&self, name: &str, ex: Exchange<CatalogInfo>) -> (r: UCRSResult<
        CatalogInfo,
    >)
        ensures
            result_model(r) == spec_interpret(ResourceKind::Catalog, Operation::Get, name@, ex),
    {
        interpret(ResourceKind::Catalog, Operation::Get, name, ex)
    }

    /// Plans one delete request: a DELETE of the catalog's route, the
    /// `force` flag always attached.
    pub fn delete_request(&self, name: &str, force: bool) -> (r: UCRSResult<HttpRequest>)
        ensures
            url_resolve(self@, catalogs_delete_route(name@, force)) matches Some(u) ==> (r
                matches Ok(req) && req@ == (HttpRequestModel {
                method: HttpMethod::Delete,
                url: u,
                body: None,
                json_headers: false,
            })),
            url_resolve(self@, catalogs_delete_route(name@, force)) is None ==> (r matches Err(e)
                && e@ matches ErrorModel::MalformedURL(_)),
    {
        let mut route = String::from_str("/api/2.1/unity-catalog/catalogs/");
        route.append(name);
        let mut q = String::new();
        if force {
            append_query_pair(&mut q, "force", "true");
        } else {
            append_query_pair(&mut q, "force", "false");
        }
        attach_query(&mut route, q.as_str());
        self.client.delete(route.as_str(), None)
    }

    /// Reads one delete exchange: a 404 becomes not-found first; on a
    /// success status the undecodable body is disregarded and the result is
    /// unit.
    pub fn delete_response(&self, name: &str, ex: Exchange<()>) -> (r: UCRSResult<()>)
        ensures
            result_model(r) == spec_interpret_delete(ResourceKind::Catalog, name@, ex),
    {
        interpret_delete(ResourceKind::Catalog, name, ex)
    }

    /// Plans one update request from the payload fields: a PATCH of the
    /// assembled payload to the catalog's route.
    pub fn update_request(
        &self,
        name: &str,
        new_name: Option<&str>,
        properties: Option<Vec<(String, String)>>,
        comment: Option<&str>,
    ) -> (r: UCRSResult<HttpRequest>)
        ensures
            url_resolve(self@, catalogs_item_route(name@)) matches Some(u) ==> (r matches Ok(req)
                && req@ == (HttpRequestModel {
                method: HttpMethod::Patch,
                url: u,
                body: Some(
                    update_catalog_json(new_name.deep_view(), properties.deep_view(), comment.deep_view()),
                ),
                json_headers: true,
            })),
            url_resolve(self@, catalogs_item_route(name@)) is None ==> (r matches Err(e) && e@
                matches ErrorModel::MalformedURL(_)),
    {
        let mut route = String::from_str("/api/2.1/unity-catalog/catalogs/");
        route.append(name);
        let new_name_owned = match new_name {
            Option::Some(n) => Some(n.to_owned()),
            Option::None => None,
        };
        let comment_owned = match comment {
            Option::Some(c) => Some(c.to_owned()),
            Option::None => None,
        };
        let body = UpdateCatalog { new_name: new_name_owned, properties, comment: comment_owned };
        let text = body.to_json();
        self.client.patch(route.as_str(), Some(text))
    }

    /// Reads one update exchange: a 404 becomes not-found for the name.
    pub fn update_response(&self, name: &str, ex: Exchange<CatalogInfo>) -> (r: UCRSResult<
        CatalogInfo,
    >)
        ensures
            result_model(r) == spec_interpret(ResourceKind::Catalog, Operation::Update, name@, ex),
    {
        interpret(ResourceKind::Catalog, Operation::Update, name, ex)
    }
}

} // verus!
