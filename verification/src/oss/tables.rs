//! The first-generation tables client: listing only.  It shares the record
//! types of the newer client; its creation payload, never sent by this
//! generation, carries only the three name fields.

use crate::codec::{append_query_pair, attach_query};
use crate::errors::{result_model, ErrorModel, ResourceKind, UCRSResult};
use crate::oss::api::tables::tables_list_route;
use crate::request::{Exchange, HttpMethod, HttpRequest, HttpRequestModel, RequestClient, url_resolve};
use crate::resource::{append_pagination, interpret, spec_interpret, Operation};
use vstd::prelude::*;
use vstd::string::StringExecFns;

pub use crate::oss::api::tables::{
    ColumnInfo, ColumnTypeName, DataSourceFormat, ListTablesResponse, TableInfo, TableType,
};

verus! {

/// The names that place a new table: its own, its schema's and its
/// catalog's.
#[derive(Debug, Default, Clone, PartialEq, Eq)]
pub struct CreateTable {
    pub name: String,
    pub catalog_name: String,
    pub schema_name: String,
}

/// A stateless borrow of the transport client, specialized to tables.
pub struct TablesClient<'a> {
    client: &'a RequestClient,
}

/// A tables client's mathematical value is its transport's base URL.
impl<'a> View for TablesClient<'a> {
    type V = Seq<char>;

    closed spec fn view(&self) -> Seq<char> {
        self.client@
    }
}

impl<'a> TablesClient<'a> {
    pub fn new(client: &'a RequestClient) -> (r: Self)
        ensures
            r@ == client@,
    {
        TablesClient { client }
    }

    /// Plans one listing request: a GET of the collection scoped to one
    /// schema, pagination parameters attached only when supplied.
    pub fn list_request(
        &self,
        catalog_name: &str,
        schema_name: &str,
        page_token: Option<String>,
        max_results: Option<i32>,
    ) -> (r: UCRSResult<HttpRequest>)
        ensures
            url_resolve(
                self@,
                tables_list_route(catalog_name@, schema_name@, page_token.deep_view(), max_results),
            ) matches Some(u) ==> (r matches Ok(req) && req@ == (HttpRequestModel {
                method: HttpMethod::Get,
                url: u,
                body: None,
                json_headers: false,
            })),
            url_resolve(
                self@,
                tables_list_route(catalog_name@, schema_name@, page_token.deep_view(), max_results),
            ) is None ==> (r matches Err(e) && e@ matches ErrorModel::MalformedURL(_)),
    {
        let mut route = String::from_str("/api/2.1/unity-catalog/tables");
        let mut q = String::new();
        append_query_pair(&mut q, "catalog_name", catalog_name);
        append_query_pair(&mut q, "schema_name", schema_name);
        append_pagination(&mut q, &page_token, &max_results);
        attach_query(&mut route, q.as_str());
        self.client.get(route.as_str(), None)
    }

    /// Reads one listing exchange: the server's page is returned unchanged.
    pub fn list_response(&self, ex: Exchange<ListTablesResponse>) -> (r: UCRSResult<
        ListTablesResponse,
    >)
        ensures
            result_model(r) == spec_interpret(ResourceKind::Table, Operation::List, ""@, ex),
    {
        interpret(ResourceKind::Table, Operation::List, "", ex)
    }
}

} // verus!
