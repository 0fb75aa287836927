use unitycatalog_rs::errors::UCRSError;
use unitycatalog_rs::oss::api::catalogs::{
    CatalogInfo, CatalogsClient, CreateCatalog, ListCatalogResponse, UpdateCatalog,
};
use unitycatalog_rs::clients::catalogs::CatalogsClient as LegacyClient;
use unitycatalog_rs::request::{Exchange, HttpMethod, RequestClient};

fn transport() -> RequestClient {
    RequestClient::new("http://localhost:8080", true).unwrap()
}

fn info_named(name: &str) -> CatalogInfo {
    CatalogInfo { name: Some(name.to_string()), ..Default::default() }
}

#[test]
fn create_body_is_the_exact_payload_json() {
    let props = CreateCatalog { name: "mycatalog".to_string(), comment: None, properties: None };
    assert_eq!(props.to_json(), "{\"name\":\"mycatalog\",\"comment\":null,\"properties\":null}");
}

#[test]
fn create_body_carries_comment_and_properties_in_order() {
    let props = CreateCatalog {
        name: "c".to_string(),
        comment: Some("a \"quoted\" note".to_string()),
        properties: Some(vec![
            ("k1".to_string(), "v1".to_string()),
            ("k2".to_string(), "v 2".to_string()),
        ]),
    };
    assert_eq!(
        props.to_json(),
        "{\"name\":\"c\",\"comment\":\"a \\\"quoted\\\" note\",\"properties\":{\"k1\":\"v1\",\"k2\":\"v 2\"}}"
    );
}

#[test]
fn create_body_parses_as_json() {
    let props = CreateCatalog {
        name: "my\ncatalog".to_string(),
        comment: Some("tab\there".to_string()),
        properties: Some(vec![("a".to_string(), "b".to_string())]),
    };
    let v: serde_json::Value = serde_json::from_str(&props.to_json()).unwrap();
    assert_eq!(v["name"], serde_json::Value::String("my\ncatalog".to_string()));
    assert_eq!(v["comment"], serde_json::Value::String("tab\there".to_string()));
    assert_eq!(v["properties"]["a"], serde_json::Value::String("b".to_string()));
}

#[test]
fn update_body_is_the_exact_payload_json() {
    let upd = UpdateCatalog {
        new_name: None,
        properties: None,
        comment: Some("new comment".to_string()),
    };
    assert_eq!(
        upd.to_json(),
        "{\"new_name\":null,\"properties\":null,\"comment\":\"new comment\"}"
    );
}

#[test]
fn list_request_has_no_query_without_parameters() {
    let rc = transport();
    let client = CatalogsClient::new(&rc);
    let req = client.list_request(None, None).unwrap();
    assert_eq!(req.url, "http://localhost:8080/api/2.1/unity-catalog/catalogs");
    assert_eq!(req.method, HttpMethod::Get);
    assert!(req.body.is_none());
}

#[test]
fn list_request_appends_supplied_parameters() {
    let rc = transport();
    let client = CatalogsClient::new(&rc);
    let req = client.list_request(Some("tok en".to_string()), Some(50)).unwrap();
    assert_eq!(
        req.url,
        "http://localhost:8080/api/2.1/unity-catalog/catalogs?page_token=tok+en&max_results=50"
    );
}

#[test]
fn delete_request_always_carries_the_force_flag() {
    let rc = transport();
    let client = CatalogsClient::new(&rc);
    let req = client.delete_request("mycatalog", false).unwrap();
    assert_eq!(
        req.url,
        "http://localhost:8080/api/2.1/unity-catalog/catalogs/mycatalog?force=false"
    );
    assert_eq!(req.method, HttpMethod::Delete);
    let req = client.delete_request("mycatalog", true).unwrap();
    assert_eq!(
        req.url,
        "http://localhost:8080/api/2.1/unity-catalog/catalogs/mycatalog?force=true"
    );
}

#[test]
fn duplicate_create_is_a_duplicate_name_error() {
    let rc = transport();
    let client = CatalogsClient::new(&rc);
    let r = client.create_response(
        "mycatalog",
        Exchange::Responded {
            status: 409,
            body: "already exists".to_string(),
            decoded: Err("not json".to_string()),
        },
    );
    assert_eq!(r, Err(UCRSError::DuplicateCatalogName("mycatalog".to_string())));
}

#[test]
fn another_create_failure_stays_generic() {
    let rc = transport();
    let client = CatalogsClient::new(&rc);
    let r = client.create_response(
        "mycatalog",
        Exchange::Responded {
            status: 500,
            body: "boom".to_string(),
            decoded: Err("not json".to_string()),
        },
    );
    assert_eq!(r, Err(UCRSError::RequestErrorWithResponse(500, "boom".to_string())));
}

#[test]
fn missing_catalog_yields_not_found_on_get_update_delete() {
    let rc = transport();
    let client = CatalogsClient::new(&rc);
    let not_found = |body: &str| Exchange::<CatalogInfo>::Responded {
        status: 404,
        body: body.to_string(),
        decoded: Err("not json".to_string()),
    };
    assert_eq!(
        client.get_response("ghost", not_found("no")),
        Err(UCRSError::CatalogNotFound("ghost".to_string()))
    );
    assert_eq!(
        client.update_response("ghost", not_found("no")),
        Err(UCRSError::CatalogNotFound("ghost".to_string()))
    );
    let r = client.delete_response(
        "ghost",
        Exchange::Responded {
            status: 404,
            body: "no".to_string(),
            decoded: Err("not json".to_string()),
        },
    );
    assert_eq!(r, Err(UCRSError::CatalogNotFound("ghost".to_string())));
}

#[test]
fn delete_succeeds_despite_the_unparseable_body() {
    let rc = transport();
    let client = CatalogsClient::new(&rc);
    let r = client.delete_response(
        "mycatalog",
        Exchange::Responded {
            status: 200,
            body: "200 OK".to_string(),
            decoded: Err("expected value at line 1".to_string()),
        },
    );
    assert_eq!(r, Ok(()));
}

#[test]
fn a_decode_failure_outside_delete_is_not_swallowed() {
    let rc = transport();
    let client = CatalogsClient::new(&rc);
    let r = client.get_response(
        "mycatalog",
        Exchange::<CatalogInfo>::Responded {
            status: 200,
            body: "200 OK".to_string(),
            decoded: Err("expected value".to_string()),
        },
    );
    assert_eq!(r, Err(UCRSError::JSONParsingError("expected value".to_string())));
}

#[test]
fn list_is_returned_unchanged_before_and_after_a_create_delete_pair() {
    let rc = transport();
    let client = CatalogsClient::new(&rc);
    let original = ListCatalogResponse {
        catalogs: vec![info_named("unity")],
        next_page_token: None,
    };
    let page = |p: &ListCatalogResponse| Exchange::Responded {
        status: 200,
        body: "…".to_string(),
        decoded: Ok(p.clone()),
    };
    let before = client.list_response(page(&original)).unwrap();

    let with_new = ListCatalogResponse {
        catalogs: vec![info_named("unity"), info_named("mycatalog")],
        next_page_token: None,
    };
    let during = client.list_response(page(&with_new)).unwrap();
    assert!(during.catalogs.iter().any(|c| c.name.as_deref() == Some("mycatalog")));

    let after = client.list_response(page(&original)).unwrap();
    assert!(!after.catalogs.iter().any(|c| c.name.as_deref() == Some("mycatalog")));
    assert_eq!(before, after);
}

#[test]
fn create_get_delete_scenario_round_trips() {
    let rc = transport();
    let client = CatalogsClient::new(&rc);

    let created = client
        .create_response(
            "mycatalog",
            Exchange::Responded {
                status: 201,
                body: "{\"name\":\"mycatalog\"}".to_string(),
                decoded: Ok(info_named("mycatalog")),
            },
        )
        .unwrap();
    assert_eq!(created.name.as_deref(), Some("mycatalog"));

    let fetched = client
        .get_response(
            "mycatalog",
            Exchange::Responded {
                status: 200,
                body: "{\"name\":\"mycatalog\"}".to_string(),
                decoded: Ok(info_named("mycatalog")),
            },
        )
        .unwrap();
    assert_eq!(fetched.name, created.name);

    let deleted = client.delete_response(
        "mycatalog",
        Exchange::Responded {
            status: 200,
            body: "200 OK".to_string(),
            decoded: Err("expected value".to_string()),
        },
    );
    assert_eq!(deleted, Ok(()));

    let gone = client.get_response(
        "mycatalog",
        Exchange::<CatalogInfo>::Responded {
            status: 404,
            body: "not found".to_string(),
            decoded: Err("not json".to_string()),
        },
    );
    assert_eq!(gone, Err(UCRSError::CatalogNotFound("mycatalog".to_string())));
}

#[test]
fn first_generation_client_plans_the_same_routes() {
    let rc = transport();
    let client = LegacyClient::new(&rc);
    let req = client
        .create_request("mycatalog", Some("note"), Some(vec![("k".to_string(), "v".to_string())]))
        .unwrap();
    assert_eq!(req.url, "http://localhost:8080/api/2.1/unity-catalog/catalogs");
    assert_eq!(
        req.body.as_deref(),
        Some("{\"name\":\"mycatalog\",\"comment\":\"note\",\"properties\":{\"k\":\"v\"}}")
    );
    let req = client.update_request("mycatalog", None, None, Some("new comment")).unwrap();
    assert_eq!(req.url, "http://localhost:8080/api/2.1/unity-catalog/catalogs/mycatalog");
    assert_eq!(
        req.body.as_deref(),
        Some("{\"new_name\":null,\"properties\":null,\"comment\":\"new comment\"}")
    );
    let req = client.delete_request("mycatalog", false).unwrap();
    assert_eq!(
        req.url,
        "http://localhost:8080/api/2.1/unity-catalog/catalogs/mycatalog?force=false"
    );
}
