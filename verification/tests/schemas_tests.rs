use unitycatalog_rs::errors::UCRSError;
use unitycatalog_rs::oss::api::schemas::{
    CreateSchema, SchemaInfo, SchemasClient, UpdateSchema,
};
use unitycatalog_rs::oss::schemas::UpdateSchema as LegacyUpdate;
use unitycatalog_rs::request::{Exchange, HttpMethod, RequestClient};

fn transport() -> RequestClient {
    RequestClient::new("http://localhost:8080", true).unwrap()
}

#[test]
fn schema_full_name_is_the_dotted_join() {
    assert_eq!(SchemasClient::full_name("unity", "myschema"), "unity.myschema");
    assert_eq!(SchemasClient::full_name("", "s"), ".s");
    assert_eq!(SchemasClient::full_name("a.b", "c"), "a.b.c");
}

#[test]
fn schema_list_request_scopes_to_the_catalog() {
    let rc = transport();
    let client = SchemasClient::new(&rc);
    let req = client.list_request("unity", None, None).unwrap();
    assert_eq!(
        req.url,
        "http://localhost:8080/api/2.1/unity-catalog/schemas?catalog_name=unity"
    );
    assert_eq!(req.method, HttpMethod::Get);
    let req = client.list_request("unity", Some("t".to_string()), Some(7)).unwrap();
    assert_eq!(
        req.url,
        "http://localhost:8080/api/2.1/unity-catalog/schemas?catalog_name=unity&page_token=t&max_results=7"
    );
}

#[test]
fn schema_create_body_is_the_exact_payload_json() {
    let props = CreateSchema {
        name: "myschema".to_string(),
        catalog_name: "unity".to_string(),
        comment: None,
        properties: None,
    };
    assert_eq!(
        props.to_json(),
        "{\"name\":\"myschema\",\"catalog_name\":\"unity\",\"comment\":null,\"properties\":null}"
    );
}

#[test]
fn schema_update_body_is_the_exact_payload_json() {
    let upd = UpdateSchema {
        name: "myschema".to_string(),
        new_name: None,
        properties: None,
        comment: Some("New comment".to_string()),
    };
    assert_eq!(
        upd.to_json(),
        "{\"name\":\"myschema\",\"new_name\":null,\"properties\":null,\"comment\":\"New comment\"}"
    );
}

#[test]
fn duplicate_schema_carries_the_full_name() {
    let rc = transport();
    let client = SchemasClient::new(&rc);
    let full = SchemasClient::full_name("unity", "myschema");
    let r = client.create_response(
        &full,
        Exchange::<SchemaInfo>::Responded {
            status: 409,
            body: "exists".to_string(),
            decoded: Err("not json".to_string()),
        },
    );
    assert_eq!(r, Err(UCRSError::DuplicateSchemaName("unity.myschema".to_string())));
}

#[test]
fn missing_schema_yields_not_found() {
    let rc = transport();
    let client = SchemasClient::new(&rc);
    let r = client.get_response(
        "unity.myschema2",
        Exchange::<SchemaInfo>::Responded {
            status: 404,
            body: "no".to_string(),
            decoded: Err("not json".to_string()),
        },
    );
    assert_eq!(r, Err(UCRSError::SchemaNotFound("unity.myschema2".to_string())));
}

#[test]
fn schema_delete_request_and_quirk() {
    let rc = transport();
    let client = SchemasClient::new(&rc);
    let req = client.delete_request("unity.myschema", false).unwrap();
    assert_eq!(
        req.url,
        "http://localhost:8080/api/2.1/unity-catalog/schemas/unity.myschema?force=false"
    );
    let r = client.delete_response(
        "unity.myschema",
        Exchange::Responded {
            status: 200,
            body: "200 OK".to_string(),
            decoded: Err("expected value".to_string()),
        },
    );
    assert_eq!(r, Ok(()));
}

#[test]
fn first_generation_schema_update_body_has_no_name() {
    let upd = LegacyUpdate {
        new_name: Some("renamed".to_string()),
        properties: None,
        comment: None,
    };
    assert_eq!(
        upd.to_json(),
        "{\"new_name\":\"renamed\",\"properties\":null,\"comment\":null}"
    );
}
