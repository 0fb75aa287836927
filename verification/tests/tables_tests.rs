use unitycatalog_rs::errors::UCRSError;
use unitycatalog_rs::oss::api::tables::{
    ColumnInfo, ColumnTypeName, CreateTable, DataSourceFormat, TableInfo, TableType, TablesClient,
};
use unitycatalog_rs::request::{Exchange, HttpMethod, RequestClient};

fn transport() -> RequestClient {
    RequestClient::new("http://localhost:8080", true).unwrap()
}

#[test]
fn table_full_name_is_the_dotted_join() {
    assert_eq!(
        TablesClient::full_name("unity", "default", "mytable"),
        "unity.default.mytable"
    );
}

#[test]
fn table_list_request_scopes_to_catalog_and_schema() {
    let rc = transport();
    let client = TablesClient::new(&rc);
    let req = client.list_request("unity", "default", None, None).unwrap();
    assert_eq!(
        req.url,
        "http://localhost:8080/api/2.1/unity-catalog/tables?catalog_name=unity&schema_name=default"
    );
    assert_eq!(req.method, HttpMethod::Get);
}

#[test]
fn table_delete_request_has_no_force_flag() {
    let rc = transport();
    let client = TablesClient::new(&rc);
    let req = client.delete_request("unity.default.mytable").unwrap();
    assert_eq!(
        req.url,
        "http://localhost:8080/api/2.1/unity-catalog/tables/unity.default.mytable"
    );
    assert_eq!(req.method, HttpMethod::Delete);
}

#[test]
fn column_type_names_match_both_spellings() {
    assert_eq!(ColumnTypeName::INT.wire_name(), "INT");
    assert_eq!(ColumnTypeName::INT.text_name(), "int");
    assert_eq!(ColumnTypeName::TIMESTAMP_NTZ.wire_name(), "TIMESTAMP_NTZ");
    assert_eq!(ColumnTypeName::TIMESTAMP_NTZ.text_name(), "timestamp_ntz");
    assert_eq!(TableType::EXTERNAL.wire_name(), "EXTERNAL");
    assert_eq!(DataSourceFormat::DELTA.wire_name(), "DELTA");
}

#[test]
fn column_builder_generates_the_type_json() {
    let column = ColumnInfo::builder()
        .name("my_column".to_string())
        .type_text(ColumnTypeName::INT.text_name().to_string())
        .column_type(ColumnTypeName::INT)
        .position(0)
        .type_precision(0)
        .type_scale(0)
        .nullable(true)
        .generate_type_json()
        .build()
        .unwrap();
    assert_eq!(column.name.as_deref(), Some("my_column"));
    assert_eq!(
        column.type_json.as_deref(),
        Some("{\"name\":\"my_column\",\"type\":\"int\",\"nullable\":true,\"metadata\":{}}")
    );
    let v: serde_json::Value = serde_json::from_str(column.type_json.as_deref().unwrap()).unwrap();
    assert_eq!(v["type"], serde_json::Value::String("int".to_string()));
}

#[test]
fn column_json_renders_every_field_exactly() {
    let column = ColumnInfo {
        name: Some("c".to_string()),
        type_text: Some("int".to_string()),
        type_json: None,
        column_type: Some(ColumnTypeName::INT),
        type_precision: Some(-2),
        type_scale: Some(0),
        type_interval_type: None,
        position: Some(3),
        comment: Some("x".to_string()),
        nullable: Some(false),
        partition_index: Some(1),
    };
    assert_eq!(
        column.to_json(),
        "{\"name\":\"c\",\"type_text\":\"int\",\"type_json\":null,\"type_name\":\"INT\",\
         \"type_precision\":-2,\"type_scale\":0,\"type_interval_type\":null,\"position\":3,\
         \"comment\":\"x\",\"nullable\":false,\"partition_index\":1}"
    );
}

#[test]
fn table_builder_requires_every_field() {
    let missing = CreateTable::builder()
        .catalog_name("unity".to_string())
        .schema_name("default".to_string())
        .build();
    assert!(missing.is_err());

    let built = CreateTable::builder()
        .catalog_name("unity".to_string())
        .schema_name("default".to_string())
        .name("mytable".to_string())
        .table_type(TableType::EXTERNAL)
        .storage_location(Some("file:///tmp/marksheet_uniform2".to_string()))
        .data_source_format(DataSourceFormat::DELTA)
        .columns(vec![])
        .build()
        .unwrap();
    assert_eq!(built.name, "mytable");
    assert_eq!(built.storage_location.as_deref(), Some("file:///tmp/marksheet_uniform2"));
    assert_eq!(built.comment, None);
    assert_eq!(built.properties, None);
}

#[test]
fn create_table_body_is_the_exact_payload_json() {
    let column = ColumnInfo::builder()
        .name("my_column".to_string())
        .column_type(ColumnTypeName::INT)
        .nullable(true)
        .generate_type_json()
        .build()
        .unwrap();
    let props = CreateTable::builder()
        .catalog_name("unity".to_string())
        .schema_name("default".to_string())
        .name("mytable".to_string())
        .table_type(TableType::EXTERNAL)
        .storage_location(Some("file:///tmp/t".to_string()))
        .data_source_format(DataSourceFormat::DELTA)
        .columns(vec![column])
        .build()
        .unwrap();
    let body = props.to_json();
    let v: serde_json::Value = serde_json::from_str(&body).unwrap();
    assert_eq!(v["name"], serde_json::Value::String("mytable".to_string()));
    assert_eq!(v["table_type"], serde_json::Value::String("EXTERNAL".to_string()));
    assert_eq!(v["data_source_format"], serde_json::Value::String("DELTA".to_string()));
    assert_eq!(v["columns"][0]["name"], serde_json::Value::String("my_column".to_string()));
    assert_eq!(v["columns"][0]["type_name"], serde_json::Value::String("INT".to_string()));
    assert_eq!(v["columns"][0]["nullable"], serde_json::Value::Bool(true));
    assert_eq!(v["comment"], serde_json::Value::Null);
}

#[test]
fn duplicate_table_carries_the_bare_name() {
    let rc = transport();
    let client = TablesClient::new(&rc);
    let r = client.create_response(
        "mytable",
        Exchange::<TableInfo>::Responded {
            status: 409,
            body: "exists".to_string(),
            decoded: Err("not json".to_string()),
        },
    );
    assert_eq!(r, Err(UCRSError::DuplicateTableName("mytable".to_string())));
}

#[test]
fn missing_table_yields_not_found() {
    let rc = transport();
    let client = TablesClient::new(&rc);
    let r = client.get_response(
        "unity.default.ghost",
        Exchange::<TableInfo>::Responded {
            status: 404,
            body: "no".to_string(),
            decoded: Err("not json".to_string()),
        },
    );
    assert_eq!(r, Err(UCRSError::TableNotFound("unity.default.ghost".to_string())));
}

#[test]
fn table_delete_quirk_translates_to_unit() {
    let rc = transport();
    let client = TablesClient::new(&rc);
    let r = client.delete_response(
        "unity.default.mytable",
        Exchange::Responded {
            status: 200,
            body: "200 OK".to_string(),
            decoded: Err("expected value".to_string()),
        },
    );
    assert_eq!(r, Ok(()));
}
