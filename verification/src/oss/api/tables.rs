//! The tables client: the resource-client pattern over
//! `/api/2.1/unity-catalog/tables`.  A table is identified by its dotted
//! full name `catalog.schema.table`; listing is scoped by `catalog_name`
//! and `schema_name` query parameters.  Tables have no update operation and
//! no `force` flag on delete.

use crate::codec::{
    json_opt_bool, json_opt_i32, json_opt_string, json_opt_u32, json_opt_props, json_props,
    json_string, spec_bool_text, spec_with_query, spec_add_pair, append_json_opt_bool,
    append_json_opt_i32, append_json_opt_string, append_json_opt_u32, append_json_opt_props,
    append_json_props, append_json_string, append_query_pair, attach_query, bool_text, push_char,
};
use crate::errors::{result_model, ErrorModel, ResourceKind, UCRSResult};
use crate::request::{Exchange, HttpMethod, HttpRequest, HttpRequestModel, RequestClient, url_resolve};
use crate::resource::{
    append_pagination, interpret, interpret_delete, spec_interpret, spec_interpret_delete,
    spec_pagination, Operation,
};
use vstd::prelude::*;
use vstd::string::StringExecFns;

verus! {

/// Whether the service or an external location owns a table's storage.
#[derive(Debug, Clone, Copy, PartialEq, Eq)]
pub enum TableType {
    MANAGED,
    EXTERNAL,
}

/// A table type's name on the wire.
pub open spec fn spec_table_type_name(t: TableType) -> Seq<char> {
    match t {
        TableType::MANAGED => "MANAGED"@,
        TableType::EXTERNAL => "EXTERNAL"@,
    }
}

impl TableType {
    /// The name on the wire.
    pub fn wire_name(&self) -> (r: &'static str)
        ensures
            r@ == spec_table_type_name(*self),
    {
        match self {
            TableType::MANAGED => "MANAGED",
            TableType::EXTERNAL => "EXTERNAL",
        }
    }
}

/// The storage format of a table's data.
#[derive(Debug, Clone, Copy, PartialEq, Eq)]
pub enum DataSourceFormat {
    DELTA,
    CSV,
    JSON,
    AVRO,
    PARQUET,
    ORC,
    TEXT,
}

/// A data-source format's name on the wire.
pub open spec fn spec_data_source_format_name(f: DataSourceFormat) -> Seq<char> {
    match f {
        DataSourceFormat::DELTA => "DELTA"@,
        DataSourceFormat::CSV => "CSV"@,
        DataSourceFormat::JSON => "JSON"@,
        DataSourceFormat::AVRO => "AVRO"@,
        DataSourceFormat::PARQUET => "PARQUET"@,
        DataSourceFormat::ORC => "ORC"@,
        DataSourceFormat::TEXT => "TEXT"@,
    }
}

impl DataSourceFormat {
    /// The name on the wire.
    pub fn wire_name(&self) -> (r: &'static str)
        ensures
            r@ == spec_data_source_format_name(*self),
    {
        match self {
            DataSourceFormat::DELTA => "DELTA",
            DataSourceFormat::CSV => "CSV",
            DataSourceFormat::JSON => "JSON",
            DataSourceFormat::AVRO => "AVRO",
            DataSourceFormat::PARQUET => "PARQUET",
            DataSourceFormat::ORC => "ORC",
            DataSourceFormat::TEXT => "TEXT",
        }
    }
}

/// A column's type.
#[derive(Debug, Clone, Copy, PartialEq, Eq)]
pub enum ColumnTypeName {
    BOOLEAN,
    BYTE,
    SHORT,
    INT,
    LONG,
    FLOAT,
    DOUBLE,
    DATE,
    TIMESTAMP,
    #[allow(non_camel_case_types)]
    TIMESTAMP_NTZ,
    STRING,
    BINARY,
    DECIMAL,
    INTERVAL,
    ARRAY,
    STRUCT,
    MAP,
    CHAR,
    NULL,
    #[allow(non_camel_case_types)]
    USER_DEFINED_TYPE,
    #[allow(non_camel_case_types)]
    TABLE_TYPE,
}

/// A column type's name on the wire, as the `type_name` field carries it.
pub open spec fn spec_column_type_wire_name(t: ColumnTypeName) -> Seq<char> {
    match t {
        ColumnTypeName::BOOLEAN => "BOOLEAN"@,
        ColumnTypeName::BYTE => "BYTE"@,
        ColumnTypeName::SHORT => "SHORT"@,
        ColumnTypeName::INT => "INT"@,
        ColumnTypeName::LONG => "LONG"@,
        ColumnTypeName::FLOAT => "FLOAT"@,
        ColumnTypeName::DOUBLE => "DOUBLE"@,
        ColumnTypeName::DATE => "DATE"@,
        ColumnTypeName::TIMESTAMP => "TIMESTAMP"@,
        ColumnTypeName::TIMESTAMP_NTZ => "TIMESTAMP_NTZ"@,
        ColumnTypeName::STRING => "STRING"@,
        ColumnTypeName::BINARY => "BINARY"@,
        ColumnTypeName::DECIMAL => "DECIMAL"@,
        ColumnTypeName::INTERVAL => "INTERVAL"@,
        ColumnTypeName::ARRAY => "ARRAY"@,
        ColumnTypeName::STRUCT => "STRUCT"@,
        ColumnTypeName::MAP => "MAP"@,
        ColumnTypeName::CHAR => "CHAR"@,
        ColumnTypeName::NULL => "NULL"@,
        ColumnTypeName::USER_DEFINED_TYPE => "USER_DEFINED_TYPE"@,
        ColumnTypeName::TABLE_TYPE => "TABLE_TYPE"@,
    }
}

/// A column type's lower-case text, as `type_text` and the generated
/// `type_json` carry it.
pub open spec fn spec_column_type_text(t: ColumnTypeName) -> Seq<char> {
    match t {
        ColumnTypeName::BOOLEAN => "boolean"@,
        ColumnTypeName::BYTE => "byte"@,
        ColumnTypeName::SHORT => "short"@,
        ColumnTypeName::INT => "int"@,
        ColumnTypeName::LONG => "long"@,
        ColumnTypeName::FLOAT => "float"@,
        ColumnTypeName::DOUBLE => "double"@,
        ColumnTypeName::DATE => "date"@,
        ColumnTypeName::TIMESTAMP => "timestamp"@,
        ColumnTypeName::TIMESTAMP_NTZ => "timestamp_ntz"@,
        ColumnTypeName::STRING => "string"@,
        ColumnTypeName::BINARY => "binary"@,
        ColumnTypeName::DECIMAL => "decimal"@,
        ColumnTypeName::INTERVAL => "interval"@,
        ColumnTypeName::ARRAY => "array"@,
        ColumnTypeName::STRUCT => "struct"@,
        ColumnTypeName::MAP => "map"@,
        ColumnTypeName::CHAR => "char"@,
        ColumnTypeName::NULL => "null"@,
        ColumnTypeName::USER_DEFINED_TYPE => "user_defined_type"@,
        ColumnTypeName::TABLE_TYPE => "table_type"@,
    }
}

impl ColumnTypeName {
    /// The name on the wire.
    pub fn wire_name(&self) -> (r: &'static str)
        ensures
            r@ == spec_column_type_wire_name(*self),
    {
        match self {
            ColumnTypeName::BOOLEAN => "BOOLEAN",
            ColumnTypeName::BYTE => "BYTE",
            ColumnTypeName::SHORT => "SHORT",
            ColumnTypeName::INT => "INT",
            ColumnTypeName::LONG => "LONG",
            ColumnTypeName::FLOAT => "FLOAT",
            ColumnTypeName::DOUBLE => "DOUBLE",
            ColumnTypeName::DATE => "DATE",
            ColumnTypeName::TIMESTAMP => "TIMESTAMP",
            ColumnTypeName::TIMESTAMP_NTZ => "TIMESTAMP_NTZ",
            ColumnTypeName::STRING => "STRING",
            ColumnTypeName::BINARY => "BINARY",
            ColumnTypeName::DECIMAL => "DECIMAL",
            ColumnTypeName::INTERVAL => "INTERVAL",
            ColumnTypeName::ARRAY => "ARRAY",
            ColumnTypeName::STRUCT => "STRUCT",
            ColumnTypeName::MAP => "MAP",
            ColumnTypeName::CHAR => "CHAR",
            ColumnTypeName::NULL => "NULL",
            ColumnTypeName::USER_DEFINED_TYPE => "USER_DEFINED_TYPE",
            ColumnTypeName::TABLE_TYPE => "TABLE_TYPE",
        }
    }

    /// The lower-case text.
    pub fn text_name(&self) -> (r: &'static str)
        ensures
            r@ == spec_column_type_text(*self),
    {
        match self {
            ColumnTypeName::BOOLEAN => "boolean",
            ColumnTypeName::BYTE => "byte",
            ColumnTypeName::SHORT => "short",
            ColumnTypeName::INT => "int",
            ColumnTypeName::LONG => "long",
            ColumnTypeName::FLOAT => "float",
            ColumnTypeName::DOUBLE => "double",
            ColumnTypeName::DATE => "date",
            ColumnTypeName::TIMESTAMP => "timestamp",
            ColumnTypeName::TIMESTAMP_NTZ => "timestamp_ntz",
            ColumnTypeName::STRING => "string",
            ColumnTypeName::BINARY => "binary",
            ColumnTypeName::DECIMAL => "decimal",
            ColumnTypeName::INTERVAL => "interval",
            ColumnTypeName::ARRAY => "array",
            ColumnTypeName::STRUCT => "struct",
            ColumnTypeName::MAP => "map",
            ColumnTypeName::CHAR => "char",
            ColumnTypeName::NULL => "null",
            ColumnTypeName::USER_DEFINED_TYPE => "user_defined_type",
            ColumnTypeName::TABLE_TYPE => "table_type",
        }
    }
}

/// A JSON value that is a column type's wire name, or `null` when absent.
pub open spec fn json_opt_column_type(o: Option<ColumnTypeName>) -> Seq<char> {
    match o {
        Option::Some(t) => json_string(spec_column_type_wire_name(t)),
        Option::None => "null"@,
    }
}

/// One column of a table; the server may omit any field, and a creation
/// payload sets only the fields it needs.
#[derive(Debug, Default, Clone, PartialEq, Eq)]
pub struct ColumnInfo {
    pub name: Option<String>,
    pub type_text: Option<String>,
    pub type_json: Option<String>,
    pub column_type: Option<ColumnTypeName>,
    pub type_precision: Option<i32>,
    pub type_scale: Option<i32>,
    pub type_interval_type: Option<String>,
    pub position: Option<u32>,
    pub comment: Option<String>,
    pub nullable: Option<bool>,
    pub partition_index: Option<i32>,
}

impl ColumnInfo {
    /// The JSON object this column is marshaled to, fields in wire order.
    pub open spec fn spec_json(&self) -> Seq<char> {
        "{\"name\":"@ + json_opt_string(self.name.deep_view()) + ",\"type_text\":"@
            + json_opt_string(self.type_text.deep_view()) + ",\"type_json\":"@ + json_opt_string(
            self.type_json.deep_view(),
        ) + ",\"type_name\":"@ + json_opt_column_type(self.column_type) + ",\"type_precision\":"@
            + json_opt_i32(self.type_precision) + ",\"type_scale\":"@ + json_opt_i32(
            self.type_scale,
        ) + ",\"type_interval_type\":"@ + json_opt_string(self.type_interval_type.deep_view())
            + ",\"position\":"@ + json_opt_u32(self.position) + ",\"comment\":"@ + json_opt_string(
            self.comment.deep_view(),
        ) + ",\"nullable\":"@ + json_opt_bool(self.nullable) + ",\"partition_index\":"@
            + json_opt_i32(self.partition_index) + "}"@
    }

    /// Marshals the column as JSON.
    pub fn to_json(&self) -> (r: String)
        ensures
            r@ == self.spec_json(),
    {
        let mut out = String::from_str("{\"name\":");
        append_json_opt_string(&mut out, &self.name);
        out.append(",\"type_text\":");
        append_json_opt_string(&mut out, &self.type_text);
        out.append(",\"type_json\":");
        append_json_opt_string(&mut out, &self.type_json);
        out.append(",\"type_name\":");
        match &self.column_type {
            Option::Some(t) => append_json_string(&mut out, t.wire_name()),
            Option::None => out.append("null"),
        }
        out.append(",\"type_precision\":");
        append_json_opt_i32(&mut out, &self.type_precision);
        out.append(",\"type_scale\":");
        append_json_opt_i32(&mut out, &self.type_scale);
        out.append(",\"type_interval_type\":");
        append_json_opt_string(&mut out, &self.type_interval_type);
        out.append(",\"position\":");
        append_json_opt_u32(&mut out, &self.position);
        out.append(",\"comment\":");
        append_json_opt_string(&mut out, &self.comment);
        out.append(",\"nullable\":");
        append_json_opt_bool(&mut out, &self.nullable);
        out.append(",\"partition_index\":");
        append_json_opt_i32(&mut out, &self.partition_index);
        out.append("}");
        proof {
            assert(out@ =~= self.spec_json());
        }
        out
    }

    /// An empty column builder.
    pub fn builder() -> (r: ColumnInfoBuilder)
        ensures
            r.value == (ColumnInfo {
                name: None,
                type_text: None,
                type_json: None,
                column_type: None,
                type_precision: None,
                type_scale: None,
                type_interval_type: None,
                position: None,
                comment: None,
                nullable: None,
                partition_index: None,
            }),
    {
        ColumnInfoBuilder {
            value: ColumnInfo {
                name: None,
                type_text: None,
                type_json: None,
                column_type: None,
                type_precision: None,
                type_scale: None,
                type_interval_type: None,
                position: None,
                comment: None,
                nullable: None,
                partition_index: None,
            },
        }
    }
}

/// The column description that `type_json` carries, serialized as JSON.
#[derive(Debug, Default, Clone, PartialEq, Eq)]
pub struct TypeJSON {
    pub name: String,
    /// The column type's lower-case text; `type` on the wire.
    pub type_text: String,
    pub nullable: bool,
    pub metadata: Vec<(String, String)>,
}

impl TypeJSON {
    /// The JSON object this description is marshaled to, fields in wire
    /// order; the type's key on the wire is `type`.
    pub open spec fn spec_json(&self) -> Seq<char> {
        "{\"name\":"@ + json_string(self.name@) + ",\"type\":"@ + json_string(self.type_text@)
            + ",\"nullable\":"@ + spec_bool_text(self.nullable) + ",\"metadata\":"@ + json_props(
            self.metadata.deep_view(),
        ) + "}"@
    }

    /// Marshals the description as JSON.
    pub fn to_json(&self) -> (r: String)
        ensures
            r@ == self.spec_json(),
    {
        let mut out = String::from_str("{\"name\":");
        append_json_string(&mut out, self.name.as_str());
        out.append(",\"type\":");
        append_json_string(&mut out, self.type_text.as_str());
        out.append(",\"nullable\":");
        out.append(bool_text(self.nullable));
        out.append(",\"metadata\":");
        append_json_props(&mut out, &self.metadata);
        out.append("}");
        proof {
            assert(out@ =~= self.spec_json());
        }
        out
    }
}

/// Builds a [`ColumnInfo`] field by field; every field is optional and an
/// unset field stays absent.
#[derive(Debug, Default, Clone, PartialEq, Eq)]
pub struct ColumnInfoBuilder {
    pub value: ColumnInfo,
}

/// The `type_json` text generated for a column: its name, its type's
/// lower-case text, its nullability, and empty metadata.
pub open spec fn spec_generated_type_json(name: Seq<char>, t: ColumnTypeName, nullable: bool) -> Seq<
    char,
> {
    "{\"name\":"@ + json_string(name) + ",\"type\":"@ + json_string(spec_column_type_text(t))
        + ",\"nullable\":"@ + spec_bool_text(nullable) + ",\"metadata\":"@ + json_props(
        Seq::<(Seq<char>, Seq<char>)>::empty(),
    ) + "}"@
}

impl ColumnInfoBuilder {
    pub fn name(self, v: String) -> (r: Self)
        ensures
            r.value == (ColumnInfo { name: Some(v), ..self.value }),
    {
        let mut value = self.value;
        value.name = Some(v);
        ColumnInfoBuilder { value }
    }

    pub fn type_text(self, v: String) -> (r: Self)
        ensures
            r.value == (ColumnInfo { type_text: Some(v), ..self.value }),
    {
        let mut value = self.value;
        value.type_text = Some(v);
        ColumnInfoBuilder { value }
    }

    pub fn type_json(self, v: String) -> (r: Self)
        ensures
            r.value == (ColumnInfo { type_json: Some(v), ..self.value }),
    {
        let mut value = self.value;
        value.type_json = Some(v);
        ColumnInfoBuilder { value }
    }

    pub fn column_type(self, v: ColumnTypeName) -> (r: Self)
        ensures
            r.value == (ColumnInfo { column_type: Some(v), ..self.value }),
    {
        let mut value = self.value;
        value.column_type = Some(v);
        ColumnInfoBuilder { value }
    }

    pub fn type_precision(self, v: i32) -> (r: Self)
        ensures
            r.value == (ColumnInfo { type_precision: Some(v), ..self.value }),
    {
        let mut value = self.value;
        value.type_precision = Some(v);
        ColumnInfoBuilder { value }
    }

    pub fn type_scale(self, v: i32) -> (r: Self)
        ensures
            r.value == (ColumnInfo { type_scale: Some(v), ..self.value }),
    {
        let mut value = self.value;
        value.type_scale = Some(v);
        ColumnInfoBuilder { value }
    }

    pub fn type_interval_type(self, v: String) -> (r: Self)
        ensures
            r.value == (ColumnInfo { type_interval_type: Some(v), ..self.value }),
    {
        let mut value = self.value;
        value.type_interval_type = Some(v);
        ColumnInfoBuilder { value }
    }

    pub fn position(self, v: u32) -> (r: Self)
        ensures
            r.value == (ColumnInfo { position: Some(v), ..self.value }),
    {
        let mut value = self.value;
        value.position = Some(v);
        ColumnInfoBuilder { value }
    }

    pub fn comment(self, v: String) -> (r: Self)
        ensures
            r.value == (ColumnInfo { comment: Some(v), ..self.value }),
    {
        let mut value = self.value;
        value.comment = Some(v);
        ColumnInfoBuilder { value }
    }

    pub fn nullable(self, v: bool) -> (r: Self)
        ensures
            r.value == (ColumnInfo { nullable: Some(v), ..self.value }),
    {
        let mut value = self.value;
        value.nullable = Some(v);
        ColumnInfoBuilder { value }
    }

    pub fn partition_index(self, v: i32) -> (r: Self)
        ensures
            r.value == (ColumnInfo { partition_index: Some(v), ..self.value }),
    {
        let mut value = self.value;
        value.partition_index = Some(v);
        ColumnInfoBuilder { value }
    }

    /// Fills `type_json` from the name, type and nullability already set.
    pub fn generate_type_json(self) -> (r: Self)
        requires
            self.value.name is Some,
            self.value.column_type is Some,
            self.value.nullable is Some,
        ensures
            r.value == (ColumnInfo {
                type_json: Some(r.value.type_json->0),
                ..self.value
            }),
            r.value.type_json matches Some(s) && s@ == spec_generated_type_json(
                self.value.name->0@,
                self.value.column_type->0,
                self.value.nullable->0,
            ),
    {
        let name = match &self.value.name {
            Option::Some(s) => s.clone(),
            Option::None => unreached(),
        };
        let t = match &self.value.column_type {
            Option::Some(t) => *t,
            Option::None => unreached(),
        };
        let nullable = match &self.value.nullable {
            Option::Some(b) => *b,
            Option::None => unreached(),
        };
        let tj = TypeJSON {
            name,
            type_text: String::from_str(t.text_name()),
            nullable,
            metadata: Vec::new(),
        };
        let text = tj.to_json();
        proof {
            assert(tj.metadata.deep_view() =~= Seq::<(Seq<char>, Seq<char>)>::empty());
        }
        let mut value = self.value;
        value.type_json = Some(text);
        ColumnInfoBuilder { value }
    }

    /// Finishes the column; every field is optional, so building cannot
    /// fail.
    pub fn build(self) -> (r: Result<ColumnInfo, String>)
        ensures
            r matches Ok(c) && c == self.value,
    {
        Ok(self.value)
    }
}

/// One page of a table listing.
#[derive(Debug, Default, Clone, PartialEq, Eq)]
pub struct ListTablesResponse {
    pub tables: Vec<TableInfo>,
    pub next_page_token: Option<String>,
}

/// A table as the server describes it; the server may omit any field.
#[derive(Debug, Default, Clone, PartialEq, Eq)]
pub struct TableInfo {
    pub name: Option<String>,
    pub catalog_name: Option<String>,
    pub schema_name: Option<String>,
    pub table_type: Option<TableType>,
    pub data_source_format: Option<DataSourceFormat>,
    pub columns: Option<Vec<ColumnInfo>>,
    pub storage_location: Option<String>,
    pub comment: Option<String>,
    pub properties: Option<Vec<(String, String)>>,
    pub created_at: Option<i64>,
    pub updated_at: Option<i64>,
    pub table_id: Option<String>,
}

/// The members of a JSON column array, joined with commas.
pub open spec fn json_columns_inner(cols: Seq<ColumnInfo>) -> Seq<char>
    decreases cols.len(),
{
    if cols.len() == 0 {
        Seq::<char>::empty()
    } else if cols.len() == 1 {
        cols[0].spec_json()
    } else {
        json_columns_inner(cols.drop_last()) + seq![','] + cols.last().spec_json()
    }
}

/// A JSON array of column objects, in the order given.
pub open spec fn json_columns(cols: Seq<ColumnInfo>) -> Seq<char> {
    seq!['['] + json_columns_inner(cols) + seq![']']
}

/// Appends a column list as a JSON array.
pub fn append_json_columns(out: &mut String, cols: &Vec<ColumnInfo>)
    ensures
        final(out)@ == old(out)@ + json_columns(cols@),
{
    push_char(out, '[');
    let mut i: usize = 0;
    while i < cols.len()
        invariant
            i <= cols@.len(),
            out@ == old(out)@ + seq!['['] + json_columns_inner(cols@.take(i as int)),
        decreases cols@.len() - i,
    {
        if i > 0 {
            push_char(out, ',');
        }
        let piece = cols[i].to_json();
        out.append(piece.as_str());
        proof {
            assert(cols@.take(i + 1).drop_last() =~= cols@.take(i as int));
            assert(cols@.take(i + 1).last() == cols@[i as int]);
            assert(out@ =~= old(out)@ + seq!['['] + json_columns_inner(cols@.take(i + 1)));
        }
        i = i + 1;
    }
    proof {
        assert(cols@.take(cols@.len() as int) =~= cols@);
    }
    push_char(out, ']');
    proof {
        assert(out@ =~= old(out)@ + json_columns(cols@));
    }
}

/// The payload of a table-creation request.
#[derive(Debug, Clone, PartialEq, Eq)]
pub struct CreateTable {
    pub name: String,
    pub catalog_name: String,
    pub schema_name: String,
    pub table_type: TableType,
    pub data_source_format: DataSourceFormat,
    pub columns: Vec<ColumnInfo>,
    pub storage_location: Option<String>,
    pub comment: Option<String>,
    pub properties: Option<Vec<(String, String)>>,
}

impl CreateTable {
    /// The JSON body this payload is marshaled to, fields in wire order.
    pub open spec fn spec_json(&self) -> Seq<char> {
        "{\"name\":"@ + json_string(self.name@) + ",\"catalog_name\":"@ + json_string(
            self.catalog_name@,
        ) + ",\"schema_name\":"@ + json_string(self.schema_name@) + ",\"table_type\":"@
            + json_string(spec_table_type_name(self.table_type)) + ",\"data_source_format\":"@
            + json_string(spec_data_source_format_name(self.data_source_format)) + ",\"columns\":"@
            + json_columns(self.columns@) + ",\"storage_location\":"@ + json_opt_string(
            self.storage_location.deep_view(),
        ) + ",\"comment\":"@ + json_opt_string(self.comment.deep_view()) + ",\"properties\":"@
            + json_opt_props(self.properties.deep_view()) + "}"@
    }

    /// Marshals the payload as JSON.
    pub fn to_json(&self) -> (r: String)
        ensures
            r@ == self.spec_json(),
    {
        let mut out = String::from_str("{\"name\":");
        append_json_string(&mut out, self.name.as_str());
        out.append(",\"catalog_name\":");
        append_json_string(&mut out, self.catalog_name.as_str());
        out.append(",\"schema_name\":");
        append_json_string(&mut out, self.schema_name.as_str());
        out.append(",\"table_type\":");
        append_json_string(&mut out, self.table_type.wire_name());
        out.append(",\"data_source_format\":");
        append_json_string(&mut out, self.data_source_format.wire_name());
        out.append(",\"columns\":");
        append_json_columns(&mut out, &self.columns);
        out.append(",\"storage_location\":");
        append_json_opt_string(&mut out, &self.storage_location);
        out.append(",\"comment\":");
        append_json_opt_string(&mut out, &self.comment);
        out.append(",\"properties\":");
        append_json_opt_props(&mut out, &self.properties);
        out.append("}");
        proof {
            assert(out@ =~= self.spec_json());
        }
        out
    }

    /// A table builder with the three optional payload fields preset to
    /// absent and everything else unset.
    pub fn builder() -> (r: CreateTableBuilder)
        ensures
            r.name is None,
            r.catalog_name is None,
            r.schema_name is None,
            r.table_type is None,
            r.data_source_format is None,
            r.columns is None,
            r.storage_location == Some(Option::<String>::None),
            r.comment == Some(Option::<String>::None),
            r.properties == Some(Option::<Vec<(String, String)>>::None),
    {
        CreateTableBuilder {
            name: None,
            catalog_name: None,
            schema_name: None,
            table_type: None,
            data_source_format: None,
            columns: None,
            storage_location: Some(None),
            comment: Some(None),
            properties: Some(None),
        }
    }
}

/// Builds a [`CreateTable`] field by field; building fails while a field
/// has not been set.
#[derive(Debug, Default, Clone, PartialEq, Eq)]
pub struct CreateTableBuilder {
    pub name: Option<String>,
    pub catalog_name: Option<String>,
    pub schema_name: Option<String>,
    pub table_type: Option<TableType>,
    pub data_source_format: Option<DataSourceFormat>,
    pub columns: Option<Vec<ColumnInfo>>,
    pub storage_location: Option<Option<String>>,
    pub comment: Option<Option<String>>,
    pub properties: Option<Option<Vec<(String, String)>>>,
}

impl CreateTableBuilder {
    pub fn name(self, v: String) -> (r: Self)
        ensures
            r == (CreateTableBuilder { name: Some(v), ..self }),
    {
        CreateTableBuilder { name: Some(v), ..self }
    }

    pub fn catalog_name(self, v: String) -> (r: Self)
        ensures
            r == (CreateTableBuilder { catalog_name: Some(v), ..self }),
    {
        CreateTableBuilder { catalog_name: Some(v), ..self }
    }

    pub fn schema_name(self, v: String) -> (r: Self)
        ensures
            r == (CreateTableBuilder { schema_name: Some(v), ..self }),
    {
        CreateTableBuilder { schema_name: Some(v), ..self }
    }

    pub fn table_type(self, v: TableType) -> (r: Self)
        ensures
            r == (CreateTableBuilder { table_type: Some(v), ..self }),
    {
        CreateTableBuilder { table_type: Some(v), ..self }
    }

    pub fn data_source_format(self, v: DataSourceFormat) -> (r: Self)
        ensures
            r == (CreateTableBuilder { data_source_format: Some(v), ..self }),
    {
        CreateTableBuilder { data_source_format: Some(v), ..self }
    }

    pub fn columns(self, v: Vec<ColumnInfo>) -> (r: Self)
        ensures
            r == (CreateTableBuilder { columns: Some(v), ..self }),
    {
        CreateTableBuilder { columns: Some(v), ..self }
    }

    pub fn storage_location(self, v: Option<String>) -> (r: Self)
        ensures
            r == (CreateTableBuilder { storage_location: Some(v), ..self }),
    {
        CreateTableBuilder { storage_location: Some(v), ..self }
    }

    pub fn comment(self, v: Option<String>) -> (r: Self)
        ensures
            r == (CreateTableBuilder { comment: Some(v), ..self }),
    {
        CreateTableBuilder { comment: Some(v), ..self }
    }

    pub fn properties(self, v: Option<Vec<(String, String)>>) -> (r: Self)
        ensures
            r == (CreateTableBuilder { properties: Some(v), ..self }),
    {
        CreateTableBuilder { properties: Some(v), ..self }
    }

    /// Whether every field has been set.
    pub open spec fn spec_complete(&self) -> bool {
        &&& self.name is Some
        &&& self.catalog_name is Some
        &&& self.schema_name is Some
        &&& self.table_type is Some
        &&& self.data_source_format is Some
        &&& self.columns is Some
        &&& self.storage_location is Some
        &&& self.comment is Some
        &&& self.properties is Some
    }

    /// Finishes the payload: succeeds exactly when every field has been
    /// set, and fails naming a missing field otherwise.
    pub fn build(self) -> (r: Result<CreateTable, String>)
        ensures
            r is Ok <==> self.spec_complete(),
            r matches Ok(t) ==> {
                &&& Some(t.name) == self.name
                &&& Some(t.catalog_name) == self.catalog_name
                &&& Some(t.schema_name) == self.schema_name
                &&& Some(t.table_type) == self.table_type
                &&& Some(t.data_source_format) == self.data_source_format
                &&& Some(t.columns) == self.columns
                &&& Some(t.storage_location) == self.storage_location
                &&& Some(t.comment) == self.comment
                &&& Some(t.properties) == self.properties
            },
    {
        let CreateTableBuilder {
            name,
            catalog_name,
            schema_name,
            table_type,
            data_source_format,
            columns,
            storage_location,
            comment,
            properties,
        } = self;
        let name = match name {
            Option::Some(v) => v,
            Option::None => {
                return Err(String::from_str("field `name` was not set"));
            },
        };
        let catalog_name = match catalog_name {
            Option::Some(v) => v,
            Option::None => {
                return Err(String::from_str("field `catalog_name` was not set"));
            },
        };
        let schema_name = match schema_name {
            Option::Some(v) => v,
            Option::None => {
                return Err(String::from_str("field `schema_name` was not set"));
            },
        };
        let table_type = match table_type {
            Option::Some(v) => v,
            Option::None => {
                return Err(String::from_str("field `table_type` was not set"));
            },
        };
        let data_source_format = match data_source_format {
            Option::Some(v) => v,
            Option::None => {
                return Err(String::from_str("field `data_source_format` was not set"));
            },
        };
        let columns = match columns {
            Option::Some(v) => v,
            Option::None => {
                return Err(String::from_str("field `columns` was not set"));
            },
        };
        let storage_location = match storage_location {
            Option::Some(v) => v,
            Option::None => {
                return Err(String::from_str("field `storage_location` was not set"));
            },
        };
        let comment = match comment {
            Option::Some(v) => v,
            Option::None => {
                return Err(String::from_str("field `comment` was not set"));
            },
        };
        let properties = match properties {
            Option::Some(v) => v,
            Option::None => {
                return Err(String::from_str("field `properties` was not set"));
            },
        };
        Ok(
            CreateTable {
                name,
                catalog_name,
                schema_name,
                table_type,
                data_source_format,
                columns,
                storage_location,
                comment,
                properties,
            },
        )
    }
}

/// The dotted full name of a table: catalog, schema and table name joined
/// with `.` and no escaping.
pub open spec fn spec_table_full_name(
    catalog_name: Seq<char>,
    schema_name: Seq<char>,
    name: Seq<char>,
) -> Seq<char> {
    catalog_name + seq!['.'] + schema_name + seq!['.'] + name
}

/// The tables collection route.
pub open spec fn tables_collection_route() -> Seq<char> {
    "/api/2.1/unity-catalog/tables"@
}

/// The route of one table, its full name standing in the path unescaped.
pub open spec fn tables_item_route(full_name: Seq<char>) -> Seq<char> {
    "/api/2.1/unity-catalog/tables/"@ + full_name
}

/// The listing route: the mandatory `catalog_name` and `schema_name`
/// scopes first, then the optional pagination parameters.
pub open spec fn tables_list_route(
    catalog_name: Seq<char>,
    schema_name: Seq<char>,
    page_token: Option<Seq<char>>,
    max_results: Option<i32>,
) -> Seq<char> {
    spec_with_query(
        tables_collection_route(),
        spec_pagination(
            spec_add_pair(
                spec_add_pair(Seq::<char>::empty(), "catalog_name"@, catalog_name),
                "schema_name"@,
                schema_name,
            ),
            page_token,
            max_results,
        ),
    )
}

/// A stateless borrow of the transport client, specialized to tables.
pub struct TablesClient<'a> {
    client: &'a RequestClient,
}

/// A tables client's mathematical value is its transport's base URL.
impl<'a> View for TablesClient<'a> {
    type V = Seq<char>;

    closed spec fn view(&self) -> Seq<char> {
        self.client@
    }
}

impl<'a> TablesClient<'a> {
    pub fn new(client: &'a RequestClient) -> (r: Self)
        ensures
            r@ == client@,
    {
        TablesClient { client }
    }

    /// The dotted full name `catalog.schema.table`; the join is purely
    /// textual.
    pub fn full_name(catalog_name: &str, schema_name: &str, name: &str) -> (r: String)
        ensures
            r@ == spec_table_full_name(catalog_name@, schema_name@, name@),
    {
        let mut out = String::new();
        out.append(catalog_name);
        push_char(&mut out, '.');
        out.append(schema_name);
        push_char(&mut out, '.');
        out.append(name);
        out
    }

    /// Plans one listing request: a GET of the collection scoped to one
    /// schema, pagination parameters attached only when supplied.
    pub fn list_request(
        &self,
        catalog_name: &str,
        schema_name: &str,
        page_token: Option<String>,
        max_results: Option<i32>,
    ) -> (r: UCRSResult<HttpRequest>)
        ensures
            url_resolve(
                self@,
                tables_list_route(catalog_name@, schema_name@, page_token.deep_view(), max_results),
            ) matches Some(u) ==> (r matches Ok(req) && req@ == (HttpRequestModel {
                method: HttpMethod::Get,
                url: u,
                body: None,
                json_headers: false,
            })),
            url_resolve(
                self@,
                tables_list_route(catalog_name@, schema_name@, page_token.deep_view(), max_results),
            ) is None ==> (r matches Err(e) && e@ matches ErrorModel::MalformedURL(_)),
    {
        let mut route = String::from_str("/api/2.1/unity-catalog/tables");
        let mut q = String::new();
        append_query_pair(&mut q, "catalog_name", catalog_name);
        append_query_pair(&mut q, "schema_name", schema_name);
        append_pagination(&mut q, &page_token, &max_results);
        attach_query(&mut route, q.as_str());
        self.client.get(route.as_str(), None)
    }

    /// Reads one listing exchange: the server's page is returned unchanged.
    pub fn list_response(&self, ex: Exchange<ListTablesResponse>) -> (r: UCRSResult<
        ListTablesResponse,
    >)
        ensures
            result_model(r) == spec_interpret(ResourceKind::Table, Operation::List, ""@, ex),
    {
        interpret(ResourceKind::Table, Operation::List, "", ex)
    }

    /// Plans one creation request: a POST of the payload to the collection.
    pub fn create_request(&self, props: &CreateTable) -> (r: UCRSResult<HttpRequest>)
        ensures
            url_resolve(self@, tables_collection_route()) matches Some(u) ==> (r matches Ok(req)
                && req@ == (HttpRequestModel {
                method: HttpMethod::Post,
                url: u,
                body: Some(props.spec_json()),
                json_headers: true,
            })),
            url_resolve(self@, tables_collection_route()) is None ==> (r matches Err(e) && e@
                matches ErrorModel::MalformedURL(_)),
    {
        let body = props.to_json();
        self.client.post("/api/2.1/unity-catalog/tables", Some(body))
    }

    /// Reads one creation exchange: a 409 becomes a duplicate-name error
    /// carrying the table name that was being created.
    pub fn create_response(&self, name: &str, ex: Exchange<TableInfo>) -> (r: UCRSResult<TableInfo>)
        ensures
            result_model(r) == spec_interpret(ResourceKind::Table, Operation::Create, name@, ex),
    {
        interpret(ResourceKind::Table, Operation::Create, name, ex)
    }

    /// Plans one fetch request: a GET of the table's route.
    pub fn get_request(&self, full_name: &str) -> (r: UCRSResult<HttpRequest>)
        ensures
            url_resolve(self@, tables_item_route(full_name@)) matches Some(u) ==> (r matches Ok(
                req,
            ) && req@ == (HttpRequestModel {
                method: HttpMethod::Get,
                url: u,
                body: None,
                json_headers: false,
            })),
            url_resolve(self@, tables_item_route(full_name@)) is None ==> (r matches Err(e) && e@
                matches ErrorModel::MalformedURL(_)),
    {
        let mut route = String::from_str("/api/2.1/unity-catalog/tables/");
        route.append(full_name);
        self.client.get(route.as_str(), None)
    }

    /// Reads one fetch exchange: a 404 becomes not-found for the full name.
    pub fn get_response(&self, full_name: &str, ex: Exchange<TableInfo>) -> (r: UCRSResult<
        TableInfo,
    >)
        ensures
            result_model(r) == spec_interpret(ResourceKind::Table, Operation::Get, full_name@, ex),
    {
        interpret(ResourceKind::Table, Operation::Get, full_name, ex)
    }

    /// Plans one delete request: a DELETE of the table's route; tables have
    /// no `force` flag.
    pub fn delete_request(&self, full_name: &str) -> (r: UCRSResult<HttpRequest>)
        ensures
            url_resolve(self@, tables_item_route(full_name@)) matches Some(u) ==> (r matches Ok(
                req,
            ) && req@ == (HttpRequestModel {
                method: HttpMethod::Delete,
                url: u,
                body: None,
                json_headers: false,
            })),
            url_resolve(self@, tables_item_route(full_name@)) is None ==> (r matches Err(e) && e@
                matches ErrorModel::MalformedURL(_)),
    {
        let mut route = String::from_str("/api/2.1/unity-catalog/tables/");
        route.append(full_name);
        self.client.delete(route.as_str(), None)
    }

    /// Reads one delete exchange: a 404 becomes not-found first; on a
    /// success status the undecodable body is disregarded and the result is
    /// unit.
    pub fn delete_response(&self, full_name: &str, ex: Exchange<()>) -> (r: UCRSResult<()>)
        ensures
            result_model(r) == spec_interpret_delete(ResourceKind::Table, full_name@, ex),
    {
        interpret_delete(ResourceKind::Table, full_name, ex)
    }
}

} // verus!
