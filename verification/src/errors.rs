//! Error taxonomy of the client.
//!
//! Transport-level failures carry plain data: a message for causes that come
//! from outside (the network, the TLS stack), the status code and raw body
//! for an HTTP failure.  Domain errors carry the identifier they are about.

use vstd::prelude::*;

verus! {

/// Every way a call through this client can fail.
#[derive(Debug, Clone, PartialEq, Eq)]
pub enum UCRSError {
    /// The base URL or a route resolved against it could not be parsed.
    MalformedURL(String),
    /// The underlying HTTP connection pool could not be constructed.
    ClientBuildError(String),
    /// A request body could not be rendered as JSON.
    JSONFormattingError(String),
    /// The request never produced an HTTP response (connection refused,
    /// timeout, TLS failure); carries a description of the cause.
    RequestError(String),
    /// The server answered with a status outside the success range; carries
    /// the status code and the raw response body text.
    RequestErrorWithResponse(u16, String),
    /// The server answered with a success status but the body could not be
    /// decoded as the expected response type.
    JSONParsingError(String),
    /// A catalog with the given name already exists.
    DuplicateCatalogName(String),
    /// A schema with the given full name already exists.
    DuplicateSchemaName(String),
    /// A table with the given name already exists.
    DuplicateTableName(String),
    /// No catalog with the given name exists.
    CatalogNotFound(String),
    /// No schema with the given full name exists.
    SchemaNotFound(String),
    /// No table with the given full name exists.
    TableNotFound(String),
}

pub type UCRSResult<T> = Result<T, UCRSError>;

/// The resource kinds managed by the service.
#[derive(Debug, Clone, Copy, PartialEq, Eq, Structural)]
pub enum ResourceKind {
    Catalog,
    Schema,
    Table,
}

/// The mathematical value of a [`UCRSError`]: the same taxonomy over
/// character sequences, with the three duplicate-name and the three
/// not-found variants folded over their resource kind.
pub enum ErrorModel {
    MalformedURL(Seq<char>),
    ClientBuildError(Seq<char>),
    JSONFormattingError(Seq<char>),
    RequestError(Seq<char>),
    RequestErrorWithResponse(int, Seq<char>),
    JSONParsingError(Seq<char>),
    DuplicateName(ResourceKind, Seq<char>),
    NotFound(ResourceKind, Seq<char>),
}

impl View for UCRSError {
    type V = ErrorModel;

    open spec fn view(&self) -> ErrorModel {
        match self {
            UCRSError::MalformedURL(m) => ErrorModel::MalformedURL(m@),
            UCRSError::ClientBuildError(m) => ErrorModel::ClientBuildError(m@),
            UCRSError::JSONFormattingError(m) => ErrorModel::JSONFormattingError(m@),
            UCRSError::RequestError(m) => ErrorModel::RequestError(m@),
            UCRSError::RequestErrorWithResponse(status, body) => ErrorModel::RequestErrorWithResponse(
                *status as int,
                body@,
            ),
            UCRSError::JSONParsingError(m) => ErrorModel::JSONParsingError(m@),
            UCRSError::DuplicateCatalogName(n) => ErrorModel::DuplicateName(
                ResourceKind::Catalog,
                n@,
            ),
            UCRSError::DuplicateSchemaName(n) => ErrorModel::DuplicateName(ResourceKind::Schema, n@),
            UCRSError::DuplicateTableName(n) => ErrorModel::DuplicateName(ResourceKind::Table, n@),
            UCRSError::CatalogNotFound(n) => ErrorModel::NotFound(ResourceKind::Catalog, n@),
            UCRSError::SchemaNotFound(n) => ErrorModel::NotFound(ResourceKind::Schema, n@),
            UCRSError::TableNotFound(n) => ErrorModel::NotFound(ResourceKind::Table, n@),
        }
    }
}

/// A `Result` with its error taken to its mathematical value; contracts are
/// stated over this form.
pub open spec fn result_model<T>(r: Result<T, UCRSError>) -> Result<T, ErrorModel> {
    match r {
        Result::Ok(t) => Result::Ok(t),
        Result::Err(e) => Result::Err(e@),
    }
}

} // verus!
