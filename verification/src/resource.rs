//! The resource-client pattern's shared logic: one classification function
//! maps a failed HTTP status to its domain error, uniformly for every
//! resource kind and operation, and one epilogue per operation shape reads a
//! whole exchange.

use crate::codec::{append_query_pair, i32_to_dec, spec_add_pair, spec_int_dec};
use crate::errors::{result_model, ErrorModel, ResourceKind, UCRSError, UCRSResult};
use crate::request::{conclude, spec_is_success, Exchange};
use vstd::prelude::*;

verus! {

/// A query string with the optional pagination parameters attached:
/// `page_token` and `max_results` are appended only when supplied, never as
/// empty values.
pub open spec fn spec_pagination(
    q: Seq<char>,
    page_token: Option<Seq<char>>,
    max_results: Option<i32>,
) -> Seq<char> {
    let q1 = match page_token {
        Option::Some(t) => spec_add_pair(q, "page_token"@, t),
        Option::None => q,
    };
    match max_results {
        Option::Some(n) => spec_add_pair(q1, "max_results"@, spec_int_dec(n as int)),
        Option::None => q1,
    }
}

/// Appends the pagination parameters to a query string under construction,
/// as [`spec_pagination`] says.
pub fn append_pagination(q: &mut String, page_token: &Option<String>, max_results: &Option<i32>)
    ensures
        final(q)@ == spec_pagination(old(q)@, page_token.deep_view(), *max_results),
{
    match page_token {
        Option::Some(t) => append_query_pair(q, "page_token", t.as_str()),
        Option::None => (),
    }
    match max_results {
        Option::Some(n) => {
            let d = i32_to_dec(*n);
            append_query_pair(q, "max_results", d.as_str());
        },
        Option::None => (),
    }
}

/// The operations a resource client exposes.
#[derive(Debug, Clone, Copy, PartialEq, Eq, Structural)]
pub enum Operation {
    List,
    Create,
    Get,
    Update,
    Delete,
}

/// How a failed HTTP status is read, given the resource kind, the operation
/// and the identifier at hand: 409 on a create is a duplicate name, 404 on
/// get, update or delete is not-found, and every other status propagates as
/// the generic failure with the raw body.
pub open spec fn spec_classify(
    kind: ResourceKind,
    op: Operation,
    id: Seq<char>,
    status: u16,
    body: Seq<char>,
) -> ErrorModel
    recommends
        !spec_is_success(status),
{
    if status == 409 && op is Create {
        ErrorModel::DuplicateName(kind, id)
    } else if status == 404 && (op is Get || op is Update || op is Delete) {
        ErrorModel::NotFound(kind, id)
    } else {
        ErrorModel::RequestErrorWithResponse(status as int, body)
    }
}

/// Builds the domain error for a failed status, as [`spec_classify`] says.
pub fn classify(
    kind: ResourceKind,
    op: Operation,
    identifier: &str,
    status: u16,
    body: String,
) -> (e: UCRSError)
    requires
        !spec_is_success(status),
    ensures
        e@ == spec_classify(kind, op, identifier@, status, body@),
{
    if status == 409 && matches!(op, Operation::Create) {
        match kind {
            ResourceKind::Catalog => UCRSError::DuplicateCatalogName(identifier.to_owned()),
            ResourceKind::Schema => UCRSError::DuplicateSchemaName(identifier.to_owned()),
            ResourceKind::Table => UCRSError::DuplicateTableName(identifier.to_owned()),
        }
    } else if status == 404 && (matches!(op, Operation::Get) || matches!(op, Operation::Update)
        || matches!(op, Operation::Delete)) {
        match kind {
            ResourceKind::Catalog => UCRSError::CatalogNotFound(identifier.to_owned()),
            ResourceKind::Schema => UCRSError::SchemaNotFound(identifier.to_owned()),
            ResourceKind::Table => UCRSError::TableNotFound(identifier.to_owned()),
        }
    } else {
        UCRSError::RequestErrorWithResponse(status, body)
    }
}

/// How a resource client reads a whole exchange: the transport reading of
/// [`spec_conclude`], with a failed status routed through [`spec_classify`].
pub open spec fn spec_interpret<T>(
    kind: ResourceKind,
    op: Operation,
    id: Seq<char>,
    ex: Exchange<T>,
) -> Result<T, ErrorModel> {
    match ex {
        Exchange::Failed(m) => Result::Err(ErrorModel::RequestError(m@)),
        Exchange::Responded { status, body, decoded } => if !spec_is_success(status) {
            Result::Err(spec_classify(kind, op, id, status, body@))
        } else {
            match decoded {
                Result::Ok(t) => Result::Ok(t),
                Result::Err(m) => Result::Err(ErrorModel::JSONParsingError(m@)),
            }
        },
    }
}

/// Reads one exchange for a resource operation: concludes it as the
/// transport layer does, then remaps a failed status to its domain error.
pub fn interpret<T>(kind: ResourceKind, op: Operation, identifier: &str, ex: Exchange<T>) -> (r:
    UCRSResult<T>)
    ensures
        result_model(r) == spec_interpret(kind, op, identifier@, ex),
{
    let res = conclude(ex);
    match res {
        Err(UCRSError::RequestErrorWithResponse(status, body)) => Err(
            classify(kind, op, identifier, status, body),
        ),
        other => other,
    }
}

/// How a delete's exchange is read.  The service answers a successful delete
/// with `200 OK` and a body that is not valid JSON, so on a success status
/// the decode outcome is disregarded and the result is unit; a 404 still
/// becomes not-found first, and no other operation's decode failure is
/// swallowed.
pub open spec fn spec_interpret_delete(kind: ResourceKind, id: Seq<char>, ex: Exchange<()>) -> Result<
    (),
    ErrorModel,
> {
    match ex {
        Exchange::Failed(m) => Result::Err(ErrorModel::RequestError(m@)),
        Exchange::Responded { status, body, decoded } => if !spec_is_success(status) {
            Result::Err(spec_classify(kind, Operation::Delete, id, status, body@))
        } else {
            Result::Ok(())
        },
    }
}

/// Reads one delete exchange, as [`spec_interpret_delete`] says: the shared
/// reading, then the one narrow translation of a JSON-parsing error on a
/// successful status into unit success.
pub fn interpret_delete(kind: ResourceKind, identifier: &str, ex: Exchange<()>) -> (r: UCRSResult<
    (),
>)
    ensures
        result_model(r) == spec_interpret_delete(kind, identifier@, ex),
{
    let res = interpret(kind, Operation::Delete, identifier, ex);
    match res {
        Err(UCRSError::JSONParsingError(_)) => Ok(()),
        other => other,
    }
}

} // verus!
