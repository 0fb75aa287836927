//! A specification-level model of a conforming catalog service, and the
//! laws the client satisfies against it.
//!
//! The service holds catalog records by name; the conformance predicates
//! say which exchanges its documented status-code contract allows for each
//! operation.  The proof functions then state what the client's readings
//! make of those exchanges: round trips round-trip, a duplicate create is a
//! duplicate-name error, a missing identifier is not-found, and the delete
//! quirk translates to unit success without masking not-found.

use crate::errors::ErrorModel;
use crate::errors::ResourceKind;
use crate::oss::api::catalogs::{CatalogInfo, CreateCatalog, ListCatalogResponse, UpdateCatalog};
use crate::request::Exchange;
use crate::resource::{spec_interpret, spec_interpret_delete, Operation};
use vstd::prelude::*;

verus! {

/// The remote service's catalog state, as specifications see it: the stored
/// records by catalog name.
pub struct ServiceModel {
    pub catalogs: Map<Seq<char>, CatalogInfo>,
}

/// Whether a record echoes a creation payload: name, comment and properties
/// are the ones that were sent.
pub open spec fn echoes_create(info: CatalogInfo, c: CreateCatalog) -> bool {
    &&& info.name.deep_view() == Some(c.name@)
    &&& info.comment.deep_view() == c.comment.deep_view()
    &&& info.properties.deep_view() == c.properties.deep_view()
}

/// The state after the service stores a new record under the payload's
/// name.
pub open spec fn model_create(s: ServiceModel, c: CreateCatalog, stored: CatalogInfo) -> ServiceModel {
    ServiceModel { catalogs: s.catalogs.insert(c.name@, stored) }
}

/// The state after the service removes the record under a name.
pub open spec fn model_delete(s: ServiceModel, name: Seq<char>) -> ServiceModel {
    ServiceModel { catalogs: s.catalogs.remove(name) }
}

/// The record a creation exchange carries when it decoded.
pub open spec fn created_record(ex: Exchange<CatalogInfo>) -> CatalogInfo {
    match ex {
        Exchange::Responded { status: _, body: _, decoded } => match decoded {
            Result::Ok(info) => info,
            Result::Err(_) => arbitrary(),
        },
        Exchange::Failed(_) => arbitrary(),
    }
}

/// The exchanges a conforming service may answer to a creation: 201 with
/// the stored record echoing the payload when the name is fresh, 409 when
/// it is taken.
pub open spec fn conforming_create_exchange(
    s: ServiceModel,
    c: CreateCatalog,
    ex: Exchange<CatalogInfo>,
) -> bool {
    match ex {
        Exchange::Failed(_) => false,
        Exchange::Responded { status, body: _, decoded } => if s.catalogs.contains_key(c.name@) {
            status == 409
        } else {
            status == 201 && (decoded matches Ok(info) && echoes_create(info, c))
        },
    }
}

/// The exchanges a conforming service may answer to a fetch: 200 with the
/// stored record when the identifier exists, 404 when it does not.
pub open spec fn conforming_get_exchange(
    s: ServiceModel,
    id: Seq<char>,
    ex: Exchange<CatalogInfo>,
) -> bool {
    match ex {
        Exchange::Failed(_) => false,
        Exchange::Responded { status, body: _, decoded } => if s.catalogs.contains_key(id) {
            status == 200 && decoded == Result::<CatalogInfo, String>::Ok(s.catalogs[id])
        } else {
            status == 404
        },
    }
}

/// The exchanges a conforming service may answer to an update: 200 with an
/// updated record when the identifier exists, 404 when it does not.
pub open spec fn conforming_update_exchange(
    s: ServiceModel,
    id: Seq<char>,
    upd: UpdateCatalog,
    ex: Exchange<CatalogInfo>,
) -> bool {
    match ex {
        Exchange::Failed(_) => false,
        Exchange::Responded { status, body: _, decoded } => if s.catalogs.contains_key(id) {
            status == 200 && decoded is Ok
        } else {
            status == 404
        },
    }
}

/// The exchanges a conforming service may answer to a delete: 200 whose
/// body is not valid JSON for the unit response when the identifier
/// exists, 404 when it does not.
pub open spec fn conforming_delete_exchange(
    s: ServiceModel,
    id: Seq<char>,
    ex: Exchange<()>,
) -> bool {
    match ex {
        Exchange::Failed(_) => false,
        Exchange::Responded { status, body: _, decoded } => if s.catalogs.contains_key(id) {
            status == 200 && decoded is Err
        } else {
            status == 404
        },
    }
}

/// Whether a listing page shows exactly a state's records: every listed
/// record is stored, and every stored record is listed.
pub open spec fn lists_state(page: ListCatalogResponse, s: ServiceModel) -> bool {
    &&& forall|i: int|
        0 <= i < page.catalogs@.len() ==> exists|k: Seq<char>|
            s.catalogs.contains_key(k) && s.catalogs[k] == #[trigger] page.catalogs@[i]
    &&& forall|k: Seq<char>|
        #[trigger] s.catalogs.contains_key(k) ==> exists|i: int|
            0 <= i < page.catalogs@.len() && page.catalogs@[i] == s.catalogs[k]
}

/// The exchanges a conforming service may answer to a listing: 200 with a
/// page showing the state.
pub open spec fn conforming_list_exchange(
    s: ServiceModel,
    ex: Exchange<ListCatalogResponse>,
) -> bool {
    match ex {
        Exchange::Failed(_) => false,
        Exchange::Responded { status, body: _, decoded } => status == 200 && (decoded matches Ok(
            page,
        ) && lists_state(page, s)),
    }
}

/// Round trip: against a conforming service, creating a catalog under a
/// fresh name and then fetching that name yields records whose name,
/// comment and properties are exactly what was sent.
pub proof fn lemma_create_then_get_round_trip(
    s: ServiceModel,
    c: CreateCatalog,
    ex_create: Exchange<CatalogInfo>,
    ex_get: Exchange<CatalogInfo>,
)
    requires
        !s.catalogs.contains_key(c.name@),
        conforming_create_exchange(s, c, ex_create),
        conforming_get_exchange(model_create(s, c, created_record(ex_create)), c.name@, ex_get),
    ensures
        spec_interpret(ResourceKind::Catalog, Operation::Create, c.name@, ex_create) matches Ok(
            info,
        ) && echoes_create(info, c),
        spec_interpret(ResourceKind::Catalog, Operation::Get, c.name@, ex_get) matches Ok(fetched)
            && echoes_create(fetched, c),
{
}

/// Creating the same catalog name twice against a conforming service
/// succeeds the first time and yields the duplicate-name error for that
/// name the second time — not a generic failure.
pub proof fn lemma_duplicate_create(
    s: ServiceModel,
    c: CreateCatalog,
    ex_first: Exchange<CatalogInfo>,
    ex_second: Exchange<CatalogInfo>,
)
    requires
        !s.catalogs.contains_key(c.name@),
        conforming_create_exchange(s, c, ex_first),
        conforming_create_exchange(model_create(s, c, created_record(ex_first)), c, ex_second),
    ensures
        spec_interpret(ResourceKind::Catalog, Operation::Create, c.name@, ex_first) is Ok,
        spec_interpret(ResourceKind::Catalog, Operation::Create, c.name@, ex_second)
            == Result::<CatalogInfo, ErrorModel>::Err(
            ErrorModel::DuplicateName(ResourceKind::Catalog, c.name@),
        ),
{
}

/// A fetch, an update or a delete of an identifier no catalog bears yields
/// the not-found error for that identifier — not a generic failure and not
/// a success.
pub proof fn lemma_missing_identifier(
    s: ServiceModel,
    id: Seq<char>,
    upd: UpdateCatalog,
    ex_get: Exchange<CatalogInfo>,
    ex_update: Exchange<CatalogInfo>,
    ex_delete: Exchange<()>,
)
    requires
        !s.catalogs.contains_key(id),
        conforming_get_exchange(s, id, ex_get),
        conforming_update_exchange(s, id, upd, ex_update),
        conforming_delete_exchange(s, id, ex_delete),
    ensures
        spec_interpret(ResourceKind::Catalog, Operation::Get, id, ex_get) == Result::<
            CatalogInfo,
            ErrorModel,
        >::Err(ErrorModel::NotFound(ResourceKind::Catalog, id)),
        spec_interpret(ResourceKind::Catalog, Operation::Update, id, ex_update) == Result::<
            CatalogInfo,
            ErrorModel,
        >::Err(ErrorModel::NotFound(ResourceKind::Catalog, id)),
        spec_interpret_delete(ResourceKind::Catalog, id, ex_delete) == Result::<
            (),
            ErrorModel,
        >::Err(ErrorModel::NotFound(ResourceKind::Catalog, id)),
{
}

/// Deleting an existing catalog returns unit success although the response
/// body decodes as no JSON value; deleting the now-missing catalog again
/// yields not-found — the quirk translation never masks it.
pub proof fn lemma_delete_quirk(
    s: ServiceModel,
    id: Seq<char>,
    ex_present: Exchange<()>,
    ex_missing: Exchange<()>,
)
    requires
        s.catalogs.contains_key(id),
        conforming_delete_exchange(s, id, ex_present),
        conforming_delete_exchange(model_delete(s, id), id, ex_missing),
    ensures
        spec_interpret_delete(ResourceKind::Catalog, id, ex_present) == Result::<
            (),
            ErrorModel,
        >::Ok(()),
        spec_interpret_delete(ResourceKind::Catalog, id, ex_missing) == Result::<
            (),
            ErrorModel,
        >::Err(ErrorModel::NotFound(ResourceKind::Catalog, id)),
{
}

/// A create/delete pair of a fresh name returns the service to exactly its
/// original state: in between the state holds the new record and every
/// conforming page shows it; afterwards the state is the original one, so a
/// conforming page is a page of the original collection, and the client
/// returns the server's page unchanged.
pub proof fn lemma_list_unchanged_by_create_delete(
    s: ServiceModel,
    c: CreateCatalog,
    stored: CatalogInfo,
    ex_list: Exchange<ListCatalogResponse>,
)
    requires
        !s.catalogs.contains_key(c.name@),
    ensures
        model_delete(model_create(s, c, stored), c.name@).catalogs == s.catalogs,
        model_create(s, c, stored).catalogs.contains_key(c.name@),
        !model_delete(model_create(s, c, stored), c.name@).catalogs.contains_key(c.name@),
        forall|page: ListCatalogResponse|
            #[trigger] lists_state(page, model_create(s, c, stored)) ==> exists|i: int|
                0 <= i < page.catalogs@.len() && page.catalogs@[i] == stored,
        conforming_list_exchange(s, ex_list) ==> (spec_interpret(
            ResourceKind::Catalog,
            Operation::List,
            ""@,
            ex_list,
        ) matches Ok(page) && lists_state(page, s)),
{
    assert(model_delete(model_create(s, c, stored), c.name@).catalogs =~= s.catalogs);
    assert forall|page: ListCatalogResponse|
        #[trigger] lists_state(page, model_create(s, c, stored)) implies exists|i: int|
        0 <= i < page.catalogs@.len() && page.catalogs@[i] == stored by {
        let s1 = model_create(s, c, stored);
        assert(s1.catalogs.contains_key(c.name@));
        assert(s1.catalogs[c.name@] == stored);
    }
}

} // verus!
