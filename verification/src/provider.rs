//! A storage backend that holds the resources of one type, and the contract
//! that it is held to.

use crate::endpoint::Endpoint;
use crate::error::Error;
use vstd::prelude::*;

verus! {

/// What a retrieval by identifier may answer, of a backend that holds
/// `records`: a success is the record under `id`, and an identifier that is
/// not there is `NotFound`, never an empty or default resource.
pub open spec fn got<K, V>(records: Map<K, V>, id: K, outcome: Result<V, Error>) -> bool {
    &&& outcome is Ok ==> records.contains_key(id) && outcome->Ok_0 == records[id]
    &&& !records.contains_key(id) ==> outcome is Err && outcome->Err_0 is NotFound
}

/// What a query may answer, of a backend that holds `records`: the records
/// that `wanted` selects, each of them once, in any order. Where it selects
/// none, that is the empty sequence.
pub open spec fn listed<K, V>(records: Map<K, V>, wanted: spec_fn(V) -> bool, items: Seq<V>) -> bool {
    exists|ids: Seq<K>| #[trigger] lists(records, wanted, ids, items)
}

/// Whether `items` are the records under `ids`, and `ids` are the
/// identifiers of the records that `wanted` selects, each of them once.
pub open spec fn lists<K, V>(
    records: Map<K, V>,
    wanted: spec_fn(V) -> bool,
    ids: Seq<K>,
    items: Seq<V>,
) -> bool {
    &&& ids.len() == items.len()
    &&& ids.no_duplicates()
    &&& forall|i: int|
        0 <= i < ids.len() ==> records.contains_key(#[trigger] ids[i]) && records[ids[i]]
            == items[i] && wanted(items[i])
    &&& forall|id: K|
        records.contains_key(id) && wanted(#[trigger] records[id]) ==> ids.contains(id)
}

/// What a creation does to a backend that held `before` and holds `after`:
/// on success one record has come in, under an identifier that was free, in
/// the form that `persisted` gives it under that identifier, and that form is
/// the answer. On failure nothing has changed.
pub open spec fn created<K, V>(
    before: Map<K, V>,
    persisted: spec_fn(K) -> V,
    after: Map<K, V>,
    outcome: Result<V, Error>,
) -> bool {
    match outcome {
        Ok(made) => exists|id: K|
            !before.contains_key(id) && made == #[trigger] persisted(id) && after
                =~= before.insert(id, made),
        Err(_) => after =~= before,
    }
}

/// What a replacement does to a backend that held `before` and holds
/// `after`: on success `kept` stands where the record under `id` stood, and
/// is the answer. An identifier that is not there is `NotFound`, and on any
/// failure nothing has changed: no record is ever created on the side.
pub open spec fn updated<K, V>(
    before: Map<K, V>,
    id: K,
    kept: V,
    after: Map<K, V>,
    outcome: Result<V, Error>,
) -> bool {
    match outcome {
        Ok(stored) => before.contains_key(id) && stored == kept && after =~= before.insert(
            id,
            kept,
        ),
        Err(error) => after =~= before && (!before.contains_key(id) ==> error is NotFound),
    }
}

/// What a removal does to a backend that held `before` and holds `after`:
/// the record under `id` is gone and every other record stands as it stood.
/// Where there was none, nothing has changed.
pub open spec fn deleted<K, V>(before: Map<K, V>, id: K, after: Map<K, V>) -> bool {
    after =~= before.remove(id)
}

/// A replacement under an identifier that is not there answers `NotFound`
/// and leaves the backend as it was: no record is created on the side.
pub proof fn update_of_absent_is_not_found<K, V>(
    before: Map<K, V>,
    id: K,
    kept: V,
    after: Map<K, V>,
    outcome: Result<V, Error>,
)
    requires
        updated(before, id, kept, after, outcome),
        !before.contains_key(id),
    ensures
        outcome is Err,
        outcome->Err_0 is NotFound,
        after == before,
{
}

/// A query that selects no record answers the empty sequence.
pub proof fn nothing_selected_lists_nothing<K, V>(
    records: Map<K, V>,
    wanted: spec_fn(V) -> bool,
    items: Seq<V>,
)
    requires
        listed(records, wanted, items),
        forall|id: K| records.contains_key(id) ==> !wanted(#[trigger] records[id]),
    ensures
        items.len() == 0,
{
    let ids = choose|ids: Seq<K>| lists(records, wanted, ids, items);
    if items.len() > 0 {
        assert(records.contains_key(ids[0]) && wanted(records[ids[0]]));
    }
}

/// A query that selects the record under one identifier and no other
/// answers exactly that record.
pub proof fn sole_selection_lists_it<K, V>(
    records: Map<K, V>,
    wanted: spec_fn(V) -> bool,
    items: Seq<V>,
    id: K,
)
    requires
        listed(records, wanted, items),
        records.contains_key(id),
        wanted(records[id]),
        forall|other: K|
            records.contains_key(other) && wanted(#[trigger] records[other]) ==> other == id,
    ensures
        items == seq![records[id]],
{
    let ids = choose|ids: Seq<K>| lists(records, wanted, ids, items);
    assert(ids.contains(id));
    assert forall|i: int| 0 <= i < ids.len() implies ids[i] == id by {
        assert(records.contains_key(ids[i]) && wanted(records[ids[i]]));
    }
    if ids.len() > 1 {
        assert(ids[0] == ids[1]);
    }
    assert(items =~= seq![records[id]]);
}

/// A removal under an identifier that is not there changes nothing.
pub proof fn delete_of_absent_changes_nothing<K, V>(before: Map<K, V>, id: K, after: Map<K, V>)
    requires
        deleted(before, id, after),
        !before.contains_key(id),
    ensures
        after == before,
{
}

/// What a creation answered is what a retrieval finds afterwards: the
/// record has an identifier that was free before, and every successful
/// retrieval under it answers the record as the creation returned it.
pub proof fn created_record_is_got<K, V>(
    before: Map<K, V>,
    persisted: spec_fn(K) -> V,
    after: Map<K, V>,
    made: V,
)
    requires
        created(before, persisted, after, Ok(made)),
    ensures
        exists|id: K|
            {
                &&& !before.contains_key(id)
                &&& #[trigger] after.contains_key(id)
                &&& forall|outcome: Result<V, Error>|
                    outcome is Ok && #[trigger] got(after, id, outcome) ==> outcome->Ok_0 == made
            },
{
    let id = choose|id: K|
        !before.contains_key(id) && made == #[trigger] persisted(id) && after =~= before.insert(
            id,
            made,
        );
    assert(after.contains_key(id));
}

/// After a removal, a retrieval under the same identifier answers
/// `NotFound`.
pub proof fn deleted_record_is_not_found<K, V>(
    before: Map<K, V>,
    id: K,
    after: Map<K, V>,
    outcome: Result<V, Error>,
)
    requires
        deleted(before, id, after),
        got(after, id, outcome),
    ensures
        outcome is Err,
        outcome->Err_0 is NotFound,
{
}


/// The storage side of a resource: the operations that a backend of type `P`
/// offers on the resources of type `Data`.
///
/// The backend is handed to every operation; none is kept or found
/// elsewhere. The operations that read take it shared, those that change
/// what it holds take it exclusively.
pub trait Provider<P> {
    /// The resource that this provider stores.
    type Data: Endpoint;

    /// Whether this provider is held to the storage contract.
    ///
    /// Of a provider that says `true`, each operation is verified against
    /// its clause of the contract. One that keeps the default promises
    /// nothing, which is all that can be said of a provider that nobody has
    /// verified.
    open spec fn obeys_storage_contract() -> bool {
        false
    }

    /// The records that the backend holds, by identifier.
    open spec fn records(provider: &P) -> Map<<Self::Data as Endpoint>::Id, Self::Data> {
        Map::empty()
    }

    /// Whether `query`, read as a template, selects `record`.
    open spec fn selects(query: Self::Data, record: Self::Data) -> bool {
        false
    }

    /// The form in which the backend holds `data` under `id`. It may differ
    /// from `data`, as where the identifier is written into the record.
    open spec fn persisted(id: <Self::Data as Endpoint>::Id, data: Self::Data) -> Self::Data {
        data
    }

    /// Gets a single resource by its identifier.
    fn get(provider: &P, id: <Self::Data as Endpoint>::Id) -> (outcome: Result<Self::Data, Error>)
        ensures
            Self::obeys_storage_contract() ==> got(Self::records(provider), id, outcome),
    ;

    /// Lists all the resources that `query` selects.
    fn list(provider: &P, query: Self::Data) -> (items: Vec<Self::Data>)
        ensures
            Self::obeys_storage_contract() ==> listed(
                Self::records(provider),
                |record: Self::Data| Self::selects(query, record),
                items@,
            ),
    ;

    /// Saves a new resource made from `query`, and returns it as it is held.
    fn create(provider: &mut P, query: Self::Data) -> (outcome: Result<Self::Data, Error>)
        ensures
            Self::obeys_storage_contract() ==> created(
                Self::records(old(provider)),
                |id: <Self::Data as Endpoint>::Id| Self::persisted(id, query),
                Self::records(final(provider)),
                outcome,
            ),
    ;

    /// Replaces the resource under `id` by `new_data`, and returns it as it
    /// is held.
    fn update(
        provider: &mut P,
        id: <Self::Data as Endpoint>::Id,
        new_data: Self::Data,
    ) -> (outcome: Result<Self::Data, Error>)
        ensures
            Self::obeys_storage_contract() ==> updated(
                Self::records(old(provider)),
                id,
                Self::persisted(id, new_data),
                Self::records(final(provider)),
                outcome,
            ),
    ;

    /// Removes the resource under `id`. It answers nothing: whether there
    /// was one is not told.
    fn delete(provider: &mut P, id: <Self::Data as Endpoint>::Id)
        ensures
            Self::obeys_storage_contract() ==> deleted(
                Self::records(old(provider)),
                id,
                Self::records(final(provider)),
            ),
    ;
}

} // verus!
