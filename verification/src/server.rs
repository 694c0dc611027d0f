//! The six operations of a resource, answered from a storage provider.
//!
//! Retrieval and removal by identifier, creation and replacement go to the
//! provider's operation of the same name. The two queries both go to its
//! `list`: `find` with the query it was given, `list` with the empty
//! template. Whether a query is expected to select a single resource is left
//! to the provider.

use crate::endpoint::Endpoint;
use crate::error::Error;
use crate::provider::{created, deleted, got, listed, updated, Provider};
use vstd::prelude::*;

verus! {

/// Whether `template` is a value that the type's `Default` gives: the empty
/// template of a query for every resource.
pub open spec fn is_empty_template<T: Default>(template: T) -> bool {
    call_ensures(T::default, (), template)
}

/// Retrieves the resource under `id`: the provider's own answer to `get`.
pub fn get<Pr: Provider<P>, P>(handle: &P, id: <Pr::Data as Endpoint>::Id) -> (outcome: Result<
    Pr::Data,
    Error,
>)
    ensures
        call_ensures(Pr::get, (handle, id), outcome),
        Pr::obeys_storage_contract() ==> got(Pr::records(handle), id, outcome),
{
    Pr::get(handle, id)
}

/// Retrieves all resources: the provider's own answer to `list` for the
/// empty template.
pub fn list<Pr: Provider<P>, P>(handle: &P) -> (items: Vec<Pr::Data>)
    ensures
        exists|template: Pr::Data|
            is_empty_template(template) && #[trigger] call_ensures(
                Pr::list,
                (handle, template),
                items,
            ),
        Pr::obeys_storage_contract() ==> exists|template: Pr::Data| #[trigger]
            is_empty_template(template) && listed(
                Pr::records(handle),
                |record: Pr::Data| Pr::selects(template, record),
                items@,
            ),
{
    let template = Default::default();
    let items = Pr::list(handle, template);
    assert(is_empty_template(template) && call_ensures(Pr::list, (handle, template), items));
    proof {
        if Pr::obeys_storage_contract() {
            assert(is_empty_template(template) && listed(
                Pr::records(handle),
                |record: Pr::Data| Pr::selects(template, record),
                items@,
            ));
        }
    }
    items
}

/// Retrieves the resources that `query` selects: the provider's own answer
/// to `list` for that query.
pub fn find<Pr: Provider<P>, P>(handle: &P, query: Pr::Data) -> (items: Vec<Pr::Data>)
    ensures
        call_ensures(Pr::list, (handle, query), items),
        Pr::obeys_storage_contract() ==> listed(
            Pr::records(handle),
            |record: Pr::Data| Pr::selects(query, record),
            items@,
        ),
{
    Pr::list(handle, query)
}

/// Creates a resource from `new`, by the provider's `create`.
///
/// The outcome and the change of the backend are the provider's own: the
/// provider is handed the backend as it came in, together with `new`, and
/// the backend is left as the provider left it.
pub fn create<Pr: Provider<P>, P>(handle: &mut P, new: Pr::Data) -> (outcome: Result<
    Pr::Data,
    Error,
>)
    ensures
        exists|given: &mut P|
            mut_ref_current(given) == *old(handle) && mut_ref_future(given) == *final(handle)
                && #[trigger] call_ensures(Pr::create, (given, new), outcome),
        Pr::obeys_storage_contract() ==> created(
            Pr::records(old(handle)),
            |id: <Pr::Data as Endpoint>::Id| Pr::persisted(id, new),
            Pr::records(final(handle)),
            outcome,
        ),
{
    Pr::create(handle, new)
}

/// Replaces the resource under `id` by `data`, by the provider's `update`.
///
/// The outcome and the change of the backend are the provider's own: the
/// provider is handed the backend as it came in, together with `id` and
/// `data`, and the backend is left as the provider left it.
pub fn update<Pr: Provider<P>, P>(
    handle: &mut P,
    id: <Pr::Data as Endpoint>::Id,
    data: Pr::Data,
) -> (outcome: Result<Pr::Data, Error>)
    ensures
        exists|given: &mut P|
            mut_ref_current(given) == *old(handle) && mut_ref_future(given) == *final(handle)
                && #[trigger] call_ensures(Pr::update, (given, id, data), outcome),
        Pr::obeys_storage_contract() ==> updated(
            Pr::records(old(handle)),
            id,
            Pr::persisted(id, data),
            Pr::records(final(handle)),
            outcome,
        ),
{
    Pr::update(handle, id, data)
}

/// Removes the resource under `id`, by the provider's `delete`. Like the
/// provider it answers nothing, whether there was such a resource or not.
///
/// The change of the backend is the provider's own: the provider is handed
/// the backend as it came in, together with `id`, and the backend is left as
/// the provider left it.
pub fn delete<Pr: Provider<P>, P>(handle: &mut P, id: <Pr::Data as Endpoint>::Id)
    ensures
        exists|given: &mut P|
            mut_ref_current(given) == *old(handle) && mut_ref_future(given) == *final(handle)
                && #[trigger] call_ensures(Pr::delete, (given, id), ()),
        Pr::obeys_storage_contract() ==> deleted(
            Pr::records(old(handle)),
            id,
            Pr::records(final(handle)),
        ),
{
    Pr::delete(handle, id)
}

} // verus!
