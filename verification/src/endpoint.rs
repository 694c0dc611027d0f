//! A resource, and the transport that carries it.

use crate::error::Error;
use crate::request::{item_url, well_shaped, Request, Verb};
use std::fmt::Display;
use vstd::prelude::*;
use vstd::string::to_string_from_display_ensures;

verus! {

/// Anything that can perform one network round trip for a resource of type
/// `T`.
///
/// A transport maps its own failures onto [`Error`]: `Fetch` where the
/// round trip itself failed, `SerDe` where a payload could not be encoded or
/// decoded, `NotFound` where the remote side reports absence, and
/// `Authorization` where it denies access. It neither retries nor caches on
/// behalf of its caller.
pub trait Fetch<T> {
    /// Whether `outcome` is an answer that the transport can give to the
    /// request that `method`, `url` and `query` make up.
    ///
    /// Nothing is known of a transport that keeps this default: every
    /// outcome is possible. A transport that is verified can say more.
    open spec fn may_yield(
        method: Seq<char>,
        url: Seq<char>,
        query: Option<T>,
        outcome: Result<T, Error>,
    ) -> bool {
        true
    }

    /// Performs the round trip and hands back the one resource that the
    /// remote side answered with, or the error.
    ///
    /// The caller shapes the request: the method is one of `GET`, `POST`,
    /// `PUT` and `DELETE`, and the payload goes with it as [`well_shaped`]
    /// says.
    fn fetch(method: &'static str, url: String, query: Option<T>) -> (outcome: Result<T, Error>)
        requires
            well_shaped(method@, query is Some),
        ensures
            Self::may_yield(method@, url@, query, outcome),
    ;
}

/// Whether `outcome` is an answer that the transport `F` can give to the
/// request that is exactly `verb` at `url` with `payload`.
pub open spec fn answers<T, F: Fetch<T>>(
    verb: Verb,
    url: Seq<char>,
    payload: Option<T>,
    outcome: Result<T, Error>,
) -> bool {
    F::may_yield(verb.wire_method(), url, payload, outcome)
}

/// Hands `request` to the transport `F` and returns what comes back, as it
/// comes back.
pub(crate) fn send<T, F: Fetch<T>>(request: Request<T>) -> (outcome: Result<T, Error>)
    requires
        request.paired(),
    ensures
        answers::<T, F>(request.verb, request.url@, request.payload, outcome),
{
    let method = request.method();
    F::fetch(method, request.url, request.payload)
}

/// A resource that a client and a server share: the path it is mounted on,
/// the type of its identifiers, and the six operations that follow from the
/// two over any transport.
///
/// The default value of the type is the empty template that selects every
/// resource in a query.
pub trait Endpoint: Default {
    /// The identifier of one resource. Its text, as `Display` renders it, is
    /// the last segment of the resource's location.
    type Id: Display;

    /// The path on which the resource is mounted. It starts with a slash and
    /// does not end with one.
    const ENDPOINT: &'static str;

    /// Retrieves the resource that `id` names: `GET {path}/{id}`, without a
    /// payload.
    fn get<F: Fetch<Self>>(&self, id: Self::Id) -> (outcome: Result<Self, Error>)
        ensures
            exists|text: String| #[trigger]
                to_string_from_display_ensures::<Self::Id>(&id, text) && answers::<Self, F>(
                    Verb::Get,
                    item_url(Self::ENDPOINT@, text@),
                    None,
                    outcome,
                ),
    {
        let text = id.to_string();
        send::<Self, F>(Request::get(Self::ENDPOINT, text.as_str()))
    }

    /// Retrieves all resources: `GET {path}`, without a payload.
    fn list<F: Fetch<Self>>(&self) -> (outcome: Result<Self, Error>)
        ensures
            answers::<Self, F>(Verb::List, Self::ENDPOINT@, None, outcome),
    {
        send::<Self, F>(Request::list(Self::ENDPOINT))
    }

    /// Retrieves the resources that `query` selects: `GET {path}`, with the
    /// query as payload.
    fn find<F: Fetch<Self>>(&self, query: Self) -> (outcome: Result<Self, Error>)
        ensures
            answers::<Self, F>(Verb::Find, Self::ENDPOINT@, Some(query), outcome),
    {
        send::<Self, F>(Request::find(Self::ENDPOINT, query))
    }

    /// Creates `new`: `POST {path}`, with the new resource as payload.
    fn create<F: Fetch<Self>>(&self, new: Self) -> (outcome: Result<Self, Error>)
        ensures
            answers::<Self, F>(Verb::Create, Self::ENDPOINT@, Some(new), outcome),
    {
        send::<Self, F>(Request::create(Self::ENDPOINT, new))
    }

    /// Replaces the resource that `id` names by `data`: `PUT {path}/{id}`,
    /// with the data as payload.
    fn update<F: Fetch<Self>>(&self, id: Self::Id, data: Self) -> (outcome: Result<Self, Error>)
        ensures
            exists|text: String| #[trigger]
                to_string_from_display_ensures::<Self::Id>(&id, text) && answers::<Self, F>(
                    Verb::Update,
                    item_url(Self::ENDPOINT@, text@),
                    Some(data),
                    outcome,
                ),
    {
        let text = id.to_string();
        send::<Self, F>(Request::update(Self::ENDPOINT, text.as_str(), data))
    }

    /// Removes the resource that `id` names: `DELETE {path}/{id}`, without a
    /// payload.
    fn delete<F: Fetch<Self>>(&self, id: Self::Id) -> (outcome: Result<Self, Error>)
        ensures
            exists|text: String| #[trigger]
                to_string_from_display_ensures::<Self::Id>(&id, text) && answers::<Self, F>(
                    Verb::Delete,
                    item_url(Self::ENDPOINT@, text@),
                    None,
                    outcome,
                ),
    {
        let text = id.to_string();
        send::<Self, F>(Request::delete(Self::ENDPOINT, text.as_str()))
    }
}

} // verus!
