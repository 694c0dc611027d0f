//! The shape of one operation on the wire: which method, which location,
//! and whether a resource travels with it.

use vstd::prelude::*;
use vstd::string::StringExecFns;

verus! {

/// The six operations that a resource offers.
#[derive(Clone, Copy, Debug, PartialEq, Eq, Structural)]
pub enum Verb {
    /// Retrieval of one resource by its identifier.
    Get,
    /// Retrieval of all resources.
    List,
    /// Retrieval by a query: a resource that serves as the filter.
    Find,
    /// Creation of a new resource.
    Create,
    /// Replacement of the resource behind an identifier.
    Update,
    /// Removal of the resource behind an identifier.
    Delete,
}

impl Verb {
    /// The method token that the verb is sent with.
    pub open spec fn wire_method(self) -> Seq<char> {
        match self {
            Verb::Get | Verb::List | Verb::Find => "GET"@,
            Verb::Create => "POST"@,
            Verb::Update => "PUT"@,
            Verb::Delete => "DELETE"@,
        }
    }

    /// Whether a resource travels with the verb.
    pub open spec fn carries_payload(self) -> bool {
        self is Find || self is Create || self is Update
    }

    /// The method token that the verb is sent with.
    pub fn method(self) -> (token: &'static str)
        ensures
            token@ == self.wire_method(),
    {
        match self {
            Verb::Get | Verb::List | Verb::Find => "GET",
            Verb::Create => "POST",
            Verb::Update => "PUT",
            Verb::Delete => "DELETE",
        }
    }
}

/// Whether `path` can be the path that a resource is mounted on: it starts
/// with a slash and does not end with one.
pub open spec fn well_formed_path(path: Seq<char>) -> bool {
    &&& path.len() > 0
    &&& path[0] == '/'
    &&& path[path.len() - 1] != '/'
}

/// The location of the one resource that `id` names, below `path`.
pub open spec fn item_url(path: Seq<char>, id: Seq<char>) -> Seq<char> {
    path + seq!['/'] + id
}

/// Whether a transport can be asked for `method` with a payload
/// (`with_payload`) or without one: a creation and a replacement bring the
/// resource along, a removal brings nothing, a retrieval may bring a query.
pub open spec fn well_shaped(method: Seq<char>, with_payload: bool) -> bool {
    ||| method == "GET"@
    ||| method == "POST"@ && with_payload
    ||| method == "PUT"@ && with_payload
    ||| method == "DELETE"@ && !with_payload
}

/// One operation, ready to be handed to a transport.
#[derive(Debug)]
pub struct Request<T> {
    /// The operation that is asked for.
    pub verb: Verb,
    /// The location that it is aimed at.
    pub url: String,
    /// The resource that travels with it, if any.
    pub payload: Option<T>,
}

impl<T> Request<T> {
    /// Whether the request is exactly this one: the verb, the text of the
    /// location, and the payload.
    pub open spec fn is_shaped(self, verb: Verb, url: Seq<char>, payload: Option<T>) -> bool {
        &&& self.verb == verb
        &&& self.url@ == url
        &&& self.payload == payload
    }

    /// Whether verb and payload go together: a payload is there exactly when
    /// the verb carries one.
    pub open spec fn paired(self) -> bool {
        self.verb.carries_payload() <==> self.payload is Some
    }

    /// The retrieval of the resource that `id` names: `GET {path}/{id}`,
    /// without a payload.
    pub fn get(path: &str, id: &str) -> (request: Self)
        ensures
            request.is_shaped(Verb::Get, item_url(path@, id@), None),
    {
        Request { verb: Verb::Get, url: join(path, id), payload: None }
    }

    /// The retrieval of all resources: `GET {path}`, without a payload.
    pub fn list(path: &str) -> (request: Self)
        ensures
            request.is_shaped(Verb::List, path@, None),
    {
        Request { verb: Verb::List, url: String::from_str(path), payload: None }
    }

    /// The retrieval of the resources that `query` selects: `GET {path}`,
    /// with the query as payload.
    pub fn find(path: &str, query: T) -> (request: Self)
        ensures
            request.is_shaped(Verb::Find, path@, Some(query)),
    {
        Request { verb: Verb::Find, url: String::from_str(path), payload: Some(query) }
    }

    /// The creation of `new`: `POST {path}`, with the new resource as
    /// payload.
    pub fn create(path: &str, new: T) -> (request: Self)
        ensures
            request.is_shaped(Verb::Create, path@, Some(new)),
    {
        Request { verb: Verb::Create, url: String::from_str(path), payload: Some(new) }
    }

    /// The replacement of the resource that `id` names by `data`:
    /// `PUT {path}/{id}`, with the data as payload.
    pub fn update(path: &str, id: &str, data: T) -> (request: Self)
        ensures
            request.is_shaped(Verb::Update, item_url(path@, id@), Some(data)),
    {
        Request { verb: Verb::Update, url: join(path, id), payload: Some(data) }
    }

    /// The removal of the resource that `id` names: `DELETE {path}/{id}`,
    /// without a payload.
    pub fn delete(path: &str, id: &str) -> (request: Self)
        ensures
            request.is_shaped(Verb::Delete, item_url(path@, id@), None),
    {
        Request { verb: Verb::Delete, url: join(path, id), payload: None }
    }

    /// The method token that the request is sent with.
    pub fn method(&self) -> (token: &'static str)
        ensures
            token@ == self.verb.wire_method(),
    {
        self.verb.method()
    }
}

/// The text of [`item_url`].
fn join(path: &str, id: &str) -> (url: String)
    ensures
        url@ == item_url(path@, id@),
{
    proof {
        reveal_strlit("/");
    }
    let mut url = String::from_str(path);
    url.append("/");
    url.append(id);
    assert(url@ =~= item_url(path@, id@));
    url
}

/// Each verb is sent in a shape that a transport can be asked for.
pub proof fn verbs_are_well_shaped(verb: Verb)
    ensures
        well_shaped(verb.wire_method(), verb.carries_payload()),
{
}

/// A paired request is one that a transport can be asked for: no creation
/// or replacement goes out without its resource, and no removal with one.
pub proof fn paired_requests_are_well_shaped<T>(request: Request<T>)
    requires
        request.paired(),
    ensures
        well_shaped(request.verb.wire_method(), request.payload is Some),
{
}

/// Below one path, two identifiers share a location only if they are the
/// same text.
pub proof fn item_urls_tell_ids_apart(path: Seq<char>, first: Seq<char>, second: Seq<char>)
    requires
        item_url(path, first) == item_url(path, second),
    ensures
        first == second,
{
    let stem: int = path.len() as int + 1;
    assert(first =~= item_url(path, first).subrange(stem, stem + first.len()));
    assert(second =~= item_url(path, second).subrange(stem, stem + second.len()));
    assert(first.len() == second.len()) by {
        assert(item_url(path, first).len() == stem + first.len());
        assert(item_url(path, second).len() == stem + second.len());
    }
}

/// The location of one resource lies below the path and is never the path
/// itself, so a request for one resource cannot be taken for a request for
/// all of them.
pub proof fn item_url_lies_below_path(path: Seq<char>, id: Seq<char>)
    ensures
        item_url(path, id).len() == path.len() + 1 + id.len(),
        item_url(path, id).subrange(0, path.len() as int) == path,
        item_url(path, id)[path.len() as int] == '/',
        item_url(path, id) != path,
{
    assert(item_url(path, id).subrange(0, path.len() as int) =~= path);
}

/// Below a well-formed path every location starts with a slash, and exactly
/// one slash stands between the path and the identifier.
pub proof fn well_formed_path_roots_its_urls(path: Seq<char>, id: Seq<char>)
    requires
        well_formed_path(path),
    ensures
        item_url(path, id)[0] == '/',
        item_url(path, id)[path.len() - 1] != '/',
        item_url(path, id)[path.len() as int] == '/',
{
}

} // verus!
