//! The capability traits of the resource model.
//!
//! Every resource kind the service exposes says where it lives in the URL
//! space through [`Namespaced`]; the remaining traits mark which of the
//! `list` / `get` / `create` / `delete` / `upload` request shapes a kind
//! supports, and with which response type.

use vstd::prelude::*;

use crate::client::opt_str_view;
use crate::client::views_of_strings;
use crate::errors::Error;

verus! {

/// Where a resource kind lives in the service's URL space: the path
/// segments under which it is addressed, optionally by identifier, and
/// whether those segments sit under a namespace prefix.
pub trait Namespaced {
    /// Whether this resource kind is scoped by a namespace.
    spec fn spec_is_namespaced() -> bool;

    /// The path segments addressing this kind, stated once per kind.
    spec fn spec_segments(id: Option<Seq<char>>) -> Result<Seq<Seq<char>>, Error>;

    /// Whether this resource kind is scoped by a namespace.
    fn is_namespaced() -> (b: bool)
        ensures
            b == Self::spec_is_namespaced(),
    ;

    /// The path segments addressing this kind, optionally by identifier.
    fn segments(id: Option<&str>) -> (r: Result<Vec<String>, Error>)
        ensures
            (match Self::spec_segments(opt_str_view(id)) {
                Ok(tail) => r matches Ok(v) && views_of_strings(v@) == tail,
                Err(e) => r == Result::<Vec<String>, Error>::Err(e),
            }),
    ;
}

/// A resource kind that can be created by posting a value of it.
pub trait Create: Namespaced {
    type Response;
}

/// A resource kind that can be deleted by posting a description of what to
/// remove.
pub trait Delete: Namespaced {
    type Response;
}

/// A resource kind that can be fetched by identifier.
pub trait Get: Namespaced {
    type Response;
}

/// A collection that can be listed; `Item` addresses the request, and
/// `Response` is the shape the listing comes back in.
pub trait List {
    type Item: Namespaced;

    type Response;
}

/// A resource kind whose content is uploaded as a multipart request.
pub trait Upload: Namespaced {

}

} // verus!
