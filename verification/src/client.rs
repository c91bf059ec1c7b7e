//! The service client: where a request is addressed.
//!
//! A [`Client`] holds the service URL and the namespace the caller selected.
//! Requests are addressed by a list of URL path segments; each resource kind
//! says through [`Namespaced`] which segments it lives under and whether it
//! is scoped by a namespace.  Building that segment list — including the
//! namespace check — is verified here; the HTTP transport that eventually
//! sends the request lives at the process boundary.

pub mod traits;
pub mod types;

use vstd::prelude::*;
use vstd::string::StringExecFns;

use crate::client::traits::Namespaced;
use crate::errors::Error;

verus! {

/// Where the service is reached when no URL is configured.
pub const DEFAULT_SERVICE_URL: &'static str = "http://localhost:8900";

/// The address of the service and the namespace scoping most resources.
#[derive(Debug, Clone)]
pub struct Client {
    pub service_url: String,
    pub namespace: Option<String>,
}

impl Client {
    /// A client for the given service URL, with no namespace selected yet.
    pub fn new(service_url: &str) -> (r: Client)
        ensures
            r.service_url@ == service_url@,
            r.namespace is None,
    {
        Client { service_url: service_url.to_owned(), namespace: None }
    }

    /// The same client, scoped to the given namespace.
    pub fn with_namespace(self, namespace: &str) -> (r: Client)
        ensures
            r.service_url == self.service_url,
            r.namespace matches Some(ns) && ns@ == namespace@,
    {
        Client { service_url: self.service_url, namespace: Some(namespace.to_owned()) }
    }

    /// The URL path segments addressing resource kind `T`, optionally by
    /// identifier: the namespace prefix when `T` is namespaced, then the
    /// segments `T` lives under.  A namespaced resource demands that a
    /// namespace was selected; `resource` names `T` in that error.
    pub fn url_segments<T: Namespaced>(&self, id: Option<&str>, resource: &str) -> (r: Result<
        Vec<String>,
        Error,
    >)
        ensures
            T::spec_is_namespaced() && self.namespace is None ==> (r matches Err(
                Error::NamespaceRequired { resource: t },
            ) && t@ == resource@),
            (T::spec_is_namespaced() ==> self.namespace is Some) ==> (match T::spec_segments(
                opt_str_view(id),
            ) {
                Ok(tail) => r matches Ok(v) && views_of_strings(v@) == spec_prefix::<T>(self)
                    + tail,
                Err(e) => r == Result::<Vec<String>, Error>::Err(e),
            }),
    {
        let mut segments: Vec<String> = Vec::new();
        if T::is_namespaced() {
            match &self.namespace {
                Some(ns) => {
                    segments.push(String::from_str("namespaces"));
                    segments.push(ns.clone());
                },
                None => {
                    return Err(Error::NamespaceRequired { resource: resource.to_owned() });
                },
            }
        }
        let mut tail = match T::segments(id) {
            Ok(t) => t,
            Err(e) => {
                return Err(e);
            },
        };
        segments.append(&mut tail);
        proof {
            assert(views_of_strings(segments@) =~= spec_prefix::<T>(self) + T::spec_segments(
                opt_str_view(id),
            )->Ok_0);
        }
        Ok(segments)
    }
}

impl Default for Client {
    /// The default client addresses the local service in the `default`
    /// namespace.
    fn default() -> (r: Client)
        ensures
            r.service_url@ == DEFAULT_SERVICE_URL@,
            r.namespace matches Some(ns) && ns@ == "default"@,
    {
        Client {
            service_url: String::from_str(DEFAULT_SERVICE_URL),
            namespace: Some(String::from_str("default")),
        }
    }
}

/// The views of a sequence of strings.
pub open spec fn views_of_strings(v: Seq<String>) -> Seq<Seq<char>> {
    v.map_values(|s: String| s@)
}

/// The view of an optional string slice.
pub open spec fn opt_str_view(id: Option<&str>) -> Option<Seq<char>> {
    match id {
        Some(s) => Some(s@),
        None => None,
    }
}

/// The namespace prefix of a resource's URL path: `namespaces/<ns>` for a
/// namespaced resource, nothing otherwise.
pub open spec fn spec_prefix<T: Namespaced>(c: &Client) -> Seq<Seq<char>> {
    if T::spec_is_namespaced() {
        seq!["namespaces"@, c.namespace->0@]
    } else {
        Seq::empty()
    }
}

} // verus!
