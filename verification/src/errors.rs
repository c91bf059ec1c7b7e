//! The error taxonomy shared by every command in the tree.
//!
//! A walk over the command tree treats every failure as fatal: the first
//! error produced by any lifecycle step is surfaced unchanged to the process
//! boundary.  Errors carry their context (the offending URL and response
//! body, or the structural path to a bad field) but are never transformed
//! into a different kind while propagating.

use vstd::prelude::*;

verus! {

/// An error surfaced by a command.  Validation errors come from checking
/// arguments before any request is made; transport errors carry the HTTP
/// status, URL and response body; deserialization errors carry the
/// structural path to the offending field.  The remaining variants are the
/// specific argument failures the commands produce themselves.
#[derive(Debug, PartialEq, Eq)]
pub enum Error {
    /// Malformed input, surfaced before any request is made.
    Validation { message: String },
    /// A non-success HTTP status, with the offending URL and body attached.
    Transport { status: u16, url: String, body: String },
    /// A response that could not be decoded, with the structural path to the
    /// offending field attached.
    Deserialization { path: String, message: String },
    /// A resource addressed by namespace, but no namespace was configured.
    NamespaceRequired { resource: String },
    /// A resource kind that cannot be fetched by identifier.
    GetByIdUnsupported,
    /// An operation that needs an identifier was given none.
    IdRequired,
    /// The requested namespace does not exist.
    NamespaceNotFound { name: String },
    /// The requested extraction graph does not exist.
    GraphNotFound { name: String },
    /// A command that needs a definition file was given none.
    NoInput,
}

impl Clone for Error {
    /// Cloning keeps the error exactly.
    fn clone(&self) -> (r: Self)
        ensures
            r == *self,
    {
        match self {
            Error::Validation { message } => Error::Validation { message: message.clone() },
            Error::Transport { status, url, body } => Error::Transport {
                status: *status,
                url: url.clone(),
                body: body.clone(),
            },
            Error::Deserialization { path, message } => Error::Deserialization {
                path: path.clone(),
                message: message.clone(),
            },
            Error::NamespaceRequired { resource } => Error::NamespaceRequired {
                resource: resource.clone(),
            },
            Error::GetByIdUnsupported => Error::GetByIdUnsupported,
            Error::IdRequired => Error::IdRequired,
            Error::NamespaceNotFound { name } => Error::NamespaceNotFound { name: name.clone() },
            Error::GraphNotFound { name } => Error::GraphNotFound { name: name.clone() },
            Error::NoInput => Error::NoInput,
        }
    }
}

} // verus!
