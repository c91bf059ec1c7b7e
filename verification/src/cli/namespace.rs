//! Commands that work with namespaces.

use vstd::prelude::*;
use vstd::pervasive::unreached;

use crate::api::CreateNamespace;
use crate::api::DataNamespace;
use crate::client::views_of_strings;
use crate::client::Client;
use crate::command::Command;
use crate::command::Container;
use crate::command::NodeKind;
use crate::dispatch::Node;
use crate::errors::Error;
use crate::file::File;
use crate::output::Format;

verus! {

/// The namespace area: a composite whose subcommand field selects the
/// operation.
#[derive(Debug, Clone)]
pub struct Namespace {
    pub cmd: NamespaceCmd,
}

impl Container for Namespace {
    open spec fn spec_next(&self) -> Option<Node<'_>> {
        Some(Node::NamespaceCmd(&self.cmd))
    }

    fn next(&self) -> (r: Option<Node<'_>>) {
        Some(Node::NamespaceCmd(&self.cmd))
    }
}

impl Command for Namespace {
    open spec fn spec_kind(&self) -> NodeKind {
        NodeKind::Namespace
    }

    fn kind(&self) -> NodeKind {
        NodeKind::Namespace
    }
}

/// The selector over namespace operations.
#[derive(Debug, Clone)]
pub enum NamespaceCmd {
    Create(Create),
    Get(Get),
    List(List),
}

impl Container for NamespaceCmd {
    open spec fn spec_next(&self) -> Option<Node<'_>> {
        match self {
            NamespaceCmd::Create(cmd) => Some(Node::NamespaceCreate(cmd)),
            NamespaceCmd::Get(cmd) => Some(Node::NamespaceGet(cmd)),
            NamespaceCmd::List(cmd) => Some(Node::NamespaceList(cmd)),
        }
    }

    fn next(&self) -> (r: Option<Node<'_>>) {
        match self {
            NamespaceCmd::Create(cmd) => Some(Node::NamespaceCreate(cmd)),
            NamespaceCmd::Get(cmd) => Some(Node::NamespaceGet(cmd)),
            NamespaceCmd::List(cmd) => Some(Node::NamespaceList(cmd)),
        }
    }
}

impl Command for NamespaceCmd {
    open spec fn spec_kind(&self) -> NodeKind {
        NodeKind::NamespaceCmd
    }

    fn kind(&self) -> NodeKind {
        NodeKind::NamespaceCmd
    }
}

/// Create a new namespace, from a name or from a definition file.
#[derive(Debug, Clone)]
pub struct Create {
    pub api_server: Client,
    pub output: Format,
    pub name: Option<String>,
    pub file: Option<File<CreateNamespace>>,
}

impl Create {
    /// The creation request this command will post: a fresh request under
    /// the given name when one was given, else the loaded definition file
    /// as it stands.  With neither a name nor a loaded file the command
    /// fails.
    pub fn payload(&self) -> (r: Result<CreateNamespace, Error>)
        ensures
            (match self.name {
                Some(n) => match r {
                    Ok(out) => out@.name == n@ && out@.extraction_graphs.len() == 0
                        && out@.labels.len() == 0,
                    Err(_) => false,
                },
                None => match self.file {
                    Some(File::Loaded(c)) => match r {
                        Ok(out) => out@ == c@,
                        Err(_) => false,
                    },
                    _ => r == Result::<CreateNamespace, Error>::Err(Error::NoInput),
                },
            }),
    {
        match &self.name {
            Some(name) => {
                let mut out = CreateNamespace::default();
                out.name = name.clone();
                Ok(out)
            },
            None => match &self.file {
                Some(File::Loaded(content)) => Ok(content.clone()),
                _ => Err(Error::NoInput),
            },
        }
    }

    /// The URL path namespaces are created under.
    pub fn request(&self) -> (r: Result<Vec<String>, Error>)
        ensures
            (self.api_server.namespace is Some) ==> (r matches Ok(v) && views_of_strings(v@)
                == seq!["namespaces"@, self.api_server.namespace->0@, "namespaces"@]),
            (self.api_server.namespace is None) ==> (r matches Err(
                Error::NamespaceRequired { resource },
            ) && resource@ == "CreateNamespace"@),
    {
        let segments = self.api_server.url_segments::<CreateNamespace>(None, "CreateNamespace")?;
        proof {
            assert(views_of_strings(segments@) =~= seq![
                "namespaces"@,
                self.api_server.namespace->0@,
                "namespaces"@,
            ]);
        }
        Ok(segments)
    }
}

impl Container for Create {
    open spec fn spec_next(&self) -> Option<Node<'_>> {
        None
    }

    fn next(&self) -> (r: Option<Node<'_>>) {
        None
    }
}

impl Command for Create {
    open spec fn spec_kind(&self) -> NodeKind {
        NodeKind::NamespaceCreate
    }

    fn kind(&self) -> NodeKind {
        NodeKind::NamespaceCreate
    }
}

/// Fetch one namespace by name.
#[derive(Debug, Clone)]
pub struct Get {
    pub api_server: Client,
    pub output: Format,
    pub name: String,
}

impl Get {
    /// The URL path the namespace is fetched from; namespaces themselves
    /// are not scoped by a namespace.
    pub fn request(&self) -> (r: Vec<String>)
        ensures
            views_of_strings(r@) == seq!["namespaces"@, self.name@],
    {
        let segments = match self.api_server.url_segments::<DataNamespace>(
            Some(self.name.as_str()),
            "DataNamespace",
        ) {
            Ok(v) => v,
            Err(_) => unreached(),
        };
        proof {
            assert(views_of_strings(segments@) =~= seq!["namespaces"@, self.name@]);
        }
        segments
    }
}

impl Container for Get {
    open spec fn spec_next(&self) -> Option<Node<'_>> {
        None
    }

    fn next(&self) -> (r: Option<Node<'_>>) {
        None
    }
}

impl Command for Get {
    open spec fn spec_kind(&self) -> NodeKind {
        NodeKind::NamespaceGet
    }

    fn kind(&self) -> NodeKind {
        NodeKind::NamespaceGet
    }
}

/// List all namespaces.
#[derive(Debug, Clone)]
pub struct List {
    pub api_server: Client,
    pub output: Format,
}

impl List {
    /// The URL path the namespaces are listed from.
    pub fn request(&self) -> (r: Vec<String>)
        ensures
            views_of_strings(r@) == seq!["namespaces"@],
    {
        let segments = match self.api_server.url_segments::<DataNamespace>(
            None,
            "DataNamespace",
        ) {
            Ok(v) => v,
            Err(_) => unreached(),
        };
        proof {
            assert(views_of_strings(segments@) =~= seq!["namespaces"@]);
        }
        segments
    }
}

impl Container for List {
    open spec fn spec_next(&self) -> Option<Node<'_>> {
        None
    }

    fn next(&self) -> (r: Option<Node<'_>>) {
        None
    }
}

impl Command for List {
    open spec fn spec_kind(&self) -> NodeKind {
        NodeKind::NamespaceList
    }

    fn kind(&self) -> NodeKind {
        NodeKind::NamespaceList
    }
}

} // verus!
