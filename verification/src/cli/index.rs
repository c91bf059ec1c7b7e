//! Commands that examine the namespace's vector indexes.

use vstd::prelude::*;
use vstd::pervasive::unreached;

use crate::client::views_of_strings;
use crate::client::Client;
use crate::command::Command;
use crate::command::Container;
use crate::command::NodeKind;
use crate::dispatch::Node;
use crate::output::Format;

verus! {

/// The index area: a composite whose subcommand field selects the
/// operation.
#[derive(Debug, Clone)]
pub struct Index {
    pub cmd: IndexCmd,
}

impl Container for Index {
    open spec fn spec_next(&self) -> Option<Node<'_>> {
        Some(Node::IndexCmd(&self.cmd))
    }

    fn next(&self) -> (r: Option<Node<'_>>) {
        Some(Node::IndexCmd(&self.cmd))
    }
}

impl Command for Index {
    open spec fn spec_kind(&self) -> NodeKind {
        NodeKind::Index
    }

    fn kind(&self) -> NodeKind {
        NodeKind::Index
    }
}

/// The selector over index operations.
#[derive(Debug, Clone)]
pub enum IndexCmd {
    List(List),
}

impl Container for IndexCmd {
    open spec fn spec_next(&self) -> Option<Node<'_>> {
        match self {
            IndexCmd::List(cmd) => Some(Node::IndexList(cmd)),
        }
    }

    fn next(&self) -> (r: Option<Node<'_>>) {
        match self {
            IndexCmd::List(cmd) => Some(Node::IndexList(cmd)),
        }
    }
}

impl Command for IndexCmd {
    open spec fn spec_kind(&self) -> NodeKind {
        NodeKind::IndexCmd
    }

    fn kind(&self) -> NodeKind {
        NodeKind::IndexCmd
    }
}

/// List all the indexes in the namespace.
#[derive(Debug, Clone)]
pub struct List {
    pub api_server: Client,
    pub output: Format,
    pub namespace: String,
}

impl List {
    /// The URL path the namespace's indexes are listed from.
    pub fn request(&self) -> (r: Vec<String>)
        ensures
            views_of_strings(r@) == seq!["namespaces"@, self.namespace@, "indexes"@],
    {
        let client = self.api_server.clone().with_namespace(self.namespace.as_str());
        let segments = match client.url_segments::<crate::api::Index>(None, "Index") {
            Ok(v) => v,
            Err(_) => unreached(),
        };
        proof {
            assert(views_of_strings(segments@) =~= seq!["namespaces"@, self.namespace@, "indexes"@]);
        }
        segments
    }
}

impl Container for List {
    open spec fn spec_next(&self) -> Option<Node<'_>> {
        None
    }

    fn next(&self) -> (r: Option<Node<'_>>) {
        None
    }
}

impl Command for List {
    open spec fn spec_kind(&self) -> NodeKind {
        NodeKind::IndexList
    }

    fn kind(&self) -> NodeKind {
        NodeKind::IndexList
    }
}

} // verus!
