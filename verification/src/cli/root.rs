//! The root of the command tree.

use vstd::prelude::*;

use crate::cli::content;
use crate::cli::extractor;
use crate::cli::graph;
use crate::cli::index;
use crate::cli::namespace;
use crate::client::Client;
use crate::command::Command;
use crate::command::Container;
use crate::command::NodeKind;
use crate::dispatch::Node;
use crate::output::Format;

verus! {

/// The root command: a composite holding the global options and the
/// subcommand field every walk descends into.  Its own pre-run step is
/// where the process installs logging and, when `telemetry` is set,
/// telemetry capture.
#[derive(Debug, Clone)]
pub struct Root {
    pub cmd: RootCmd,
    pub api_server: Client,
    pub output: Format,
    pub verbosity: u8,
    pub namespace: String,
    pub telemetry: bool,
}

impl Container for Root {
    open spec fn spec_next(&self) -> Option<Node<'_>> {
        Some(Node::RootCmd(&self.cmd))
    }

    fn next(&self) -> (r: Option<Node<'_>>) {
        Some(Node::RootCmd(&self.cmd))
    }
}

impl Command for Root {
    open spec fn spec_kind(&self) -> NodeKind {
        NodeKind::Root
    }

    fn kind(&self) -> NodeKind {
        NodeKind::Root
    }
}

/// The selector over the resource areas: exactly one is populated, and it
/// is the node the walk continues into.
#[derive(Debug, Clone)]
pub enum RootCmd {
    Content(content::Content),
    Extractor(extractor::Extractor),
    Graph(graph::Graph),
    Index(index::Index),
    Namespace(namespace::Namespace),
}

impl Container for RootCmd {
    open spec fn spec_next(&self) -> Option<Node<'_>> {
        match self {
            RootCmd::Content(cmd) => Some(Node::Content(cmd)),
            RootCmd::Extractor(cmd) => Some(Node::Extractor(cmd)),
            RootCmd::Graph(cmd) => Some(Node::Graph(cmd)),
            RootCmd::Index(cmd) => Some(Node::Index(cmd)),
            RootCmd::Namespace(cmd) => Some(Node::Namespace(cmd)),
        }
    }

    fn next(&self) -> (r: Option<Node<'_>>) {
        match self {
            RootCmd::Content(cmd) => Some(Node::Content(cmd)),
            RootCmd::Extractor(cmd) => Some(Node::Extractor(cmd)),
            RootCmd::Graph(cmd) => Some(Node::Graph(cmd)),
            RootCmd::Index(cmd) => Some(Node::Index(cmd)),
            RootCmd::Namespace(cmd) => Some(Node::Namespace(cmd)),
        }
    }
}

impl Command for RootCmd {
    open spec fn spec_kind(&self) -> NodeKind {
        NodeKind::RootCmd
    }

    fn kind(&self) -> NodeKind {
        NodeKind::RootCmd
    }
}

} // verus!
