//! Commands that examine the registered extractors.

use vstd::prelude::*;
use vstd::pervasive::unreached;

use crate::client::views_of_strings;
use crate::client::Client;
use crate::command::Command;
use crate::command::Container;
use crate::command::NodeKind;
use crate::dispatch::Node;
use crate::output::Format;

verus! {

/// The extractor area: a composite whose subcommand field selects the
/// operation.
#[derive(Debug, Clone)]
pub struct Extractor {
    pub cmd: ExtractorCmd,
}

impl Container for Extractor {
    open spec fn spec_next(&self) -> Option<Node<'_>> {
        Some(Node::ExtractorCmd(&self.cmd))
    }

    fn next(&self) -> (r: Option<Node<'_>>) {
        Some(Node::ExtractorCmd(&self.cmd))
    }
}

impl Command for Extractor {
    open spec fn spec_kind(&self) -> NodeKind {
        NodeKind::Extractor
    }

    fn kind(&self) -> NodeKind {
        NodeKind::Extractor
    }
}

/// The selector over extractor operations.
#[derive(Debug, Clone)]
pub enum ExtractorCmd {
    List(List),
}

impl Container for ExtractorCmd {
    open spec fn spec_next(&self) -> Option<Node<'_>> {
        match self {
            ExtractorCmd::List(cmd) => Some(Node::ExtractorList(cmd)),
        }
    }

    fn next(&self) -> (r: Option<Node<'_>>) {
        match self {
            ExtractorCmd::List(cmd) => Some(Node::ExtractorList(cmd)),
        }
    }
}

impl Command for ExtractorCmd {
    open spec fn spec_kind(&self) -> NodeKind {
        NodeKind::ExtractorCmd
    }

    fn kind(&self) -> NodeKind {
        NodeKind::ExtractorCmd
    }
}

/// List all the registered extractors.
#[derive(Debug, Clone)]
pub struct List {
    pub api_server: Client,
    pub output: Format,
    pub namespace: String,
}

impl List {
    /// The URL path the extractor registry is listed from; extractors are
    /// not scoped by namespace.
    pub fn request(&self) -> (r: Vec<String>)
        ensures
            views_of_strings(r@) == seq!["extractors"@],
    {
        let segments = match self.api_server.url_segments::<crate::api::ExtractorDescription>(
            None,
            "ExtractorDescription",
        ) {
            Ok(v) => v,
            Err(_) => unreached(),
        };
        proof {
            assert(views_of_strings(segments@) =~= seq!["extractors"@]);
        }
        segments
    }
}

impl Container for List {
    open spec fn spec_next(&self) -> Option<Node<'_>> {
        None
    }

    fn next(&self) -> (r: Option<Node<'_>>) {
        None
    }
}

impl Command for List {
    open spec fn spec_kind(&self) -> NodeKind {
        NodeKind::ExtractorList
    }

    fn kind(&self) -> NodeKind {
        NodeKind::ExtractorList
    }
}

} // verus!
