//! Commands that work with extraction graphs.

use vstd::prelude::*;
use vstd::pervasive::unreached;

use crate::api::DataNamespace;
use crate::api::ExtractionGraph;
use crate::client::views_of_strings;
use crate::client::Client;
use crate::command::Command;
use crate::command::Container;
use crate::command::NodeKind;
use crate::dispatch::Node;
use crate::errors::Error;
use crate::file::File;
use crate::output::Format;
use crate::text::str_eq;

verus! {

/// The graph area: a composite whose subcommand field selects the
/// operation.
#[derive(Debug, Clone)]
pub struct Graph {
    pub cmd: GraphCmd,
}

impl Container for Graph {
    open spec fn spec_next(&self) -> Option<Node<'_>> {
        Some(Node::GraphCmd(&self.cmd))
    }

    fn next(&self) -> (r: Option<Node<'_>>) {
        Some(Node::GraphCmd(&self.cmd))
    }
}

impl Command for Graph {
    open spec fn spec_kind(&self) -> NodeKind {
        NodeKind::Graph
    }

    fn kind(&self) -> NodeKind {
        NodeKind::Graph
    }
}

/// The selector over graph operations.
#[derive(Debug, Clone)]
pub enum GraphCmd {
    Create(Create),
    Get(Get),
    List(List),
}

impl Container for GraphCmd {
    open spec fn spec_next(&self) -> Option<Node<'_>> {
        match self {
            GraphCmd::Create(cmd) => Some(Node::GraphCreate(cmd)),
            GraphCmd::Get(cmd) => Some(Node::GraphGet(cmd)),
            GraphCmd::List(cmd) => Some(Node::GraphList(cmd)),
        }
    }

    fn next(&self) -> (r: Option<Node<'_>>) {
        match self {
            GraphCmd::Create(cmd) => Some(Node::GraphCreate(cmd)),
            GraphCmd::Get(cmd) => Some(Node::GraphGet(cmd)),
            GraphCmd::List(cmd) => Some(Node::GraphList(cmd)),
        }
    }
}

impl Command for GraphCmd {
    open spec fn spec_kind(&self) -> NodeKind {
        NodeKind::GraphCmd
    }

    fn kind(&self) -> NodeKind {
        NodeKind::GraphCmd
    }
}

/// The first position holding a namespace of the given name, if any.
pub open spec fn found_at(nss: Seq<DataNamespace>, name: Seq<char>, i: int) -> bool {
    &&& 0 <= i < nss.len()
    &&& nss[i].name@ == name
    &&& forall|j: int| 0 <= j < i ==> nss[j].name@ != name
}

/// Find the first namespace with the given name.
pub fn find_namespace(namespaces: &Vec<DataNamespace>, name: &str) -> (r: Option<usize>)
    ensures
        (match r {
            Some(i) => found_at(namespaces@, name@, i as int),
            None => forall|j: int| 0 <= j < namespaces@.len() ==> namespaces@[j].name@ != name@,
        }),
{
    let n = namespaces.len();
    for i in 0..n
        invariant
            n == namespaces.len(),
            forall|j: int| 0 <= j < i ==> namespaces@[j].name@ != name@,
    {
        if str_eq(namespaces[i].name.as_str(), name) {
            return Some(i);
        }
    }
    None
}

/// The first position holding a graph of the given name, if any.
pub open spec fn graph_found_at(gs: Seq<ExtractionGraph>, name: Seq<char>, i: int) -> bool {
    &&& 0 <= i < gs.len()
    &&& gs[i].name@ == name
    &&& forall|j: int| 0 <= j < i ==> gs[j].name@ != name
}

/// Find the first extraction graph with the given name.
pub fn find_graph(graphs: &Vec<ExtractionGraph>, name: &str) -> (r: Option<usize>)
    ensures
        (match r {
            Some(i) => graph_found_at(graphs@, name@, i as int),
            None => forall|j: int| 0 <= j < graphs@.len() ==> graphs@[j].name@ != name@,
        }),
{
    let n = graphs.len();
    for i in 0..n
        invariant
            n == graphs.len(),
            forall|j: int| 0 <= j < i ==> graphs@[j].name@ != name@,
    {
        if str_eq(graphs[i].name.as_str(), name) {
            return Some(i);
        }
    }
    None
}

/// Create a new extraction graph from a definition file.
#[derive(Debug, Clone)]
pub struct Create {
    pub api_server: Client,
    pub output: Format,
    pub namespace: String,
    pub input: File<ExtractionGraph>,
}

impl Create {
    /// The graph value this command will post: the loaded definition, with
    /// the command's namespace filled in where the definition left it
    /// empty.  With no loaded definition the command fails.
    pub fn prepare(&self) -> (r: Result<ExtractionGraph, Error>)
        ensures
            (match self.input {
                File::Empty => r == Result::<ExtractionGraph, Error>::Err(Error::NoInput),
                File::Loaded(g) => match r {
                    Ok(out) => if g.namespace@.len() == 0 {
                        &&& out@.id == g@.id
                        &&& out@.name == g@.name
                        &&& out@.namespace == self.namespace@
                        &&& out@.description == g@.description
                        &&& out@.extraction_policies == g@.extraction_policies
                    } else {
                        out@ == g@
                    },
                    Err(_) => false,
                },
            }),
    {
        match &self.input {
            File::Empty => Err(Error::NoInput),
            File::Loaded(g) => {
                let mut content = g.clone();
                if content.namespace.as_str().is_empty() {
                    content.namespace = self.namespace.clone();
                }
                Ok(content)
            },
        }
    }

    /// The URL path new graphs are posted to.
    pub fn request(&self) -> (r: Vec<String>)
        ensures
            views_of_strings(r@) == seq!["namespaces"@, self.namespace@, "extraction_graphs"@],
    {
        let client = self.api_server.clone().with_namespace(self.namespace.as_str());
        let segments = match client.url_segments::<ExtractionGraph>(None, "ExtractionGraph") {
            Ok(v) => v,
            Err(_) => unreached(),
        };
        proof {
            assert(views_of_strings(segments@) =~= seq![
                "namespaces"@,
                self.namespace@,
                "extraction_graphs"@,
            ]);
        }
        segments
    }
}

impl Container for Create {
    open spec fn spec_next(&self) -> Option<Node<'_>> {
        None
    }

    fn next(&self) -> (r: Option<Node<'_>>) {
        None
    }
}

impl Command for Create {
    open spec fn spec_kind(&self) -> NodeKind {
        NodeKind::GraphCreate
    }

    fn kind(&self) -> NodeKind {
        NodeKind::GraphCreate
    }
}

/// Fetch one extraction graph by name.
#[derive(Debug, Clone)]
pub struct Get {
    pub api_server: Client,
    pub output: Format,
    pub namespace: String,
    pub name: String,
}

impl Get {
    /// The URL path the namespace listing is fetched from; the graph is
    /// then picked out of that listing.
    pub fn request(&self) -> (r: Vec<String>)
        ensures
            views_of_strings(r@) == seq!["namespaces"@],
    {
        let segments = match self.api_server.url_segments::<DataNamespace>(
            None,
            "DataNamespace",
        ) {
            Ok(v) => v,
            Err(_) => unreached(),
        };
        proof {
            assert(views_of_strings(segments@) =~= seq!["namespaces"@]);
        }
        segments
    }

    /// Pick this command's graph out of the namespace listing: the first
    /// graph of that name in the first namespace of the command's name.
    /// A missing namespace or graph is each its own error.
    pub fn pick(&self, namespaces: &Vec<DataNamespace>) -> (r: Result<ExtractionGraph, Error>)
        ensures
            (forall|j: int|
                0 <= j < namespaces@.len() ==> namespaces@[j].name@ != self.namespace@) ==> (
            r matches Err(Error::NamespaceNotFound { name }) && name@ == self.namespace@),
            (exists|i: int| found_at(namespaces@, self.namespace@, i)) ==> {
                let i = choose|i: int| found_at(namespaces@, self.namespace@, i);
                let gs = namespaces@[i].extraction_graphs@;
                &&& (forall|j: int| 0 <= j < gs.len() ==> gs[j].name@ != self.name@) ==> (
                r matches Err(Error::GraphNotFound { name }) && name@ == self.name@)
                &&& (exists|k: int| graph_found_at(gs, self.name@, k)) ==> (r matches Ok(g) && g@
                    == gs[choose|k: int| graph_found_at(gs, self.name@, k)]@)
            },
    {
        let ns_idx = match find_namespace(namespaces, self.namespace.as_str()) {
            Some(i) => i,
            None => {
                return Err(Error::NamespaceNotFound { name: self.namespace.clone() });
            },
        };
        let graphs = &namespaces[ns_idx].extraction_graphs;
        let g_idx = match find_graph(graphs, self.name.as_str()) {
            Some(k) => k,
            None => {
                return Err(Error::GraphNotFound { name: self.name.clone() });
            },
        };
        proof {
            let i = choose|i: int| found_at(namespaces@, self.namespace@, i);
            assert(found_at(namespaces@, self.namespace@, ns_idx as int));
            assert(i == ns_idx as int);
            let gs = namespaces@[ns_idx as int].extraction_graphs@;
            let k = choose|k: int| graph_found_at(gs, self.name@, k);
            assert(graph_found_at(gs, self.name@, g_idx as int));
            assert(k == g_idx as int);
        }
        Ok(graphs[g_idx].clone())
    }
}

impl Container for Get {
    open spec fn spec_next(&self) -> Option<Node<'_>> {
        None
    }

    fn next(&self) -> (r: Option<Node<'_>>) {
        None
    }
}

impl Command for Get {
    open spec fn spec_kind(&self) -> NodeKind {
        NodeKind::GraphGet
    }

    fn kind(&self) -> NodeKind {
        NodeKind::GraphGet
    }
}

/// List the extraction graphs of the namespace.
#[derive(Debug, Clone)]
pub struct List {
    pub api_server: Client,
    pub output: Format,
    pub namespace: String,
}

impl List {
    /// The URL path the namespace listing is fetched from; the graphs are
    /// then picked out of that listing.
    pub fn request(&self) -> (r: Vec<String>)
        ensures
            views_of_strings(r@) == seq!["namespaces"@],
    {
        let segments = match self.api_server.url_segments::<DataNamespace>(
            None,
            "DataNamespace",
        ) {
            Ok(v) => v,
            Err(_) => unreached(),
        };
        proof {
            assert(views_of_strings(segments@) =~= seq!["namespaces"@]);
        }
        segments
    }

    /// Pick this command's namespace out of the listing and report its
    /// graphs; a missing namespace is an error.
    pub fn pick(&self, namespaces: &Vec<DataNamespace>) -> (r: Result<Vec<ExtractionGraph>, Error>)
        ensures
            (forall|j: int|
                0 <= j < namespaces@.len() ==> namespaces@[j].name@ != self.namespace@) ==> (
            r matches Err(Error::NamespaceNotFound { name }) && name@ == self.namespace@),
            (exists|i: int| found_at(namespaces@, self.namespace@, i)) ==> (r matches Ok(gs)
                && crate::api::graphs_view(gs@) == crate::api::graphs_view(
                namespaces@[choose|i: int|
                    found_at(namespaces@, self.namespace@, i)].extraction_graphs@,
            )),
    {
        match find_namespace(namespaces, self.namespace.as_str()) {
            Some(i) => {
                proof {
                    let c = choose|c: int| found_at(namespaces@, self.namespace@, c);
                    assert(found_at(namespaces@, self.namespace@, i as int));
                    assert(c == i as int);
                }
                Ok(crate::api::clone_graphs(&namespaces[i].extraction_graphs))
            },
            None => Err(Error::NamespaceNotFound { name: self.namespace.clone() }),
        }
    }
}

impl Container for List {
    open spec fn spec_next(&self) -> Option<Node<'_>> {
        None
    }

    fn next(&self) -> (r: Option<Node<'_>>) {
        None
    }
}

impl Command for List {
    open spec fn spec_kind(&self) -> NodeKind {
        NodeKind::GraphList
    }

    fn kind(&self) -> NodeKind {
        NodeKind::GraphList
    }
}

} // verus!
