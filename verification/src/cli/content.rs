//! Commands that work with content: download it, upload it, examine it.

use vstd::prelude::*;
use vstd::pervasive::unreached;

use crate::client::types::ContentIds;
use crate::client::types::ContentUpload;
use crate::client::views_of_strings;
use crate::client::Client;
use crate::command::Command;
use crate::command::Container;
use crate::command::NodeKind;
use crate::dispatch::Node;
use crate::output::Format;

verus! {

/// The content area: a composite whose subcommand field selects the
/// operation.
#[derive(Debug, Clone)]
pub struct Content {
    pub cmd: ContentCmd,
}

impl Container for Content {
    open spec fn spec_next(&self) -> Option<Node<'_>> {
        Some(Node::ContentCmd(&self.cmd))
    }

    fn next(&self) -> (r: Option<Node<'_>>) {
        Some(Node::ContentCmd(&self.cmd))
    }
}

impl Command for Content {
    open spec fn spec_kind(&self) -> NodeKind {
        NodeKind::Content
    }

    fn kind(&self) -> NodeKind {
        NodeKind::Content
    }
}

/// The selector over content operations: exactly one is populated, and it
/// is the node the walk continues into.
#[derive(Debug, Clone)]
pub enum ContentCmd {
    Delete(Delete),
    Download(Download),
    Get(Get),
    List(List),
    Upload(Upload),
}

impl Container for ContentCmd {
    open spec fn spec_next(&self) -> Option<Node<'_>> {
        match self {
            ContentCmd::Delete(cmd) => Some(Node::ContentDelete(cmd)),
            ContentCmd::Download(cmd) => Some(Node::ContentDownload(cmd)),
            ContentCmd::Get(cmd) => Some(Node::ContentGet(cmd)),
            ContentCmd::List(cmd) => Some(Node::ContentList(cmd)),
            ContentCmd::Upload(cmd) => Some(Node::ContentUpload(cmd)),
        }
    }

    fn next(&self) -> (r: Option<Node<'_>>) {
        match self {
            ContentCmd::Delete(cmd) => Some(Node::ContentDelete(cmd)),
            ContentCmd::Download(cmd) => Some(Node::ContentDownload(cmd)),
            ContentCmd::Get(cmd) => Some(Node::ContentGet(cmd)),
            ContentCmd::List(cmd) => Some(Node::ContentList(cmd)),
            ContentCmd::Upload(cmd) => Some(Node::ContentUpload(cmd)),
        }
    }
}

impl Command for ContentCmd {
    open spec fn spec_kind(&self) -> NodeKind {
        NodeKind::ContentCmd
    }

    fn kind(&self) -> NodeKind {
        NodeKind::ContentCmd
    }
}

/// Delete a piece of content by identifier.
#[derive(Debug, Clone)]
pub struct Delete {
    pub api_server: Client,
    pub output: Format,
    pub namespace: String,
    pub id: String,
}

impl Delete {
    /// The deletion request: the URL path of the namespace's content
    /// collection, and a body naming exactly this command's identifier.
    pub fn request(&self) -> (r: (Vec<String>, ContentIds))
        ensures
            views_of_strings(r.0@) == seq!["namespaces"@, self.namespace@, "content"@],
            r.1.content_ids@.len() == 1,
            r.1.content_ids@[0]@ == self.id@,
    {
        let client = self.api_server.clone().with_namespace(self.namespace.as_str());
        let segments = match client.url_segments::<ContentIds>(None, "ContentIds") {
            Ok(v) => v,
            Err(_) => unreached(),
        };
        let ids: Vec<String> = vec![self.id.clone()];
        proof {
            assert(views_of_strings(segments@) =~= seq!["namespaces"@, self.namespace@, "content"@]);
        }
        (segments, ContentIds::new(ids))
    }
}

impl Container for Delete {
    open spec fn spec_next(&self) -> Option<Node<'_>> {
        None
    }

    fn next(&self) -> (r: Option<Node<'_>>) {
        None
    }
}

impl Command for Delete {
    open spec fn spec_kind(&self) -> NodeKind {
        NodeKind::ContentDelete
    }

    fn kind(&self) -> NodeKind {
        NodeKind::ContentDelete
    }
}

/// Download a piece of content, to a file or to standard output.
#[derive(Debug, Clone)]
pub struct Download {
    pub api_server: Client,
    pub output: Format,
    pub namespace: String,
    pub id: String,
    pub file: Option<String>,
}

impl Download {
    /// The URL path the content's bytes are streamed from.
    pub fn request(&self) -> (r: Vec<String>)
        ensures
            views_of_strings(r@) == seq![
                "namespaces"@,
                self.namespace@,
                "content"@,
                self.id@,
                "download"@,
            ],
    {
        let client = self.api_server.clone().with_namespace(self.namespace.as_str());
        let segments = match client.url_segments::<crate::client::types::Download>(
            Some(self.id.as_str()),
            "Download",
        ) {
            Ok(v) => v,
            Err(_) => unreached(),
        };
        proof {
            assert(views_of_strings(segments@) =~= seq![
                "namespaces"@,
                self.namespace@,
                "content"@,
                self.id@,
                "download"@,
            ]);
        }
        segments
    }
}

impl Container for Download {
    open spec fn spec_next(&self) -> Option<Node<'_>> {
        None
    }

    fn next(&self) -> (r: Option<Node<'_>>) {
        None
    }
}

impl Command for Download {
    open spec fn spec_kind(&self) -> NodeKind {
        NodeKind::ContentDownload
    }

    fn kind(&self) -> NodeKind {
        NodeKind::ContentDownload
    }
}

/// Fetch the metadata of a piece of content by identifier.
#[derive(Debug, Clone)]
pub struct Get {
    pub api_server: Client,
    pub output: Format,
    pub namespace: String,
    pub id: String,
}

impl Get {
    /// The URL path the content record is fetched from.
    pub fn request(&self) -> (r: Vec<String>)
        ensures
            views_of_strings(r@) == seq!["namespaces"@, self.namespace@, "content"@, self.id@],
    {
        let client = self.api_server.clone().with_namespace(self.namespace.as_str());
        let segments = match client.url_segments::<crate::api::ContentMetadata>(
            Some(self.id.as_str()),
            "ContentMetadata",
        ) {
            Ok(v) => v,
            Err(_) => unreached(),
        };
        proof {
            assert(views_of_strings(segments@) =~= seq![
                "namespaces"@,
                self.namespace@,
                "content"@,
                self.id@,
            ]);
        }
        segments
    }
}

impl Container for Get {
    open spec fn spec_next(&self) -> Option<Node<'_>> {
        None
    }

    fn next(&self) -> (r: Option<Node<'_>>) {
        None
    }
}

impl Command for Get {
    open spec fn spec_kind(&self) -> NodeKind {
        NodeKind::ContentGet
    }

    fn kind(&self) -> NodeKind {
        NodeKind::ContentGet
    }
}

/// List all the content in the namespace.
#[derive(Debug, Clone)]
pub struct List {
    pub api_server: Client,
    pub output: Format,
    pub namespace: String,
}

impl List {
    /// The URL path the namespace's content collection is listed from.
    pub fn request(&self) -> (r: Vec<String>)
        ensures
            views_of_strings(r@) == seq!["namespaces"@, self.namespace@, "content"@],
    {
        let client = self.api_server.clone().with_namespace(self.namespace.as_str());
        let segments = match client.url_segments::<crate::api::ContentMetadata>(
            None,
            "ContentMetadata",
        ) {
            Ok(v) => v,
            Err(_) => unreached(),
        };
        proof {
            assert(views_of_strings(segments@) =~= seq!["namespaces"@, self.namespace@, "content"@]);
        }
        segments
    }
}

impl Container for List {
    open spec fn spec_next(&self) -> Option<Node<'_>> {
        None
    }

    fn next(&self) -> (r: Option<Node<'_>>) {
        None
    }
}

impl Command for List {
    open spec fn spec_kind(&self) -> NodeKind {
        NodeKind::ContentList
    }

    fn kind(&self) -> NodeKind {
        NodeKind::ContentList
    }
}

/// Upload a file as new content attached to extraction graphs.
#[derive(Debug, Clone)]
pub struct Upload {
    pub api_server: Client,
    pub output: Format,
    pub namespace: String,
    pub path: String,
    pub graph: Vec<String>,
}

impl Upload {
    /// The upload request: the URL path of the namespace's upload endpoint
    /// and the content value naming this command's file and graphs.
    pub fn request(&self) -> (r: (Vec<String>, ContentUpload))
        ensures
            views_of_strings(r.0@) == seq!["namespaces"@, self.namespace@, "upload_file"@],
            r.1.path@ == self.path@,
            r.1.graph_names@ == self.graph@,
    {
        let client = self.api_server.clone().with_namespace(self.namespace.as_str());
        let segments = match client.url_segments::<ContentUpload>(None, "ContentUpload") {
            Ok(v) => v,
            Err(_) => unreached(),
        };
        let content = ContentUpload::new(self.path.as_str()).with_graph_names(&self.graph);
        proof {
            assert(views_of_strings(segments@) =~= seq![
                "namespaces"@,
                self.namespace@,
                "upload_file"@,
            ]);
        }
        (segments, content)
    }
}

impl Container for Upload {
    open spec fn spec_next(&self) -> Option<Node<'_>> {
        None
    }

    fn next(&self) -> (r: Option<Node<'_>>) {
        None
    }
}

impl Command for Upload {
    open spec fn spec_kind(&self) -> NodeKind {
        NodeKind::ContentUpload
    }

    fn kind(&self) -> NodeKind {
        NodeKind::ContentUpload
    }
}

} // verus!
