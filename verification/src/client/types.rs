//! Request value types that belong to the client rather than to the
//! service's response model.

use vstd::prelude::*;
use vstd::string::StringExecFns;

use crate::client::traits::Delete;
use crate::client::traits::Namespaced;
use crate::client::traits::Upload;
use crate::errors::Error;
use crate::text::join_sep;
use crate::text::joined_sep;

verus! {

/// Response entries that arrive as a plain string-to-string mapping.
pub type KeyValues = Vec<(String, String)>;

/// The body of a content-deletion request: the identifiers to remove.
#[derive(Debug, Clone)]
pub struct ContentIds {
    pub content_ids: Vec<String>,
}

impl ContentIds {
    /// A deletion request for exactly the given identifiers.
    pub fn new(content_ids: Vec<String>) -> (r: ContentIds)
        ensures
            r.content_ids == content_ids,
    {
        ContentIds { content_ids }
    }
}

impl Namespaced for ContentIds {
    open spec fn spec_is_namespaced() -> bool {
        true
    }

    open spec fn spec_segments(id: Option<Seq<char>>) -> Result<Seq<Seq<char>>, Error> {
        Ok(seq!["content"@])
    }

    fn is_namespaced() -> bool {
        true
    }

    fn segments(id: Option<&str>) -> (r: Result<Vec<String>, Error>) {
        let v: Vec<String> = vec![String::from_str("content")];
        proof {
            assert(crate::client::views_of_strings(v@) =~= seq!["content"@]);
        }
        Ok(v)
    }
}

impl Delete for ContentIds {
    type Response = KeyValues;
}

/// A content upload: the file to send and the extraction graphs the new
/// content joins.
#[derive(Debug, Clone)]
pub struct ContentUpload {
    pub path: String,
    pub graph_names: Vec<String>,
}

impl ContentUpload {
    /// An upload of the file at the given path, attached to no graph yet.
    pub fn new(path: &str) -> (r: ContentUpload)
        ensures
            r.path@ == path@,
            r.graph_names@ == Seq::<String>::empty(),
    {
        ContentUpload { path: path.to_owned(), graph_names: Vec::new() }
    }

    /// The same upload, attached to the given extraction graphs.
    pub fn with_graph_names(self, graph_names: &Vec<String>) -> (r: ContentUpload)
        ensures
            r.path == self.path,
            r.graph_names@ == graph_names@,
    {
        let mut names: Vec<String> = Vec::new();
        let n = graph_names.len();
        for i in 0..n
            invariant
                n == graph_names.len(),
                names@ =~= graph_names@.take(i as int),
        {
            names.push(graph_names[i].clone());
            proof {
                assert(graph_names@.take(i as int).push(graph_names@[i as int]) =~= graph_names@
                    .take(i as int + 1));
            }
        }
        proof {
            assert(graph_names@.take(n as int) =~= graph_names@);
        }
        ContentUpload { path: self.path, graph_names: names }
    }

    /// The query string of the upload request: the graph names, joined by
    /// commas, under the `extraction_graph_names` key.
    pub fn query(&self) -> (r: Vec<(String, String)>)
        ensures
            r@.len() == 1,
            r@[0].0@ == "extraction_graph_names"@,
            r@[0].1@ == joined_sep(self.graph_names@, seq![',']),
    {
        let joined = join_sep(&self.graph_names, ",");
        proof {
            reveal_strlit(",");
            assert(","@ =~= seq![',']);
        }
        let v: Vec<(String, String)> = vec![
            (String::from_str("extraction_graph_names"), joined),
        ];
        v
    }
}

impl Namespaced for ContentUpload {
    open spec fn spec_is_namespaced() -> bool {
        true
    }

    open spec fn spec_segments(id: Option<Seq<char>>) -> Result<Seq<Seq<char>>, Error> {
        Ok(seq!["upload_file"@])
    }

    fn is_namespaced() -> bool {
        true
    }

    fn segments(id: Option<&str>) -> (r: Result<Vec<String>, Error>) {
        let v: Vec<String> = vec![String::from_str("upload_file")];
        proof {
            assert(crate::client::views_of_strings(v@) =~= seq!["upload_file"@]);
        }
        Ok(v)
    }
}

impl Upload for ContentUpload {

}

/// Addresses the download of one piece of content; downloading demands an
/// identifier.
#[derive(Debug, Clone)]
pub struct Download;

impl Namespaced for Download {
    open spec fn spec_is_namespaced() -> bool {
        true
    }

    open spec fn spec_segments(id: Option<Seq<char>>) -> Result<Seq<Seq<char>>, Error> {
        match id {
            Some(s) => Ok(seq!["content"@, s, "download"@]),
            None => Err(Error::IdRequired),
        }
    }

    fn is_namespaced() -> bool {
        true
    }

    fn segments(id: Option<&str>) -> (r: Result<Vec<String>, Error>) {
        match id {
            Some(s) => {
                let v: Vec<String> = vec![
                    String::from_str("content"),
                    s.to_owned(),
                    String::from_str("download"),
                ];
                proof {
                    assert(crate::client::views_of_strings(v@) =~= seq!["content"@, s@, "download"@]);
                }
                Ok(v)
            },
            None => Err(Error::IdRequired),
        }
    }
}

} // verus!
