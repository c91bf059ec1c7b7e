//! The service's resource model: the values commands send and receive.
//!
//! These are plain records; the process boundary owns their wire encoding.
//! Fields that carry free-form JSON in the wire format hold the raw JSON
//! text here, and string-to-string mappings are kept as ordered pairs.
//! Each kind's place in the URL space is stated by its [`Namespaced`] impl.

pub mod utils;

use vstd::prelude::*;
use vstd::string::StringExecFns;

use crate::client::traits::Create;
use crate::client::traits::Get;
use crate::client::traits::List;
use crate::client::traits::Namespaced;
use crate::client::types::KeyValues;
use crate::errors::Error;
use crate::text::dec_str;
use crate::text::u64_to_string;

verus! {

/// The mathematical content of a string-to-string mapping: the pairs of
/// character sequences, in order.
pub open spec fn kv_view(v: Seq<(String, String)>) -> Seq<(Seq<char>, Seq<char>)> {
    v.map_values(|p: (String, String)| (p.0@, p.1@))
}

/// The view of an optional string.
pub open spec fn opt_view(v: Option<String>) -> Option<Seq<char>> {
    match v {
        Some(s) => Some(s@),
        None => None,
    }
}

/// The mathematical content of an extraction policy.
pub struct ExtractionPolicyView {
    pub id: Seq<char>,
    pub extractor: Seq<char>,
    pub name: Seq<char>,
    pub filters_eq: Option<Seq<(Seq<char>, Seq<char>)>>,
    pub input_params: Option<Seq<char>>,
    pub content_source: Option<Seq<char>>,
    pub graph_name: Seq<char>,
}

/// The mathematical content of an extraction graph.
pub struct ExtractionGraphView {
    pub id: Seq<char>,
    pub name: Seq<char>,
    pub namespace: Seq<char>,
    pub description: Option<Seq<char>>,
    pub extraction_policies: Seq<ExtractionPolicyView>,
}

/// The mathematical content of a namespace.
pub struct DataNamespaceView {
    pub name: Seq<char>,
    pub extraction_graphs: Seq<ExtractionGraphView>,
}

/// The mathematical content of a namespace-creation request.
pub struct CreateNamespaceView {
    pub name: Seq<char>,
    pub extraction_graphs: Seq<ExtractionGraphView>,
    pub labels: Seq<(Seq<char>, Seq<char>)>,
}

/// The views of a list of extraction graphs.
pub open spec fn graphs_view(s: Seq<ExtractionGraph>) -> Seq<ExtractionGraphView> {
    s.map_values(|g: ExtractionGraph| g@)
}

/// The views of a list of extraction policies.
pub open spec fn policies_view(s: Seq<ExtractionPolicy>) -> Seq<ExtractionPolicyView> {
    s.map_values(|p: ExtractionPolicy| p@)
}

/// A namespace: a tenant partition holding content and extraction graphs.
#[derive(Debug, Clone, PartialEq, Eq)]
pub struct DataNamespace {
    pub name: String,
    pub extraction_graphs: Vec<ExtractionGraph>,
}

impl View for DataNamespace {
    type V = DataNamespaceView;

    open spec fn view(&self) -> DataNamespaceView {
        DataNamespaceView {
            name: self.name@,
            extraction_graphs: graphs_view(self.extraction_graphs@),
        }
    }
}

impl DataNamespace {
    /// The name this namespace is rendered as.
    pub fn display_name(&self) -> (r: String)
        ensures
            r@ == self.name@,
    {
        self.name.clone()
    }
}

impl Default for DataNamespace {
    /// An empty namespace with no name.
    fn default() -> (r: DataNamespace)
        ensures
            r.name@ == Seq::<char>::empty(),
            r.extraction_graphs@ == Seq::<ExtractionGraph>::empty(),
    {
        DataNamespace { name: String::new(), extraction_graphs: Vec::new() }
    }
}

impl Namespaced for DataNamespace {
    open spec fn spec_is_namespaced() -> bool {
        false
    }

    open spec fn spec_segments(id: Option<Seq<char>>) -> Result<Seq<Seq<char>>, Error> {
        match id {
            Some(s) => Ok(seq!["namespaces"@, s]),
            None => Ok(seq!["namespaces"@]),
        }
    }

    fn is_namespaced() -> bool {
        false
    }

    fn segments(id: Option<&str>) -> (r: Result<Vec<String>, Error>) {
        match id {
            Some(s) => {
                let v: Vec<String> = vec![String::from_str("namespaces"), s.to_owned()];
                proof {
                    assert(crate::client::views_of_strings(v@) =~= seq!["namespaces"@, s@]);
                }
                Ok(v)
            },
            None => {
                let v: Vec<String> = vec![String::from_str("namespaces")];
                proof {
                    assert(crate::client::views_of_strings(v@) =~= seq!["namespaces"@]);
                }
                Ok(v)
            },
        }
    }
}

impl Get for DataNamespace {
    type Response = GetNamespaceResponse;
}

impl List for Vec<DataNamespace> {
    type Item = DataNamespace;

    type Response = ListNamespacesResponse;
}

/// The shape a namespace listing comes back in.
#[derive(Debug, Clone)]
pub struct ListNamespacesResponse {
    pub namespaces: Vec<DataNamespace>,
}

impl ListNamespacesResponse {
    /// The listed namespaces.
    pub fn items(self) -> (r: Vec<DataNamespace>)
        ensures
            r == self.namespaces,
    {
        self.namespaces
    }
}

/// The shape a single namespace comes back in.
#[derive(Debug, Clone)]
pub struct GetNamespaceResponse {
    pub namespace: DataNamespace,
}

impl GetNamespaceResponse {
    /// The fetched namespace.
    pub fn item(self) -> (r: DataNamespace)
        ensures
            r == self.namespace,
    {
        self.namespace
    }
}

/// The body of a namespace-creation request.
#[derive(Debug, PartialEq, Eq)]
pub struct CreateNamespace {
    pub name: String,
    pub extraction_graphs: Vec<ExtractionGraph>,
    pub labels: KeyValues,
}

impl View for CreateNamespace {
    type V = CreateNamespaceView;

    open spec fn view(&self) -> CreateNamespaceView {
        CreateNamespaceView {
            name: self.name@,
            extraction_graphs: graphs_view(self.extraction_graphs@),
            labels: kv_view(self.labels@),
        }
    }
}

impl Clone for CreateNamespace {
    /// Cloning keeps the whole content.
    fn clone(&self) -> (r: Self)
        ensures
            r@ == self@,
    {
        CreateNamespace {
            name: self.name.clone(),
            extraction_graphs: clone_graphs(&self.extraction_graphs),
            labels: clone_key_values(&self.labels),
        }
    }
}

impl Default for CreateNamespace {
    /// A creation request with everything still empty.
    fn default() -> (r: CreateNamespace)
        ensures
            r.name@ == Seq::<char>::empty(),
            r.extraction_graphs@ == Seq::<ExtractionGraph>::empty(),
            r.labels@ == Seq::<(String, String)>::empty(),
    {
        CreateNamespace { name: String::new(), extraction_graphs: Vec::new(), labels: Vec::new() }
    }
}

impl Namespaced for CreateNamespace {
    open spec fn spec_is_namespaced() -> bool {
        true
    }

    open spec fn spec_segments(id: Option<Seq<char>>) -> Result<Seq<Seq<char>>, Error> {
        Ok(seq!["namespaces"@])
    }

    fn is_namespaced() -> bool {
        true
    }

    fn segments(id: Option<&str>) -> (r: Result<Vec<String>, Error>) {
        let v: Vec<String> = vec![String::from_str("namespaces")];
        proof {
            assert(crate::client::views_of_strings(v@) =~= seq!["namespaces"@]);
        }
        Ok(v)
    }
}

impl Create for CreateNamespace {
    type Response = KeyValues;
}

/// An extraction graph: a named pipeline of extraction policies inside a
/// namespace.
#[derive(Debug, PartialEq, Eq)]
pub struct ExtractionGraph {
    pub id: String,
    pub name: String,
    pub namespace: String,
    pub description: Option<String>,
    pub extraction_policies: Vec<ExtractionPolicy>,
}

impl ExtractionGraph {
    /// The name this graph is rendered as.
    pub fn display_name(&self) -> (r: String)
        ensures
            r@ == self.name@,
    {
        self.name.clone()
    }
}

impl View for ExtractionGraph {
    type V = ExtractionGraphView;

    open spec fn view(&self) -> ExtractionGraphView {
        ExtractionGraphView {
            id: self.id@,
            name: self.name@,
            namespace: self.namespace@,
            description: opt_view(self.description),
            extraction_policies: policies_view(self.extraction_policies@),
        }
    }
}

impl Clone for ExtractionGraph {
    /// Cloning keeps the whole content.
    fn clone(&self) -> (r: Self)
        ensures
            r@ == self@,
    {
        ExtractionGraph {
            id: self.id.clone(),
            name: self.name.clone(),
            namespace: self.namespace.clone(),
            description: clone_opt_string(&self.description),
            extraction_policies: clone_policies(&self.extraction_policies),
        }
    }
}

impl Namespaced for ExtractionGraph {
    open spec fn spec_is_namespaced() -> bool {
        true
    }

    open spec fn spec_segments(id: Option<Seq<char>>) -> Result<Seq<Seq<char>>, Error> {
        match id {
            Some(s) => Err(Error::GetByIdUnsupported),
            None => Ok(seq!["extraction_graphs"@]),
        }
    }

    fn is_namespaced() -> bool {
        true
    }

    fn segments(id: Option<&str>) -> (r: Result<Vec<String>, Error>) {
        match id {
            Some(_) => Err(Error::GetByIdUnsupported),
            None => {
                let v: Vec<String> = vec![String::from_str("extraction_graphs")];
                proof {
                    assert(crate::client::views_of_strings(v@) =~= seq!["extraction_graphs"@]);
                }
                Ok(v)
            },
        }
    }
}

impl Create for ExtractionGraph {
    type Response = ExtractionGraphResponse;
}

/// What creating an extraction graph reports back: the indexes it feeds.
#[derive(Debug, Clone)]
pub struct ExtractionGraphResponse {
    pub indexes: Vec<String>,
}

/// One policy of an extraction graph: which extractor runs, on which
/// content, with which parameters.
#[derive(Debug, PartialEq, Eq)]
pub struct ExtractionPolicy {
    pub id: String,
    pub extractor: String,
    pub name: String,
    pub filters_eq: Option<KeyValues>,
    pub input_params: Option<String>,
    pub content_source: Option<String>,
    pub graph_name: String,
}

impl View for ExtractionPolicy {
    type V = ExtractionPolicyView;

    open spec fn view(&self) -> ExtractionPolicyView {
        ExtractionPolicyView {
            id: self.id@,
            extractor: self.extractor@,
            name: self.name@,
            filters_eq: (match self.filters_eq {
                Some(kv) => Some(kv_view(kv@)),
                None => None,
            }),
            input_params: opt_view(self.input_params),
            content_source: opt_view(self.content_source),
            graph_name: self.graph_name@,
        }
    }
}

impl Clone for ExtractionPolicy {
    /// Cloning keeps the whole content.
    fn clone(&self) -> (r: Self)
        ensures
            r@ == self@,
    {
        ExtractionPolicy {
            id: self.id.clone(),
            extractor: self.extractor.clone(),
            name: self.name.clone(),
            filters_eq: (match &self.filters_eq {
                Some(kv) => Some(clone_key_values(kv)),
                None => None,
            }),
            input_params: clone_opt_string(&self.input_params),
            content_source: clone_opt_string(&self.content_source),
            graph_name: self.graph_name.clone(),
        }
    }
}

impl ExtractionPolicy {
    /// The name this policy is rendered as.
    pub fn display_name(&self) -> (r: String)
        ensures
            r@ == self.name@,
    {
        self.name.clone()
    }
}

/// A registered extractor and the schema of what it produces.
#[derive(Debug, Clone)]
pub struct ExtractorDescription {
    pub name: String,
    pub input_mime_types: Vec<String>,
    pub description: String,
    pub input_params: String,
    pub outputs: Vec<(String, ExtractorOutputSchema)>,
}

impl Namespaced for ExtractorDescription {
    open spec fn spec_is_namespaced() -> bool {
        false
    }

    open spec fn spec_segments(id: Option<Seq<char>>) -> Result<Seq<Seq<char>>, Error> {
        Ok(seq!["extractors"@])
    }

    fn is_namespaced() -> bool {
        false
    }

    fn segments(id: Option<&str>) -> (r: Result<Vec<String>, Error>) {
        let v: Vec<String> = vec![String::from_str("extractors")];
        proof {
            assert(crate::client::views_of_strings(v@) =~= seq!["extractors"@]);
        }
        Ok(v)
    }
}

impl List for Vec<ExtractorDescription> {
    type Item = ExtractorDescription;

    type Response = ListExtractorsResponse;
}

/// The shape an extractor listing comes back in.
#[derive(Debug, Clone)]
pub struct ListExtractorsResponse {
    pub extractors: Vec<ExtractorDescription>,
}

impl ListExtractorsResponse {
    /// The listed extractors.
    pub fn items(self) -> (r: Vec<ExtractorDescription>)
        ensures
            r == self.extractors,
    {
        self.extractors
    }
}

/// What one output of an extractor looks like: an embedding with a fixed
/// schema, or free-form metadata.
#[derive(Debug, Clone)]
pub enum ExtractorOutputSchema {
    Embedding(EmbeddingSchema),
    Metadata(String),
}

/// The schema of an embedding output: its dimension and distance measure.
#[derive(Debug, Clone)]
pub struct EmbeddingSchema {
    pub dim: usize,
    pub distance: IndexDistance,
}

impl EmbeddingSchema {
    /// How the schema is rendered: the dimension and the distance measure,
    /// joined by a dash.
    pub fn display_string(&self) -> (r: String)
        ensures
            r@ == dec_str(self.dim as int) + seq!['-'] + distance_name(self.distance),
    {
        let mut out = u64_to_string(self.dim as u64);
        out.append("-");
        out.append(self.distance.as_str());
        proof {
            reveal_strlit("-");
            assert("-"@ =~= seq!['-']);
        }
        out
    }
}

/// The distance measure of an embedding index.
#[derive(Debug, Clone, Copy, PartialEq, Eq, Structural)]
pub enum IndexDistance {
    Dot,
    Cosine,
    Euclidean,
}

impl Default for IndexDistance {
    /// The default distance measure is the dot product.
    fn default() -> (r: IndexDistance)
        ensures
            r == IndexDistance::Dot,
    {
        IndexDistance::Dot
    }
}

/// The wire name of a distance measure.
pub open spec fn distance_name(d: IndexDistance) -> Seq<char> {
    match d {
        IndexDistance::Dot => "dot"@,
        IndexDistance::Cosine => "cosine"@,
        IndexDistance::Euclidean => "euclidean"@,
    }
}

impl IndexDistance {
    /// The wire name of this distance measure.
    pub fn as_str(&self) -> (r: &'static str)
        ensures
            r@ == distance_name(*self),
    {
        match self {
            IndexDistance::Dot => "dot",
            IndexDistance::Cosine => "cosine",
            IndexDistance::Euclidean => "euclidean",
        }
    }

    /// The distance measure of a wire name, if it is one: the inverse of
    /// [`IndexDistance::as_str`].
    pub fn parse(s: &str) -> (r: Option<IndexDistance>)
        ensures
            (match r {
                Some(d) => s@ == distance_name(d),
                None => forall|d: IndexDistance| s@ != distance_name(d),
            }),
    {
        if crate::text::str_eq(s, "dot") {
            Some(IndexDistance::Dot)
        } else if crate::text::str_eq(s, "cosine") {
            Some(IndexDistance::Cosine)
        } else if crate::text::str_eq(s, "euclidean") {
            Some(IndexDistance::Euclidean)
        } else {
            proof {
                assert forall|d: IndexDistance| s@ != distance_name(d) by {
                    match d {
                        IndexDistance::Dot => {},
                        IndexDistance::Cosine => {},
                        IndexDistance::Euclidean => {},
                    }
                }
            }
            None
        }
    }
}

/// A vector index fed by an extraction graph.
#[derive(Debug, Clone)]
pub struct Index {
    pub name: String,
    pub embedding_schema: EmbeddingSchema,
}

impl Namespaced for Index {
    open spec fn spec_is_namespaced() -> bool {
        true
    }

    open spec fn spec_segments(id: Option<Seq<char>>) -> Result<Seq<Seq<char>>, Error> {
        match id {
            Some(s) => Err(Error::GetByIdUnsupported),
            None => Ok(seq!["indexes"@]),
        }
    }

    fn is_namespaced() -> bool {
        true
    }

    fn segments(id: Option<&str>) -> (r: Result<Vec<String>, Error>) {
        match id {
            Some(_) => Err(Error::GetByIdUnsupported),
            None => {
                let v: Vec<String> = vec![String::from_str("indexes")];
                proof {
                    assert(crate::client::views_of_strings(v@) =~= seq!["indexes"@]);
                }
                Ok(v)
            },
        }
    }
}

impl List for Vec<Index> {
    type Item = Index;

    type Response = ListIndexesResponse;
}

/// The shape an index listing comes back in.
#[derive(Debug, Clone)]
pub struct ListIndexesResponse {
    pub indexes: Vec<Index>,
}

impl ListIndexesResponse {
    /// The listed indexes.
    pub fn items(self) -> (r: Vec<Index>)
        ensures
            r == self.indexes,
    {
        self.indexes
    }
}

/// The shape a content listing comes back in.
#[derive(Debug, Clone)]
pub struct ListContentResponse {
    pub content_list: Vec<ContentMetadata>,
    pub total: u64,
}

impl ListContentResponse {
    /// The listed content records.
    pub fn items(self) -> (r: Vec<ContentMetadata>)
        ensures
            r == self.content_list,
    {
        self.content_list
    }
}

/// The shape a single content record comes back in.
#[derive(Debug, Clone)]
pub struct GetContentMetadataResponse {
    pub content_metadata: ContentMetadata,
}

impl GetContentMetadataResponse {
    /// The fetched content record.
    pub fn item(self) -> (r: ContentMetadata)
        ensures
            r == self.content_metadata,
    {
        self.content_metadata
    }
}

/// One piece of content known to the service.
#[derive(Debug, Clone)]
pub struct ContentMetadata {
    pub id: String,
    pub parent_id: String,
    pub root_content_id: String,
    pub namespace: String,
    pub name: String,
    pub mime_type: String,
    pub labels: KeyValues,
    pub extraction_graph_names: Vec<String>,
    pub storage_url: String,
    pub created_at: i64,
    pub source: String,
    pub size: u64,
    pub hash: String,
}

impl Namespaced for ContentMetadata {
    open spec fn spec_is_namespaced() -> bool {
        true
    }

    open spec fn spec_segments(id: Option<Seq<char>>) -> Result<Seq<Seq<char>>, Error> {
        match id {
            Some(s) => Ok(seq!["content"@, s]),
            None => Ok(seq!["content"@]),
        }
    }

    fn is_namespaced() -> bool {
        true
    }

    fn segments(id: Option<&str>) -> (r: Result<Vec<String>, Error>) {
        match id {
            Some(s) => {
                let v: Vec<String> = vec![String::from_str("content"), s.to_owned()];
                proof {
                    assert(crate::client::views_of_strings(v@) =~= seq!["content"@, s@]);
                }
                Ok(v)
            },
            None => {
                let v: Vec<String> = vec![String::from_str("content")];
                proof {
                    assert(crate::client::views_of_strings(v@) =~= seq!["content"@]);
                }
                Ok(v)
            },
        }
    }
}

impl Get for ContentMetadata {
    type Response = GetContentMetadataResponse;
}

impl List for Vec<ContentMetadata> {
    type Item = ContentMetadata;

    type Response = ListContentResponse;
}

/// Clone an optional string, keeping its value.
pub fn clone_opt_string(v: &Option<String>) -> (r: Option<String>)
    ensures
        r == *v,
{
    match v {
        Some(s) => Some(s.clone()),
        None => None,
    }
}

/// Clone a string-to-string mapping, keeping every pair.
pub fn clone_key_values(v: &KeyValues) -> (r: KeyValues)
    ensures
        r@ == v@,
{
    let mut out: KeyValues = Vec::new();
    let n = v.len();
    for i in 0..n
        invariant
            n == v.len(),
            out@ =~= v@.take(i as int),
    {
        let pair = (v[i].0.clone(), v[i].1.clone());
        out.push(pair);
        proof {
            assert(v@.take(i as int).push(v@[i as int]) =~= v@.take(i as int + 1));
        }
    }
    proof {
        assert(v@.take(n as int) =~= v@);
    }
    out
}

/// Clone a list of extraction policies, keeping the content of every
/// element.
pub fn clone_policies(v: &Vec<ExtractionPolicy>) -> (r: Vec<ExtractionPolicy>)
    ensures
        policies_view(r@) == policies_view(v@),
{
    let mut out: Vec<ExtractionPolicy> = Vec::new();
    let n = v.len();
    for i in 0..n
        invariant
            n == v.len(),
            out@.len() == i,
            policies_view(out@) == policies_view(v@.take(i as int)),
    {
        let ghost old_out = out@;
        out.push(v[i].clone());
        proof {
            assert forall|j: int| 0 <= j < i + 1 implies policies_view(out@)[j] == policies_view(
                v@.take(i as int + 1),
            )[j] by {
                if j < i {
                    assert(policies_view(old_out)[j] == policies_view(v@.take(i as int))[j]);
                }
            }
            assert(policies_view(out@) =~= policies_view(v@.take(i as int + 1)));
        }
    }
    proof {
        assert(v@.take(n as int) =~= v@);
    }
    out
}

/// Clone a list of extraction graphs, keeping the content of every
/// element.
pub fn clone_graphs(v: &Vec<ExtractionGraph>) -> (r: Vec<ExtractionGraph>)
    ensures
        graphs_view(r@) == graphs_view(v@),
{
    let mut out: Vec<ExtractionGraph> = Vec::new();
    let n = v.len();
    for i in 0..n
        invariant
            n == v.len(),
            out@.len() == i,
            graphs_view(out@) == graphs_view(v@.take(i as int)),
    {
        let ghost old_out = out@;
        out.push(v[i].clone());
        proof {
            assert forall|j: int| 0 <= j < i + 1 implies graphs_view(out@)[j] == graphs_view(
                v@.take(i as int + 1),
            )[j] by {
                if j < i {
                    assert(graphs_view(old_out)[j] == graphs_view(v@.take(i as int))[j]);
                }
            }
            assert(graphs_view(out@) =~= graphs_view(v@.take(i as int + 1)));
        }
    }
    proof {
        assert(v@.take(n as int) =~= v@);
    }
    out
}

} // verus!
