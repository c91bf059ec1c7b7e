use indexify::api::ContentMetadata;
use indexify::api::DataNamespace;
use indexify::api::ExtractionGraph;
use indexify::api::ExtractorDescription;
use indexify::api::Index;
use indexify::client::traits::Namespaced;
use indexify::client::types::ContentIds;
use indexify::client::types::ContentUpload;
use indexify::client::types::Download;
use indexify::client::Client;
use indexify::client::DEFAULT_SERVICE_URL;
use indexify::errors::Error;

#[test]
fn default_client_addresses_local_default_namespace() {
    let c = Client::default();
    assert_eq!(c.service_url, DEFAULT_SERVICE_URL);
    assert_eq!(c.namespace, Some("default".to_string()));
}

#[test]
fn new_client_has_no_namespace() {
    let c = Client::new("http://example.com:8900");
    assert_eq!(c.service_url, "http://example.com:8900");
    assert_eq!(c.namespace, None);
}

#[test]
fn with_namespace_selects_a_namespace() {
    let c = Client::new("http://example.com").with_namespace("tenant");
    assert_eq!(c.namespace, Some("tenant".to_string()));
}

#[test]
fn namespaced_resource_demands_a_namespace() {
    let c = Client::new("http://example.com");
    let r = c.url_segments::<ContentMetadata>(None, "ContentMetadata");
    assert_eq!(
        r,
        Err(Error::NamespaceRequired { resource: "ContentMetadata".to_string() })
    );
}

#[test]
fn content_listing_path_sits_under_the_namespace() {
    let c = Client::new("http://example.com").with_namespace("tenant");
    let segments = c.url_segments::<ContentMetadata>(None, "ContentMetadata").unwrap();
    assert_eq!(segments, vec!["namespaces", "tenant", "content"]);
}

#[test]
fn content_by_id_path_carries_the_identifier() {
    let c = Client::new("http://example.com").with_namespace("tenant");
    let segments = c.url_segments::<ContentMetadata>(Some("c7"), "ContentMetadata").unwrap();
    assert_eq!(segments, vec!["namespaces", "tenant", "content", "c7"]);
}

#[test]
fn namespaces_are_not_themselves_namespaced() {
    let c = Client::new("http://example.com");
    let segments = c.url_segments::<DataNamespace>(None, "DataNamespace").unwrap();
    assert_eq!(segments, vec!["namespaces"]);
    let segments = c.url_segments::<DataNamespace>(Some("team-a"), "DataNamespace").unwrap();
    assert_eq!(segments, vec!["namespaces", "team-a"]);
}

#[test]
fn extractors_are_not_namespaced() {
    let c = Client::new("http://example.com");
    let segments = c.url_segments::<ExtractorDescription>(None, "ExtractorDescription").unwrap();
    assert_eq!(segments, vec!["extractors"]);
}

#[test]
fn graphs_cannot_be_fetched_by_id() {
    assert_eq!(ExtractionGraph::segments(Some("g1")), Err(Error::GetByIdUnsupported));
    assert_eq!(ExtractionGraph::segments(None).unwrap(), vec!["extraction_graphs"]);
}

#[test]
fn indexes_cannot_be_fetched_by_id() {
    assert_eq!(Index::segments(Some("i1")), Err(Error::GetByIdUnsupported));
    assert_eq!(Index::segments(None).unwrap(), vec!["indexes"]);
}

#[test]
fn download_demands_an_identifier() {
    assert_eq!(Download::segments(None), Err(Error::IdRequired));
    assert_eq!(
        Download::segments(Some("c9")).unwrap(),
        vec!["content", "c9", "download"]
    );
}

#[test]
fn content_ids_name_the_content_collection() {
    let ids = ContentIds::new(vec!["a".to_string(), "b".to_string()]);
    assert_eq!(ids.content_ids, vec!["a", "b"]);
    assert_eq!(ContentIds::segments(None).unwrap(), vec!["content"]);
}

#[test]
fn upload_names_the_upload_endpoint() {
    assert_eq!(ContentUpload::segments(None).unwrap(), vec!["upload_file"]);
}

#[test]
fn upload_query_joins_graph_names_with_commas() {
    let upload = ContentUpload::new("/tmp/data.pdf")
        .with_graph_names(&vec!["g1".to_string(), "g2".to_string(), "g3".to_string()]);
    assert_eq!(upload.path, "/tmp/data.pdf");
    let query = upload.query();
    assert_eq!(
        query,
        vec![("extraction_graph_names".to_string(), "g1,g2,g3".to_string())]
    );
}

#[test]
fn upload_query_with_one_graph_has_no_comma() {
    let upload = ContentUpload::new("x").with_graph_names(&vec!["only".to_string()]);
    assert_eq!(upload.query()[0].1, "only");
}
