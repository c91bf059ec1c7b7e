use indexify::api::CreateNamespace;
use indexify::api::DataNamespace;
use indexify::api::ExtractionGraph;
use indexify::cli::content;
use indexify::cli::extractor;
use indexify::cli::graph;
use indexify::cli::index;
use indexify::cli::namespace;
use indexify::client::Client;
use indexify::errors::Error;
use indexify::file::File;
use indexify::output::Format;

fn client() -> Client {
    Client::new("http://localhost:8900")
}

fn sample_graph(name: &str, namespace: &str) -> ExtractionGraph {
    ExtractionGraph {
        id: "id1".to_string(),
        name: name.to_string(),
        namespace: namespace.to_string(),
        description: None,
        extraction_policies: vec![],
    }
}

#[test]
fn content_delete_request_names_the_id() {
    let cmd = content::Delete {
        api_server: client(),
        output: Format::Pretty,
        namespace: "team".to_string(),
        id: "c1".to_string(),
    };
    let (segments, body) = cmd.request();
    assert_eq!(segments, vec!["namespaces", "team", "content"]);
    assert_eq!(body.content_ids, vec!["c1"]);
}

#[test]
fn content_download_request_path() {
    let cmd = content::Download {
        api_server: client(),
        output: Format::Pretty,
        namespace: "team".to_string(),
        id: "c2".to_string(),
        file: None,
    };
    assert_eq!(
        cmd.request(),
        vec!["namespaces", "team", "content", "c2", "download"]
    );
}

#[test]
fn content_get_and_list_request_paths() {
    let get = content::Get {
        api_server: client(),
        output: Format::Pretty,
        namespace: "team".to_string(),
        id: "c3".to_string(),
    };
    assert_eq!(get.request(), vec!["namespaces", "team", "content", "c3"]);
    let list = content::List {
        api_server: client(),
        output: Format::Pretty,
        namespace: "team".to_string(),
    };
    assert_eq!(list.request(), vec!["namespaces", "team", "content"]);
}

#[test]
fn content_upload_request_carries_path_and_graphs() {
    let cmd = content::Upload {
        api_server: client(),
        output: Format::Pretty,
        namespace: "team".to_string(),
        path: "/tmp/report.pdf".to_string(),
        graph: vec!["g1".to_string()],
    };
    let (segments, upload) = cmd.request();
    assert_eq!(segments, vec!["namespaces", "team", "upload_file"]);
    assert_eq!(upload.path, "/tmp/report.pdf");
    assert_eq!(upload.graph_names, vec!["g1"]);
}

#[test]
fn extractor_list_is_global() {
    let cmd = extractor::List {
        api_server: client(),
        output: Format::Pretty,
        namespace: "team".to_string(),
    };
    assert_eq!(cmd.request(), vec!["extractors"]);
}

#[test]
fn index_list_sits_under_the_namespace() {
    let cmd = index::List {
        api_server: client(),
        output: Format::Pretty,
        namespace: "team".to_string(),
    };
    assert_eq!(cmd.request(), vec!["namespaces", "team", "indexes"]);
}

#[test]
fn graph_create_without_input_fails() {
    let cmd = graph::Create {
        api_server: client(),
        output: Format::Pretty,
        namespace: "team".to_string(),
        input: File::Empty,
    };
    assert_eq!(cmd.prepare(), Err(Error::NoInput));
}

#[test]
fn graph_create_fills_in_an_empty_namespace() {
    let cmd = graph::Create {
        api_server: client(),
        output: Format::Pretty,
        namespace: "team".to_string(),
        input: File::Loaded(sample_graph("g", "")),
    };
    let prepared = cmd.prepare().unwrap();
    assert_eq!(prepared.namespace, "team");
    assert_eq!(prepared.name, "g");
}

#[test]
fn graph_create_keeps_an_explicit_namespace() {
    let cmd = graph::Create {
        api_server: client(),
        output: Format::Pretty,
        namespace: "team".to_string(),
        input: File::Loaded(sample_graph("g", "other")),
    };
    assert_eq!(cmd.prepare().unwrap().namespace, "other");
}

#[test]
fn graph_create_request_path() {
    let cmd = graph::Create {
        api_server: client(),
        output: Format::Pretty,
        namespace: "team".to_string(),
        input: File::Empty,
    };
    assert_eq!(cmd.request(), vec!["namespaces", "team", "extraction_graphs"]);
}

#[test]
fn graph_get_picks_the_named_graph() {
    let cmd = graph::Get {
        api_server: client(),
        output: Format::Pretty,
        namespace: "team".to_string(),
        name: "g2".to_string(),
    };
    let namespaces = vec![
        DataNamespace { name: "other".to_string(), extraction_graphs: vec![] },
        DataNamespace {
            name: "team".to_string(),
            extraction_graphs: vec![sample_graph("g1", "team"), sample_graph("g2", "team")],
        },
    ];
    let picked = cmd.pick(&namespaces).unwrap();
    assert_eq!(picked.name, "g2");
}

#[test]
fn graph_get_reports_a_missing_namespace() {
    let cmd = graph::Get {
        api_server: client(),
        output: Format::Pretty,
        namespace: "absent".to_string(),
        name: "g".to_string(),
    };
    assert_eq!(
        cmd.pick(&vec![]),
        Err(Error::NamespaceNotFound { name: "absent".to_string() })
    );
}

#[test]
fn graph_get_reports_a_missing_graph() {
    let cmd = graph::Get {
        api_server: client(),
        output: Format::Pretty,
        namespace: "team".to_string(),
        name: "nope".to_string(),
    };
    let namespaces = vec![DataNamespace {
        name: "team".to_string(),
        extraction_graphs: vec![sample_graph("g1", "team")],
    }];
    assert_eq!(
        cmd.pick(&namespaces),
        Err(Error::GraphNotFound { name: "nope".to_string() })
    );
}

#[test]
fn graph_list_reports_the_namespace_graphs() {
    let cmd = graph::List {
        api_server: client(),
        output: Format::Pretty,
        namespace: "team".to_string(),
    };
    let namespaces = vec![DataNamespace {
        name: "team".to_string(),
        extraction_graphs: vec![sample_graph("g1", "team"), sample_graph("g2", "team")],
    }];
    let graphs = cmd.pick(&namespaces).unwrap();
    assert_eq!(graphs.len(), 2);
    assert_eq!(graphs[0].name, "g1");
    assert_eq!(graphs[1].name, "g2");
}

#[test]
fn namespace_create_from_name() {
    let cmd = namespace::Create {
        api_server: client(),
        output: Format::Pretty,
        name: Some("fresh".to_string()),
        file: None,
    };
    let payload = cmd.payload().unwrap();
    assert_eq!(payload.name, "fresh");
    assert!(payload.extraction_graphs.is_empty());
    assert!(payload.labels.is_empty());
}

#[test]
fn namespace_create_from_file() {
    let definition = CreateNamespace {
        name: "from-file".to_string(),
        extraction_graphs: vec![],
        labels: vec![("team".to_string(), "search".to_string())],
    };
    let cmd = namespace::Create {
        api_server: client(),
        output: Format::Pretty,
        name: None,
        file: Some(File::Loaded(definition)),
    };
    let payload = cmd.payload().unwrap();
    assert_eq!(payload.name, "from-file");
    assert_eq!(payload.labels, vec![("team".to_string(), "search".to_string())]);
}

#[test]
fn namespace_create_without_anything_fails() {
    let cmd = namespace::Create {
        api_server: client(),
        output: Format::Pretty,
        name: None,
        file: None,
    };
    assert_eq!(cmd.payload(), Err(Error::NoInput));
}

#[test]
fn namespace_get_and_list_request_paths() {
    let get = namespace::Get {
        api_server: client(),
        output: Format::Pretty,
        name: "team".to_string(),
    };
    assert_eq!(get.request(), vec!["namespaces", "team"]);
    let list = namespace::List { api_server: client(), output: Format::Pretty };
    assert_eq!(list.request(), vec!["namespaces"]);
}
