use indexify::api::ExtractionGraph;
use indexify::cli::content;
use indexify::cli::extractor;
use indexify::cli::graph;
use indexify::cli::index;
use indexify::cli::namespace;
use indexify::cli::root::Root;
use indexify::cli::root::RootCmd;
use indexify::client::Client;
use indexify::command::Command;
use indexify::command::Container;
use indexify::command::Env;
use indexify::command::Event;
use indexify::command::Fault;
use indexify::command::NodeKind;
use indexify::command::Phase;
use indexify::dispatch::execute;
use indexify::dispatch::Node;
use indexify::errors::Error;
use indexify::file::File;
use indexify::output::Format;

fn client() -> Client {
    Client::new("http://localhost:8900")
}

fn graph_list_root() -> Root {
    Root {
        cmd: RootCmd::Graph(graph::Graph {
            cmd: graph::GraphCmd::List(graph::List {
                api_server: client(),
                output: Format::Pretty,
                namespace: "default".to_string(),
            }),
        }),
        api_server: client(),
        output: Format::Pretty,
        verbosity: 0,
        namespace: "default".to_string(),
        telemetry: true,
    }
}

fn content_delete_root() -> Root {
    Root {
        cmd: RootCmd::Content(content::Content {
            cmd: content::ContentCmd::Delete(content::Delete {
                api_server: client(),
                output: Format::Pretty,
                namespace: "default".to_string(),
                id: "c1".to_string(),
            }),
        }),
        api_server: client(),
        output: Format::Pretty,
        verbosity: 0,
        namespace: "default".to_string(),
        telemetry: false,
    }
}

fn ev(kind: NodeKind, phase: Phase) -> Event {
    Event { kind, phase }
}

#[test]
fn composite_next_returns_subcommand_field() {
    let root = graph_list_root();
    match root.next() {
        Some(Node::RootCmd(_)) => {}
        _ => panic!("root must continue into its subcommand field"),
    }
    let area = graph::Graph {
        cmd: graph::GraphCmd::List(graph::List {
            api_server: client(),
            output: Format::Pretty,
            namespace: "n".to_string(),
        }),
    };
    match area.next() {
        Some(Node::GraphCmd(_)) => {}
        _ => panic!("a composite must continue into its subcommand field"),
    }
}

#[test]
fn leaf_next_returns_none() {
    let leaf = content::Delete {
        api_server: client(),
        output: Format::Pretty,
        namespace: "default".to_string(),
        id: "c1".to_string(),
    };
    assert!(leaf.next().is_none());
    let list = namespace::List { api_server: client(), output: Format::Pretty };
    assert!(list.next().is_none());
}

#[test]
fn selector_next_returns_each_alternative() {
    let cases: Vec<(RootCmd, NodeKind)> = vec![
        (
            RootCmd::Content(content::Content {
                cmd: content::ContentCmd::List(content::List {
                    api_server: client(),
                    output: Format::Pretty,
                    namespace: "n".to_string(),
                }),
            }),
            NodeKind::Content,
        ),
        (
            RootCmd::Extractor(extractor::Extractor {
                cmd: extractor::ExtractorCmd::List(extractor::List {
                    api_server: client(),
                    output: Format::Pretty,
                    namespace: "n".to_string(),
                }),
            }),
            NodeKind::Extractor,
        ),
        (
            RootCmd::Graph(graph::Graph {
                cmd: graph::GraphCmd::Create(graph::Create {
                    api_server: client(),
                    output: Format::Pretty,
                    namespace: "n".to_string(),
                    input: File::<ExtractionGraph>::Empty,
                }),
            }),
            NodeKind::Graph,
        ),
        (
            RootCmd::Index(index::Index {
                cmd: index::IndexCmd::List(index::List {
                    api_server: client(),
                    output: Format::Pretty,
                    namespace: "n".to_string(),
                }),
            }),
            NodeKind::Index,
        ),
        (
            RootCmd::Namespace(namespace::Namespace {
                cmd: namespace::NamespaceCmd::List(namespace::List {
                    api_server: client(),
                    output: Format::Pretty,
                }),
            }),
            NodeKind::Namespace,
        ),
    ];
    for (selector, expected) in cases {
        let next = selector.next().expect("a selector always has a successor");
        assert_eq!(next.kind(), expected);
    }
}

#[test]
fn full_walk_runs_every_phase_in_order() {
    let root = content_delete_root();
    let mut env = Env::new();
    let result = execute(&Node::Root(&root), &mut env);
    assert!(result.is_ok());
    let expected = vec![
        ev(NodeKind::Root, Phase::Pre),
        ev(NodeKind::Root, Phase::Run),
        ev(NodeKind::RootCmd, Phase::Pre),
        ev(NodeKind::RootCmd, Phase::Run),
        ev(NodeKind::Content, Phase::Pre),
        ev(NodeKind::Content, Phase::Run),
        ev(NodeKind::ContentCmd, Phase::Pre),
        ev(NodeKind::ContentCmd, Phase::Run),
        ev(NodeKind::ContentDelete, Phase::Pre),
        ev(NodeKind::ContentDelete, Phase::Run),
        ev(NodeKind::ContentDelete, Phase::Post),
        ev(NodeKind::ContentCmd, Phase::Post),
        ev(NodeKind::Content, Phase::Post),
        ev(NodeKind::RootCmd, Phase::Post),
        ev(NodeKind::Root, Phase::Post),
    ];
    assert_eq!(env.trace, expected);
    // one pre_run, run and post_run per node: five of each for a chain of
    // depth five
    assert_eq!(env.trace.iter().filter(|e| e.phase == Phase::Pre).count(), 5);
    assert_eq!(env.trace.iter().filter(|e| e.phase == Phase::Run).count(), 5);
    assert_eq!(env.trace.iter().filter(|e| e.phase == Phase::Post).count(), 5);
}

#[test]
fn graph_list_walk_order() {
    // the selected branch root -> graph -> list is walked with pre_run and
    // run top-down and post_run bottom-up
    let root = graph_list_root();
    let mut env = Env::new();
    let result = execute(&Node::Root(&root), &mut env);
    assert!(result.is_ok());
    let named: Vec<Event> = env
        .trace
        .iter()
        .copied()
        .filter(|e| {
            e.kind == NodeKind::Root || e.kind == NodeKind::Graph || e.kind == NodeKind::GraphList
        })
        .collect();
    let expected = vec![
        ev(NodeKind::Root, Phase::Pre),
        ev(NodeKind::Root, Phase::Run),
        ev(NodeKind::Graph, Phase::Pre),
        ev(NodeKind::Graph, Phase::Run),
        ev(NodeKind::GraphList, Phase::Pre),
        ev(NodeKind::GraphList, Phase::Run),
        ev(NodeKind::GraphList, Phase::Post),
        ev(NodeKind::Graph, Phase::Post),
        ev(NodeKind::Root, Phase::Post),
    ];
    assert_eq!(named, expected);
}

#[test]
fn run_failure_stops_walk_without_any_post_run() {
    // the list command's run step fails with a transport error: everything
    // after it is skipped and no post_run at all is invoked
    let root = graph_list_root();
    let transport = Error::Transport {
        status: 502,
        url: "http://localhost:8900/namespaces".to_string(),
        body: "bad gateway".to_string(),
    };
    let mut env = Env::with_faults(vec![Fault {
        kind: NodeKind::GraphList,
        phase: Phase::Run,
        error: transport.clone(),
    }]);
    let result = execute(&Node::Root(&root), &mut env);
    assert_eq!(result, Err(transport));
    let expected = vec![
        ev(NodeKind::Root, Phase::Pre),
        ev(NodeKind::Root, Phase::Run),
        ev(NodeKind::RootCmd, Phase::Pre),
        ev(NodeKind::RootCmd, Phase::Run),
        ev(NodeKind::Graph, Phase::Pre),
        ev(NodeKind::Graph, Phase::Run),
        ev(NodeKind::GraphCmd, Phase::Pre),
        ev(NodeKind::GraphCmd, Phase::Run),
        ev(NodeKind::GraphList, Phase::Pre),
        ev(NodeKind::GraphList, Phase::Run),
    ];
    assert_eq!(env.trace, expected);
    assert_eq!(env.trace.iter().filter(|e| e.phase == Phase::Post).count(), 0);
}

#[test]
fn pre_run_failure_aborts_before_run() {
    let root = content_delete_root();
    let boom = Error::Validation { message: "broken setup".to_string() };
    let mut env = Env::with_faults(vec![Fault {
        kind: NodeKind::Root,
        phase: Phase::Pre,
        error: boom.clone(),
    }]);
    let result = execute(&Node::Root(&root), &mut env);
    assert_eq!(result, Err(boom));
    assert_eq!(env.trace, vec![ev(NodeKind::Root, Phase::Pre)]);
}

#[test]
fn post_run_failure_is_the_final_outcome() {
    let root = content_delete_root();
    let boom = Error::Validation { message: "teardown failed".to_string() };
    let mut env = Env::with_faults(vec![Fault {
        kind: NodeKind::Root,
        phase: Phase::Post,
        error: boom.clone(),
    }]);
    let result = execute(&Node::Root(&root), &mut env);
    assert_eq!(result, Err(boom));
    // the whole chain below completed: every other phase ran
    assert_eq!(env.trace.len(), 15);
}

#[test]
fn first_registered_fault_wins() {
    let root = content_delete_root();
    let first = Error::Validation { message: "first".to_string() };
    let second = Error::Validation { message: "second".to_string() };
    let mut env = Env::with_faults(vec![
        Fault { kind: NodeKind::Root, phase: Phase::Run, error: first.clone() },
        Fault { kind: NodeKind::Root, phase: Phase::Run, error: second },
    ]);
    let result = execute(&Node::Root(&root), &mut env);
    assert_eq!(result, Err(first));
}

#[test]
fn a_walk_can_start_at_any_node() {
    let root = graph_list_root();
    let area = match &root.cmd {
        RootCmd::Graph(area) => area,
        _ => unreachable!(),
    };
    let mut env = Env::new();
    let result = execute(&Node::Graph(area), &mut env);
    assert!(result.is_ok());
    let expected = vec![
        ev(NodeKind::Graph, Phase::Pre),
        ev(NodeKind::Graph, Phase::Run),
        ev(NodeKind::GraphCmd, Phase::Pre),
        ev(NodeKind::GraphCmd, Phase::Run),
        ev(NodeKind::GraphList, Phase::Pre),
        ev(NodeKind::GraphList, Phase::Run),
        ev(NodeKind::GraphList, Phase::Post),
        ev(NodeKind::GraphCmd, Phase::Post),
        ev(NodeKind::Graph, Phase::Post),
    ];
    assert_eq!(env.trace, expected);
}

#[test]
fn content_selector_covers_every_alternative() {
    let base = || client();
    let leaves: Vec<(content::ContentCmd, NodeKind)> = vec![
        (
            content::ContentCmd::Delete(content::Delete {
                api_server: base(),
                output: Format::Pretty,
                namespace: "n".to_string(),
                id: "c".to_string(),
            }),
            NodeKind::ContentDelete,
        ),
        (
            content::ContentCmd::Download(content::Download {
                api_server: base(),
                output: Format::Pretty,
                namespace: "n".to_string(),
                id: "c".to_string(),
                file: None,
            }),
            NodeKind::ContentDownload,
        ),
        (
            content::ContentCmd::Get(content::Get {
                api_server: base(),
                output: Format::Pretty,
                namespace: "n".to_string(),
                id: "c".to_string(),
            }),
            NodeKind::ContentGet,
        ),
        (
            content::ContentCmd::List(content::List {
                api_server: base(),
                output: Format::Pretty,
                namespace: "n".to_string(),
            }),
            NodeKind::ContentList,
        ),
        (
            content::ContentCmd::Upload(content::Upload {
                api_server: base(),
                output: Format::Pretty,
                namespace: "n".to_string(),
                path: "p".to_string(),
                graph: vec![],
            }),
            NodeKind::ContentUpload,
        ),
    ];
    for (selector, expected) in leaves {
        assert_eq!(selector.next().unwrap().kind(), expected);
    }
}

#[test]
fn graph_and_namespace_selectors_cover_every_alternative() {
    let graph_cases: Vec<(graph::GraphCmd, NodeKind)> = vec![
        (
            graph::GraphCmd::Create(graph::Create {
                api_server: client(),
                output: Format::Pretty,
                namespace: "n".to_string(),
                input: File::<ExtractionGraph>::Empty,
            }),
            NodeKind::GraphCreate,
        ),
        (
            graph::GraphCmd::Get(graph::Get {
                api_server: client(),
                output: Format::Pretty,
                namespace: "n".to_string(),
                name: "g".to_string(),
            }),
            NodeKind::GraphGet,
        ),
        (
            graph::GraphCmd::List(graph::List {
                api_server: client(),
                output: Format::Pretty,
                namespace: "n".to_string(),
            }),
            NodeKind::GraphList,
        ),
    ];
    for (selector, expected) in graph_cases {
        assert_eq!(selector.next().unwrap().kind(), expected);
    }
    let ns_cases: Vec<(namespace::NamespaceCmd, NodeKind)> = vec![
        (
            namespace::NamespaceCmd::Create(namespace::Create {
                api_server: client(),
                output: Format::Pretty,
                name: None,
                file: None,
            }),
            NodeKind::NamespaceCreate,
        ),
        (
            namespace::NamespaceCmd::Get(namespace::Get {
                api_server: client(),
                output: Format::Pretty,
                name: "n".to_string(),
            }),
            NodeKind::NamespaceGet,
        ),
        (
            namespace::NamespaceCmd::List(namespace::List {
                api_server: client(),
                output: Format::Pretty,
            }),
            NodeKind::NamespaceList,
        ),
    ];
    for (selector, expected) in ns_cases {
        assert_eq!(selector.next().unwrap().kind(), expected);
    }
    let e = extractor::ExtractorCmd::List(extractor::List {
        api_server: client(),
        output: Format::Pretty,
        namespace: "n".to_string(),
    });
    assert_eq!(e.next().unwrap().kind(), NodeKind::ExtractorList);
    let i = index::IndexCmd::List(index::List {
        api_server: client(),
        output: Format::Pretty,
        namespace: "n".to_string(),
    });
    assert_eq!(i.next().unwrap().kind(), NodeKind::IndexList);
}
