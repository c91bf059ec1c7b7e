//! The dispatch loop: one linear recursive walk over a chain of nodes.
//!
//! A walk applies the three-phase lifecycle to a node, descends into the
//! node reported by `next`, and unwinds: `pre_run` and `run` happen
//! top-down in chain order, `post_run` happens bottom-up, and the first
//! failure at any step aborts the whole walk — nothing below is entered and
//! no `post_run` of any node already entered is invoked.  The walk's exact
//! trace and result are stated by [`walk_trace`] and [`walk_result`] over
//! the chain of node labels, and the ordering laws are proved of those
//! shapes below.

use vstd::prelude::*;

use crate::cli::content;
use crate::cli::extractor;
use crate::cli::graph;
use crate::cli::index;
use crate::cli::namespace;
use crate::cli::root;
use crate::command::step_outcome;
use crate::command::Command;
use crate::command::Container;
use crate::command::Env;
use crate::command::Event;
use crate::command::Fault;
use crate::command::NodeKind;
use crate::command::Phase;
use crate::errors::Error;

verus! {

/// One node of the command tree, by reference: the tagged union the walk
/// recurses over, since a chain mixes unrelated concrete types at each
/// depth.
#[derive(Debug, Clone, Copy)]
pub enum Node<'a> {
    Root(&'a root::Root),
    RootCmd(&'a root::RootCmd),
    Content(&'a content::Content),
    ContentCmd(&'a content::ContentCmd),
    ContentDelete(&'a content::Delete),
    ContentDownload(&'a content::Download),
    ContentGet(&'a content::Get),
    ContentList(&'a content::List),
    ContentUpload(&'a content::Upload),
    Extractor(&'a extractor::Extractor),
    ExtractorCmd(&'a extractor::ExtractorCmd),
    ExtractorList(&'a extractor::List),
    Graph(&'a graph::Graph),
    GraphCmd(&'a graph::GraphCmd),
    GraphCreate(&'a graph::Create),
    GraphGet(&'a graph::Get),
    GraphList(&'a graph::List),
    Index(&'a index::Index),
    IndexCmd(&'a index::IndexCmd),
    IndexList(&'a index::List),
    Namespace(&'a namespace::Namespace),
    NamespaceCmd(&'a namespace::NamespaceCmd),
    NamespaceCreate(&'a namespace::Create),
    NamespaceGet(&'a namespace::Get),
    NamespaceList(&'a namespace::List),
}

impl<'a> Container for Node<'a> {
    open spec fn spec_next(&self) -> Option<Node<'_>> {
        match *self {
            Node::Root(c) => c.spec_next(),
            Node::RootCmd(c) => c.spec_next(),
            Node::Content(c) => c.spec_next(),
            Node::ContentCmd(c) => c.spec_next(),
            Node::ContentDelete(c) => c.spec_next(),
            Node::ContentDownload(c) => c.spec_next(),
            Node::ContentGet(c) => c.spec_next(),
            Node::ContentList(c) => c.spec_next(),
            Node::ContentUpload(c) => c.spec_next(),
            Node::Extractor(c) => c.spec_next(),
            Node::ExtractorCmd(c) => c.spec_next(),
            Node::ExtractorList(c) => c.spec_next(),
            Node::Graph(c) => c.spec_next(),
            Node::GraphCmd(c) => c.spec_next(),
            Node::GraphCreate(c) => c.spec_next(),
            Node::GraphGet(c) => c.spec_next(),
            Node::GraphList(c) => c.spec_next(),
            Node::Index(c) => c.spec_next(),
            Node::IndexCmd(c) => c.spec_next(),
            Node::IndexList(c) => c.spec_next(),
            Node::Namespace(c) => c.spec_next(),
            Node::NamespaceCmd(c) => c.spec_next(),
            Node::NamespaceCreate(c) => c.spec_next(),
            Node::NamespaceGet(c) => c.spec_next(),
            Node::NamespaceList(c) => c.spec_next(),
        }
    }

    fn next(&self) -> (r: Option<Node<'_>>) {
        match *self {
            Node::Root(c) => c.next(),
            Node::RootCmd(c) => c.next(),
            Node::Content(c) => c.next(),
            Node::ContentCmd(c) => c.next(),
            Node::ContentDelete(c) => c.next(),
            Node::ContentDownload(c) => c.next(),
            Node::ContentGet(c) => c.next(),
            Node::ContentList(c) => c.next(),
            Node::ContentUpload(c) => c.next(),
            Node::Extractor(c) => c.next(),
            Node::ExtractorCmd(c) => c.next(),
            Node::ExtractorList(c) => c.next(),
            Node::Graph(c) => c.next(),
            Node::GraphCmd(c) => c.next(),
            Node::GraphCreate(c) => c.next(),
            Node::GraphGet(c) => c.next(),
            Node::GraphList(c) => c.next(),
            Node::Index(c) => c.next(),
            Node::IndexCmd(c) => c.next(),
            Node::IndexList(c) => c.next(),
            Node::Namespace(c) => c.next(),
            Node::NamespaceCmd(c) => c.next(),
            Node::NamespaceCreate(c) => c.next(),
            Node::NamespaceGet(c) => c.next(),
            Node::NamespaceList(c) => c.next(),
        }
    }
}

impl<'a> Command for Node<'a> {
    open spec fn spec_kind(&self) -> NodeKind {
        match *self {
            Node::Root(_) => NodeKind::Root,
            Node::RootCmd(_) => NodeKind::RootCmd,
            Node::Content(_) => NodeKind::Content,
            Node::ContentCmd(_) => NodeKind::ContentCmd,
            Node::ContentDelete(_) => NodeKind::ContentDelete,
            Node::ContentDownload(_) => NodeKind::ContentDownload,
            Node::ContentGet(_) => NodeKind::ContentGet,
            Node::ContentList(_) => NodeKind::ContentList,
            Node::ContentUpload(_) => NodeKind::ContentUpload,
            Node::Extractor(_) => NodeKind::Extractor,
            Node::ExtractorCmd(_) => NodeKind::ExtractorCmd,
            Node::ExtractorList(_) => NodeKind::ExtractorList,
            Node::Graph(_) => NodeKind::Graph,
            Node::GraphCmd(_) => NodeKind::GraphCmd,
            Node::GraphCreate(_) => NodeKind::GraphCreate,
            Node::GraphGet(_) => NodeKind::GraphGet,
            Node::GraphList(_) => NodeKind::GraphList,
            Node::Index(_) => NodeKind::Index,
            Node::IndexCmd(_) => NodeKind::IndexCmd,
            Node::IndexList(_) => NodeKind::IndexList,
            Node::Namespace(_) => NodeKind::Namespace,
            Node::NamespaceCmd(_) => NodeKind::NamespaceCmd,
            Node::NamespaceCreate(_) => NodeKind::NamespaceCreate,
            Node::NamespaceGet(_) => NodeKind::NamespaceGet,
            Node::NamespaceList(_) => NodeKind::NamespaceList,
        }
    }

    fn kind(&self) -> (k: NodeKind) {
        match *self {
            Node::Root(_) => NodeKind::Root,
            Node::RootCmd(_) => NodeKind::RootCmd,
            Node::Content(_) => NodeKind::Content,
            Node::ContentCmd(_) => NodeKind::ContentCmd,
            Node::ContentDelete(_) => NodeKind::ContentDelete,
            Node::ContentDownload(_) => NodeKind::ContentDownload,
            Node::ContentGet(_) => NodeKind::ContentGet,
            Node::ContentList(_) => NodeKind::ContentList,
            Node::ContentUpload(_) => NodeKind::ContentUpload,
            Node::Extractor(_) => NodeKind::Extractor,
            Node::ExtractorCmd(_) => NodeKind::ExtractorCmd,
            Node::ExtractorList(_) => NodeKind::ExtractorList,
            Node::Graph(_) => NodeKind::Graph,
            Node::GraphCmd(_) => NodeKind::GraphCmd,
            Node::GraphCreate(_) => NodeKind::GraphCreate,
            Node::GraphGet(_) => NodeKind::GraphGet,
            Node::GraphList(_) => NodeKind::GraphList,
            Node::Index(_) => NodeKind::Index,
            Node::IndexCmd(_) => NodeKind::IndexCmd,
            Node::IndexList(_) => NodeKind::IndexList,
            Node::Namespace(_) => NodeKind::Namespace,
            Node::NamespaceCmd(_) => NodeKind::NamespaceCmd,
            Node::NamespaceCreate(_) => NodeKind::NamespaceCreate,
            Node::NamespaceGet(_) => NodeKind::NamespaceGet,
            Node::NamespaceList(_) => NodeKind::NamespaceList,
        }
    }
}

/// How far a node stands above the leaves: composites sit over selectors,
/// selectors over their payloads.  Every successor is lower, which bounds
/// the walk.
pub open spec fn node_height(n: Node) -> nat {
    match n {
        Node::Root(_) => 4,
        Node::RootCmd(_) => 3,
        Node::Content(_) => 2,
        Node::ContentCmd(_) => 1,
        Node::ContentDelete(_) => 0,
        Node::ContentDownload(_) => 0,
        Node::ContentGet(_) => 0,
        Node::ContentList(_) => 0,
        Node::ContentUpload(_) => 0,
        Node::Extractor(_) => 2,
        Node::ExtractorCmd(_) => 1,
        Node::ExtractorList(_) => 0,
        Node::Graph(_) => 2,
        Node::GraphCmd(_) => 1,
        Node::GraphCreate(_) => 0,
        Node::GraphGet(_) => 0,
        Node::GraphList(_) => 0,
        Node::Index(_) => 2,
        Node::IndexCmd(_) => 1,
        Node::IndexList(_) => 0,
        Node::Namespace(_) => 2,
        Node::NamespaceCmd(_) => 1,
        Node::NamespaceCreate(_) => 0,
        Node::NamespaceGet(_) => 0,
        Node::NamespaceList(_) => 0,
    }
}

/// Every successor stands strictly lower than its parent.
pub proof fn lemma_next_height(n: Node)
    ensures
        n.spec_next() matches Some(m) ==> node_height(m) < node_height(n),
{
}

/// The labels of the chain a walk from this node visits, root first.
pub open spec fn chain_of(n: Node) -> Seq<NodeKind>
    decreases node_height(n),
    via chain_of_decreases
{
    match n.spec_next() {
        Some(m) => seq![n.spec_kind()] + chain_of(m),
        None => seq![n.spec_kind()],
    }
}

#[via_fn]
proof fn chain_of_decreases(n: Node) {
    lemma_next_height(n);
}

/// The trace of lifecycle steps a walk over this chain invokes, given the
/// injected faults: down the chain a `pre_run` and a `run` per node until
/// the first failure, then — only when everything below succeeded — one
/// `post_run` per node, bottom-up.
pub open spec fn walk_trace(chain: Seq<NodeKind>, faults: Seq<Fault>) -> Seq<Event>
    decreases chain.len(),
{
    if chain.len() == 0 {
        Seq::empty()
    } else {
        let k = chain[0];
        let pre = seq![Event { kind: k, phase: Phase::Pre }];
        if step_outcome(faults, k, Phase::Pre) is Some {
            pre
        } else {
            let run = pre.push(Event { kind: k, phase: Phase::Run });
            if step_outcome(faults, k, Phase::Run) is Some {
                run
            } else {
                let sub = walk_trace(chain.drop_first(), faults);
                if walk_result(chain.drop_first(), faults) is Ok {
                    run + sub + seq![Event { kind: k, phase: Phase::Post }]
                } else {
                    run + sub
                }
            }
        }
    }
}

/// The outcome of a walk over this chain, given the injected faults: the
/// first error in walk order, or success.
pub open spec fn walk_result(chain: Seq<NodeKind>, faults: Seq<Fault>) -> Result<(), Error>
    decreases chain.len(),
{
    if chain.len() == 0 {
        Ok(())
    } else {
        let k = chain[0];
        match step_outcome(faults, k, Phase::Pre) {
            Some(e) => Err(e),
            None => match step_outcome(faults, k, Phase::Run) {
                Some(e) => Err(e),
                None => match walk_result(chain.drop_first(), faults) {
                    Err(e) => Err(e),
                    Ok(u) => match step_outcome(faults, k, Phase::Post) {
                        Some(e) => Err(e),
                        None => Ok(()),
                    },
                },
            },
        }
    }
}

/// Walk the chain from this node: `pre_run`, `run`, descend into `next`,
/// then `post_run`, aborting the whole walk on the first failure.  The
/// trace appended to the environment and the result are exactly what
/// [`walk_trace`] and [`walk_result`] state for this node's chain.
pub fn execute(cmd: &Node, env: &mut Env) -> (r: Result<(), Error>)
    ensures
        final(env).faults@ == old(env).faults@,
        final(env).trace@ == old(env).trace@ + walk_trace(chain_of(*cmd), old(env).faults@),
        r == walk_result(chain_of(*cmd), old(env).faults@),
    decreases node_height(*cmd),
{
    let ghost chain = chain_of(*cmd);
    let ghost faults = env.faults@;
    let ghost trace0 = env.trace@;
    let ghost pre_ev = Event { kind: cmd.spec_kind(), phase: Phase::Pre };
    let ghost run_ev = Event { kind: cmd.spec_kind(), phase: Phase::Run };
    let ghost post_ev = Event { kind: cmd.spec_kind(), phase: Phase::Post };
    proof {
        assert(chain[0] == cmd.spec_kind());
        assert(chain.len() >= 1);
        assert(seq![pre_ev].push(run_ev) =~= seq![pre_ev, run_ev]);
    }
    let pre = cmd.pre_run(env);
    proof {
        assert(env.trace@ =~= trace0 + seq![
            Event { kind: cmd.spec_kind(), phase: Phase::Pre },
        ]);
    }
    match pre {
        Err(e) => {
            return Err(e);
        },
        Ok(_) => {},
    }
    let run = cmd.run(env);
    proof {
        assert(env.trace@ =~= trace0 + seq![
            Event { kind: cmd.spec_kind(), phase: Phase::Pre },
            Event { kind: cmd.spec_kind(), phase: Phase::Run },
        ]);
    }
    match run {
        Err(e) => {
            return Err(e);
        },
        Ok(_) => {},
    }
    let ghost trace_run = env.trace@;
    match cmd.next() {
        Some(next) => {
            proof {
                lemma_next_height(*cmd);
                assert(chain.drop_first() =~= chain_of(next));
            }
            let sub = execute(&next, env);
            proof {
                assert(env.trace@ =~= trace_run + walk_trace(chain.drop_first(), faults));
            }
            match sub {
                Err(e) => {
                    proof {
                        assert(walk_trace(chain, faults) == seq![pre_ev, run_ev] + walk_trace(
                            chain.drop_first(),
                            faults,
                        ));
                        assert(env.trace@ =~= trace0 + walk_trace(chain, faults));
                    }
                    return Err(e);
                },
                Ok(_) => {},
            }
        },
        None => {
            proof {
                assert(chain.drop_first() =~= Seq::<NodeKind>::empty());
            }
        },
    }
    let ghost trace_sub = env.trace@;
    let post = cmd.post_run(env);
    proof {
        assert(env.trace@ =~= trace_sub + seq![post_ev]);
        assert(walk_trace(chain, faults) == seq![pre_ev, run_ev] + walk_trace(
            chain.drop_first(),
            faults,
        ) + seq![post_ev]);
        assert(env.trace@ =~= trace0 + walk_trace(chain, faults));
    }
    post
}

/// The trace of a walk in which every step succeeds: `pre_run` and `run`
/// down the chain, then `post_run` back up.
pub open spec fn success_trace(chain: Seq<NodeKind>) -> Seq<Event>
    decreases chain.len(),
{
    if chain.len() == 0 {
        Seq::empty()
    } else {
        let k = chain[0];
        seq![
            Event { kind: k, phase: Phase::Pre },
            Event { kind: k, phase: Phase::Run },
        ] + success_trace(chain.drop_first()) + seq![Event { kind: k, phase: Phase::Post }]
    }
}

/// The trace of a walk that descends to the end of the chain and stops:
/// `pre_run` and `run` per node, no `post_run` at all.
pub open spec fn down_trace(chain: Seq<NodeKind>) -> Seq<Event>
    decreases chain.len(),
{
    if chain.len() == 0 {
        Seq::empty()
    } else {
        let k = chain[0];
        seq![
            Event { kind: k, phase: Phase::Pre },
            Event { kind: k, phase: Phase::Run },
        ] + down_trace(chain.drop_first())
    }
}

/// No step of any node in the chain has an injected fault.
pub open spec fn fault_free(chain: Seq<NodeKind>, faults: Seq<Fault>) -> bool {
    forall|i: int, p: Phase|
        0 <= i < chain.len() ==> #[trigger] step_outcome(faults, chain[i], p) is None
}

/// A walk whose steps all succeed succeeds, and invokes exactly the
/// success trace: one `pre_run` and one `run` per node top-down, one
/// `post_run` per node bottom-up.
pub proof fn lemma_walk_all_success(chain: Seq<NodeKind>, faults: Seq<Fault>)
    requires
        fault_free(chain, faults),
    ensures
        walk_result(chain, faults) == Result::<(), Error>::Ok(()),
        walk_trace(chain, faults) == success_trace(chain),
    decreases chain.len(),
{
    if chain.len() > 0 {
        assert(fault_free(chain.drop_first(), faults)) by {
            assert forall|i: int, p: Phase| 0 <= i < chain.drop_first().len() implies #[trigger]
            step_outcome(faults, chain.drop_first()[i], p) is None by {
                assert(chain.drop_first()[i] == chain[i + 1]);
            }
        }
        lemma_walk_all_success(chain.drop_first(), faults);
        let k = chain[0];
        assert(step_outcome(faults, k, Phase::Pre) is None);
        assert(step_outcome(faults, k, Phase::Run) is None);
        assert(step_outcome(faults, k, Phase::Post) is None);
        assert(walk_trace(chain, faults) =~= success_trace(chain));
    }
}

/// If every `pre_run` down to depth `k` succeeds, every `run` above `k`
/// succeeds, and the `run` at depth `k` fails with `e`, the walk surfaces
/// exactly `e`, and its trace is the descent trace cut at `k`: deeper
/// nodes are never reached and not one `post_run` is invoked.
pub proof fn lemma_walk_run_failure(chain: Seq<NodeKind>, faults: Seq<Fault>, k: int, e: Error)
    requires
        0 <= k < chain.len(),
        forall|i: int| 0 <= i <= k ==> #[trigger] step_outcome(faults, chain[i], Phase::Pre)
            is None,
        forall|i: int| 0 <= i < k ==> #[trigger] step_outcome(faults, chain[i], Phase::Run)
            is None,
        step_outcome(faults, chain[k], Phase::Run) == Some(e),
    ensures
        walk_result(chain, faults) == Result::<(), Error>::Err(e),
        walk_trace(chain, faults) == down_trace(chain.take(k + 1)),
    decreases k,
{
    let rest = chain.drop_first();
    let k0 = chain[0];
    let pre_ev = Event { kind: k0, phase: Phase::Pre };
    let run_ev = Event { kind: k0, phase: Phase::Run };
    if k == 0 {
        assert(walk_trace(chain, faults) == seq![pre_ev].push(run_ev));
        assert(chain.take(1).drop_first() =~= Seq::<NodeKind>::empty());
        assert(chain.take(1)[0] == k0);
        assert(down_trace(Seq::<NodeKind>::empty()) == Seq::<Event>::empty());
        assert(down_trace(chain.take(1)) == seq![pre_ev, run_ev] + Seq::<Event>::empty());
        assert(walk_trace(chain, faults) =~= down_trace(chain.take(1)));
    } else {
        assert forall|i: int| 0 <= i <= k - 1 implies #[trigger] step_outcome(
            faults,
            rest[i],
            Phase::Pre,
        ) is None by {
            assert(rest[i] == chain[i + 1]);
        }
        assert forall|i: int| 0 <= i < k - 1 implies #[trigger] step_outcome(
            faults,
            rest[i],
            Phase::Run,
        ) is None by {
            assert(rest[i] == chain[i + 1]);
        }
        assert(rest[k - 1] == chain[k]);
        lemma_walk_run_failure(rest, faults, k - 1, e);
        assert(chain.take(k + 1).drop_first() =~= rest.take(k));
        assert(walk_trace(chain, faults) =~= down_trace(chain.take(k + 1)));
    }
}

/// A descent trace contains no `post_run` at all.
pub proof fn lemma_down_trace_no_post(chain: Seq<NodeKind>)
    ensures
        forall|j: int|
            0 <= j < down_trace(chain).len() ==> #[trigger] down_trace(chain)[j].phase
                != Phase::Post,
    decreases chain.len(),
{
    if chain.len() > 0 {
        lemma_down_trace_no_post(chain.drop_first());
    }
}

/// The events of one phase, one per chain node, in chain order.
pub open spec fn phase_events(chain: Seq<NodeKind>, p: Phase) -> Seq<Event> {
    chain.map_values(|k: NodeKind| Event { kind: k, phase: p })
}

/// The shape of a fully successful walk: its `pre_run` events are exactly
/// the chain top-down, its `run` events likewise, its `post_run` events are
/// exactly the chain bottom-up, and nothing else is in the trace.
pub proof fn lemma_success_trace_shape(chain: Seq<NodeKind>)
    ensures
        success_trace(chain).filter(|e: Event| e.phase is Pre) == phase_events(chain, Phase::Pre),
        success_trace(chain).filter(|e: Event| e.phase is Run) == phase_events(chain, Phase::Run),
        success_trace(chain).filter(|e: Event| e.phase is Post) == phase_events(
            chain,
            Phase::Post,
        ).reverse(),
        success_trace(chain).len() == 3 * chain.len(),
    decreases chain.len(),
{
    broadcast use vstd::prelude::Seq::filter_distributes_over_add;

    reveal_with_fuel(Seq::filter, 4);
    if chain.len() == 0 {
        assert(success_trace(chain).filter(|e: Event| e.phase is Pre) =~= phase_events(
            chain,
            Phase::Pre,
        ));
        assert(success_trace(chain).filter(|e: Event| e.phase is Run) =~= phase_events(
            chain,
            Phase::Run,
        ));
        assert(success_trace(chain).filter(|e: Event| e.phase is Post) =~= phase_events(
            chain,
            Phase::Post,
        ).reverse());
    } else {
        let k = chain[0];
        let rest = chain.drop_first();
        lemma_success_trace_shape(rest);
        let head = seq![
            Event { kind: k, phase: Phase::Pre },
            Event { kind: k, phase: Phase::Run },
        ];
        let tail = seq![Event { kind: k, phase: Phase::Post }];
        assert(head.filter(|e: Event| e.phase is Pre) =~= seq![
            Event { kind: k, phase: Phase::Pre },
        ]);
        assert(head.filter(|e: Event| e.phase is Run) =~= seq![
            Event { kind: k, phase: Phase::Run },
        ]);
        assert(head.filter(|e: Event| e.phase is Post) =~= Seq::<Event>::empty());
        assert(tail.filter(|e: Event| e.phase is Pre) =~= Seq::<Event>::empty());
        assert(tail.filter(|e: Event| e.phase is Run) =~= Seq::<Event>::empty());
        assert(tail.filter(|e: Event| e.phase is Post) =~= seq![
            Event { kind: k, phase: Phase::Post },
        ]);
        assert(success_trace(chain).filter(|e: Event| e.phase is Pre) =~= phase_events(
            chain,
            Phase::Pre,
        ));
        assert(success_trace(chain).filter(|e: Event| e.phase is Run) =~= phase_events(
            chain,
            Phase::Run,
        ));
        assert(phase_events(chain, Phase::Post).reverse() =~= phase_events(
            rest,
            Phase::Post,
        ).reverse() + seq![Event { kind: k, phase: Phase::Post }]);
        assert(success_trace(chain).filter(|e: Event| e.phase is Post) =~= phase_events(
            chain,
            Phase::Post,
        ).reverse());
    }
}

} // verus!
