//! The executable-unit capability set and the lifecycle environment.
//!
//! Every node of the command tree can run a three-phase lifecycle —
//! `pre_run`, `run`, `post_run` — and report, through `next`, the one node
//! to continue into.  The lifecycle steps of the real commands act on the
//! outside world (network, terminal, process-wide logging), so inside this
//! crate their effect is modelled by an [`Env`]: invoking a step appends an
//! [`Event`] to the environment's trace, and the step's outcome is looked up
//! in a table of injected [`Fault`]s — an empty table makes every step
//! succeed, which is the default behaviour of every hook.

use vstd::prelude::*;

use crate::dispatch::Node;
use crate::errors::Error;

verus! {

/// One lifecycle phase of an executable unit.
#[derive(Debug, Clone, Copy, PartialEq, Eq, Structural)]
pub enum Phase {
    Pre,
    Run,
    Post,
}

/// Identifies a node of the command tree in a lifecycle trace.
#[derive(Debug, Clone, Copy, PartialEq, Eq, Structural)]
pub enum NodeKind {
    Root,
    RootCmd,
    Content,
    ContentCmd,
    ContentDelete,
    ContentDownload,
    ContentGet,
    ContentList,
    ContentUpload,
    Extractor,
    ExtractorCmd,
    ExtractorList,
    Graph,
    GraphCmd,
    GraphCreate,
    GraphGet,
    GraphList,
    Index,
    IndexCmd,
    IndexList,
    Namespace,
    NamespaceCmd,
    NamespaceCreate,
    NamespaceGet,
    NamespaceList,
}

/// One lifecycle step that was invoked on a node.
#[derive(Debug, Clone, Copy, PartialEq, Eq, Structural)]
pub struct Event {
    pub kind: NodeKind,
    pub phase: Phase,
}

/// An injected outcome: the named lifecycle step of the named node fails
/// with the given error.  Steps with no matching fault succeed.
#[derive(Debug, Clone)]
pub struct Fault {
    pub kind: NodeKind,
    pub phase: Phase,
    pub error: Error,
}

/// The outcome of a lifecycle step: the error of the first fault registered
/// for it, or success when none is.
pub open spec fn step_outcome(faults: Seq<Fault>, kind: NodeKind, phase: Phase) -> Option<Error>
    decreases faults.len(),
{
    if faults.len() == 0 {
        None
    } else if faults[0].kind == kind && faults[0].phase == phase {
        Some(faults[0].error)
    } else {
        step_outcome(faults.drop_first(), kind, phase)
    }
}

/// The world a walk runs against: a table of injected faults and the trace
/// of every lifecycle step invoked so far, in order.
pub struct Env {
    pub faults: Vec<Fault>,
    pub trace: Vec<Event>,
}

impl Env {
    /// An environment in which every lifecycle step succeeds.
    pub fn new() -> (r: Env)
        ensures
            r.faults@ == Seq::<Fault>::empty(),
            r.trace@ == Seq::<Event>::empty(),
    {
        Env { faults: Vec::new(), trace: Vec::new() }
    }

    /// An environment with the given injected faults and an empty trace.
    pub fn with_faults(faults: Vec<Fault>) -> (r: Env)
        ensures
            r.faults@ == faults@,
            r.trace@ == Seq::<Event>::empty(),
    {
        Env { faults, trace: Vec::new() }
    }

    /// Record that the given lifecycle step of the given node was invoked,
    /// and report its outcome.
    pub fn invoke(&mut self, kind: NodeKind, phase: Phase) -> (r: Result<(), Error>)
        ensures
            final(self).faults@ == old(self).faults@,
            final(self).trace@ == old(self).trace@.push(Event { kind, phase }),
            (match step_outcome(old(self).faults@, kind, phase) {
                Some(e) => r == Result::<(), Error>::Err(e),
                None => r == Result::<(), Error>::Ok(()),
            }),
    {
        self.trace.push(Event { kind, phase });
        let n = self.faults.len();
        proof {
            assert(self.faults@.skip(0) =~= self.faults@);
        }
        for i in 0..n
            invariant
                n == self.faults.len(),
                self.faults@ == old(self).faults@,
                self.trace@ == old(self).trace@.push(Event { kind, phase }),
                step_outcome(self.faults@, kind, phase) == step_outcome(
                    self.faults@.skip(i as int),
                    kind,
                    phase,
                ),
        {
            proof {
                assert(self.faults@.skip(i as int).drop_first() =~= self.faults@.skip(
                    i as int + 1,
                ));
            }
            if self.faults[i].kind == kind && self.faults[i].phase == phase {
                return Err(self.faults[i].error.clone());
            }
        }
        Ok(())
    }
}

/// The polymorphic link of an executable unit: the one node to continue
/// into, or none for a leaf.  A composite's successor is the value of its
/// designated subcommand field; a selector's successor is the payload of
/// whichever alternative is populated; a leaf has none.
pub trait Container {
    /// What `next` returns, stated once per node shape.
    spec fn spec_next(&self) -> Option<Node<'_>>;

    /// The one node to continue into, or none.
    fn next(&self) -> (r: Option<Node<'_>>)
        ensures
            r == self.spec_next(),
    ;
}

/// The executable-unit capability set: the three lifecycle steps, each of
/// which records itself in the environment's trace and takes its outcome
/// from the environment's fault table — so each step succeeds by default.
pub trait Command: Container {
    /// The trace label of this node.
    spec fn spec_kind(&self) -> NodeKind;

    /// The trace label of this node.
    fn kind(&self) -> (k: NodeKind)
        ensures
            k == self.spec_kind(),
    ;

    /// Runs before `run`; succeeds unless a fault is registered for it.
    fn pre_run(&self, env: &mut Env) -> (r: Result<(), Error>)
        ensures
            final(env).faults@ == old(env).faults@,
            final(env).trace@ == old(env).trace@.push(
                Event { kind: self.spec_kind(), phase: Phase::Pre },
            ),
            (match step_outcome(old(env).faults@, self.spec_kind(), Phase::Pre) {
                Some(e) => r == Result::<(), Error>::Err(e),
                None => r == Result::<(), Error>::Ok(()),
            }),
    {
        env.invoke(self.kind(), Phase::Pre)
    }

    /// The node's own work; succeeds unless a fault is registered for it.
    fn run(&self, env: &mut Env) -> (r: Result<(), Error>)
        ensures
            final(env).faults@ == old(env).faults@,
            final(env).trace@ == old(env).trace@.push(
                Event { kind: self.spec_kind(), phase: Phase::Run },
            ),
            (match step_outcome(old(env).faults@, self.spec_kind(), Phase::Run) {
                Some(e) => r == Result::<(), Error>::Err(e),
                None => r == Result::<(), Error>::Ok(()),
            }),
    {
        env.invoke(self.kind(), Phase::Run)
    }

    /// Runs after the whole chain below this node has completed; succeeds
    /// unless a fault is registered for it.
    fn post_run(&self, env: &mut Env) -> (r: Result<(), Error>)
        ensures
            final(env).faults@ == old(env).faults@,
            final(env).trace@ == old(env).trace@.push(
                Event { kind: self.spec_kind(), phase: Phase::Post },
            ),
            (match step_outcome(old(env).faults@, self.spec_kind(), Phase::Post) {
                Some(e) => r == Result::<(), Error>::Err(e),
                None => r == Result::<(), Error>::Ok(()),
            }),
    {
        env.invoke(self.kind(), Phase::Post)
    }
}

} // verus!
