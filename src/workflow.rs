use vstd::prelude::*;

use crate::error::{Error, InvocationError};
use crate::lock::{selection, targets_view, LockStatus};

verus! {

/// Where a signing run stands.
#[derive(Debug, Clone, Copy, PartialEq, Eq, Structural)]
pub enum Phase {
    /// Nothing has been asked yet.
    Start,
    /// Waiting for the lock status.
    Fetching,
    /// Waiting for the operator to approve the worklist.
    ConfirmPending,
    /// Waiting for the outcome of signing the node at the current index.
    Signing,
    /// Every selected node was signed.
    Done,
    /// The operator declined.
    Declined,
    /// The run stopped on an error.
    Failed,
}

/// What the caller must do next.
#[derive(Debug, Clone, PartialEq, Eq)]
pub enum Action {
    /// Query the lock status and report it with `Workflow::on_status`.
    FetchStatus,
    /// Show the worklist and report the operator's answer with `Workflow::on_confirm`.
    Confirm,
    /// Sign the node with this node key and report the outcome with `Workflow::on_signed`.
    Sign { key: String },
    /// Every selected node was signed.
    Finish,
    /// The operator declined; nothing was signed.
    Abort,
    /// The run failed with this error.
    Fail(Error),
}

/// The abstract state of a signing run.
pub struct WorkflowView {
    pub phase: Phase,
    pub resign: bool,
    pub skip_confirm: bool,
    /// The worklist, as (node key, name) pairs.
    pub targets: Seq<(Seq<char>, Seq<char>)>,
    /// How many nodes of the worklist have been signed.
    pub next: nat,
}

/// The well-formed states: an index being signed lies inside the worklist, and a
/// worklist put to the operator is not empty.
pub open spec fn view_wf(v: WorkflowView) -> bool {
    &&& v.next <= v.targets.len()
    &&& (v.phase == Phase::Signing ==> v.next < v.targets.len())
    &&& (v.phase == Phase::ConfirmPending ==> v.targets.len() > 0 && v.next == 0)
    &&& (v.phase == Phase::Done ==> v.next == v.targets.len())
}

/// The state after the outcome of signing the node at `v.next`.
pub open spec fn after_sign(v: WorkflowView, ok: bool) -> WorkflowView {
    if !ok {
        WorkflowView { phase: Phase::Failed, ..v }
    } else if v.next + 1 == v.targets.len() {
        WorkflowView { phase: Phase::Done, next: v.next + 1, ..v }
    } else {
        WorkflowView { next: v.next + 1, ..v }
    }
}

/// Runs the signing phase on a list of outcomes, one per signing attempt, as long
/// as the run stays in `Signing`: the final state and the node keys handed out
/// for signing, in order.
pub open spec fn run_signing(v: WorkflowView, outcomes: Seq<bool>) -> (WorkflowView, Seq<Seq<char>>)
    decreases outcomes.len(),
{
    if v.phase != Phase::Signing || outcomes.len() == 0 || v.next >= v.targets.len() {
        (v, Seq::empty())
    } else {
        let rest = run_signing(after_sign(v, outcomes[0]), outcomes.drop_first());
        (rest.0, seq![v.targets[v.next as int].0] + rest.1)
    }
}

/// A signing run: fetch the lock status, select the Mullvad nodes, have the
/// operator approve them, then sign them one by one in order, stopping at the
/// first failure. The caller performs each returned `Action` and reports back.
pub struct Workflow {
    resign: bool,
    skip_confirm: bool,
    phase: Phase,
    targets: Vec<(String, String)>,
    next: usize,
}

impl View for Workflow {
    type V = WorkflowView;

    closed spec fn view(&self) -> WorkflowView {
        WorkflowView {
            phase: self.phase,
            resign: self.resign,
            skip_confirm: self.skip_confirm,
            targets: targets_view(self.targets@),
            next: self.next as nat,
        }
    }
}

impl Workflow {
    /// Whether the run's state is well formed.
    pub open spec fn wf(&self) -> bool {
        view_wf(self@)
    }

    /// A run that has not started. With `resign`, already visible Mullvad peers are
    /// signed again too; with `skip_confirm`, the operator is not asked.
    pub fn new(resign: bool, skip_confirm: bool) -> (r: Workflow)
        ensures
            r.wf(),
            r@.phase == Phase::Start,
            r@.resign == resign,
            r@.skip_confirm == skip_confirm,
            r@.targets.len() == 0,
            r@.next == 0,
    {
        Workflow { resign, skip_confirm, phase: Phase::Start, targets: Vec::new(), next: 0 }
    }

    /// Starts the run: the lock status is to be fetched.
    pub fn start(&mut self) -> (r: Action)
        requires
            old(self).wf(),
            old(self)@.phase == Phase::Start,
        ensures
            final(self).wf(),
            final(self)@ == (WorkflowView { phase: Phase::Fetching, ..old(self)@ }),
            r == Action::FetchStatus,
    {
        self.phase = Phase::Fetching;
        Action::FetchStatus
    }

    /// Takes the fetched and decoded lock status, or the error that stopped that.
    /// An error ends the run with that error. Otherwise the worklist is selected;
    /// an empty one ends the run with `NoNodesFound`; else the operator is asked,
    /// or, when confirmation is skipped, signing starts at the first node.
    pub fn on_status(&mut self, fetched: Result<LockStatus, Error>) -> (r: Action)
        requires
            old(self).wf(),
            old(self)@.phase == Phase::Fetching,
        ensures
            final(self).wf(),
            final(self)@.resign == old(self)@.resign,
            final(self)@.skip_confirm == old(self)@.skip_confirm,
            match fetched {
                Err(e) => {
                    &&& final(self)@ == (WorkflowView { phase: Phase::Failed, ..old(self)@ })
                    &&& r == Action::Fail(e)
                },
                Ok(status) => {
                    let sel = selection(status, old(self)@.resign);
                    &&& final(self)@.targets == sel
                    &&& final(self)@.next == 0
                    &&& sel.len() == 0 ==> final(self)@.phase == Phase::Failed && r == Action::Fail(
                        Error::NoNodesFound,
                    )
                    &&& sel.len() > 0 && !old(self)@.skip_confirm ==> final(self)@.phase
                        == Phase::ConfirmPending && r == Action::Confirm
                    &&& sel.len() > 0 && old(self)@.skip_confirm ==> final(self)@.phase
                        == Phase::Signing && r is Sign && r->key@ == sel[0].0
                },
            },
    {
        match fetched {
            Err(e) => {
                self.phase = Phase::Failed;
                Action::Fail(e)
            },
            Ok(status) => {
                self.targets = status.select_mullvad_nodes(self.resign);
                self.next = 0;
                if self.targets.len() == 0 {
                    self.phase = Phase::Failed;
                    Action::Fail(Error::NoNodesFound)
                } else if self.skip_confirm {
                    self.phase = Phase::Signing;
                    Action::Sign { key: self.targets[0].0.clone() }
                } else {
                    self.phase = Phase::ConfirmPending;
                    Action::Confirm
                }
            },
        }
    }

    /// Takes the operator's answer: approval starts signing at the first node,
    /// refusal ends the run with nothing signed.
    pub fn on_confirm(&mut self, approved: bool) -> (r: Action)
        requires
            old(self).wf(),
            old(self)@.phase == Phase::ConfirmPending,
        ensures
            final(self).wf(),
            approved ==> final(self)@ == (WorkflowView { phase: Phase::Signing, ..old(self)@ })
                && r is Sign && r->key@ == old(self)@.targets[0].0,
            !approved ==> final(self)@ == (WorkflowView { phase: Phase::Declined, ..old(self)@ })
                && r == Action::Abort,
    {
        if approved {
            self.phase = Phase::Signing;
            Action::Sign { key: self.targets[0].0.clone() }
        } else {
            self.phase = Phase::Declined;
            Action::Abort
        }
    }

    /// Takes the outcome of signing the current node. A failure ends the run at
    /// once with the node's index and key and the cause; the nodes after it are
    /// never handed out. A success moves on to the next node, or finishes the run
    /// after the last one.
    pub fn on_signed(&mut self, outcome: Result<(), InvocationError>) -> (r: Action)
        requires
            old(self).wf(),
            old(self)@.phase == Phase::Signing,
        ensures
            final(self).wf(),
            final(self)@ == after_sign(old(self)@, outcome is Ok),
            match outcome {
                Err(c) => r matches Action::Fail(Error::SignNode { index, key, cause }) && index
                    == old(self)@.next && key@ == old(self)@.targets[old(self)@.next as int].0
                    && cause == c,
                Ok(_) => if final(self)@.phase == Phase::Done {
                    r == Action::Finish
                } else {
                    r is Sign && r->key@ == old(self)@.targets[final(self)@.next as int].0
                },
            },
    {
        match outcome {
            Err(c) => {
                self.phase = Phase::Failed;
                Action::Fail(
                    Error::SignNode { index: self.next, key: self.targets[self.next].0.clone(), cause: c },
                )
            },
            Ok(()) => {
                let n: usize = self.targets.len();
                assert(n == self@.targets.len());
                self.next = self.next + 1;
                if self.next == n {
                    self.phase = Phase::Done;
                    Action::Finish
                } else {
                    Action::Sign { key: self.targets[self.next].0.clone() }
                }
            },
        }
    }

    /// The stage the run has reached.
    pub fn phase(&self) -> (r: Phase)
        ensures
            r == self@.phase,
    {
        self.phase
    }

    /// The worklist, as (node key, name) pairs.
    pub fn targets(&self) -> (r: &Vec<(String, String)>)
        ensures
            targets_view(r@) == self@.targets,
    {
        &self.targets
    }

    /// How many nodes have been signed so far.
    pub fn signed(&self) -> (r: usize)
        ensures
            r == self@.next,
    {
        self.next
    }
}

/// The node keys of a worklist.
pub open spec fn keys_of(targets: Seq<(Seq<char>, Seq<char>)>) -> Seq<Seq<char>> {
    targets.map_values(|t: (Seq<char>, Seq<char>)| t.0)
}

/// Fail-fast signing: from the start of the signing phase, when the attempt on the
/// node at `k` fails and every earlier one succeeds, the run hands out the keys of
/// nodes `0..=k` in order and no other, has signed exactly `k` nodes, and ends in
/// `Failed`, whatever outcomes would have followed.
pub proof fn lemma_fail_fast(v: WorkflowView, outcomes: Seq<bool>, k: nat)
    requires
        view_wf(v),
        v.phase == Phase::Signing,
        v.next == 0,
        k < v.targets.len(),
        k < outcomes.len(),
        !outcomes[k as int],
        forall|j: int| 0 <= j < k ==> outcomes[j],
    ensures
        run_signing(v, outcomes).0 == (WorkflowView { phase: Phase::Failed, next: k, ..v }),
        run_signing(v, outcomes).1 == keys_of(v.targets).subrange(0, k + 1 as int),
{
    lemma_fail_fast_from(v, outcomes, k);
    assert(keys_of(v.targets).subrange(0, k + 1 as int) =~= keys_of(v.targets).subrange(v.next as int, k + 1 as int));
}

proof fn lemma_fail_fast_from(v: WorkflowView, outcomes: Seq<bool>, k: nat)
    requires
        view_wf(v),
        v.phase == Phase::Signing,
        v.next <= k < v.targets.len(),
        k - v.next < outcomes.len() as int,
        !outcomes[k - v.next],
        forall|j: int| 0 <= j < k - v.next ==> outcomes[j],
    ensures
        run_signing(v, outcomes).0 == (WorkflowView { phase: Phase::Failed, next: k, ..v }),
        run_signing(v, outcomes).1 == keys_of(v.targets).subrange(v.next as int, k + 1 as int),
    decreases k - v.next,
{
    let w = after_sign(v, outcomes[0]);
    if v.next == k {
        assert(keys_of(v.targets).subrange(v.next as int, k + 1 as int) =~= seq![v.targets[v.next as int].0]);
    } else {
        assert forall|j: int| 0 <= j < k - w.next implies outcomes.drop_first()[j] by {
            assert(outcomes.drop_first()[j] == outcomes[j + 1]);
        }
        lemma_fail_fast_from(w, outcomes.drop_first(), k);
        assert(keys_of(v.targets).subrange(v.next as int, k + 1 as int) =~= seq![v.targets[v.next as int].0]
            + keys_of(v.targets).subrange(w.next as int, k + 1 as int));
    }
}

} // verus!
