//! The provisioning orchestrator: a state machine that sequences
//! create-network → wait → create-instance → wait → delete-instance → wait →
//! delete-network → wait, with a readiness signal that flips exactly once
//! and compensating cleanup of already-created resources on failure.
//!
//! The machine is pure: the runner performs each returned action (an HTTP
//! submit, or polling an operation to its terminal status) and hands the
//! outcome back in as the next event.

use vstd::prelude::*;

use crate::errors::LroError;
use crate::operation::{Operation, OperationStatus};

verus! {

/// Where the workflow stands.
#[derive(Clone, Copy, Debug, PartialEq, Eq, Structural)]
pub enum Phase {
    /// Nothing has been requested yet.
    Idle,
    /// The network-create request is out; its operation handle is awaited.
    VpcCreateSubmitted,
    /// The network-create operation is being polled to its terminal status.
    VpcCreatePolling,
    /// The instance-create request is out; its operation handle is awaited.
    InstanceCreateSubmitted,
    /// The instance-create operation is being polled.
    InstanceCreatePolling,
    /// The instance-delete request is out.
    InstanceDeleteSubmitted,
    /// The instance-delete operation is being polled.
    InstanceDeletePolling,
    /// The network-delete request is out.
    VpcDeleteSubmitted,
    /// The network-delete operation is being polled.
    VpcDeletePolling,
    /// Both resources were created and later cleaned up.
    Complete,
    /// The workflow stopped early; `failure` and the live flags say why and
    /// what remains.
    Aborted,
}

/// What the runner reports back after performing an action.
#[derive(Clone, Debug, PartialEq)]
pub enum WorkflowEvent {
    /// Start the workflow.
    Started,
    /// A submit request was answered with this operation handle.
    Submitted(Operation),
    /// Polling returned this (expected terminal) operation snapshot.
    Polled(Operation),
    /// The step failed with this error.
    StepFailed(LroError),
}

/// What the runner must do next.
#[derive(Clone, Debug, PartialEq)]
pub enum WorkflowAction {
    /// Submit the network-create request.
    SubmitVpcCreate,
    /// Poll the operation of the current phase to its terminal status.
    Poll,
    /// Submit the instance-create request, referencing the created network.
    SubmitInstanceCreate,
    /// Submit a delete of the resource behind this target link.
    SubmitInstanceDelete(String),
    /// Submit a delete of the network behind this target link.
    SubmitVpcDelete(String),
    /// Nothing more to do.
    Stop,
}

/// The orchestrator's state: the phase, the readiness signal, which
/// resources are live, the operation snapshots of the current steps, and
/// the first failure observed.
pub struct Workflow {
    pub phase: Phase,
    /// False until the instance-create operation is observed terminal, true
    /// from then on; never reverts.
    pub ready: bool,
    /// The network-create request went out and no network delete finished.
    pub vpc_live: bool,
    /// The instance-create request went out and no instance delete finished.
    pub instance_live: bool,
    /// The operation snapshot of the network step under way.
    pub vpc_op: Option<Operation>,
    /// The operation snapshot of the instance step under way.
    pub instance_op: Option<Operation>,
    /// The first error any step reported.
    pub failure: Option<LroError>,
}

impl Workflow {
    /// The reachable-state invariant: each polling or delete phase has the
    /// operation snapshot it speaks of, the instance is only ever live atop
    /// a created network, instance phases are only reached once the
    /// network-create operation was observed terminal, and readiness only
    /// holds from the instance-done transition on.
    pub open spec fn wf(self) -> bool {
        &&& (self.phase == Phase::VpcCreatePolling ==> self.vpc_live && self.vpc_op is Some)
        &&& ((self.phase == Phase::InstanceCreateSubmitted || self.phase
            == Phase::InstanceCreatePolling) ==> self.vpc_live && (self.vpc_op matches Some(vop)
            && vop.status == OperationStatus::Done))
        &&& (self.phase == Phase::InstanceCreatePolling ==> self.instance_live
            && self.instance_op is Some)
        &&& ((self.phase == Phase::InstanceDeleteSubmitted || self.phase
            == Phase::InstanceDeletePolling) ==> self.instance_op is Some)
        &&& ((self.phase == Phase::VpcDeleteSubmitted || self.phase == Phase::VpcDeletePolling)
            ==> self.vpc_op is Some)
        &&& (self.instance_live ==> self.vpc_op is Some)
        &&& (self.ready ==> (self.phase == Phase::InstanceDeleteSubmitted || self.phase
            == Phase::InstanceDeletePolling || self.phase == Phase::VpcDeleteSubmitted
            || self.phase == Phase::VpcDeletePolling || self.phase == Phase::Complete
            || self.phase == Phase::Aborted))
    }

    /// The workflow before anything was requested.
    pub open spec fn spec_init() -> Workflow {
        Workflow {
            phase: Phase::Idle,
            ready: false,
            vpc_live: false,
            instance_live: false,
            vpc_op: None,
            instance_op: None,
            failure: None,
        }
    }

    /// The workflow before anything was requested.
    pub fn new() -> (w: Workflow)
        ensures
            w == Workflow::spec_init(),
            w.wf(),
    {
        Workflow {
            phase: Phase::Idle,
            ready: false,
            vpc_live: false,
            instance_live: false,
            vpc_op: None,
            instance_op: None,
            failure: None,
        }
    }
}

/// On a step failure: record the first error, then attempt compensating
/// cleanup of whatever is still live — delete the instance unless an
/// instance delete itself just failed, else delete the network unless a
/// network delete just failed, else stop with what remains recorded.
pub open spec fn spec_fail_step(w: Workflow, e: LroError) -> (Workflow, WorkflowAction) {
    let w1 = Workflow {
        failure: if w.failure is Some {
            w.failure
        } else {
            Some(e)
        },
        ..w
    };
    if w.phase == Phase::Complete || w.phase == Phase::Aborted {
        (w1, WorkflowAction::Stop)
    } else if w.phase == Phase::InstanceDeleteSubmitted || w.phase == Phase::InstanceDeletePolling
        || w.phase == Phase::VpcDeleteSubmitted || w.phase == Phase::VpcDeletePolling {
        if (w.phase == Phase::InstanceDeleteSubmitted || w.phase == Phase::InstanceDeletePolling)
            && w.vpc_live && w.vpc_op is Some {
            (
                Workflow { phase: Phase::VpcDeleteSubmitted, ..w1 },
                WorkflowAction::SubmitVpcDelete(w.vpc_op->Some_0.target_link),
            )
        } else {
            (Workflow { phase: Phase::Aborted, ..w1 }, WorkflowAction::Stop)
        }
    } else {
        if w.instance_live && w.instance_op is Some {
            (
                Workflow { phase: Phase::InstanceDeleteSubmitted, ..w1 },
                WorkflowAction::SubmitInstanceDelete(w.instance_op->Some_0.target_link),
            )
        } else if w.vpc_live && w.vpc_op is Some {
            (
                Workflow { phase: Phase::VpcDeleteSubmitted, ..w1 },
                WorkflowAction::SubmitVpcDelete(w.vpc_op->Some_0.target_link),
            )
        } else {
            (Workflow { phase: Phase::Aborted, ..w1 }, WorkflowAction::Stop)
        }
    }
}

/// One orchestrator transition: the next workflow value and the action the
/// runner must perform, for a given state and event. Events that do not
/// belong to the current phase change nothing.
pub open spec fn spec_step(w: Workflow, ev: WorkflowEvent) -> (Workflow, WorkflowAction) {
    match ev {
        WorkflowEvent::Started => {
            if w.phase == Phase::Idle {
                (
                    Workflow { phase: Phase::VpcCreateSubmitted, ..w },
                    WorkflowAction::SubmitVpcCreate,
                )
            } else {
                (w, WorkflowAction::Stop)
            }
        },
        WorkflowEvent::Submitted(op) => {
            if w.phase == Phase::VpcCreateSubmitted {
                (
                    Workflow {
                        phase: Phase::VpcCreatePolling,
                        vpc_live: true,
                        vpc_op: Some(op),
                        ..w
                    },
                    WorkflowAction::Poll,
                )
            } else if w.phase == Phase::InstanceCreateSubmitted {
                (
                    Workflow {
                        phase: Phase::InstanceCreatePolling,
                        instance_live: true,
                        instance_op: Some(op),
                        ..w
                    },
                    WorkflowAction::Poll,
                )
            } else if w.phase == Phase::InstanceDeleteSubmitted {
                (
                    Workflow { phase: Phase::InstanceDeletePolling, instance_op: Some(op), ..w },
                    WorkflowAction::Poll,
                )
            } else if w.phase == Phase::VpcDeleteSubmitted {
                (
                    Workflow { phase: Phase::VpcDeletePolling, vpc_op: Some(op), ..w },
                    WorkflowAction::Poll,
                )
            } else {
                (w, WorkflowAction::Stop)
            }
        },
        WorkflowEvent::Polled(op) => {
            if op.status != OperationStatus::Done {
                if w.phase == Phase::VpcCreatePolling {
                    (Workflow { vpc_op: Some(op), ..w }, WorkflowAction::Poll)
                } else if w.phase == Phase::InstanceCreatePolling || w.phase
                    == Phase::InstanceDeletePolling {
                    (Workflow { instance_op: Some(op), ..w }, WorkflowAction::Poll)
                } else if w.phase == Phase::VpcDeletePolling {
                    (Workflow { vpc_op: Some(op), ..w }, WorkflowAction::Poll)
                } else {
                    (w, WorkflowAction::Stop)
                }
            } else if w.phase == Phase::VpcCreatePolling {
                (
                    Workflow { phase: Phase::InstanceCreateSubmitted, vpc_op: Some(op), ..w },
                    WorkflowAction::SubmitInstanceCreate,
                )
            } else if w.phase == Phase::InstanceCreatePolling {
                (
                    Workflow {
                        phase: Phase::InstanceDeleteSubmitted,
                        ready: true,
                        instance_op: Some(op),
                        ..w
                    },
                    WorkflowAction::SubmitInstanceDelete(op.target_link),
                )
            } else if w.phase == Phase::InstanceDeletePolling {
                match w.vpc_op {
                    Some(vop) => (
                        Workflow {
                            phase: Phase::VpcDeleteSubmitted,
                            instance_live: false,
                            instance_op: Some(op),
                            ..w
                        },
                        WorkflowAction::SubmitVpcDelete(vop.target_link),
                    ),
                    None => (w, WorkflowAction::Stop),
                }
            } else if w.phase == Phase::VpcDeletePolling {
                (
                    Workflow {
                        phase: Phase::Complete,
                        vpc_live: false,
                        vpc_op: Some(op),
                        ..w
                    },
                    WorkflowAction::Stop,
                )
            } else {
                (w, WorkflowAction::Stop)
            }
        },
        WorkflowEvent::StepFailed(e) => spec_fail_step(w, e),
    }
}

impl Workflow {
    /// Performs one orchestrator transition and says what the runner must do
    /// next. The transition relation is [`spec_step`]; it preserves the
    /// reachable-state invariant, and readiness never reverts.
    pub fn step(&mut self, ev: WorkflowEvent) -> (a: WorkflowAction)
        requires
            old(self).wf(),
        ensures
            *final(self) == spec_step(*old(self), ev).0,
            a == spec_step(*old(self), ev).1,
            final(self).wf(),
            old(self).ready ==> final(self).ready,
    {
        match ev {
            WorkflowEvent::Started => {
                if self.phase == Phase::Idle {
                    self.phase = Phase::VpcCreateSubmitted;
                    WorkflowAction::SubmitVpcCreate
                } else {
                    WorkflowAction::Stop
                }
            },
            WorkflowEvent::Submitted(op) => {
                if self.phase == Phase::VpcCreateSubmitted {
                    self.phase = Phase::VpcCreatePolling;
                    self.vpc_live = true;
                    self.vpc_op = Some(op);
                    WorkflowAction::Poll
                } else if self.phase == Phase::InstanceCreateSubmitted {
                    self.phase = Phase::InstanceCreatePolling;
                    self.instance_live = true;
                    self.instance_op = Some(op);
                    WorkflowAction::Poll
                } else if self.phase == Phase::InstanceDeleteSubmitted {
                    self.phase = Phase::InstanceDeletePolling;
                    self.instance_op = Some(op);
                    WorkflowAction::Poll
                } else if self.phase == Phase::VpcDeleteSubmitted {
                    self.phase = Phase::VpcDeletePolling;
                    self.vpc_op = Some(op);
                    WorkflowAction::Poll
                } else {
                    WorkflowAction::Stop
                }
            },
            WorkflowEvent::Polled(op) => {
                if !op.is_done() {
                    if self.phase == Phase::VpcCreatePolling {
                        self.vpc_op = Some(op);
                        WorkflowAction::Poll
                    } else if self.phase == Phase::InstanceCreatePolling || self.phase
                        == Phase::InstanceDeletePolling {
                        self.instance_op = Some(op);
                        WorkflowAction::Poll
                    } else if self.phase == Phase::VpcDeletePolling {
                        self.vpc_op = Some(op);
                        WorkflowAction::Poll
                    } else {
                        WorkflowAction::Stop
                    }
                } else if self.phase == Phase::VpcCreatePolling {
                    self.phase = Phase::InstanceCreateSubmitted;
                    self.vpc_op = Some(op);
                    WorkflowAction::SubmitInstanceCreate
                } else if self.phase == Phase::InstanceCreatePolling {
                    self.phase = Phase::InstanceDeleteSubmitted;
                    self.ready = true;
                    let target = op.target_link.clone();
                    self.instance_op = Some(op);
                    WorkflowAction::SubmitInstanceDelete(target)
                } else if self.phase == Phase::InstanceDeletePolling {
                    match &self.vpc_op {
                        Some(vop) => {
                            let target = vop.target_link.clone();
                            self.phase = Phase::VpcDeleteSubmitted;
                            self.instance_live = false;
                            self.instance_op = Some(op);
                            WorkflowAction::SubmitVpcDelete(target)
                        },
                        None => WorkflowAction::Stop,
                    }
                } else if self.phase == Phase::VpcDeletePolling {
                    self.phase = Phase::Complete;
                    self.vpc_live = false;
                    self.vpc_op = Some(op);
                    WorkflowAction::Stop
                } else {
                    WorkflowAction::Stop
                }
            },
            WorkflowEvent::StepFailed(e) => {
                if self.failure.is_none() {
                    self.failure = Some(e);
                }
                if self.phase == Phase::Complete || self.phase == Phase::Aborted {
                    WorkflowAction::Stop
                } else if self.phase == Phase::InstanceDeleteSubmitted || self.phase
                    == Phase::InstanceDeletePolling || self.phase == Phase::VpcDeleteSubmitted
                    || self.phase == Phase::VpcDeletePolling {
                    if (self.phase == Phase::InstanceDeleteSubmitted || self.phase
                        == Phase::InstanceDeletePolling) && self.vpc_live
                        && self.vpc_op.is_some() {
                        let target = match &self.vpc_op {
                            Some(vop) => vop.target_link.clone(),
                            None => { return WorkflowAction::Stop },
                        };
                        self.phase = Phase::VpcDeleteSubmitted;
                        WorkflowAction::SubmitVpcDelete(target)
                    } else {
                        self.phase = Phase::Aborted;
                        WorkflowAction::Stop
                    }
                } else {
                    if self.instance_live && self.instance_op.is_some() {
                        let target = match &self.instance_op {
                            Some(iop) => iop.target_link.clone(),
                            None => { return WorkflowAction::Stop },
                        };
                        self.phase = Phase::InstanceDeleteSubmitted;
                        WorkflowAction::SubmitInstanceDelete(target)
                    } else if self.vpc_live && self.vpc_op.is_some() {
                        let target = match &self.vpc_op {
                            Some(vop) => vop.target_link.clone(),
                            None => { return WorkflowAction::Stop },
                        };
                        self.phase = Phase::VpcDeleteSubmitted;
                        WorkflowAction::SubmitVpcDelete(target)
                    } else {
                        self.phase = Phase::Aborted;
                        WorkflowAction::Stop
                    }
                }
            },
        }
    }
}

/// Law: the orchestrator requests instance creation only upon — and always
/// upon — observing the network-create operation report its terminal status
/// while that operation is being polled. Instance creation is therefore
/// never submitted before network creation is done.
pub proof fn lemma_instance_create_ordering(w: Workflow, ev: WorkflowEvent)
    ensures
        spec_step(w, ev).1 == WorkflowAction::SubmitInstanceCreate <==> ({
            &&& w.phase == Phase::VpcCreatePolling
            &&& ev matches WorkflowEvent::Polled(op) && op.status == OperationStatus::Done
        }),
{
}

/// Law: readiness never reverts, and it flips exactly upon observing the
/// instance-create operation report its terminal status while that
/// operation is being polled — so over any run it is set at most once.
pub proof fn lemma_ready_set_once(w: Workflow, ev: WorkflowEvent)
    ensures
        w.ready ==> spec_step(w, ev).0.ready,
        (spec_step(w, ev).0.ready && !w.ready) <==> ({
            &&& !w.ready
            &&& w.phase == Phase::InstanceCreatePolling
            &&& ev matches WorkflowEvent::Polled(op) && op.status == OperationStatus::Done
        }),
{
}

/// Law: a failure event never loses the record of what happened or what
/// remains: the first failure observed is the one kept, and the failure
/// transition itself leaves the live flags of the surviving resources
/// unchanged (they only clear when a delete operation is observed done).
pub proof fn lemma_failure_keeps_record(w: Workflow, e: LroError)
    ensures
        spec_step(w, WorkflowEvent::StepFailed(e)).0.failure == (if w.failure is Some {
            w.failure
        } else {
            Some(e)
        }),
        spec_step(w, WorkflowEvent::StepFailed(e)).0.vpc_live == w.vpc_live,
        spec_step(w, WorkflowEvent::StepFailed(e)).0.instance_live == w.instance_live,
        spec_step(w, WorkflowEvent::StepFailed(e)).0.ready == w.ready,
{
}

/// The workflow state after a whole sequence of events.
pub open spec fn spec_run(w: Workflow, evs: Seq<WorkflowEvent>) -> Workflow
    decreases evs.len(),
{
    if evs.len() == 0 {
        w
    } else {
        spec_run(spec_step(w, evs[0]).0, evs.skip(1))
    }
}

/// The actions a sequence of events elicits, in order, one per event.
pub open spec fn spec_actions(w: Workflow, evs: Seq<WorkflowEvent>) -> Seq<WorkflowAction>
    decreases evs.len(),
{
    if evs.len() == 0 {
        Seq::empty()
    } else {
        seq![spec_step(w, evs[0]).1] + spec_actions(spec_step(w, evs[0]).0, evs.skip(1))
    }
}

/// A run elicits exactly one action per event.
pub proof fn lemma_actions_len(w: Workflow, evs: Seq<WorkflowEvent>)
    ensures
        spec_actions(w, evs).len() == evs.len(),
    decreases evs.len(),
{
    if evs.len() > 0 {
        lemma_actions_len(spec_step(w, evs[0]).0, evs.skip(1));
    }
}

/// Law: over any run, instance creation is requested only at a step whose
/// event is an operation observed terminal while the network-create
/// operation was being polled — never before the network create is done.
pub proof fn lemma_run_instance_after_vpc_done(w: Workflow, evs: Seq<WorkflowEvent>, i: int)
    requires
        0 <= i < evs.len(),
        spec_actions(w, evs)[i] == WorkflowAction::SubmitInstanceCreate,
    ensures
        evs[i] matches WorkflowEvent::Polled(op) && op.status == OperationStatus::Done,
        spec_run(w, evs.take(i)).phase == Phase::VpcCreatePolling,
    decreases evs.len(),
{
    if i == 0 {
        lemma_instance_create_ordering(w, evs[0]);
        assert(evs.take(0) =~= Seq::<WorkflowEvent>::empty());
    } else {
        let w1 = spec_step(w, evs[0]).0;
        let rest = spec_actions(w1, evs.skip(1));
        lemma_actions_len(w1, evs.skip(1));
        assert(spec_actions(w, evs) == seq![spec_step(w, evs[0]).1] + rest);
        assert((seq![spec_step(w, evs[0]).1] + rest)[i] == rest[i - 1]);
        lemma_run_instance_after_vpc_done(w1, evs.skip(1), i - 1);
        assert(evs.skip(1)[i - 1] == evs[i]);
        assert(evs.take(i)[0] == evs[0]);
        assert(evs.take(i).skip(1) =~= evs.skip(1).take(i - 1));
    }
}

/// Law: once readiness holds it holds after every further run of events.
pub proof fn lemma_run_ready_monotone(w: Workflow, evs: Seq<WorkflowEvent>)
    requires
        w.ready,
    ensures
        spec_run(w, evs).ready,
    decreases evs.len(),
{
    if evs.len() > 0 {
        lemma_ready_set_once(w, evs[0]);
        lemma_run_ready_monotone(spec_step(w, evs[0]).0, evs.skip(1));
    }
}

} // verus!
