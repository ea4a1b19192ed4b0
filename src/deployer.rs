//! The deploy and delete algorithms as step machines: each call to
//! `advance` takes what the collaborator reported for the operation in
//! flight and answers with the next operation, or with the end of the run.
//! A failure aborts the remaining operations.

use vstd::prelude::*;

use crate::errors::{CommandError, EngineError, EventDetails};
use crate::operation::{pending_pods, sweep_ops, view_ops, Operation, OperationView, Outcome};

verus! {

/// What the driver does next.
#[derive(Debug)]
pub enum Step {
    Perform(Operation),
    Finished,
}

/// A run of one deploy or delete algorithm.
#[derive(Debug)]
pub struct Deployment {
    pub details: EventDetails,
    /// "name (id)" of the service, for the start-failure error.
    pub service_label: String,
    /// Kind name of the service, for the start-failure error.
    pub service_type_name: String,
    pub queue: Vec<Operation>,
    pub next: usize,
    /// The operation in flight, if any.
    pub current: Option<Operation>,
    /// Set once the run is over.
    pub result: Option<Result<(), EngineError>>,
    /// Values the templates of the render operations are rendered with.
    pub template_context: tera::Context,
    /// Failure of the best-effort remote-state secret deletion, kept for
    /// logging; it does not fail the run.
    pub cleanup_failure: Option<CommandError>,
}

/// The classified error of a failed operation.
pub open spec fn classify(op: Operation, details: EventDetails, cause: CommandError) -> EngineError {
    match op {
        Operation::RenderTemplates { source_dir, dest_dir } => EngineError::CannotCopyFiles {
            details,
            from: source_dir,
            to: dest_dir,
            cause,
        },
        Operation::CreateNamespace { namespace, .. } => EngineError::CreateNamespace {
            details,
            namespace,
            cause,
        },
        Operation::UpgradeRelease { .. } => EngineError::ChartRelease { details, cause },
        Operation::UninstallRelease { .. } => EngineError::ChartRelease { details, cause },
        Operation::ProvisionApply { .. } => EngineError::ProvisioningPipeline { details, cause },
        Operation::ProvisionDestroy { .. } => EngineError::ProvisioningDestroy { details, cause },
        Operation::ScaleReplicas { namespace, selector, replicas, .. } => EngineError::ScaleReplicas {
            details,
            selector,
            namespace,
            replicas,
            cause,
        },
        _ => EngineError::ClusterServiceIssue { details, cause },
    }
}

fn classify_exec(op: Operation, details: EventDetails, cause: CommandError) -> (r: EngineError)
    ensures
        r == classify(op, details, cause),
{
    match op {
        Operation::RenderTemplates { source_dir, dest_dir } => EngineError::CannotCopyFiles {
            details,
            from: source_dir,
            to: dest_dir,
            cause,
        },
        Operation::CreateNamespace { namespace, .. } => EngineError::CreateNamespace {
            details,
            namespace,
            cause,
        },
        Operation::UpgradeRelease { .. } => EngineError::ChartRelease { details, cause },
        Operation::UninstallRelease { .. } => EngineError::ChartRelease { details, cause },
        Operation::ProvisionApply { .. } => EngineError::ProvisioningPipeline { details, cause },
        Operation::ProvisionDestroy { .. } => EngineError::ProvisioningDestroy { details, cause },
        Operation::ScaleReplicas { namespace, selector, replicas, .. } => EngineError::ScaleReplicas {
            details,
            selector,
            namespace,
            replicas,
            cause,
        },
        _ => EngineError::ClusterServiceIssue { details, cause },
    }
}

impl Deployment {
    pub open spec fn wf(&self) -> bool {
        &&& self.next <= self.queue@.len()
        &&& self.result is Some ==> self.current is None
    }

    pub open spec fn is_finished(&self) -> bool {
        self.result is Some
    }

    /// Operations not yet handed out, in order.
    pub open spec fn remaining(&self) -> Seq<OperationView> {
        view_ops(self.queue@.subrange(self.next as int, self.queue@.len() as int))
    }

    /// The error that an outcome of the operation in flight means, if any.
    /// Only a ready pod passes the readiness poll; the remote-state secret
    /// deletion is best-effort and never fails the run.
    pub open spec fn failure(&self, outcome: Outcome) -> Option<EngineError> {
        match self.current {
            None => None,
            Some(op) => match op {
                Operation::WaitPodReady { .. } => match outcome {
                    Outcome::Readiness(Some(true)) => None,
                    Outcome::Failed(e) => Some(
                        EngineError::ServiceFailedToStart {
                            details: self.details,
                            service: self.service_label,
                            service_type: self.service_type_name,
                            last_error: Some(e),
                        },
                    ),
                    _ => Some(
                        EngineError::ServiceFailedToStart {
                            details: self.details,
                            service: self.service_label,
                            service_type: self.service_type_name,
                            last_error: None,
                        },
                    ),
                },
                Operation::DeleteSecret { .. } => None,
                _ => match outcome {
                    Outcome::Failed(e) => Some(classify(op, self.details, e)),
                    _ => None,
                },
            },
        }
    }

    /// Operations an outcome adds in front of the remaining ones: a pod
    /// listing adds the deletion of its pending pods.
    pub open spec fn followups(&self, outcome: Outcome) -> Seq<OperationView> {
        match self.current {
            Some(Operation::ListPods { .. }) => match outcome {
                Outcome::Pods(pods) => sweep_ops(pods@),
                _ => Seq::empty(),
            },
            _ => Seq::empty(),
        }
    }

    /// A run that performs the given operations in order.
    pub fn from_plan(
        details: EventDetails,
        service_label: String,
        service_type_name: String,
        queue: Vec<Operation>,
        template_context: tera::Context,
    ) -> (r: Deployment)
        ensures
            r.wf(),
            !r.is_finished(),
            r.current is None,
            r.remaining() == view_ops(queue@),
            r.details == details,
            r.service_label == service_label,
            r.service_type_name == service_type_name,
            r.template_context == template_context,
            r.cleanup_failure is None,
    {
        let r = Deployment {
            details,
            service_label,
            service_type_name,
            queue,
            next: 0,
            current: None,
            result: None,
            template_context,
            cleanup_failure: None,
        };
        proof {
            assert(r.queue@.subrange(0, r.queue@.len() as int) == r.queue@);
        }
        r
    }

    /// Takes the outcome of the operation in flight (any outcome before the
    /// first operation) and answers with the next step.
    pub fn advance(&mut self, outcome: Outcome) -> (r: Step)
        requires
            old(self).wf(),
        ensures
            final(self).wf(),
            final(self).details == old(self).details,
            final(self).service_label == old(self).service_label,
            final(self).service_type_name == old(self).service_type_name,
            final(self).cleanup_failure == if !old(self).is_finished() && (old(self).current matches Some(
                Operation::DeleteSecret { .. },
            )) && outcome is Failed {
                Some(outcome->Failed_0)
            } else {
                old(self).cleanup_failure
            },
            old(self).is_finished() ==> r is Finished && *final(self) == *old(self),
            !old(self).is_finished() ==> match old(self).failure(outcome) {
                Some(e) => {
                    &&& r is Finished
                    &&& final(self).result == Some(Err::<(), EngineError>(e))
                },
                None => {
                    let q = old(self).followups(outcome) + old(self).remaining();
                    if q.len() == 0 {
                        &&& r is Finished
                        &&& final(self).result == Some(Ok::<(), EngineError>(()))
                    } else {
                        &&& r matches Step::Perform(op) && op@ == q[0]
                        &&& final(self).current matches Some(c) && c@ == q[0]
                        &&& final(self).remaining() == q.drop_first()
                        &&& !final(self).is_finished()
                    }
                },
            },
    {
        if self.result.is_some() {
            return Step::Finished;
        }
        let ghost q0 = self.followups(outcome) + self.remaining();
        let ghost fail = self.failure(outcome);
        let current = self.current.take();
        match current {
            None => {},
            Some(op) => {
                match op {
                    Operation::WaitPodReady { .. } => {
                        let last_error = match outcome {
                            Outcome::Readiness(Some(true)) => {
                                return self.hand_out_next(Ghost(q0));
                            },
                            Outcome::Failed(e) => Some(e),
                            _ => None,
                        };
                        let e = EngineError::ServiceFailedToStart {
                            details: self.details.duplicate(),
                            service: self.service_label.clone(),
                            service_type: self.service_type_name.clone(),
                            last_error,
                        };
                        self.result = Some(Err(e));
                        return Step::Finished;
                    },
                    Operation::DeleteSecret { .. } => {
                        match outcome {
                            Outcome::Failed(e) => {
                                self.cleanup_failure = Some(e);
                            },
                            _ => {},
                        }
                    },
                    Operation::ListPods { .. } => {
                        match outcome {
                            Outcome::Failed(e) => {
                                let err = classify_exec(op, self.details.duplicate(), e);
                                self.result = Some(Err(err));
                                return Step::Finished;
                            },
                            Outcome::Pods(pods) => {
                                let sweep = pending_pods(&pods);
                                self.prepend(sweep);
                            },
                            _ => {},
                        }
                    },
                    _ => {
                        match outcome {
                            Outcome::Failed(e) => {
                                let err = classify_exec(op, self.details.duplicate(), e);
                                self.result = Some(Err(err));
                                return Step::Finished;
                            },
                            _ => {},
                        }
                    },
                }
            },
        }
        self.hand_out_next(Ghost(q0))
    }

    /// Puts operations in front of the remaining ones.
    fn prepend(&mut self, ops: Vec<Operation>)
        requires
            old(self).wf(),
            old(self).result is None,
            old(self).current is None,
        ensures
            final(self).wf(),
            final(self).result is None,
            final(self).current is None,
            final(self).details == old(self).details,
            final(self).service_label == old(self).service_label,
            final(self).service_type_name == old(self).service_type_name,
            final(self).remaining() == view_ops(ops@) + old(self).remaining(),
            final(self).cleanup_failure == old(self).cleanup_failure,
    {
        let mut q = ops;
        let ghost start = q@;
        let mut i: usize = self.next;
        while i < self.queue.len()
            invariant
                self.next <= i <= self.queue@.len(),
                q@ == start + self.queue@.subrange(self.next as int, i as int),
            decreases self.queue@.len() - i,
        {
            let op = self.queue[i].duplicate();
            q.push(op);
            proof {
                assert(q@ =~= start + self.queue@.subrange(self.next as int, i + 1));
            }
            i = i + 1;
        }
        proof {
            let tail = self.queue@.subrange(self.next as int, self.queue@.len() as int);
            assert(view_ops(q@) =~= view_ops(start) + view_ops(tail));
            assert(q@.subrange(0, q@.len() as int) == q@);
        }
        self.queue = q;
        self.next = 0;
    }

    /// Hands out the first remaining operation, or ends the run successfully.
    fn hand_out_next(&mut self, Ghost(q): Ghost<Seq<OperationView>>) -> (r: Step)
        requires
            old(self).wf(),
            old(self).result is None,
            old(self).current is None,
            q == old(self).remaining(),
        ensures
            final(self).wf(),
            final(self).cleanup_failure == old(self).cleanup_failure,
            final(self).details == old(self).details,
            final(self).service_label == old(self).service_label,
            final(self).service_type_name == old(self).service_type_name,
            q.len() == 0 ==> r is Finished && final(self).result == Some(Ok::<(), EngineError>(())),
            q.len() > 0 ==> {
                &&& r matches Step::Perform(op) && op@ == q[0]
                &&& final(self).current matches Some(c) && c@ == q[0]
                &&& final(self).remaining() == q.drop_first()
                &&& !final(self).is_finished()
            },
    {
        if self.next >= self.queue.len() {
            self.result = Some(Ok(()));
            Step::Finished
        } else {
            let op = self.queue[self.next].duplicate();
            self.current = Some(self.queue[self.next].duplicate());
            self.next = self.next + 1;
            proof {
                assert(self.remaining() =~= q.drop_first());
            }
            Step::Perform(op)
        }
    }

    /// The outcome of a finished run.
    pub fn into_result(self) -> (r: Result<(), EngineError>)
        requires
            self.is_finished(),
        ensures
            Some(r) == self.result,
    {
        match self.result {
            Some(r) => r,
            None => Ok(()),
        }
    }
}

} // verus!
