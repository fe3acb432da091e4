use vstd::prelude::*;

verus! {

/// Why provisioning the database container failed.
#[derive(PartialEq, Eq, Structural, Clone, Copy, Debug)]
pub enum ProvisionError {
    CreateFailed,
    StartFailed,
}

/// Where the provisioning of the database container stands.
#[derive(PartialEq, Eq, Structural, Clone, Copy, Debug)]
pub enum ProvisionStage {
    CheckingContainer,
    CreatingContainer,
    StartingContainer,
    WaitingWarmup,
    Done,
    Failed { error: ProvisionError },
}

/// What the driver must do next. The warmup wait is the fixed pause that
/// lets the database engine inside a just-started container finish
/// initialising.
#[derive(PartialEq, Eq, Structural, Clone, Copy, Debug)]
pub enum ProvisionAction {
    ListContainers,
    RunCreateCommand,
    RunStartCommand,
    WaitForInit,
    Stop,
}

/// What the driver observed.
#[derive(PartialEq, Eq, Structural, Clone, Copy, Debug)]
pub enum ProvisionEvent {
    ContainerChecked { exists: bool },
    CommandFinished { ok: bool },
    Warmed,
}

/// The provisioning workflow. `issued_create` records whether this run took
/// the creation path; `container_exists` records whether the container is
/// known to exist in the runtime.
pub struct ProvisionFlow {
    pub stage: ProvisionStage,
    pub issued_create: bool,
    pub container_exists: bool,
}

/// Which events a stage can consume.
pub open spec fn event_fits(stage: ProvisionStage, e: ProvisionEvent) -> bool {
    match stage {
        ProvisionStage::CheckingContainer => e is ContainerChecked,
        ProvisionStage::CreatingContainer => e is CommandFinished,
        ProvisionStage::StartingContainer => e is CommandFinished,
        ProvisionStage::WaitingWarmup => e is Warmed,
        ProvisionStage::Done => false,
        ProvisionStage::Failed { .. } => false,
    }
}

/// The transition relation: an absent container is created, a present one
/// is started, and either way the run ends with the fixed warmup wait.
pub open spec fn spec_advance(f: ProvisionFlow, e: ProvisionEvent) -> ProvisionFlow {
    match (f.stage, e) {
        (ProvisionStage::CheckingContainer, ProvisionEvent::ContainerChecked { exists }) => if exists {
            ProvisionFlow { stage: ProvisionStage::StartingContainer, container_exists: true, ..f }
        } else {
            ProvisionFlow {
                stage: ProvisionStage::CreatingContainer,
                issued_create: true,
                container_exists: false,
                ..f
            }
        },
        (ProvisionStage::CreatingContainer, ProvisionEvent::CommandFinished { ok }) => if ok {
            ProvisionFlow { stage: ProvisionStage::WaitingWarmup, container_exists: true, ..f }
        } else {
            ProvisionFlow {
                stage: ProvisionStage::Failed { error: ProvisionError::CreateFailed },
                ..f
            }
        },
        (ProvisionStage::StartingContainer, ProvisionEvent::CommandFinished { ok }) => if ok {
            ProvisionFlow { stage: ProvisionStage::WaitingWarmup, ..f }
        } else {
            ProvisionFlow {
                stage: ProvisionStage::Failed { error: ProvisionError::StartFailed },
                ..f
            }
        },
        (ProvisionStage::WaitingWarmup, ProvisionEvent::Warmed) => ProvisionFlow {
            stage: ProvisionStage::Done,
            ..f
        },
        _ => f,
    }
}

impl ProvisionFlow {
    /// The starting path keeps the knowledge that the container exists, and
    /// a run reaches the warmup wait and completion only with the container
    /// in place.
    pub open spec fn wf(&self) -> bool {
        match self.stage {
            ProvisionStage::StartingContainer => self.container_exists,
            ProvisionStage::WaitingWarmup => self.container_exists,
            ProvisionStage::Done => self.container_exists,
            _ => true,
        }
    }

    /// A bound that every step decreases: the driver's loop terminates.
    pub open spec fn spec_measure(&self) -> int {
        match self.stage {
            ProvisionStage::CheckingContainer => 4,
            ProvisionStage::CreatingContainer => 3,
            ProvisionStage::StartingContainer => 3,
            ProvisionStage::WaitingWarmup => 2,
            ProvisionStage::Done => 0,
            ProvisionStage::Failed { .. } => 0,
        }
    }

    /// A fresh run, about to list the containers.
    pub fn new() -> (f: ProvisionFlow)
        ensures
            f.stage == ProvisionStage::CheckingContainer,
            !f.issued_create,
            !f.container_exists,
            f.wf(),
    {
        ProvisionFlow {
            stage: ProvisionStage::CheckingContainer,
            issued_create: false,
            container_exists: false,
        }
    }

    /// The action the driver must perform in the current stage.
    pub open spec fn spec_action(stage: ProvisionStage) -> ProvisionAction {
        match stage {
            ProvisionStage::CheckingContainer => ProvisionAction::ListContainers,
            ProvisionStage::CreatingContainer => ProvisionAction::RunCreateCommand,
            ProvisionStage::StartingContainer => ProvisionAction::RunStartCommand,
            ProvisionStage::WaitingWarmup => ProvisionAction::WaitForInit,
            ProvisionStage::Done => ProvisionAction::Stop,
            ProvisionStage::Failed { .. } => ProvisionAction::Stop,
        }
    }

    pub fn action(&self) -> (a: ProvisionAction)
        ensures
            a == ProvisionFlow::spec_action(self.stage),
    {
        match self.stage {
            ProvisionStage::CheckingContainer => ProvisionAction::ListContainers,
            ProvisionStage::CreatingContainer => ProvisionAction::RunCreateCommand,
            ProvisionStage::StartingContainer => ProvisionAction::RunStartCommand,
            ProvisionStage::WaitingWarmup => ProvisionAction::WaitForInit,
            ProvisionStage::Done => ProvisionAction::Stop,
            ProvisionStage::Failed { .. } => ProvisionAction::Stop,
        }
    }

    /// Consumes one observation and moves to the next stage.
    pub fn advance(&mut self, e: ProvisionEvent)
        requires
            old(self).wf(),
            event_fits(old(self).stage, e),
        ensures
            *final(self) == spec_advance(*old(self), e),
            final(self).wf(),
            final(self).spec_measure() < old(self).spec_measure(),
    {
        let next = match (self.stage, e) {
            (ProvisionStage::CheckingContainer, ProvisionEvent::ContainerChecked { exists }) => if exists {
                ProvisionFlow {
                    stage: ProvisionStage::StartingContainer,
                    issued_create: self.issued_create,
                    container_exists: true,
                }
            } else {
                ProvisionFlow {
                    stage: ProvisionStage::CreatingContainer,
                    issued_create: true,
                    container_exists: false,
                }
            },
            (ProvisionStage::CreatingContainer, ProvisionEvent::CommandFinished { ok }) => if ok {
                ProvisionFlow {
                    stage: ProvisionStage::WaitingWarmup,
                    issued_create: self.issued_create,
                    container_exists: true,
                }
            } else {
                ProvisionFlow {
                    stage: ProvisionStage::Failed { error: ProvisionError::CreateFailed },
                    issued_create: self.issued_create,
                    container_exists: self.container_exists,
                }
            },
            (ProvisionStage::StartingContainer, ProvisionEvent::CommandFinished { ok }) => if ok {
                ProvisionFlow {
                    stage: ProvisionStage::WaitingWarmup,
                    issued_create: self.issued_create,
                    container_exists: self.container_exists,
                }
            } else {
                ProvisionFlow {
                    stage: ProvisionStage::Failed { error: ProvisionError::StartFailed },
                    issued_create: self.issued_create,
                    container_exists: self.container_exists,
                }
            },
            (ProvisionStage::WaitingWarmup, ProvisionEvent::Warmed) => ProvisionFlow {
                stage: ProvisionStage::Done,
                issued_create: self.issued_create,
                container_exists: self.container_exists,
            },
            _ => ProvisionFlow {
                stage: self.stage,
                issued_create: self.issued_create,
                container_exists: self.container_exists,
            },
        };
        *self = next;
    }
}

/// A completed run leaves the container existing in the runtime.
pub proof fn lemma_done_implies_exists(f: ProvisionFlow)
    requires
        f.wf(),
        f.stage is Done,
    ensures
        f.container_exists,
{
}

/// A run that finds the container in place takes the starting path and does
/// not create: with `lemma_done_implies_exists`, re-running after a
/// completed run performs no second creation.
pub proof fn lemma_rerun_creates_nothing(f: ProvisionFlow)
    requires
        f.stage is CheckingContainer,
        !f.issued_create,
    ensures
        ({
            let g = spec_advance(f, ProvisionEvent::ContainerChecked { exists: true });
            &&& g.stage is StartingContainer
            &&& !g.issued_create
        }),
{
}

/// Once past the existence check without having created, a run never
/// creates: no later stage returns to the check, and only the check can
/// take the creation path.
pub proof fn lemma_no_create_after_check(f: ProvisionFlow, e: ProvisionEvent)
    requires
        !(f.stage is CheckingContainer),
        !f.issued_create,
        event_fits(f.stage, e),
    ensures
        !(spec_advance(f, e).stage is CheckingContainer),
        !spec_advance(f, e).issued_create,
{
}

} // verus!
