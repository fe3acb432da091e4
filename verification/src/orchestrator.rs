use vstd::prelude::*;

use crate::installer::InstallError;
use crate::provision::ProvisionError;

verus! {

/// The terminal failures of a bootstrap run.
#[derive(PartialEq, Eq, Structural, Clone, Copy, Debug)]
pub enum SetupError {
    IncompatibleOs,
    InstallerFailed { error: InstallError },
    RuntimeNotRunning,
    ProvisioningFailed { error: ProvisionError },
}

/// Where a bootstrap run stands.
#[derive(PartialEq, Eq, Structural, Clone, Copy, Debug)]
pub enum SetupStage {
    CheckingEdition,
    CheckingRuntime,
    InstallingRuntime,
    VerifyingRunning,
    ProvisioningDatabase,
    Done,
    Failed { error: SetupError },
}

/// What the driver must do next.
#[derive(PartialEq, Eq, Structural, Clone, Copy, Debug)]
pub enum SetupAction {
    CheckEdition,
    CheckRuntime,
    RunInstaller,
    CheckService,
    ProvisionDatabase,
    Stop,
}

/// What the driver observed. The two probes report `None` when the probe
/// command itself failed; the run then continues rather than aborting.
#[derive(Clone, Copy, Debug)]
pub enum SetupEvent {
    EditionChecked { compatible: Option<bool> },
    RuntimeChecked { present: bool },
    InstallFinished { result: Result<(), InstallError> },
    ServiceChecked { running: Option<bool> },
    ProvisionFinished { result: Result<(), ProvisionError> },
}

/// The bootstrap workflow: edition check, conditional installation,
/// service check, then database provisioning; a failure at any step is
/// terminal.
pub struct SetupFlow {
    pub stage: SetupStage,
}

/// Which events a stage can consume.
pub open spec fn event_fits(stage: SetupStage, e: SetupEvent) -> bool {
    match stage {
        SetupStage::CheckingEdition => e is EditionChecked,
        SetupStage::CheckingRuntime => e is RuntimeChecked,
        SetupStage::InstallingRuntime => e is InstallFinished,
        SetupStage::VerifyingRunning => e is ServiceChecked,
        SetupStage::ProvisioningDatabase => e is ProvisionFinished,
        SetupStage::Done => false,
        SetupStage::Failed { .. } => false,
    }
}

/// The transition relation. Two probe failures are swallowed deliberately:
/// an undetermined edition is treated as compatible, and an undetermined
/// service state skips provisioning and completes the run — the behaviour
/// chosen here is fail-open, so that a broken probe never blocks the user.
pub open spec fn spec_advance(f: SetupFlow, e: SetupEvent) -> SetupFlow {
    match (f.stage, e) {
        (SetupStage::CheckingEdition, SetupEvent::EditionChecked { compatible }) => match compatible {
            Some(false) => SetupFlow {
                stage: SetupStage::Failed { error: SetupError::IncompatibleOs },
            },
            _ => SetupFlow { stage: SetupStage::CheckingRuntime },
        },
        (SetupStage::CheckingRuntime, SetupEvent::RuntimeChecked { present }) => if present {
            SetupFlow { stage: SetupStage::VerifyingRunning }
        } else {
            SetupFlow { stage: SetupStage::InstallingRuntime }
        },
        (SetupStage::InstallingRuntime, SetupEvent::InstallFinished { result }) => match result {
            Ok(_) => SetupFlow { stage: SetupStage::VerifyingRunning },
            Err(error) => SetupFlow {
                stage: SetupStage::Failed { error: SetupError::InstallerFailed { error } },
            },
        },
        (SetupStage::VerifyingRunning, SetupEvent::ServiceChecked { running }) => match running {
            Some(true) => SetupFlow { stage: SetupStage::ProvisioningDatabase },
            Some(false) => SetupFlow {
                stage: SetupStage::Failed { error: SetupError::RuntimeNotRunning },
            },
            None => SetupFlow { stage: SetupStage::Done },
        },
        (SetupStage::ProvisioningDatabase, SetupEvent::ProvisionFinished { result }) => match result {
            Ok(_) => SetupFlow { stage: SetupStage::Done },
            Err(error) => SetupFlow {
                stage: SetupStage::Failed { error: SetupError::ProvisioningFailed { error } },
            },
        },
        _ => f,
    }
}

impl SetupFlow {
    /// A bound that every step decreases: the driver's loop terminates.
    pub open spec fn spec_measure(&self) -> int {
        match self.stage {
            SetupStage::CheckingEdition => 5,
            SetupStage::CheckingRuntime => 4,
            SetupStage::InstallingRuntime => 3,
            SetupStage::VerifyingRunning => 2,
            SetupStage::ProvisioningDatabase => 1,
            SetupStage::Done => 0,
            SetupStage::Failed { .. } => 0,
        }
    }

    /// A fresh run, about to check the edition.
    pub fn new() -> (f: SetupFlow)
        ensures
            f.stage == SetupStage::CheckingEdition,
    {
        SetupFlow { stage: SetupStage::CheckingEdition }
    }

    /// The action the driver must perform in the current stage.
    pub open spec fn spec_action(stage: SetupStage) -> SetupAction {
        match stage {
            SetupStage::CheckingEdition => SetupAction::CheckEdition,
            SetupStage::CheckingRuntime => SetupAction::CheckRuntime,
            SetupStage::InstallingRuntime => SetupAction::RunInstaller,
            SetupStage::VerifyingRunning => SetupAction::CheckService,
            SetupStage::ProvisioningDatabase => SetupAction::ProvisionDatabase,
            SetupStage::Done => SetupAction::Stop,
            SetupStage::Failed { .. } => SetupAction::Stop,
        }
    }

    pub fn action(&self) -> (a: SetupAction)
        ensures
            a == SetupFlow::spec_action(self.stage),
    {
        match self.stage {
            SetupStage::CheckingEdition => SetupAction::CheckEdition,
            SetupStage::CheckingRuntime => SetupAction::CheckRuntime,
            SetupStage::InstallingRuntime => SetupAction::RunInstaller,
            SetupStage::VerifyingRunning => SetupAction::CheckService,
            SetupStage::ProvisioningDatabase => SetupAction::ProvisionDatabase,
            SetupStage::Done => SetupAction::Stop,
            SetupStage::Failed { .. } => SetupAction::Stop,
        }
    }

    /// Consumes one observation and moves to the next stage.
    pub fn advance(&mut self, e: SetupEvent)
        requires
            event_fits(old(self).stage, e),
        ensures
            *final(self) == spec_advance(*old(self), e),
            final(self).spec_measure() < old(self).spec_measure(),
    {
        let next = match (self.stage, e) {
            (SetupStage::CheckingEdition, SetupEvent::EditionChecked { compatible }) => match compatible {
                Some(false) => SetupFlow {
                    stage: SetupStage::Failed { error: SetupError::IncompatibleOs },
                },
                _ => SetupFlow { stage: SetupStage::CheckingRuntime },
            },
            (SetupStage::CheckingRuntime, SetupEvent::RuntimeChecked { present }) => if present {
                SetupFlow { stage: SetupStage::VerifyingRunning }
            } else {
                SetupFlow { stage: SetupStage::InstallingRuntime }
            },
            (SetupStage::InstallingRuntime, SetupEvent::InstallFinished { result }) => match result {
                Ok(_) => SetupFlow { stage: SetupStage::VerifyingRunning },
                Err(error) => SetupFlow {
                    stage: SetupStage::Failed { error: SetupError::InstallerFailed { error } },
                },
            },
            (SetupStage::VerifyingRunning, SetupEvent::ServiceChecked { running }) => match running {
                Some(true) => SetupFlow { stage: SetupStage::ProvisioningDatabase },
                Some(false) => SetupFlow {
                    stage: SetupStage::Failed { error: SetupError::RuntimeNotRunning },
                },
                None => SetupFlow { stage: SetupStage::Done },
            },
            (SetupStage::ProvisioningDatabase, SetupEvent::ProvisionFinished { result }) => match result {
                Ok(_) => SetupFlow { stage: SetupStage::Done },
                Err(error) => SetupFlow {
                    stage: SetupStage::Failed { error: SetupError::ProvisioningFailed { error } },
                },
            },
            _ => SetupFlow { stage: self.stage },
        };
        *self = next;
    }
}

impl SetupError {
    /// The display string handed to the command boundary and to the
    /// asynchronous failure event.
    pub fn message(&self) -> (r: String)
        ensures
            self is IncompatibleOs ==> r@
                == "Docker Desktop requires Windows 10/11 Pro, Enterprise, or Education"@,
            self is RuntimeNotRunning ==> r@
                == "Docker is installed but not running. Please start Docker Desktop."@,
            (self matches SetupError::InstallerFailed { error } && error is DownloadFailed) ==> r@
                == "Failed to download Docker installer"@,
            (self matches SetupError::InstallerFailed { error } && error is ScriptFailed) ==> r@
                == "Installation failed"@,
            (self matches SetupError::InstallerFailed { error } && error is RuntimeUnresponsive)
                ==> r@
                == "Docker installation completed but Docker is not responding. Please start Docker Desktop manually."@,
            (self matches SetupError::ProvisioningFailed { error } && error is CreateFailed) ==> r@
                == "Failed to create MySQL container"@,
            (self matches SetupError::ProvisioningFailed { error } && error is StartFailed) ==> r@
                == "Failed to start MySQL container"@,
    {
        match self {
            SetupError::IncompatibleOs => String::from_str(
                "Docker Desktop requires Windows 10/11 Pro, Enterprise, or Education",
            ),
            SetupError::RuntimeNotRunning => String::from_str(
                "Docker is installed but not running. Please start Docker Desktop.",
            ),
            SetupError::InstallerFailed { error: InstallError::DownloadFailed } => String::from_str(
                "Failed to download Docker installer",
            ),
            SetupError::InstallerFailed { error: InstallError::ScriptFailed } => String::from_str(
                "Installation failed",
            ),
            SetupError::InstallerFailed { error: InstallError::RuntimeUnresponsive } => String::from_str(
                "Docker installation completed but Docker is not responding. Please start Docker Desktop manually.",
            ),
            SetupError::ProvisioningFailed { error: ProvisionError::CreateFailed } => String::from_str(
                "Failed to create MySQL container",
            ),
            SetupError::ProvisioningFailed { error: ProvisionError::StartFailed } => String::from_str(
                "Failed to start MySQL container",
            ),
        }
    }
}

} // verus!
