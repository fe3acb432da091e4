use vstd::prelude::*;

verus! {

/// How many times the runtime is probed after the installer script ends.
pub const POLL_ATTEMPTS: u8 = 6;

/// Why an installation attempt failed.
#[derive(PartialEq, Eq, Structural, Clone, Copy, Debug)]
pub enum InstallError {
    DownloadFailed,
    ScriptFailed,
    RuntimeUnresponsive,
}

/// Where an installation stands.
#[derive(PartialEq, Eq, Structural, Clone, Copy, Debug)]
pub enum InstallStage {
    Downloading,
    WritingScript,
    RunningScript,
    RemovingScript { script_ok: bool },
    PollingRuntime { attempts_left: u8 },
    Sleeping { attempts_left: u8 },
    Done,
    Failed { error: InstallError },
}

/// What the driver must do next.
#[derive(PartialEq, Eq, Structural, Clone, Copy, Debug)]
pub enum InstallAction {
    Download,
    WriteScript,
    RunScript,
    RemoveScript,
    CheckRuntime,
    Sleep,
    Stop,
}

/// What the driver observed. `ScriptRun` reports whether the shell was
/// launched at all and, if so, whether the script exited successfully; the
/// script itself removes the downloaded installer on every exit path, so a
/// run that launched clears it from disk whatever its exit status.
#[derive(PartialEq, Eq, Structural, Clone, Copy, Debug)]
pub enum InstallEvent {
    Downloaded { ok: bool },
    ScriptWritten { ok: bool },
    ScriptRun { launched: bool, exit_ok: bool },
    ScriptRemoved,
    RuntimeChecked { present: bool },
    Slept,
}

/// The installation workflow with a record of which of its two temporary
/// files are on disk: the downloaded installer and the generated script.
pub struct InstallerFlow {
    pub stage: InstallStage,
    pub installer_on_disk: bool,
    pub script_on_disk: bool,
}

/// Which events a stage can consume.
pub open spec fn event_fits(stage: InstallStage, e: InstallEvent) -> bool {
    match stage {
        InstallStage::Downloading => e is Downloaded,
        InstallStage::WritingScript => e is ScriptWritten,
        InstallStage::RunningScript => e is ScriptRun,
        InstallStage::RemovingScript { .. } => e is ScriptRemoved,
        InstallStage::PollingRuntime { .. } => e is RuntimeChecked,
        InstallStage::Sleeping { .. } => e is Slept,
        InstallStage::Done => false,
        InstallStage::Failed { .. } => false,
    }
}

/// The transition relation of the workflow.
pub open spec fn spec_advance(f: InstallerFlow, e: InstallEvent) -> InstallerFlow {
    match (f.stage, e) {
        (InstallStage::Downloading, InstallEvent::Downloaded { ok }) => if ok {
            InstallerFlow {
                stage: InstallStage::WritingScript,
                installer_on_disk: true,
                script_on_disk: f.script_on_disk,
            }
        } else {
            InstallerFlow {
                stage: InstallStage::Failed { error: InstallError::DownloadFailed },
                ..f
            }
        },
        (InstallStage::WritingScript, InstallEvent::ScriptWritten { ok }) => if ok {
            InstallerFlow {
                stage: InstallStage::RunningScript,
                installer_on_disk: f.installer_on_disk,
                script_on_disk: true,
            }
        } else {
            InstallerFlow { stage: InstallStage::Failed { error: InstallError::ScriptFailed }, ..f }
        },
        (InstallStage::RunningScript, InstallEvent::ScriptRun { launched, exit_ok }) => if launched {
            InstallerFlow {
                stage: InstallStage::RemovingScript { script_ok: exit_ok },
                installer_on_disk: false,
                script_on_disk: f.script_on_disk,
            }
        } else {
            InstallerFlow { stage: InstallStage::Failed { error: InstallError::ScriptFailed }, ..f }
        },
        (InstallStage::RemovingScript { script_ok }, InstallEvent::ScriptRemoved) => if script_ok {
            InstallerFlow {
                stage: InstallStage::PollingRuntime { attempts_left: POLL_ATTEMPTS },
                installer_on_disk: f.installer_on_disk,
                script_on_disk: false,
            }
        } else {
            InstallerFlow {
                stage: InstallStage::Failed { error: InstallError::ScriptFailed },
                installer_on_disk: f.installer_on_disk,
                script_on_disk: false,
            }
        },
        (
            InstallStage::PollingRuntime { attempts_left },
            InstallEvent::RuntimeChecked { present },
        ) => if present {
            InstallerFlow { stage: InstallStage::Done, ..f }
        } else if attempts_left > 1 {
            InstallerFlow {
                stage: InstallStage::Sleeping { attempts_left: (attempts_left - 1) as u8 },
                ..f
            }
        } else {
            InstallerFlow {
                stage: InstallStage::Failed { error: InstallError::RuntimeUnresponsive },
                ..f
            }
        },
        (InstallStage::Sleeping { attempts_left }, InstallEvent::Slept) => InstallerFlow {
            stage: InstallStage::PollingRuntime { attempts_left },
            ..f
        },
        _ => f,
    }
}

impl InstallerFlow {
    /// Which files can be on disk at each stage. A script that could not be
    /// written or launched is the one failure that may leave files behind;
    /// every other terminal stage is clean.
    pub open spec fn wf(&self) -> bool {
        match self.stage {
            InstallStage::Downloading => !self.installer_on_disk && !self.script_on_disk,
            InstallStage::WritingScript => self.installer_on_disk && !self.script_on_disk,
            InstallStage::RunningScript => self.installer_on_disk && self.script_on_disk,
            InstallStage::RemovingScript { .. } => !self.installer_on_disk && self.script_on_disk,
            InstallStage::PollingRuntime { attempts_left } => !self.installer_on_disk
                && !self.script_on_disk && 1 <= attempts_left <= POLL_ATTEMPTS,
            InstallStage::Sleeping { attempts_left } => !self.installer_on_disk
                && !self.script_on_disk && 1 <= attempts_left < POLL_ATTEMPTS,
            InstallStage::Done => !self.installer_on_disk && !self.script_on_disk,
            InstallStage::Failed { error } => error is ScriptFailed || (!self.installer_on_disk
                && !self.script_on_disk),
        }
    }

    /// A bound that every step decreases: the driver's loop terminates.
    pub open spec fn spec_measure(&self) -> int {
        match self.stage {
            InstallStage::Downloading => 20,
            InstallStage::WritingScript => 19,
            InstallStage::RunningScript => 18,
            InstallStage::RemovingScript { .. } => 17,
            InstallStage::PollingRuntime { attempts_left } => 2 * attempts_left + 1,
            InstallStage::Sleeping { attempts_left } => 2 * attempts_left + 2,
            InstallStage::Done => 0,
            InstallStage::Failed { .. } => 0,
        }
    }

    /// A fresh installation, about to download the installer.
    pub fn new() -> (f: InstallerFlow)
        ensures
            f.stage == InstallStage::Downloading,
            !f.installer_on_disk,
            !f.script_on_disk,
            f.wf(),
    {
        InstallerFlow {
            stage: InstallStage::Downloading,
            installer_on_disk: false,
            script_on_disk: false,
        }
    }

    /// The action the driver must perform in the current stage.
    pub open spec fn spec_action(stage: InstallStage) -> InstallAction {
        match stage {
            InstallStage::Downloading => InstallAction::Download,
            InstallStage::WritingScript => InstallAction::WriteScript,
            InstallStage::RunningScript => InstallAction::RunScript,
            InstallStage::RemovingScript { .. } => InstallAction::RemoveScript,
            InstallStage::PollingRuntime { .. } => InstallAction::CheckRuntime,
            InstallStage::Sleeping { .. } => InstallAction::Sleep,
            InstallStage::Done => InstallAction::Stop,
            InstallStage::Failed { .. } => InstallAction::Stop,
        }
    }

    pub fn action(&self) -> (a: InstallAction)
        ensures
            a == InstallerFlow::spec_action(self.stage),
    {
        match self.stage {
            InstallStage::Downloading => InstallAction::Download,
            InstallStage::WritingScript => InstallAction::WriteScript,
            InstallStage::RunningScript => InstallAction::RunScript,
            InstallStage::RemovingScript { .. } => InstallAction::RemoveScript,
            InstallStage::PollingRuntime { .. } => InstallAction::CheckRuntime,
            InstallStage::Sleeping { .. } => InstallAction::Sleep,
            InstallStage::Done => InstallAction::Stop,
            InstallStage::Failed { .. } => InstallAction::Stop,
        }
    }

    /// Consumes one observation and moves to the next stage.
    pub fn advance(&mut self, e: InstallEvent)
        requires
            old(self).wf(),
            event_fits(old(self).stage, e),
        ensures
            *final(self) == spec_advance(*old(self), e),
            final(self).wf(),
            final(self).spec_measure() < old(self).spec_measure(),
    {
        let next = match (self.stage, e) {
            (InstallStage::Downloading, InstallEvent::Downloaded { ok }) => if ok {
                InstallerFlow {
                    stage: InstallStage::WritingScript,
                    installer_on_disk: true,
                    script_on_disk: self.script_on_disk,
                }
            } else {
                InstallerFlow {
                    stage: InstallStage::Failed { error: InstallError::DownloadFailed },
                    installer_on_disk: self.installer_on_disk,
                    script_on_disk: self.script_on_disk,
                }
            },
            (InstallStage::WritingScript, InstallEvent::ScriptWritten { ok }) => if ok {
                InstallerFlow {
                    stage: InstallStage::RunningScript,
                    installer_on_disk: self.installer_on_disk,
                    script_on_disk: true,
                }
            } else {
                InstallerFlow {
                    stage: InstallStage::Failed { error: InstallError::ScriptFailed },
                    installer_on_disk: self.installer_on_disk,
                    script_on_disk: self.script_on_disk,
                }
            },
            (InstallStage::RunningScript, InstallEvent::ScriptRun { launched, exit_ok }) => if launched {
                InstallerFlow {
                    stage: InstallStage::RemovingScript { script_ok: exit_ok },
                    installer_on_disk: false,
                    script_on_disk: self.script_on_disk,
                }
            } else {
                InstallerFlow {
                    stage: InstallStage::Failed { error: InstallError::ScriptFailed },
                    installer_on_disk: self.installer_on_disk,
                    script_on_disk: self.script_on_disk,
                }
            },
            (InstallStage::RemovingScript { script_ok }, InstallEvent::ScriptRemoved) => if script_ok {
                InstallerFlow {
                    stage: InstallStage::PollingRuntime { attempts_left: POLL_ATTEMPTS },
                    installer_on_disk: self.installer_on_disk,
                    script_on_disk: false,
                }
            } else {
                InstallerFlow {
                    stage: InstallStage::Failed { error: InstallError::ScriptFailed },
                    installer_on_disk: self.installer_on_disk,
                    script_on_disk: false,
                }
            },
            (
                InstallStage::PollingRuntime { attempts_left },
                InstallEvent::RuntimeChecked { present },
            ) => if present {
                InstallerFlow {
                    stage: InstallStage::Done,
                    installer_on_disk: self.installer_on_disk,
                    script_on_disk: self.script_on_disk,
                }
            } else if attempts_left > 1 {
                InstallerFlow {
                    stage: InstallStage::Sleeping { attempts_left: attempts_left - 1 },
                    installer_on_disk: self.installer_on_disk,
                    script_on_disk: self.script_on_disk,
                }
            } else {
                InstallerFlow {
                    stage: InstallStage::Failed { error: InstallError::RuntimeUnresponsive },
                    installer_on_disk: self.installer_on_disk,
                    script_on_disk: self.script_on_disk,
                }
            },
            (InstallStage::Sleeping { attempts_left }, InstallEvent::Slept) => InstallerFlow {
                stage: InstallStage::PollingRuntime { attempts_left },
                installer_on_disk: self.installer_on_disk,
                script_on_disk: self.script_on_disk,
            },
            _ => InstallerFlow {
                stage: self.stage,
                installer_on_disk: self.installer_on_disk,
                script_on_disk: self.script_on_disk,
            },
        };
        *self = next;
    }
}


/// The provisioning script handed to the host shell: it repairs a prior
/// installation if one is found, runs the installer quietly, fails on a
/// non-zero installer exit code, launches the runtime and polls its service
/// every ten seconds up to twelve times, and removes the downloaded
/// installer on every exit path.
pub open spec fn spec_install_script(path: Seq<char>) -> Seq<char> {
    r#"
$ErrorActionPreference = 'Stop'
$installerPath = '"#@ + path + r#"'

function Wait-DockerService {
    $retries = 0
    $maxRetries = 12

    Write-Host "Waiting for Docker service to start..."
    do {
        $service = Get-Service -Name "com.docker.service" -ErrorAction SilentlyContinue
        if ($service -and $service.Status -eq 'Running') {
            Write-Host "Docker service is running."
            return $true
        }
        Start-Sleep -Seconds 10
        $retries++
        Write-Host "Waiting... Attempt $retries of $maxRetries"
    } while ($retries -lt $maxRetries)

    return $false
}

try {
    $installed = Get-WmiObject -Class Win32_Product | Where-Object { $_.Name -like "*Docker Desktop*" }
    if ($installed) {
        Write-Host "Docker Desktop is already installed. Attempting to repair/update..."
        $process = Start-Process -FilePath $installerPath -ArgumentList "uninstall --quiet" -Wait -PassThru -Verb RunAs
        Start-Sleep -Seconds 10
    }

    Write-Host "Installing Docker Desktop..."
    $process = Start-Process -FilePath $installerPath -ArgumentList "install --quiet" -Wait -PassThru -Verb RunAs

    if ($process.ExitCode -ne 0) {
        throw "Installation failed with exit code $($process.ExitCode)"
    }

    Write-Host "Installation completed. Starting Docker..."
    Start-Sleep -Seconds 10

    $dockerPath = "$env:ProgramFiles\Docker\Docker\Docker Desktop.exe"
    Start-Process -FilePath $dockerPath

    if (Wait-DockerService) {
        Write-Host "Docker Desktop installation and startup successful."
        exit 0
    } else {
        throw "Docker service failed to start after installation."
    }
} catch {
    Write-Error "Installation failed: $_"
    exit 1
} finally {
    if (Test-Path $installerPath) {
        Remove-Item -Force $installerPath
    }
}
"#@
}

/// Builds the provisioning script around the installer's download path.
pub fn install_script(installer_path: &str) -> (r: String)
    ensures
        r@ == spec_install_script(installer_path@),
{
    let mut s = String::from_str(r#"
$ErrorActionPreference = 'Stop'
$installerPath = '"#);
    s.append(installer_path);
    s.append(r#"'

function Wait-DockerService {
    $retries = 0
    $maxRetries = 12

    Write-Host "Waiting for Docker service to start..."
    do {
        $service = Get-Service -Name "com.docker.service" -ErrorAction SilentlyContinue
        if ($service -and $service.Status -eq 'Running') {
            Write-Host "Docker service is running."
            return $true
        }
        Start-Sleep -Seconds 10
        $retries++
        Write-Host "Waiting... Attempt $retries of $maxRetries"
    } while ($retries -lt $maxRetries)

    return $false
}

try {
    $installed = Get-WmiObject -Class Win32_Product | Where-Object { $_.Name -like "*Docker Desktop*" }
    if ($installed) {
        Write-Host "Docker Desktop is already installed. Attempting to repair/update..."
        $process = Start-Process -FilePath $installerPath -ArgumentList "uninstall --quiet" -Wait -PassThru -Verb RunAs
        Start-Sleep -Seconds 10
    }

    Write-Host "Installing Docker Desktop..."
    $process = Start-Process -FilePath $installerPath -ArgumentList "install --quiet" -Wait -PassThru -Verb RunAs

    if ($process.ExitCode -ne 0) {
        throw "Installation failed with exit code $($process.ExitCode)"
    }

    Write-Host "Installation completed. Starting Docker..."
    Start-Sleep -Seconds 10

    $dockerPath = "$env:ProgramFiles\Docker\Docker\Docker Desktop.exe"
    Start-Process -FilePath $dockerPath

    if (Wait-DockerService) {
        Write-Host "Docker Desktop installation and startup successful."
        exit 0
    } else {
        throw "Docker service failed to start after installation."
    }
} catch {
    Write-Error "Installation failed: $_"
    exit 1
} finally {
    if (Test-Path $installerPath) {
        Remove-Item -Force $installerPath
    }
}
"#);
    s
}

/// An installer script that ran and exited non-zero ends the workflow as a
/// script failure, and neither the downloaded installer nor the generated
/// script is left on disk: the script removed the installer on its own
/// failure path, and the workflow removes the script before reading the
/// exit status.
pub proof fn lemma_script_failure_leaves_no_files(f: InstallerFlow)
    requires
        f.wf(),
        f.stage == (InstallStage::RemovingScript { script_ok: false }),
    ensures
        ({
            let g = spec_advance(f, InstallEvent::ScriptRemoved);
            &&& g.stage == (InstallStage::Failed { error: InstallError::ScriptFailed })
            &&& !g.installer_on_disk
            &&& !g.script_on_disk
        }),
{
}

/// A completed installation leaves no temporary file on disk.
pub proof fn lemma_done_leaves_no_files(f: InstallerFlow)
    requires
        f.wf(),
        f.stage is Done,
    ensures
        !f.installer_on_disk,
        !f.script_on_disk,
{
}

} // verus!
