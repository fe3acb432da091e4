use devstack::installer::{InstallAction, InstallError, InstallEvent, InstallStage, InstallerFlow};
use devstack::orchestrator::{SetupAction, SetupError, SetupEvent, SetupFlow, SetupStage};
use devstack::provision::{ProvisionAction, ProvisionError, ProvisionEvent, ProvisionFlow,
    ProvisionStage};

#[test]
fn installer_happy_path_reaches_done_with_clean_disk() {
    let mut f = InstallerFlow::new();
    assert_eq!(f.action(), InstallAction::Download);
    f.advance(InstallEvent::Downloaded { ok: true });
    assert_eq!(f.action(), InstallAction::WriteScript);
    f.advance(InstallEvent::ScriptWritten { ok: true });
    assert_eq!(f.action(), InstallAction::RunScript);
    f.advance(InstallEvent::ScriptRun { launched: true, exit_ok: true });
    assert_eq!(f.action(), InstallAction::RemoveScript);
    f.advance(InstallEvent::ScriptRemoved);
    assert_eq!(f.action(), InstallAction::CheckRuntime);
    f.advance(InstallEvent::RuntimeChecked { present: true });
    assert_eq!(f.stage, InstallStage::Done);
    assert!(!f.installer_on_disk);
    assert!(!f.script_on_disk);
}

#[test]
fn installer_script_failure_reports_and_cleans_up() {
    let mut f = InstallerFlow::new();
    f.advance(InstallEvent::Downloaded { ok: true });
    f.advance(InstallEvent::ScriptWritten { ok: true });
    f.advance(InstallEvent::ScriptRun { launched: true, exit_ok: false });
    f.advance(InstallEvent::ScriptRemoved);
    assert_eq!(f.stage, InstallStage::Failed { error: InstallError::ScriptFailed });
    assert!(!f.installer_on_disk);
    assert!(!f.script_on_disk);
}

#[test]
fn installer_download_failure_is_terminal() {
    let mut f = InstallerFlow::new();
    f.advance(InstallEvent::Downloaded { ok: false });
    assert_eq!(f.stage, InstallStage::Failed { error: InstallError::DownloadFailed });
    assert!(!f.installer_on_disk);
    assert!(!f.script_on_disk);
}

#[test]
fn installer_gives_up_after_six_probes_with_five_sleeps() {
    let mut f = InstallerFlow::new();
    f.advance(InstallEvent::Downloaded { ok: true });
    f.advance(InstallEvent::ScriptWritten { ok: true });
    f.advance(InstallEvent::ScriptRun { launched: true, exit_ok: true });
    f.advance(InstallEvent::ScriptRemoved);

    let mut probes = 0;
    let mut sleeps = 0;
    loop {
        match f.action() {
            InstallAction::CheckRuntime => {
                probes += 1;
                f.advance(InstallEvent::RuntimeChecked { present: false });
            }
            InstallAction::Sleep => {
                sleeps += 1;
                f.advance(InstallEvent::Slept);
            }
            InstallAction::Stop => break,
            other => panic!("unexpected action {:?}", other),
        }
    }
    assert_eq!(probes, 6);
    assert_eq!(sleeps, 5);
    assert_eq!(f.stage, InstallStage::Failed { error: InstallError::RuntimeUnresponsive });
}

#[test]
fn provisioning_creates_once_then_only_starts() {
    let mut first = ProvisionFlow::new();
    assert_eq!(first.action(), ProvisionAction::ListContainers);
    first.advance(ProvisionEvent::ContainerChecked { exists: false });
    assert_eq!(first.action(), ProvisionAction::RunCreateCommand);
    first.advance(ProvisionEvent::CommandFinished { ok: true });
    assert_eq!(first.action(), ProvisionAction::WaitForInit);
    first.advance(ProvisionEvent::Warmed);
    assert_eq!(first.stage, ProvisionStage::Done);
    assert!(first.issued_create);
    assert!(first.container_exists);

    let mut second = ProvisionFlow::new();
    second.advance(ProvisionEvent::ContainerChecked { exists: first.container_exists });
    assert_eq!(second.action(), ProvisionAction::RunStartCommand);
    second.advance(ProvisionEvent::CommandFinished { ok: true });
    second.advance(ProvisionEvent::Warmed);
    assert_eq!(second.stage, ProvisionStage::Done);
    assert!(!second.issued_create);
}

#[test]
fn provisioning_failures_name_the_failing_command() {
    let mut f = ProvisionFlow::new();
    f.advance(ProvisionEvent::ContainerChecked { exists: false });
    f.advance(ProvisionEvent::CommandFinished { ok: false });
    assert_eq!(f.stage, ProvisionStage::Failed { error: ProvisionError::CreateFailed });

    let mut g = ProvisionFlow::new();
    g.advance(ProvisionEvent::ContainerChecked { exists: true });
    g.advance(ProvisionEvent::CommandFinished { ok: false });
    assert_eq!(g.stage, ProvisionStage::Failed { error: ProvisionError::StartFailed });
}

#[test]
fn bootstrap_full_run_reaches_done() {
    let mut f = SetupFlow::new();
    assert_eq!(f.action(), SetupAction::CheckEdition);
    f.advance(SetupEvent::EditionChecked { compatible: Some(true) });
    assert_eq!(f.action(), SetupAction::CheckRuntime);
    f.advance(SetupEvent::RuntimeChecked { present: true });
    assert_eq!(f.action(), SetupAction::CheckService);
    f.advance(SetupEvent::ServiceChecked { running: Some(true) });
    assert_eq!(f.action(), SetupAction::ProvisionDatabase);
    f.advance(SetupEvent::ProvisionFinished { result: Ok(()) });
    assert_eq!(f.stage, SetupStage::Done);
}

#[test]
fn bootstrap_incompatible_edition_is_terminal() {
    let mut f = SetupFlow::new();
    f.advance(SetupEvent::EditionChecked { compatible: Some(false) });
    assert_eq!(f.stage, SetupStage::Failed { error: SetupError::IncompatibleOs });
    assert_eq!(
        SetupError::IncompatibleOs.message(),
        "Docker Desktop requires Windows 10/11 Pro, Enterprise, or Education"
    );
}

#[test]
fn bootstrap_probe_failures_fail_open() {
    let mut f = SetupFlow::new();
    f.advance(SetupEvent::EditionChecked { compatible: None });
    assert_eq!(f.stage, SetupStage::CheckingRuntime);
    f.advance(SetupEvent::RuntimeChecked { present: true });
    f.advance(SetupEvent::ServiceChecked { running: None });
    assert_eq!(f.stage, SetupStage::Done);
}

#[test]
fn bootstrap_installs_when_runtime_absent_and_surfaces_installer_failure() {
    let mut f = SetupFlow::new();
    f.advance(SetupEvent::EditionChecked { compatible: Some(true) });
    f.advance(SetupEvent::RuntimeChecked { present: false });
    assert_eq!(f.action(), SetupAction::RunInstaller);
    f.advance(SetupEvent::InstallFinished { result: Err(InstallError::ScriptFailed) });
    assert_eq!(
        f.stage,
        SetupStage::Failed {
            error: SetupError::InstallerFailed { error: InstallError::ScriptFailed }
        }
    );
    let failed = SetupError::InstallerFailed { error: InstallError::ScriptFailed };
    assert_eq!(failed.message(), "Installation failed");
}

#[test]
fn bootstrap_stopped_service_is_terminal() {
    let mut f = SetupFlow::new();
    f.advance(SetupEvent::EditionChecked { compatible: Some(true) });
    f.advance(SetupEvent::RuntimeChecked { present: true });
    f.advance(SetupEvent::ServiceChecked { running: Some(false) });
    assert_eq!(f.stage, SetupStage::Failed { error: SetupError::RuntimeNotRunning });
    assert_eq!(
        SetupError::RuntimeNotRunning.message(),
        "Docker is installed but not running. Please start Docker Desktop."
    );
}

#[test]
fn bootstrap_provisioning_failure_is_terminal() {
    let mut f = SetupFlow::new();
    f.advance(SetupEvent::EditionChecked { compatible: Some(true) });
    f.advance(SetupEvent::RuntimeChecked { present: true });
    f.advance(SetupEvent::ServiceChecked { running: Some(true) });
    f.advance(SetupEvent::ProvisionFinished { result: Err(ProvisionError::CreateFailed) });
    assert_eq!(
        f.stage,
        SetupStage::Failed {
            error: SetupError::ProvisioningFailed { error: ProvisionError::CreateFailed }
        }
    );
    let failed = SetupError::ProvisioningFailed { error: ProvisionError::CreateFailed };
    assert_eq!(failed.message(), "Failed to create MySQL container");
}

#[test]
fn fresh_store_lists_no_users() {
    let db = devstack::database::Database::new();
    assert!(db.get_all_users().is_empty());
}
