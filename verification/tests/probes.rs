use devstack::installer::install_script;
use devstack::setup::SystemSetup;

#[test]
fn pro_edition_is_compatible() {
    let caption = b"Microsoft Windows 11 Pro".to_vec();
    assert!(SystemSetup::check_windows_version(&caption));
}

#[test]
fn enterprise_and_education_editions_are_compatible() {
    assert!(SystemSetup::check_windows_version(&b"Windows 10 Enterprise".to_vec()));
    assert!(SystemSetup::check_windows_version(&b"WINDOWS 11 EDUCATION".to_vec()));
}

#[test]
fn home_edition_is_incompatible() {
    let caption = b"Microsoft Windows 11 Home".to_vec();
    assert!(!SystemSetup::check_windows_version(&caption));
}

#[test]
fn undetermined_edition_is_treated_as_compatible() {
    assert!(SystemSetup::check_windows_version(&b"".to_vec()));
    assert!(SystemSetup::check_windows_version(&b"??? no edition field ???".to_vec()));
}

#[test]
fn service_status_running_is_detected_trimmed_and_case_insensitive() {
    assert!(SystemSetup::is_docker_running(&b"  Running \r\n".to_vec()));
    assert!(SystemSetup::is_docker_running(&b"running".to_vec()));
    assert!(!SystemSetup::is_docker_running(&b"Stopped".to_vec()));
    assert!(!SystemSetup::is_docker_running(&b"Running the show".to_vec()));
    assert!(!SystemSetup::is_docker_running(&b"".to_vec()));
}

#[test]
fn container_listing_is_matched_byte_for_byte() {
    assert!(SystemSetup::check_mysql_container(&b"mysql\n".to_vec()));
    assert!(SystemSetup::check_mysql_container(&b"some-mysql-container".to_vec()));
    assert!(!SystemSetup::check_mysql_container(&b"MYSQL\n".to_vec()));
    assert!(!SystemSetup::check_mysql_container(&b"".to_vec()));
}

#[test]
fn install_script_embeds_the_installer_path() {
    let script = install_script("C:\\temp\\DockerDesktopInstaller.exe");
    assert!(script.contains("$installerPath = 'C:\\temp\\DockerDesktopInstaller.exe'"));
    assert!(script.contains("install --quiet"));
    assert!(script.contains("Remove-Item -Force $installerPath"));
    assert!(script.contains("$maxRetries = 12"));
    assert!(script.contains("Start-Sleep -Seconds 10"));
}
