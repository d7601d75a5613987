use system_recorder::system::{os_version_string, supports_process_loopback, OsVersion};

fn version(major: u32, build: u32) -> OsVersion {
    OsVersion { major, minor: 0, build }
}

#[test]
fn single_processes_take_build_20348() {
    assert!(!supports_process_loopback(&version(10, 19045)));
    assert!(!supports_process_loopback(&version(10, 20347)));
    assert!(supports_process_loopback(&version(10, 20348)));
    assert!(supports_process_loopback(&version(10, 22631)));
    assert!(!supports_process_loopback(&version(6, 30000)));
}

#[test]
fn later_versions_keep_recording_processes() {
    let first = version(10, 20348);
    assert!(supports_process_loopback(&first));
    for later in [version(10, 26100), version(11, 20348), version(11, 30000)] {
        assert!(supports_process_loopback(&later));
    }
}

#[test]
fn the_version_is_put_in_words() {
    assert_eq!(
        os_version_string(&version(10, 22631)),
        "Windows 10.0.22631 (build 22631)"
    );
    assert_eq!(
        os_version_string(&OsVersion { major: 6, minor: 1, build: 7601 }),
        "Windows 6.1.7601 (build 7601)"
    );
}
