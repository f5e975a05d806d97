use server_locator::errors::{LocateError, LocateErrorKind};
use server_locator::locator::{locate, DiscoveryState, LinkProbe, ResolutionContext};

#[test]
fn root_relative_resolves_exactly() {
    let ctx = ResolutionContext::RootRelative {
        root: String::from("/projects/demo"),
    };
    let resolved = locate(&ctx);
    match resolved {
        Ok(path) => assert_eq!(path, "/projects/demo/server/dist/index.js"),
        Err(e) => panic!("unexpected error: {}", e.message()),
    }
}

#[test]
fn missing_home_fails_with_missing_environment_value() {
    let ctx = ResolutionContext::InstallDirectory {
        home: None,
        link: LinkProbe::NotALink,
        server_file_exists: true,
    };
    let resolved = locate(&ctx);
    match resolved {
        Ok(path) => panic!("unexpected success: {path}"),
        Err(e) => {
            assert_eq!(e.kind(), LocateErrorKind::MissingEnvironmentValue);
            assert_eq!(e.message(), "environment value HOME is not set");
        }
    }
}

#[test]
fn missing_home_fails_regardless_of_filesystem_observations() {
    for link in [
        LinkProbe::NotALink,
        LinkProbe::Target {
            path: String::from("/somewhere"),
        },
        LinkProbe::Unreadable {
            detail: String::from("no such file or directory"),
        },
    ] {
        let ctx = ResolutionContext::InstallDirectory {
            home: None,
            link,
            server_file_exists: false,
        };
        match locate(&ctx) {
            Ok(path) => panic!("unexpected success: {path}"),
            Err(e) => assert_eq!(e.kind(), LocateErrorKind::MissingEnvironmentValue),
        }
    }
}

#[test]
fn symlinked_install_directory_resolves_under_target() {
    let ctx = ResolutionContext::InstallDirectory {
        home: Some(String::from("/home/u")),
        link: LinkProbe::Target {
            path: String::from("/opt/extensions/sftp"),
        },
        server_file_exists: true,
    };
    match locate(&ctx) {
        Ok(path) => assert_eq!(path, "/opt/extensions/sftp/server/dist/index.js"),
        Err(e) => panic!("unexpected error: {}", e.message()),
    }
}

#[test]
fn plain_install_directory_resolves_in_place() {
    let ctx = ResolutionContext::InstallDirectory {
        home: Some(String::from("/home/u")),
        link: LinkProbe::NotALink,
        server_file_exists: true,
    };
    match locate(&ctx) {
        Ok(path) => assert_eq!(
            path,
            "/home/u/.local/share/zed/extensions/installed/sftp/server/dist/index.js"
        ),
        Err(e) => panic!("unexpected error: {}", e.message()),
    }
}

#[test]
fn dangling_symlink_is_distinguished_from_file_not_found() {
    let ctx = ResolutionContext::InstallDirectory {
        home: Some(String::from("/home/u")),
        link: LinkProbe::Unreadable {
            detail: String::from("no such file or directory"),
        },
        server_file_exists: false,
    };
    match locate(&ctx) {
        Ok(path) => panic!("unexpected success: {path}"),
        Err(e) => {
            assert_eq!(e.kind(), LocateErrorKind::SymlinkResolutionFailure);
            assert_ne!(e.kind(), LocateErrorKind::FileNotFound);
            assert_eq!(
                e.message(),
                "failed to resolve symbolic link \
                 /home/u/.local/share/zed/extensions/installed/sftp: \
                 no such file or directory"
            );
        }
    }
}

#[test]
fn missing_install_file_reports_file_not_found() {
    let ctx = ResolutionContext::InstallDirectory {
        home: Some(String::from("/home/u")),
        link: LinkProbe::Target {
            path: String::from("/opt/extensions/sftp"),
        },
        server_file_exists: false,
    };
    match locate(&ctx) {
        Ok(path) => panic!("unexpected success: {path}"),
        Err(e) => {
            assert_eq!(e.kind(), LocateErrorKind::FileNotFound);
            assert_eq!(
                e.message(),
                "server file not found at /opt/extensions/sftp/server/dist/index.js; \
                 base directory: /opt/extensions/sftp"
            );
        }
    }
}

#[test]
fn working_directory_changes_change_the_resolved_path() {
    let first = ResolutionContext::WorkingDirectory {
        cwd: String::from("/run/a"),
        server_file_exists: true,
    };
    let second = ResolutionContext::WorkingDirectory {
        cwd: String::from("/run/b"),
        server_file_exists: true,
    };
    let first_path = locate(&first).expect("first resolution");
    let second_path = locate(&second).expect("second resolution");
    assert_eq!(first_path, "/run/a/server/dist/index.js");
    assert_eq!(second_path, "/run/b/server/dist/index.js");
    assert_ne!(first_path, second_path);
}

#[test]
fn working_directory_failure_names_path_and_base() {
    let ctx = ResolutionContext::WorkingDirectory {
        cwd: String::from("/run/elsewhere"),
        server_file_exists: false,
    };
    match locate(&ctx) {
        Ok(path) => panic!("unexpected success: {path}"),
        Err(e) => {
            assert_eq!(e.kind(), LocateErrorKind::FileNotFound);
            let message = e.message();
            assert!(message.contains("/run/elsewhere/server/dist/index.js"));
            assert!(message.contains("/run/elsewhere"));
            assert_eq!(
                message,
                "server file not found at /run/elsewhere/server/dist/index.js; \
                 base directory: /run/elsewhere"
            );
        }
    }
}

#[test]
fn runtime_binary_error_message_carries_detail() {
    let e = LocateError::RuntimeBinaryNotFound {
        detail: String::from("node is not installed"),
    };
    assert_eq!(e.kind(), LocateErrorKind::RuntimeBinaryNotFound);
    assert_eq!(e.message(), "runtime binary not found: node is not installed");
}

#[test]
fn discovery_state_notifies_only_before_first_confirmation() {
    let mut state = DiscoveryState::new();
    assert!(state.needs_notification());
    state.record_found();
    assert!(!state.needs_notification());
    state.record_found();
    assert!(!state.needs_notification());
}
