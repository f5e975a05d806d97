use server_locator::command::{build, plan_launch};
use server_locator::errors::LocateErrorKind;
use server_locator::paths::{
    install_directory, join_path, server_entry_under, server_id, server_suffix_path,
};

#[test]
fn end_to_end_invocation_plan() {
    let env = vec![(String::from("PATH"), String::from("/usr/bin"))];
    let plan = build(
        String::from("/ext/server/dist/index.js"),
        String::from("/usr/bin/node"),
        env.clone(),
    );
    assert_eq!(plan.command, "/usr/bin/node");
    assert_eq!(
        plan.args,
        vec![
            String::from("/ext/server/dist/index.js"),
            String::from("--stdio"),
        ]
    );
    assert_eq!(plan.env, env);
}

#[test]
fn plan_launch_uses_the_supplied_runtime() {
    let plan = plan_launch(
        Ok(String::from("/usr/bin/node")),
        String::from("/ext/server/dist/index.js"),
        Vec::new(),
    );
    match plan {
        Ok(p) => {
            assert_eq!(p.command, "/usr/bin/node");
            assert_eq!(p.args.len(), 2);
            assert_eq!(p.args[0], "/ext/server/dist/index.js");
            assert_eq!(p.args[1], "--stdio");
            assert!(p.env.is_empty());
        }
        Err(e) => panic!("unexpected error: {}", e.message()),
    }
}

#[test]
fn plan_launch_surfaces_a_missing_runtime() {
    let plan = plan_launch(
        Err(String::from("node binary unavailable")),
        String::from("/ext/server/dist/index.js"),
        Vec::new(),
    );
    match plan {
        Ok(p) => panic!("unexpected plan for {}", p.command),
        Err(e) => {
            assert_eq!(e.kind(), LocateErrorKind::RuntimeBinaryNotFound);
            assert_eq!(e.message(), "runtime binary not found: node binary unavailable");
        }
    }
}

#[test]
fn path_helpers_build_the_fixed_paths() {
    assert_eq!(join_path("/a/b", "c.js"), "/a/b/c.js");
    assert_eq!(server_suffix_path(), "server/dist/index.js");
    assert_eq!(server_entry_under("/base"), "/base/server/dist/index.js");
    assert_eq!(
        install_directory("/home/u"),
        "/home/u/.local/share/zed/extensions/installed/sftp"
    );
    assert_eq!(server_id(), "sftp-server");
}
