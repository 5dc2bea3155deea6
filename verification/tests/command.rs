use volta::command::{
    command_in_lookup, command_lookup, create_command, create_command_in, host_platform, CommandSpec,
    Platform,
};
use volta::error::ErrorKind;

#[test]
fn command_lookup_uses_the_found_path() {
    let res = command_lookup("node", Some("/usr/local/bin/node".to_string()));
    assert_eq!(
        res,
        Ok(CommandSpec {
            program: "/usr/local/bin/node".to_string(),
            path_env: None,
            resolved: Some("/usr/local/bin/node".to_string())
        })
    );
}

#[test]
fn command_lookup_reports_binary_not_found() {
    let res = command_lookup("cowsay", None);
    assert_eq!(res, Err(ErrorKind::BinaryNotFound { name: "cowsay".to_string() }));
}

#[test]
fn command_in_lookup_passes_bare_name_with_path_on_unix() {
    let res = command_in_lookup("npm", "/a/bin:/b/bin", Some("/a/bin/npm".to_string()), Platform::Unix);
    assert_eq!(
        res,
        Ok(CommandSpec {
            program: "npm".to_string(),
            path_env: Some("/a/bin:/b/bin".to_string()),
            resolved: Some("/a/bin/npm".to_string())
        })
    );
    let missing = command_in_lookup("npm", "/a/bin", None, Platform::Unix);
    assert_eq!(missing, Err(ErrorKind::BinaryNotFound { name: "npm".to_string() }));
}

#[test]
fn command_in_lookup_runs_found_path_on_windows() {
    let res = command_in_lookup("npm", "C:\\a", Some("C:\\a\\npm.cmd".to_string()), Platform::Windows);
    assert_eq!(
        res,
        Ok(CommandSpec {
            program: "C:\\a\\npm.cmd".to_string(),
            path_env: Some("C:\\a".to_string()),
            resolved: Some("C:\\a\\npm.cmd".to_string())
        })
    );
    let missing = command_in_lookup("npm", "C:\\a", None, Platform::Windows);
    assert_eq!(missing, Err(ErrorKind::BinaryNotFound { name: "npm".to_string() }));
}

#[test]
fn binary_not_found_message() {
    let e = ErrorKind::BinaryNotFound { name: "volta-test".to_string() };
    assert!(e.message().starts_with("Could not find executable \"volta-test\""));
}

#[test]
fn create_command_missing_binary_is_not_found() {
    let res = create_command("this-binary-does-not-exist-anywhere", Platform::Unix);
    assert_eq!(
        res,
        Err(ErrorKind::BinaryNotFound { name: "this-binary-does-not-exist-anywhere".to_string() })
    );
}

#[test]
fn create_command_in_missing_binary_is_not_found() {
    let res = create_command_in("sh", "/this/directory/does/not/exist", Platform::Unix);
    assert_eq!(res, Err(ErrorKind::BinaryNotFound { name: "sh".to_string() }));
}

#[test]
fn create_command_in_found_binary_keeps_bare_name() {
    let res = create_command_in("sh", "/bin:/usr/bin", Platform::Unix).expect("sh is in /bin");
    assert_eq!(res.program, "sh");
    assert_eq!(res.path_env, Some("/bin:/usr/bin".to_string()));
    let found = res.resolved.expect("the search found a path");
    assert!(found == "/bin/sh" || found == "/usr/bin/sh");
    let second = create_command_in("sh", "/nowhere:/bin", Platform::Unix).expect("sh is in /bin");
    assert_eq!(second.resolved, Some("/bin/sh".to_string()));
}

#[test]
fn create_command_found_binary_runs_its_path() {
    let res = create_command("sh", Platform::Unix).expect("sh is on PATH");
    assert!(res.program.ends_with("/sh"));
    assert_eq!(res.path_env, None);
    assert_eq!(res.resolved, Some(res.program.clone()));
}

#[test]
fn host_platform_is_unix_here() {
    assert_eq!(host_platform(), Platform::Unix);
}

#[test]
fn a_platform_other_than_the_hosts_finds_nothing() {
    assert_eq!(
        create_command_in("sh", "/bin:/usr/bin", Platform::Windows),
        Err(ErrorKind::BinaryNotFound { name: "sh".to_string() })
    );
    assert_eq!(
        create_command("sh", Platform::Windows),
        Err(ErrorKind::BinaryNotFound { name: "sh".to_string() })
    );
}

#[test]
fn create_command_in_with_an_absolute_name() {
    let res = create_command_in("/bin/sh", "/nowhere", Platform::Unix).expect("/bin/sh exists");
    assert_eq!(res.program, "/bin/sh");
    assert_eq!(res.resolved, Some("/bin/sh".to_string()));
}
