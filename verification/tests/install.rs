use zedc::install::{
    editor_layout_is_ok, install_dir, npm_install_args, plan_install, InstallError,
};

#[test]
fn npm_args_install_the_versioned_package_under_the_local_prefix() {
    let args = npm_install_args("2.14.0");
    assert_eq!(
        args,
        vec![
            "install".to_string(),
            "-g".to_string(),
            "--no-save".to_string(),
            "--prefix".to_string(),
            "./node_modules".to_string(),
            "@zowe/cli@2.14.0".to_string(),
        ]
    );
}

#[test]
fn npm_args_carry_the_version_verbatim() {
    let args = npm_install_args("latest");
    assert_eq!(args[5], "@zowe/cli@latest".to_string());
}

#[test]
fn install_dir_is_the_local_node_modules() {
    assert_eq!(install_dir(), "./node_modules".to_string());
}

#[test]
fn planning_with_no_files_fails() {
    let files: Vec<String> = Vec::new();
    let r = plan_install("/opt/editor/app/bin/code", "code", &files);
    assert_eq!(r.err(), Some(InstallError::NoFiles));
}

#[test]
fn planning_with_no_files_fails_whatever_the_binary_path() {
    let files: Vec<String> = Vec::new();
    let r = plan_install("no-separators-at-all", "code", &files);
    assert_eq!(r.err(), Some(InstallError::NoFiles));
}

#[test]
fn no_files_error_names_the_accepted_formats() {
    let msg = InstallError::NoFiles.message();
    assert_eq!(msg, "No valid files provided.\nSupported formats:\n.vsix, .tar.gz, .tgz");
}

#[test]
fn layout_needs_three_separators() {
    assert!(editor_layout_is_ok("/opt/editor/bin/code"));
    assert!(editor_layout_is_ok("a/b/c/d"));
    assert!(!editor_layout_is_ok("a/b/c"));
    assert!(!editor_layout_is_ok("code"));
}

#[test]
fn plan_pairs_one_install_flag_with_each_file() {
    let files = vec!["/abs/a.vsix".to_string(), "/abs/b.tgz".to_string()];
    let plan = plan_install("/root/ed/app/bin/code", "code", &files).unwrap();
    assert_eq!(
        plan.install_args,
        vec![
            "--install-extension".to_string(),
            "/abs/a.vsix".to_string(),
            "--install-extension".to_string(),
            "/abs/b.tgz".to_string(),
        ]
    );
}

#[test]
fn plan_derives_sandbox_and_launch_from_the_binary_location() {
    let files = vec!["/abs/a.vsix".to_string()];
    let plan = plan_install("/root/ed/app/bin/code", "code", &files).unwrap();
    assert_eq!(plan.sandbox_dir, "/root/ed/sandbox".to_string());
    assert_eq!(plan.config_dir, "/root/ed/sandbox/.zowe".to_string());
    assert_eq!(plan.launch_bin, "/root/ed/app/code".to_string());
    assert_eq!(
        plan.launch_args,
        vec!["--disable-updates".to_string(), "/root/ed/sandbox".to_string()]
    );
}
