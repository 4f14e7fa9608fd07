use pie::config::{
    get_default_repo_config, get_repo_config, get_server_config, npm_yarn_run, parse_config_type,
    value_or_def, value_or_def_null, RepoConfig, RepoConfigError, RepoConfigTypes, ServerConfig,
};

fn resolve(
    pie_toml: Option<&str>,
    package_json: Option<&str>,
    yarn_lock: bool,
) -> Result<RepoConfig, RepoConfigError> {
    get_repo_config(
        &pie_toml.map(String::from),
        &package_json.map(String::from),
        yarn_lock,
    )
}

#[test]
fn fresh_manifest_with_lockfile_uses_package_manager() {
    // a manifest with a start script and a lockfile: every stage comes
    // from the package manager the lockfile selects
    let r = resolve(None, Some(r#"{"scripts": {"start": "node ."}}"#), true).unwrap();
    assert_eq!(r.install_command, Some(String::from("yarn install")));
    assert_eq!(r.build_command, Some(String::from("yarn run build")));
    assert_eq!(r.start_command, "yarn run start");
    assert!(matches!(r._type, Some(RepoConfigTypes::NodeJS)));
}

#[test]
fn manifest_without_lockfile_uses_npm() {
    let r = resolve(None, Some(r#"{"scripts": {"start": "node ."}}"#), false).unwrap();
    assert_eq!(r.install_command, Some(String::from("npm install")));
    assert_eq!(r.build_command, Some(String::from("npm run build")));
    assert_eq!(r.start_command, "npm run start");
}

#[test]
fn explicit_start_without_manifest_is_enough() {
    let r = resolve(Some(r#"start_command = "python app.py""#), None, false).unwrap();
    assert_eq!(r.start_command, "python app.py");
    assert_eq!(r.install_command, None);
    assert_eq!(r.build_command, None);
    assert_eq!(r._type, None);
}

#[test]
fn nothing_to_go_on_is_missing_commands() {
    let r = resolve(None, None, false);
    assert!(matches!(r, Err(RepoConfigError::MissingCommands)));
}

#[test]
fn resolution_is_repeatable() {
    let pie = Some(r#"install_command = "make deps""#);
    let pkg = Some(r#"{"scripts": {"start": "node ."}}"#);
    let a = resolve(pie, pkg, true);
    let b = resolve(pie, pkg, true);
    assert_eq!(a, b);
}

#[test]
fn malformed_explicit_file_is_invalid() {
    let r = resolve(Some("not [valid toml"), None, false);
    assert!(matches!(r, Err(RepoConfigError::InvalidTOML)));
}

#[test]
fn non_string_field_is_invalid() {
    let r = resolve(Some("start_command = 3"), None, false);
    assert!(matches!(r, Err(RepoConfigError::InvalidTOML)));
}

#[test]
fn unknown_type_is_invalid() {
    let r = resolve(
        Some(r#"type = "Python""#),
        Some(r#"{"scripts": {"start": "node ."}}"#),
        false,
    );
    assert!(matches!(r, Err(RepoConfigError::InvalidTOML)));
}

#[test]
fn explicit_type_overrides_heuristic() {
    let r = resolve(
        Some(r#"type = "NodeTS""#),
        Some(r#"{"scripts": {"start": "node ."}}"#),
        false,
    )
    .unwrap();
    assert!(matches!(r._type, Some(RepoConfigTypes::NodeTS)));
}

#[test]
fn explicit_start_overrides_heuristic() {
    let r = resolve(
        Some(r#"start_command = "custom run""#),
        Some(r#"{"scripts": {"start": "node ."}}"#),
        false,
    )
    .unwrap();
    assert_eq!(r.start_command, "custom run");
    // the other stages still come from the heuristic
    assert_eq!(r.install_command, Some(String::from("npm install")));
}

#[test]
fn empty_explicit_start_counts_as_unset() {
    let r = resolve(
        Some(r#"start_command = """#),
        Some(r#"{"scripts": {"start": "node ."}}"#),
        false,
    )
    .unwrap();
    assert_eq!(r.start_command, "npm run start");
}

#[test]
fn sentinel_disables_install_despite_default() {
    let r = resolve(
        Some(r#"install_command = "NONE""#),
        Some(r#"{"scripts": {"start": "node ."}}"#),
        false,
    )
    .unwrap();
    assert_eq!(r.install_command, None);
    assert_eq!(r.build_command, Some(String::from("npm run build")));
}

#[test]
fn sentinel_disables_build_despite_default() {
    let r = resolve(
        Some(r#"build_command = "NONE""#),
        Some(r#"{"scripts": {"start": "node ."}}"#),
        false,
    )
    .unwrap();
    assert_eq!(r.build_command, None);
    assert_eq!(r.install_command, Some(String::from("npm install")));
}

#[test]
fn tool_specific_scripts_are_preferred() {
    let r = resolve(
        None,
        Some(r#"{"scripts": {"start": "s", "build": "b", "pie_build": "pb", "pie_start": "ps"}}"#),
        false,
    )
    .unwrap();
    assert_eq!(r.build_command, Some(String::from("npm run pie-build")));
    assert_eq!(r.start_command, "npm run pie-start");
}

#[test]
fn manifest_without_start_script_runs_package_directly() {
    let r = resolve(None, Some(r#"{"scripts": {"build": "b"}}"#), false).unwrap();
    assert_eq!(r.start_command, "node .");
    assert_eq!(r.build_command, Some(String::from("npm run build")));
}

#[test]
fn unreadable_manifest_falls_back_to_plain_defaults() {
    let r = resolve(None, Some("{oops"), false).unwrap();
    assert_eq!(r.install_command, Some(String::from("npm install")));
    assert_eq!(r.build_command, None);
    assert_eq!(r.start_command, "npm run start");
    assert!(matches!(r._type, Some(RepoConfigTypes::NodeJS)));
}

#[test]
fn manifest_without_scripts_falls_back_to_plain_defaults() {
    let r = resolve(None, Some(r#"{"name": "x"}"#), false).unwrap();
    assert_eq!(r.start_command, "npm run start");
}

#[test]
fn heuristic_alone_needs_a_manifest() {
    let r = get_default_repo_config(&None, false);
    assert!(matches!(r, Err(RepoConfigError::MissingCommands)));
}

#[test]
fn server_config_defaults_when_file_is_absent() {
    let c = get_server_config(&None).unwrap();
    assert_eq!(c.url, "https://example.com");
    assert_eq!(c.port, Some(6969));
    assert_eq!(c.gh_token, "<your github token>");
}

#[test]
fn server_config_reads_the_file() {
    let text = "url = \"https://pie.example\"\ngh_token = \"SECRET-REDACTED\"\nport = 8080\n";
    let c = get_server_config(&Some(String::from(text))).unwrap();
    assert_eq!(c.url, "https://pie.example");
    assert_eq!(c.port, Some(8080));
    assert_eq!(c.gh_token, "SECRET-REDACTED");
}

#[test]
fn server_config_port_is_optional() {
    let text = "url = \"u\"\ngh_token = \"t\"\n";
    let c = get_server_config(&Some(String::from(text))).unwrap();
    assert_eq!(c.port, None);
}

#[test]
fn malformed_server_config_is_refused() {
    assert_eq!(get_server_config(&Some(String::from("url = 3"))), None);
    assert_eq!(get_server_config(&Some(String::from("no toml ["))), None);
}

#[test]
fn default_server_config_is_the_placeholder() {
    let c = ServerConfig::default();
    assert_eq!(c.url, "https://example.com");
    assert_eq!(c.port, Some(6969));
}

#[test]
fn package_manager_verbs() {
    assert_eq!(npm_yarn_run("install", true), "yarn install");
    assert_eq!(npm_yarn_run("run build", false), "npm run build");
}

#[test]
fn config_type_names() {
    assert!(matches!(
        parse_config_type("NodeJS"),
        Some(RepoConfigTypes::NodeJS)
    ));
    assert!(matches!(
        parse_config_type("NodeTS"),
        Some(RepoConfigTypes::NodeTS)
    ));
    assert_eq!(parse_config_type("nodejs"), None);
}

#[test]
fn value_or_def_prefers_the_value() {
    assert_eq!(value_or_def(Some(1), Some(2)), Some(1));
    assert_eq!(value_or_def(None, Some(2)), Some(2));
    assert_eq!(value_or_def::<u32>(None, None), None);
}

#[test]
fn value_or_def_null_honours_the_sentinel() {
    assert_eq!(
        value_or_def_null(Some(String::from("NONE")), Some(String::from("d"))),
        None
    );
    assert_eq!(
        value_or_def_null(Some(String::from("v")), Some(String::from("d"))),
        Some(String::from("v"))
    );
    assert_eq!(
        value_or_def_null(None, Some(String::from("d"))),
        Some(String::from("d"))
    );
}
