use pie::utils::{
    parse_repo_ref, repo_to_path, repo_to_pie_name, repo_to_url, split_repo,
    string_to_cmd_and_args, url_to_repo,
};

#[test]
fn split_repo_two_parts() {
    assert_eq!(split_repo("owner/name"), ("owner", "name"));
}

#[test]
fn split_repo_ignores_extra_segments() {
    assert_eq!(split_repo("a/b/c"), ("a", "b"));
}

#[test]
fn repo_url_is_prefixed() {
    assert_eq!(repo_to_url("beni69/pie"), "https://github.com/beni69/pie");
}

#[test]
fn pie_name_is_derived_from_both_parts() {
    assert_eq!(repo_to_pie_name("beni69/pie"), "pie-beni69-pie");
}

#[test]
fn repo_path_is_under_repos() {
    assert_eq!(repo_to_path("/data", "owner/name"), "/data/repos/owner/name");
}

#[test]
fn repo_path_is_deterministic() {
    let a = repo_to_path("/data", "owner/name");
    let b = repo_to_path("/data", "owner/name");
    assert_eq!(a, b);
}

#[test]
fn repo_paths_of_distinct_pairs_differ() {
    // the shifted slash must not make the paths collide
    let a = repo_to_path("/data", "a/bc");
    let b = repo_to_path("/data", "ab/c");
    assert_ne!(a, b);
}

#[test]
fn url_to_repo_takes_first_two_segments() {
    assert_eq!(
        url_to_repo("https://github.com/foo/bar"),
        Some(String::from("foo/bar"))
    );
    assert_eq!(
        url_to_repo("https://github.com/a/b/extra"),
        Some(String::from("a/b"))
    );
}

#[test]
fn url_to_repo_rejects_short_or_invalid() {
    assert_eq!(url_to_repo("https://github.com/foo"), None);
    assert_eq!(url_to_repo("not a url"), None);
    assert_eq!(url_to_repo("owner/name"), None);
}

#[test]
fn repo_ref_accepts_both_forms() {
    assert_eq!(
        parse_repo_ref("https://github.com/a/b"),
        Some(String::from("a/b"))
    );
    assert_eq!(parse_repo_ref("owner/name"), Some(String::from("owner/name")));
}

#[test]
fn repo_ref_rejects_malformed() {
    assert_eq!(parse_repo_ref("noslash"), None);
    assert_eq!(parse_repo_ref("/name"), None);
    assert_eq!(parse_repo_ref("owner/"), None);
    assert_eq!(parse_repo_ref("a/b/c"), None);
}

#[test]
fn command_line_splits_on_whitespace() {
    let (cmd, args) = string_to_cmd_and_args("npm run start");
    assert_eq!(cmd, "npm");
    assert_eq!(args, vec![String::from("run"), String::from("start")]);
}

#[test]
fn command_line_collapses_runs_of_whitespace() {
    let (cmd, args) = string_to_cmd_and_args("  spaced \t  out\n");
    assert_eq!(cmd, "spaced");
    assert_eq!(args, vec![String::from("out")]);
}

#[test]
fn empty_command_line_yields_empty_program() {
    let (cmd, args) = string_to_cmd_and_args("");
    assert_eq!(cmd, "");
    assert!(args.is_empty());
}
