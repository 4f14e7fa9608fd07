//! Configuration: the daemon-wide server settings and the per-repository
//! build/run recipe.
//!
//! A repository's effective configuration merges an explicit `pie.toml`
//! at the repository root with heuristic defaults inferred from a
//! `package.json` manifest (the package manager chosen by the presence
//! of a `yarn.lock`).  An explicit field wins over the heuristic; the
//! sentinel value `NONE` in an install/build field disables that stage
//! outright; an explicit empty start command counts as unset.

use vstd::prelude::*;

use crate::text::str_eq;

verus! {

// ===== server configuration =====

/// Daemon-wide settings: the public base URL, the listen port, and the
/// access token for the source host.
#[derive(Debug, Clone, PartialEq, Eq)]
pub struct ServerConfig {
    pub url: String,
    pub port: Option<u16>,
    pub gh_token: String,
}

impl Default for ServerConfig {
    /// The placeholder settings written on first run.
    fn default() -> (r: Self)
        ensures
            r.url@ == "https://example.com"@,
            r.port == Some(6969u16),
            r.gh_token@ == "<your github token>"@,
    {
        ServerConfig {
            url: String::from_str("https://example.com"),
            port: Some(6969),
            gh_token: String::from_str("<your github token>"),
        }
    }
}

/// What `parse_server_config_text` extracts from a server configuration
/// file: the `url` string, the optional `port` integer, and the
/// `gh_token` string, or nothing when the text is not valid TOML of
/// that shape.
pub uninterp spec fn server_config_of(s: Seq<char>) -> Option<(Seq<char>, Option<u16>, Seq<char>)>;

/// Relies on toml::Table::from_str: parses the text as TOML and reads
/// the string `url`, the optional integer `port` (it must fit a u16)
/// and the string `gh_token`; any syntax error, missing or mistyped
/// field yields `None`.  The result depends on the text alone.
#[verifier::external_body]
fn parse_server_config_text(s: &str) -> (r: Option<ServerConfig>)
    ensures
        match r {
            Some(c) => server_config_of(s@) == Some((c.url@, c.port, c.gh_token@)),
            None => server_config_of(s@) is None,
        },
{
    let t: toml::Table = match s.parse() { Ok(t) => t, Err(_) => return None };
    let url = match t.get("url") { Some(toml::Value::String(x)) => x.clone(), _ => return None };
    let gh_token = match t.get("gh_token") { Some(toml::Value::String(x)) => x.clone(), _ => return None };
    let port = match t.get("port") {
        None => None,
        Some(toml::Value::Integer(i)) => match u16::try_from(*i) { Ok(p) => Some(p), Err(_) => return None },
        Some(_) => return None,
    };
    Some(ServerConfig { url, port, gh_token })
}

/// The effective server configuration for a configuration file's
/// contents: the parsed file when it is present and well formed, the
/// placeholder defaults when the file is absent, and nothing when the
/// file is present but malformed.
pub fn get_server_config(file_text: &Option<String>) -> (r: Option<ServerConfig>)
    ensures
        match file_text {
            None => r matches Some(c) && c.url@ == "https://example.com"@ && c.port == Some(
                6969u16,
            ) && c.gh_token@ == "<your github token>"@,
            Some(t) => match server_config_of(t@) {
                Some(v) => r matches Some(c) && (c.url@, c.port, c.gh_token@) == v,
                None => r is None,
            },
        },
{
    match file_text {
        None => Some(ServerConfig::default()),
        Some(t) => parse_server_config_text(t.as_str()),
    }
}

// ===== repository configuration =====

/// The project families the heuristic can recognize.
#[derive(Debug, Clone, Copy, PartialEq, Eq, Structural)]
pub enum RepoConfigTypes {
    NodeJS,
    NodeTS,
}

/// Why resolution failed: the explicit file is malformed, or no recipe
/// could be determined at all.
#[derive(Debug, Clone, Copy, PartialEq, Eq, Structural)]
pub enum RepoConfigError {
    InvalidTOML,
    MissingCommands,
}

/// The explicit per-repository configuration file, every field
/// optional.
#[derive(Debug, Clone, PartialEq, Eq)]
pub struct RepoConfigFile {
    pub _type: Option<String>,
    pub install_command: Option<String>,
    pub build_command: Option<String>,
    pub start_command: Option<String>,
}

/// The effective build/run recipe: a start command is always present,
/// install and build are optional.
#[derive(Debug, Clone, PartialEq, Eq)]
pub struct RepoConfig {
    pub _type: Option<RepoConfigTypes>,
    pub install_command: Option<String>,
    pub build_command: Option<String>,
    pub start_command: String,
}

/// The script names a package manifest declares, as far as this tool
/// reads them.
#[derive(Debug, Clone, PartialEq, Eq)]
pub struct PackageScripts {
    pub build: Option<String>,
    pub start: Option<String>,
    pub pie_build: Option<String>,
    pub pie_start: Option<String>,
}

/// The view of an optional string.
pub open spec fn opt_str_view(o: Option<String>) -> Option<Seq<char>> {
    match o {
        Some(s) => Some(s@),
        None => None,
    }
}

/// Mathematical image of `RepoConfigFile`.
pub struct RepoConfigFileV {
    pub _type: Option<Seq<char>>,
    pub install_command: Option<Seq<char>>,
    pub build_command: Option<Seq<char>>,
    pub start_command: Option<Seq<char>>,
}

impl View for RepoConfigFile {
    type V = RepoConfigFileV;

    open spec fn view(&self) -> RepoConfigFileV {
        RepoConfigFileV {
            _type: opt_str_view(self._type),
            install_command: opt_str_view(self.install_command),
            build_command: opt_str_view(self.build_command),
            start_command: opt_str_view(self.start_command),
        }
    }
}

/// Mathematical image of `RepoConfig`.
pub struct RepoConfigV {
    pub _type: Option<RepoConfigTypes>,
    pub install_command: Option<Seq<char>>,
    pub build_command: Option<Seq<char>>,
    pub start_command: Seq<char>,
}

impl View for RepoConfig {
    type V = RepoConfigV;

    open spec fn view(&self) -> RepoConfigV {
        RepoConfigV {
            _type: self._type,
            install_command: opt_str_view(self.install_command),
            build_command: opt_str_view(self.build_command),
            start_command: self.start_command@,
        }
    }
}

/// Mathematical image of `PackageScripts`.
pub struct PackageScriptsV {
    pub build: Option<Seq<char>>,
    pub start: Option<Seq<char>>,
    pub pie_build: Option<Seq<char>>,
    pub pie_start: Option<Seq<char>>,
}

impl View for PackageScripts {
    type V = PackageScriptsV;

    open spec fn view(&self) -> PackageScriptsV {
        PackageScriptsV {
            build: opt_str_view(self.build),
            start: opt_str_view(self.start),
            pie_build: opt_str_view(self.pie_build),
            pie_start: opt_str_view(self.pie_start),
        }
    }
}

/// The view of an optional recipe.
pub open spec fn opt_config_view(o: Option<RepoConfig>) -> Option<RepoConfigV> {
    match o {
        Some(c) => Some(c@),
        None => None,
    }
}

/// The view of an optional script table.
pub open spec fn opt_scripts_view(o: Option<PackageScripts>) -> Option<PackageScriptsV> {
    match o {
        Some(p) => Some(p@),
        None => None,
    }
}

/// The view of a resolution result.
pub open spec fn result_view(r: Result<RepoConfig, RepoConfigError>) -> Result<
    RepoConfigV,
    RepoConfigError,
> {
    match r {
        Ok(c) => Ok(c@),
        Err(e) => Err(e),
    }
}

/// What `parse_pie_toml` extracts from an explicit configuration file:
/// its four optional string fields, or nothing when the text is not
/// valid TOML with those fields as strings.
pub uninterp spec fn pie_toml_of(s: Seq<char>) -> Option<RepoConfigFileV>;

/// Relies on toml::Table::from_str: parses the text as TOML and reads
/// the optional string keys `type`, `install_command`, `build_command`
/// and `start_command`; a syntax error, or any of those keys holding a
/// non-string, yields `None`.  The result depends on the text alone.
#[verifier::external_body]
fn parse_pie_toml(s: &str) -> (r: Option<RepoConfigFile>)
    ensures
        match r {
            Some(f) => pie_toml_of(s@) == Some(f@),
            None => pie_toml_of(s@) is None,
        },
{
    let t: toml::Table = match s.parse() { Ok(t) => t, Err(_) => return None };
    let f = |k: &str| match t.get(k) {
        None => Ok(None),
        Some(toml::Value::String(x)) => Ok(Some(x.clone())),
        Some(_) => Err(()),
    };
    match (f("type"), f("install_command"), f("build_command"), f("start_command")) {
        (Ok(t0), Ok(i), Ok(b), Ok(s0)) => Some(
            RepoConfigFile { _type: t0, install_command: i, build_command: b, start_command: s0 },
        ),
        _ => None,
    }
}

/// What `parse_package_manifest` extracts from a package manifest: the
/// optional string scripts `build`, `start`, `pie_build` and
/// `pie_start`, or nothing when the text is not a JSON object with a
/// `scripts` object of strings.
pub uninterp spec fn manifest_scripts_of(s: Seq<char>) -> Option<PackageScriptsV>;

/// Relies on serde_json::from_str: parses the text as JSON and reads
/// the optional string entries `build`, `start`, `pie_build` and
/// `pie_start` of the top-level `scripts` object; a syntax error, a
/// missing or non-object `scripts`, or any of those entries holding a
/// non-string, yields `None`.  The result depends on the text alone.
#[verifier::external_body]
fn parse_package_manifest(s: &str) -> (r: Option<PackageScripts>)
    ensures
        match r {
            Some(p) => manifest_scripts_of(s@) == Some(p@),
            None => manifest_scripts_of(s@) is None,
        },
{
    let v: serde_json::Value = match serde_json::from_str(s) { Ok(x) => x, Err(_) => return None };
    let sc = match v.get("scripts") { Some(serde_json::Value::Object(m)) => m, _ => return None };
    let f = |k: &str| match sc.get(k) {
        None => Ok(None),
        Some(serde_json::Value::String(x)) => Ok(Some(x.clone())),
        Some(_) => Err(()),
    };
    match (f("build"), f("start"), f("pie_build"), f("pie_start")) {
        (Ok(b), Ok(s0), Ok(pb), Ok(ps)) => Some(
            PackageScripts { build: b, start: s0, pie_build: pb, pie_start: ps },
        ),
        _ => None,
    }
}

/// The package manager invocation: the verb prefixed with `yarn` or
/// `npm`.
pub open spec fn spec_npm_yarn_run(cmd: Seq<char>, yarn: bool) -> Seq<char> {
    (if yarn {
        "yarn "@
    } else {
        "npm "@
    }) + cmd
}

/// Builds the package manager invocation for a verb.
pub fn npm_yarn_run(cmd: &str, yarn: bool) -> (r: String)
    ensures
        r@ == spec_npm_yarn_run(cmd@, yarn),
{
    if yarn {
        String::from_str("yarn ").concat(cmd)
    } else {
        String::from_str("npm ").concat(cmd)
    }
}

/// The explicit value when present, the default otherwise.
pub fn value_or_def<T>(value: Option<T>, def: Option<T>) -> (r: Option<T>)
    ensures
        r == if value is Some {
            value
        } else {
            def
        },
{
    if value.is_some() {
        value
    } else {
        def
    }
}

/// The merge rule for a disable-able command field.
pub open spec fn spec_or_def_null(v: Option<Seq<char>>, d: Option<Seq<char>>) -> Option<
    Seq<char>,
> {
    match v {
        Some(s) => if s == "NONE"@ {
            None
        } else {
            Some(s)
        },
        None => d,
    }
}

/// The explicit value when present, the default otherwise; the sentinel
/// `NONE` disables the field even when a default exists.
pub fn value_or_def_null(value: Option<String>, def: Option<String>) -> (r: Option<String>)
    ensures
        opt_str_view(r) == spec_or_def_null(opt_str_view(value), opt_str_view(def)),
{
    match value {
        Some(v) => {
            if str_eq(v.as_str(), "NONE") {
                None
            } else {
                Some(v)
            }
        },
        None => def,
    }
}

/// The project family a `type` field names, if any.
pub open spec fn spec_config_type(s: Seq<char>) -> Option<RepoConfigTypes> {
    if s == "NodeJS"@ {
        Some(RepoConfigTypes::NodeJS)
    } else if s == "NodeTS"@ {
        Some(RepoConfigTypes::NodeTS)
    } else {
        None
    }
}

/// Parses a `type` field.
pub fn parse_config_type(s: &str) -> (r: Option<RepoConfigTypes>)
    ensures
        r == spec_config_type(s@),
{
    if str_eq(s, "NodeJS") {
        Some(RepoConfigTypes::NodeJS)
    } else if str_eq(s, "NodeTS") {
        Some(RepoConfigTypes::NodeTS)
    } else {
        None
    }
}

/// The heuristic recipe for a repository whose root holds a package
/// manifest.  When the manifest's scripts could be read, the tool's own
/// `pie_build`/`pie_start` script names win over the generic ones, and
/// a missing start script falls back to running the package directly;
/// otherwise the plain package manager defaults apply.
pub open spec fn spec_default_from_manifest(scripts: Option<PackageScriptsV>, yarn: bool) -> RepoConfigV {
    match scripts {
        Some(sc) => RepoConfigV {
            _type: Some(RepoConfigTypes::NodeJS),
            install_command: Some(spec_npm_yarn_run("install"@, yarn)),
            build_command: Some(
                spec_npm_yarn_run(
                    if sc.pie_build is Some {
                        "run pie-build"@
                    } else {
                        "run build"@
                    },
                    yarn,
                ),
            ),
            start_command: if sc.pie_start is Some {
                spec_npm_yarn_run("run pie-start"@, yarn)
            } else if sc.start is Some {
                spec_npm_yarn_run("run start"@, yarn)
            } else {
                "node ."@
            },
        },
        None => RepoConfigV {
            _type: Some(RepoConfigTypes::NodeJS),
            install_command: Some("npm install"@),
            build_command: None,
            start_command: "npm run start"@,
        },
    }
}

/// The heuristic recipe for a repository with a package manifest.
pub fn default_from_manifest(scripts: &Option<PackageScripts>, yarn: bool) -> (r: RepoConfig)
    ensures
        r@ == spec_default_from_manifest(opt_scripts_view(*scripts), yarn),
{
    match scripts {
        Some(sc) => {
            let install = npm_yarn_run("install", yarn);
            let build = if sc.pie_build.is_some() {
                npm_yarn_run("run pie-build", yarn)
            } else {
                npm_yarn_run("run build", yarn)
            };
            let start = if sc.pie_start.is_some() {
                npm_yarn_run("run pie-start", yarn)
            } else if sc.start.is_some() {
                npm_yarn_run("run start", yarn)
            } else {
                String::from_str("node .")
            };
            RepoConfig {
                _type: Some(RepoConfigTypes::NodeJS),
                install_command: Some(install),
                build_command: Some(build),
                start_command: start,
            }
        },
        None => RepoConfig {
            _type: Some(RepoConfigTypes::NodeJS),
            install_command: Some(String::from_str("npm install")),
            build_command: None,
            start_command: String::from_str("npm run start"),
        },
    }
}

/// The heuristic defaults for a repository root: the manifest recipe
/// when a package manifest is present, a missing-commands failure
/// otherwise.
pub fn get_default_repo_config(package_json: &Option<String>, yarn_lock: bool) -> (r: Result<
    RepoConfig,
    RepoConfigError,
>)
    ensures
        match package_json {
            None => r == Result::<RepoConfig, RepoConfigError>::Err(
                RepoConfigError::MissingCommands,
            ),
            Some(text) => r matches Ok(c) && c@ == spec_default_from_manifest(
                manifest_scripts_of(text@),
                yarn_lock,
            ),
        },
{
    match package_json {
        None => Err(RepoConfigError::MissingCommands),
        Some(text) => {
            let sc = parse_package_manifest(text.as_str());
            proof {
                assert(opt_scripts_view(sc) == manifest_scripts_of(text@));
            }
            Ok(default_from_manifest(&sc, yarn_lock))
        },
    }
}

/// An explicit file with nothing set.
pub open spec fn empty_file_v() -> RepoConfigFileV {
    RepoConfigFileV { _type: None, install_command: None, build_command: None, start_command: None }
}

/// A recipe with nothing set, standing in when no heuristic applies.
pub open spec fn empty_config_v() -> RepoConfigV {
    RepoConfigV {
        _type: None,
        install_command: None,
        build_command: None,
        start_command: Seq::empty(),
    }
}

/// The merge of an explicit file with the heuristic defaults.
///
/// An unrecognized `type` makes the explicit file invalid.  The start
/// command is the explicit one when it is set and non-empty, the
/// heuristic one otherwise; resolution fails when neither yields a
/// non-empty start command.  Install and build merge by
/// `spec_or_def_null`, so the sentinel `NONE` disables a stage.
pub open spec fn spec_merge(f: RepoConfigFileV, d: Option<RepoConfigV>) -> Result<
    RepoConfigV,
    RepoConfigError,
> {
    let dv = match d {
        Some(x) => x,
        None => empty_config_v(),
    };
    if f._type is Some && spec_config_type(f._type.unwrap()) is None {
        Err(RepoConfigError::InvalidTOML)
    } else {
        let merged_type = if f._type is Some {
            spec_config_type(f._type.unwrap())
        } else {
            dv._type
        };
        let start = if f.start_command is Some && f.start_command.unwrap().len() > 0 {
            f.start_command.unwrap()
        } else {
            dv.start_command
        };
        if start.len() == 0 {
            Err(RepoConfigError::MissingCommands)
        } else {
            Ok(
                RepoConfigV {
                    _type: merged_type,
                    install_command: spec_or_def_null(f.install_command, dv.install_command),
                    build_command: spec_or_def_null(f.build_command, dv.build_command),
                    start_command: start,
                },
            )
        }
    }
}

/// Clones an optional command string.
fn clone_opt_string(o: &Option<String>) -> (r: Option<String>)
    ensures
        r == *o,
{
    match o {
        Some(s) => Some(s.clone()),
        None => None,
    }
}

/// Merges an explicit configuration file with the heuristic recipe.
pub fn merge_config(file: &RepoConfigFile, heuristic: &Option<RepoConfig>) -> (r: Result<
    RepoConfig,
    RepoConfigError,
>)
    ensures
        result_view(r) == spec_merge(file@, opt_config_view(*heuristic)),
{
    let merged_type: Option<RepoConfigTypes> = match &file._type {
        Some(ts) => {
            match parse_config_type(ts.as_str()) {
                Some(t) => Some(t),
                None => {
                    return Err(RepoConfigError::InvalidTOML);
                },
            }
        },
        None => match heuristic {
            Some(dc) => dc._type,
            None => None,
        },
    };
    let start: String = match &file.start_command {
        Some(s) => {
            if s.unicode_len() > 0 {
                s.clone()
            } else {
                default_start(heuristic)
            }
        },
        None => default_start(heuristic),
    };
    if start.unicode_len() == 0 {
        return Err(RepoConfigError::MissingCommands);
    }
    let d_install = match heuristic {
        Some(dc) => clone_opt_string(&dc.install_command),
        None => None,
    };
    let d_build = match heuristic {
        Some(dc) => clone_opt_string(&dc.build_command),
        None => None,
    };
    let install = value_or_def_null(clone_opt_string(&file.install_command), d_install);
    let build = value_or_def_null(clone_opt_string(&file.build_command), d_build);
    Ok(RepoConfig { _type: merged_type, install_command: install, build_command: build, start_command: start })
}

/// The heuristic start command, or an empty one when no heuristic
/// applies.
fn default_start(heuristic: &Option<RepoConfig>) -> (r: String)
    ensures
        r@ == match opt_config_view(*heuristic) {
            Some(dc) => dc.start_command,
            None => Seq::<char>::empty(),
        },
{
    match heuristic {
        Some(dc) => dc.start_command.clone(),
        None => String::new(),
    }
}

/// The effective recipe for a repository root, from the contents of its
/// explicit configuration file and package manifest (each absent when
/// the file is) and the presence of a `yarn.lock`.
pub open spec fn spec_resolve(
    pie: Option<Seq<char>>,
    pkg: Option<Seq<char>>,
    yarn: bool,
) -> Result<RepoConfigV, RepoConfigError> {
    let d = match pkg {
        Some(text) => Some(spec_default_from_manifest(manifest_scripts_of(text), yarn)),
        None => None,
    };
    match pie {
        Some(t) => match pie_toml_of(t) {
            None => Err(RepoConfigError::InvalidTOML),
            Some(f) => spec_merge(f, d),
        },
        None => spec_merge(empty_file_v(), d),
    }
}

/// Resolves the effective recipe for a repository root.
pub fn get_repo_config(
    pie_toml: &Option<String>,
    package_json: &Option<String>,
    yarn_lock: bool,
) -> (r: Result<RepoConfig, RepoConfigError>)
    ensures
        result_view(r) == spec_resolve(
            opt_str_view(*pie_toml),
            opt_str_view(*package_json),
            yarn_lock,
        ),
{
    let file: RepoConfigFile = match pie_toml {
        Some(t) => {
            match parse_pie_toml(t.as_str()) {
                Some(f) => f,
                None => {
                    return Err(RepoConfigError::InvalidTOML);
                },
            }
        },
        None => RepoConfigFile {
            _type: None,
            install_command: None,
            build_command: None,
            start_command: None,
        },
    };
    let heuristic: Option<RepoConfig> = match get_default_repo_config(package_json, yarn_lock) {
        Ok(c) => Some(c),
        Err(_) => None,
    };
    merge_config(&file, &heuristic)
}

// ===== laws of resolution =====

/// Resolution is a function of the repository's files alone: resolving
/// the same contents twice yields identical recipes.
pub proof fn lemma_resolve_idempotent(
    r1: Result<RepoConfig, RepoConfigError>,
    r2: Result<RepoConfig, RepoConfigError>,
    pie: Option<Seq<char>>,
    pkg: Option<Seq<char>>,
    yarn: bool,
)
    requires
        result_view(r1) == spec_resolve(pie, pkg, yarn),
        result_view(r2) == spec_resolve(pie, pkg, yarn),
    ensures
        result_view(r1) == result_view(r2),
{
}

/// A successfully resolved recipe always carries a non-empty start
/// command; resolution fails with `MissingCommands` rather than
/// returning an empty one.
pub proof fn lemma_resolve_start_nonempty(
    pie: Option<Seq<char>>,
    pkg: Option<Seq<char>>,
    yarn: bool,
)
    ensures
        spec_resolve(pie, pkg, yarn) matches Ok(c) ==> c.start_command.len() > 0,
{
}

/// An explicit non-empty start command always overrides the heuristic
/// default, whether or not a heuristic recipe exists.
pub proof fn lemma_explicit_start_overrides(f: RepoConfigFileV, d: Option<RepoConfigV>)
    requires
        f.start_command is Some,
        f.start_command.unwrap().len() > 0,
        f._type is Some ==> spec_config_type(f._type.unwrap()) is Some,
    ensures
        spec_merge(f, d) is Ok,
        spec_merge(f, d).unwrap().start_command == f.start_command.unwrap(),
{
}

/// An explicit empty start command counts as unset: the start command
/// falls back to the heuristic one.
pub proof fn lemma_empty_start_falls_back(f: RepoConfigFileV, d: RepoConfigV)
    requires
        f.start_command matches Some(s) ==> s.len() == 0,
    ensures
        spec_merge(f, Some(d)) matches Ok(c) ==> c.start_command == d.start_command,
        (f._type is Some ==> spec_config_type(f._type.unwrap()) is Some) && d.start_command.len()
            > 0 ==> spec_merge(f, Some(d)) is Ok,
{
}

/// The sentinel `NONE` in the install field disables that stage, even
/// when a heuristic default exists for it.
pub proof fn lemma_disabled_install_resolves_to_none(f: RepoConfigFileV, d: Option<RepoConfigV>)
    requires
        f.install_command == Some("NONE"@),
    ensures
        spec_merge(f, d) matches Ok(c) ==> c.install_command is None,
{
}

/// The sentinel `NONE` in the build field disables that stage, even
/// when a heuristic default exists for it.
pub proof fn lemma_disabled_build_resolves_to_none(f: RepoConfigFileV, d: Option<RepoConfigV>)
    requires
        f.build_command == Some("NONE"@),
    ensures
        spec_merge(f, d) matches Ok(c) ==> c.build_command is None,
{
}

} // verus!
