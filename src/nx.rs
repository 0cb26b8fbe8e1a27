//! Which application of an Nx workspace is targeted, where its configuration
//! comes from, and the commands that build and start it.

use vstd::prelude::*;
use crate::json::{Json, parse_json, json_of_text, member, take_member};
use crate::schema::{ProjectJson, Targets, NxJson, project_json_of, targets_of, nx_json_of};
use crate::text::{text_eq, text_lt, text_less, contains, lemma_contains_end, lemma_contains_extend, file_stem, file_stem_of};
use crate::workspace::{App, AppDir, Environment};

verus! {

/// Why no configuration could be had for an application.
#[derive(Debug, PartialEq, Eq)]
pub enum ConfigError {
    /// Neither `apps/<name>/project.json` nor the `nx.targets` member of
    /// `apps/<name>/package.json` could be read.
    NotFound { app_name: String },
    /// `nx.targets` of `apps/<name>/package.json` is not a valid set of targets.
    ParseError { app_name: String },
}

/// The document held by a file, where it exists and parses.
pub open spec fn parsed(text: Option<String>) -> Option<Json> {
    match text {
        Some(t) => json_of_text(t@),
        None => None,
    }
}

fn parse_file(text: &Option<String>) -> (r: Option<Json>)
    ensures
        r == parsed(*text),
{
    match text {
        Some(t) => parse_json(t.as_str()),
        None => None,
    }
}

/// The `nx.targets` member of a document.
pub open spec fn nx_targets_of(j: Json) -> Option<Json> {
    match member(j, "nx"@) {
        Some(nx) => member(nx, "targets"@),
        None => None,
    }
}

fn nx_targets(j: Json) -> (r: Option<Json>)
    ensures
        r == nx_targets_of(j),
{
    match j {
        Json::Object(ms) => {
            let mut ms = ms;
            match take_member(&mut ms, "nx") {
                Some(Json::Object(nms)) => {
                    let mut nms = nms;
                    take_member(&mut nms, "targets")
                },
                _ => None,
            }
        },
        _ => None,
    }
}

/// The first directory named `name`.
pub open spec fn find_dir(dirs: Seq<AppDir>, name: Seq<char>) -> Option<AppDir>
    decreases dirs.len(),
{
    if dirs.len() == 0 {
        None
    } else if dirs[0].name@ == name {
        Some(dirs[0])
    } else {
        find_dir(dirs.drop_first(), name)
    }
}

/// The directory of application `name`.
pub open spec fn app_dir_of(app: App, name: Seq<char>) -> Option<AppDir> {
    match app.apps {
        Some(dirs) => find_dir(dirs@, name),
        None => None,
    }
}

fn find_app_dir(dirs: &Vec<AppDir>, name: &str) -> (r: Option<usize>)
    ensures
        match r {
            Some(i) => i < dirs@.len() && find_dir(dirs@, name@) == Some(dirs@[i as int]),
            None => find_dir(dirs@, name@) is None,
        },
{
    let n = dirs.len();
    let mut i: usize = 0;
    assert(dirs@.skip(0) =~= dirs@);
    while i < n
        invariant
            n == dirs@.len(),
            i <= n,
            find_dir(dirs@, name@) == find_dir(dirs@.skip(i as int), name@),
        decreases n - i,
    {
        proof {
            assert(dirs@.skip(i as int).drop_first() =~= dirs@.skip(i + 1));
        }
        if text_eq(dirs[i].name.as_str(), name) {
            return Some(i);
        }
        i = i + 1;
    }
    None
}

/// The configuration in the legacy file `apps/<name>/project.json`, where
/// it exists and reads as one.
pub open spec fn legacy_config(app: App, name: Seq<char>) -> Option<ProjectJson> {
    match app_dir_of(app, name) {
        Some(d) => match parsed(d.project_json) {
            Some(j) => project_json_of(j),
            None => None,
        },
        None => None,
    }
}

/// The `nx.targets` member of `apps/<name>/package.json`.
pub open spec fn manifest_targets(app: App, name: Seq<char>) -> Option<Json> {
    match app_dir_of(app, name) {
        Some(d) => match parsed(d.package_json) {
            Some(j) => nx_targets_of(j),
            None => None,
        },
        None => None,
    }
}

/// The configuration of application `name`: the legacy file wins; else the
/// targets of the manifest, which must read as targets; else none is found.
pub open spec fn project_config(app: App, name: String) -> Result<ProjectJson, ConfigError> {
    match legacy_config(app, name@) {
        Some(p) => Ok(p),
        None => match manifest_targets(app, name@) {
            Some(t) => match targets_of(t) {
                Some(ts) => Ok(ProjectJson { targets: ts }),
                None => Err(ConfigError::ParseError { app_name: name }),
            },
            None => Err(ConfigError::NotFound { app_name: name }),
        },
    }
}

/// Whether a directory holds a configuration: a legacy file, whatever it
/// holds, or a manifest with an `nx.targets` member.
pub open spec fn has_config(d: AppDir) -> bool {
    d.project_json is Some || match parsed(d.package_json) {
        Some(j) => nx_targets_of(j) is Some,
        None => false,
    }
}

/// The alphabetically first name among the directories that hold a
/// configuration; of equal names, the earlier.
pub open spec fn first_configured(dirs: Seq<AppDir>) -> Option<String>
    decreases dirs.len(),
{
    if dirs.len() == 0 {
        None
    } else {
        let rest = first_configured(dirs.drop_last());
        let d = dirs.last();
        if !has_config(d) {
            rest
        } else {
            match rest {
                Some(r) => if text_lt(d.name@, r@) {
                    Some(d.name)
                } else {
                    Some(r)
                },
                None => Some(d.name),
            }
        }
    }
}

fn dir_has_config(d: &AppDir) -> (r: bool)
    ensures
        r == has_config(*d),
{
    if d.project_json.is_some() {
        return true;
    }
    match parse_file(&d.package_json) {
        Some(j) => nx_targets(j).is_some(),
        None => false,
    }
}

fn scan_apps(dirs: &Vec<AppDir>) -> (r: Option<String>)
    ensures
        r == first_configured(dirs@),
{
    let n = dirs.len();
    let mut best: Option<usize> = None;
    let mut i: usize = 0;
    assert(dirs@.take(0) =~= Seq::<AppDir>::empty());
    while i < n
        invariant
            n == dirs@.len(),
            i <= n,
            match best {
                Some(k) => k < i && first_configured(dirs@.take(i as int)) == Some(dirs@[k as int].name),
                None => first_configured(dirs@.take(i as int)) is None,
            },
        decreases n - i,
    {
        proof {
            assert(dirs@.take(i + 1).drop_last() =~= dirs@.take(i as int));
            assert(dirs@.take(i + 1).last() == dirs@[i as int]);
        }
        if dir_has_config(&dirs[i]) {
            match best {
                Some(k) => {
                    if text_less(dirs[i].name.as_str(), dirs[k].name.as_str()) {
                        best = Some(i);
                    }
                },
                None => {
                    best = Some(i);
                },
            }
        }
        i = i + 1;
    }
    assert(dirs@.take(n as int) =~= dirs@);
    match best {
        Some(k) => Some(dirs[k].name.clone()),
        None => None,
    }
}

/// The `default_project` of the root `nx.json`, where it exists and reads.
pub open spec fn root_default_project(app: App) -> Option<String> {
    match parsed(app.nx_json) {
        Some(j) => match nx_json_of(j) {
            Some(n) => n.default_project,
            None => None,
        },
        None => None,
    }
}

/// The targeted application: named by the environment; else the root's
/// default project; else the alphabetically first configured app directory.
pub open spec fn app_name_of(app: App, env: Environment) -> Option<String> {
    match env.nx_app_name {
        Some(n) => Some(n),
        None => match root_default_project(app) {
            Some(d) => Some(d),
            None => match app.apps {
                Some(dirs) => first_configured(dirs@),
                None => None,
            },
        },
    }
}

/// A tree is an Nx monorepo where it has a root `nx.json`, an application
/// is targeted, and that application's configuration loads.
pub open spec fn monorepo(app: App, env: Environment) -> bool {
    match app_name_of(app, env) {
        Some(n) => app.nx_json is Some && project_config(app, n) is Ok,
        None => false,
    }
}

/// Where the build puts its output: the build target's `output_path` where
/// that is a string, else `dist/apps/<name>`.
pub open spec fn output_path_of(p: ProjectJson, name: Seq<char>) -> Seq<char> {
    match p.targets.build.options {
        Some(o) => match o.output_path {
            Some(Json::Str(s)) => s@,
            _ => "dist/apps/"@ + name,
        },
        None => "dist/apps/"@ + name,
    }
}

/// `<dlx> nx run <name><target>`.
pub open spec fn nx_run(dlx: Seq<char>, name: Seq<char>, target: Seq<char>) -> Seq<char> {
    dlx + " nx run "@ + name + target
}

/// `node <output_path>/<stem>.js`.
pub open spec fn node_cmd_of(output_path: Seq<char>, stem: Seq<char>) -> Seq<char> {
    "node "@ + output_path + "/"@ + stem + ".js"@
}

/// The build executors of Next.js under its two package names.
pub open spec fn is_next_executor(e: Seq<char>) -> bool {
    e == "@nx/next:build"@ || e == "@nrwl/next:build"@
}

/// The script that a node start command runs: the stem of the build
/// target's `main`, else `index`.
pub open spec fn script_stem_of(p: ProjectJson) -> Seq<char> {
    match p.targets.build.options {
        Some(o) => match o.main {
            Some(m) => match file_stem_of(m@) {
                Some(stem) => stem,
                None => "index"@,
            },
            None => "index"@,
        },
        None => "index"@,
    }
}

/// The start command, by the first rule that applies: a start target with
/// a production configuration; a start target; a Next.js build; `node` on
/// the build's script.
pub open spec fn start_cmd_of(p: ProjectJson, name: Seq<char>, dlx: Seq<char>) -> Seq<char> {
    match p.targets.start {
        Some(st) => if st.configurations is Some && st.configurations->0.production is Some {
            nx_run(dlx, name, ":start:production"@)
        } else {
            nx_run(dlx, name, ":start"@)
        },
        None => if is_next_executor(p.targets.build.executor@) {
            "cd "@ + output_path_of(p, name) + " && npm run start"@
        } else {
            node_cmd_of(output_path_of(p, name), script_stem_of(p))
        },
    }
}

/// The text of an optional string.
pub open spec fn opt_view(o: Option<String>) -> Option<Seq<char>> {
    match o {
        Some(s) => Some(s@),
        None => None,
    }
}

fn concat3(a: &str, b: &str, c: &str) -> (r: String)
    ensures
        r@ == a@ + b@ + c@,
{
    let mut r = String::from_str(a);
    r.append(b);
    r.append(c);
    r
}

fn nx_run_cmd(dlx: &str, name: &str, target: &str) -> (r: String)
    ensures
        r@ == nx_run(dlx@, name@, target@),
{
    let mut r = concat3(dlx, " nx run ", name);
    r.append(target);
    r
}

/// The command that runs script `<stem>.js` of the build output with node.
pub fn node_cmd(output_path: &str, script_stem: &str) -> (r: String)
    ensures
        r@ == node_cmd_of(output_path@, script_stem@),
{
    let mut r = concat3("node ", output_path, "/");
    r.append(script_stem);
    r.append(".js");
    r
}

/// Where the build of application `nx_app_name`, configured by `project`,
/// puts its output.
pub fn output_path_for(project: &ProjectJson, nx_app_name: &str) -> (r: String)
    ensures
        r@ == output_path_of(*project, nx_app_name@),
{
    match &project.targets.build.options {
        Some(o) => match &o.output_path {
            Some(Json::Str(s)) => {
                return s.clone();
            },
            _ => {},
        },
        None => {},
    }
    let mut r = String::from_str("dist/apps/");
    r.append(nx_app_name);
    r
}

/// The command that starts application `nx_app_name`, configured by
/// `project`, where `dlx` runs a package.
pub fn start_cmd_for(project: &ProjectJson, nx_app_name: &str, dlx: &str) -> (r: String)
    ensures
        r@ == start_cmd_of(*project, nx_app_name@, dlx@),
{
    let targets = &project.targets;
    match &targets.start {
        Some(st) => {
            let production = match &st.configurations {
                Some(c) => c.production.is_some(),
                None => false,
            };
            if production {
                return nx_run_cmd(dlx, nx_app_name, ":start:production");
            }
            return nx_run_cmd(dlx, nx_app_name, ":start");
        },
        None => {},
    }
    let output_path = output_path_for(project, nx_app_name);
    let executor = targets.build.executor.as_str();
    if text_eq(executor, "@nx/next:build") || text_eq(executor, "@nrwl/next:build") {
        return concat3("cd ", output_path.as_str(), " && npm run start");
    }
    let stem = match &targets.build.options {
        Some(o) => match &o.main {
            Some(m) => file_stem(m.as_str()),
            None => None,
        },
        None => None,
    };
    match stem {
        Some(stem) => node_cmd(output_path.as_str(), stem.as_str()),
        None => node_cmd(output_path.as_str(), "index"),
    }
}

/// The guidance that follows each error: both places a configuration can
/// stand, and the variable that names the application.
pub open spec fn guidance() -> Seq<char> {
    " For NX 20+, ensure your app's "@ + "package.json"@ + " contains an '"@ + "nx.targets"@
        + "' section with 'build' and 'start' targets. For older NX versions, ensure your app has a "@
        + "project.json"@ + " file with target definitions. You can also set the "@
        + "NX_APP_NAME"@ + " environment variable to specify the app name explicitly."@
}

/// The text of an error about application `name`.
pub open spec fn error_message(e: ConfigError) -> Seq<char> {
    match e {
        ConfigError::NotFound { app_name } => "No build/start targets found for NX app '"@
            + app_name@ + "'."@ + guidance(),
        ConfigError::ParseError { app_name } => "Invalid 'nx.targets' in the package.json of NX app '"@
            + app_name@ + "'."@ + guidance(),
    }
}

fn append_guidance(r: &mut String)
    ensures
        final(r)@ == old(r)@ + guidance(),
        contains(final(r)@, "package.json"@),
        contains(final(r)@, "nx.targets"@),
        contains(final(r)@, "project.json"@),
        contains(final(r)@, "NX_APP_NAME"@),
{
    let ghost s0 = r@;
    r.append(" For NX 20+, ensure your app's ");
    r.append("package.json");
    proof { lemma_contains_end(s0 + " For NX 20+, ensure your app's "@, "package.json"@); }
    let ghost s1 = r@;
    r.append(" contains an '");
    r.append("nx.targets");
    proof {
        lemma_contains_extend(s1, " contains an '"@ + "nx.targets"@, "package.json"@);
        assert(s1 + (" contains an '"@ + "nx.targets"@) =~= r@);
        lemma_contains_end(s1 + " contains an '"@, "nx.targets"@);
    }
    let ghost s2 = r@;
    r.append(
        "' section with 'build' and 'start' targets. For older NX versions, ensure your app has a ",
    );
    r.append("project.json");
    proof {
        let mid = "' section with 'build' and 'start' targets. For older NX versions, ensure your app has a "@;
        lemma_contains_extend(s2, mid + "project.json"@, "package.json"@);
        lemma_contains_extend(s2, mid + "project.json"@, "nx.targets"@);
        assert(s2 + (mid + "project.json"@) =~= r@);
        lemma_contains_end(s2 + mid, "project.json"@);
    }
    let ghost s3 = r@;
    r.append(" file with target definitions. You can also set the ");
    r.append("NX_APP_NAME");
    proof {
        let mid = " file with target definitions. You can also set the "@;
        lemma_contains_extend(s3, mid + "NX_APP_NAME"@, "package.json"@);
        lemma_contains_extend(s3, mid + "NX_APP_NAME"@, "nx.targets"@);
        lemma_contains_extend(s3, mid + "NX_APP_NAME"@, "project.json"@);
        assert(s3 + (mid + "NX_APP_NAME"@) =~= r@);
        lemma_contains_end(s3 + mid, "NX_APP_NAME"@);
    }
    let ghost s4 = r@;
    let tail = " environment variable to specify the app name explicitly.";
    r.append(tail);
    proof {
        lemma_contains_extend(s4, tail@, "package.json"@);
        lemma_contains_extend(s4, tail@, "nx.targets"@);
        lemma_contains_extend(s4, tail@, "project.json"@);
        lemma_contains_extend(s4, tail@, "NX_APP_NAME"@);
        assert(r@ =~= s0 + guidance());
    }
}

impl ConfigError {
    /// The text that tells the user what went wrong and how to mend it. It
    /// names both places a configuration can stand (`project.json`, and
    /// `nx.targets` in `package.json`) and the variable `NX_APP_NAME`.
    pub fn message(&self) -> (r: String)
        ensures
            r@ == error_message(*self),
            contains(r@, "project.json"@),
            contains(r@, "package.json"@),
            contains(r@, "nx.targets"@),
            contains(r@, "NX_APP_NAME"@),
    {
        let mut r = match self {
            ConfigError::NotFound { app_name } => concat3(
                "No build/start targets found for NX app '",
                app_name.as_str(),
                "'.",
            ),
            ConfigError::ParseError { app_name } => concat3(
                "Invalid 'nx.targets' in the package.json of NX app '",
                app_name.as_str(),
                "'.",
            ),
        };
        append_guidance(&mut r);
        r
    }
}

/// The queries on an Nx workspace.
pub struct Nx {}

impl Nx {
    /// Whether the tree is an Nx monorepo whose targeted application has a
    /// configuration.
    pub fn is_nx_monorepo(app: &App, env: &Environment) -> (r: bool)
        ensures
            r == monorepo(*app, *env),
    {
        match Nx::get_nx_app_name(app, env) {
            Some(nx_app_name) => app.nx_json.is_some() && Nx::get_nx_project_json_for_app(
                app,
                &nx_app_name,
            ).is_ok(),
            None => false,
        }
    }

    /// The targeted application: the name set in the environment, else the
    /// root `nx.json`'s default project, else the alphabetically first
    /// directory under `apps` with a `project.json`, or a `package.json`
    /// with an `nx.targets` member.
    pub fn get_nx_app_name(app: &App, env: &Environment) -> (r: Option<String>)
        ensures
            r == app_name_of(*app, *env),
    {
        if let Some(n) = &env.nx_app_name {
            return Some(n.clone());
        }
        if let Some(j) = parse_file(&app.nx_json) {
            if let Some(nx_json) = NxJson::from_json(j) {
                if let Some(d) = nx_json.default_project {
                    return Some(d);
                }
            }
        }
        match &app.apps {
            Some(dirs) => scan_apps(dirs),
            None => None,
        }
    }

    /// The configuration of application `nx_app_name`: its `project.json`
    /// where that reads as one, else the `nx.targets` of its `package.json`.
    pub fn get_nx_project_json_for_app(app: &App, nx_app_name: &String) -> (r: Result<
        ProjectJson,
        ConfigError,
    >)
        ensures
            r == project_config(*app, *nx_app_name),
    {
        if let Some(dirs) = &app.apps {
            if let Some(i) = find_app_dir(dirs, nx_app_name.as_str()) {
                let d = &dirs[i];
                if let Some(j) = parse_file(&d.project_json) {
                    if let Some(p) = ProjectJson::from_json(j) {
                        return Ok(p);
                    }
                }
                if let Some(j) = parse_file(&d.package_json) {
                    if let Some(t) = nx_targets(j) {
                        return match Targets::from_json(t) {
                            Some(targets) => Ok(ProjectJson { targets }),
                            None => Err(ConfigError::ParseError { app_name: nx_app_name.clone() }),
                        };
                    }
                }
            }
        }
        Err(ConfigError::NotFound { app_name: nx_app_name.clone() })
    }

    /// Where the build of application `nx_app_name` puts its output.
    pub fn get_nx_output_path(app: &App, nx_app_name: &String) -> (r: Result<String, ConfigError>)
        ensures
            match project_config(*app, *nx_app_name) {
                Ok(p) => r is Ok && r->Ok_0@ == output_path_of(p, nx_app_name@),
                Err(e) => r == Err::<String, ConfigError>(e),
            },
    {
        let project = Nx::get_nx_project_json_for_app(app, nx_app_name)?;
        Ok(output_path_for(&project, nx_app_name.as_str()))
    }

    /// The command that builds the targeted application for production.
    pub fn get_nx_build_cmd(app: &App, env: &Environment) -> (r: Option<String>)
        ensures
            opt_view(r) == match app_name_of(*app, *env) {
                Some(n) => Some(nx_run(app.dlx_command@, n@, ":build:production"@)),
                None => None,
            },
    {
        match Nx::get_nx_app_name(app, env) {
            Some(nx_app_name) => Some(
                nx_run_cmd(app.dlx_command.as_str(), nx_app_name.as_str(), ":build:production"),
            ),
            None => None,
        }
    }

    /// The command that starts the targeted application; none where the
    /// tree is not an Nx monorepo.
    pub fn get_nx_start_cmd(app: &App, env: &Environment) -> (r: Result<Option<String>, ConfigError>)
        ensures
            r is Ok,
            opt_view(r->Ok_0) == if monorepo(*app, *env) {
                let n = app_name_of(*app, *env)->0;
                Some(start_cmd_of(project_config(*app, n)->Ok_0, n@, app.dlx_command@))
            } else {
                None
            },
    {
        if !Nx::is_nx_monorepo(app, env) {
            return Ok(None);
        }
        match Nx::get_nx_app_name(app, env) {
            Some(nx_app_name) => {
                let project = Nx::get_nx_project_json_for_app(app, &nx_app_name)?;
                Ok(Some(start_cmd_for(&project, nx_app_name.as_str(), app.dlx_command.as_str())))
            },
            None => Ok(None),
        }
    }
}

} // verus!
