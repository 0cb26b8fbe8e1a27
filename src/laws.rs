//! Properties of detection and configuration loading that hold of every tree.

use vstd::prelude::*;
use crate::json::Json;
use crate::nx::{
    ConfigError, app_name_of, first_configured, has_config, legacy_config, manifest_targets,
    monorepo, output_path_of, project_config, root_default_project,
};
use crate::schema::{ProjectJson, targets_of};
use crate::text::text_lt;
use crate::workspace::{App, AppDir, Environment};

verus! {

/// A tree without a root `nx.json`, and with no configuration under `apps`,
/// is not an Nx monorepo.
pub proof fn lemma_no_marker_no_monorepo(app: App, env: Environment)
    requires
        app.nx_json is None,
        app.apps is Some ==> forall|i: int|
            0 <= i < app.apps->0@.len() ==> !has_config(#[trigger] app.apps->0@[i]),
    ensures
        !monorepo(app, env),
{
}

/// The application is chosen by precedence: the environment's name first,
/// then the root's default project, then the scan of `apps`.
pub proof fn lemma_name_precedence(app: App, env: Environment)
    ensures
        env.nx_app_name is Some ==> app_name_of(app, env) == env.nx_app_name,
        env.nx_app_name is None && root_default_project(app) is Some ==> app_name_of(app, env)
            == root_default_project(app),
        env.nx_app_name is None && root_default_project(app) is None ==> app_name_of(app, env)
            == match app.apps {
            Some(dirs) => first_configured(dirs@),
            None => None,
        },
{
}

/// Alphabetical order is transitive.
pub proof fn lemma_text_lt_transitive(a: Seq<char>, b: Seq<char>, c: Seq<char>)
    requires
        text_lt(a, b),
        text_lt(b, c),
    ensures
        text_lt(a, c),
    decreases a.len(),
{
    if a.len() > 0 && b.len() > 0 && c.len() > 0 && a[0] == b[0] && b[0] == c[0] {
        lemma_text_lt_transitive(a.drop_first(), b.drop_first(), c.drop_first());
    }
}

/// The scan of `apps` finds a name exactly when some directory holds a
/// configuration, and then the name of such a directory that no other
/// such directory precedes alphabetically.
pub proof fn lemma_first_configured_is_least(dirs: Seq<AppDir>)
    ensures
        first_configured(dirs) is None <==> forall|i: int| 0 <= i < dirs.len() ==> !has_config(#[trigger] dirs[i]),
        first_configured(dirs) is Some ==> {
            let n = first_configured(dirs)->0;
            &&& exists|i: int| 0 <= i < dirs.len() && has_config(#[trigger] dirs[i]) && dirs[i].name == n
            &&& forall|j: int| 0 <= j < dirs.len() && has_config(#[trigger] dirs[j]) ==> !text_lt(dirs[j].name@, n@)
        },
    decreases dirs.len(),
{
    if dirs.len() > 0 {
        let init = dirs.drop_last();
        lemma_first_configured_is_least(init);
        let d = dirs.last();
        assert forall|i: int| 0 <= i < init.len() implies #[trigger] init[i] == dirs[i] by {}
        if has_config(d) {
            match first_configured(init) {
                Some(r) => {
                    if text_lt(d.name@, r@) {
                        assert forall|j: int| 0 <= j < dirs.len() && has_config(#[trigger] dirs[j])
                            implies !text_lt(dirs[j].name@, d.name@) by {
                            if j < dirs.len() - 1 {
                                assert(init[j] == dirs[j]);
                                if text_lt(dirs[j].name@, d.name@) {
                                    lemma_text_lt_transitive(dirs[j].name@, d.name@, r@);
                                }
                            } else {
                                lemma_text_lt_irreflexive(d.name@);
                            }
                        }
                        assert(has_config(dirs[dirs.len() - 1]));
                    } else {
                        let i = choose|i: int| 0 <= i < init.len() && has_config(#[trigger] init[i]) && init[i].name == r;
                        assert(has_config(dirs[i]));
                        assert forall|j: int| 0 <= j < dirs.len() && has_config(#[trigger] dirs[j])
                            implies !text_lt(dirs[j].name@, r@) by {
                            if j < dirs.len() - 1 {
                                assert(init[j] == dirs[j]);
                            }
                        }
                    }
                },
                None => {
                    assert(has_config(dirs[dirs.len() - 1]));
                    assert forall|j: int| 0 <= j < dirs.len() && has_config(#[trigger] dirs[j])
                        implies !text_lt(dirs[j].name@, d.name@) by {
                        if j < dirs.len() - 1 {
                            assert(init[j] == dirs[j]);
                        } else {
                            lemma_text_lt_irreflexive(d.name@);
                        }
                    }
                },
            }
        } else {
            if first_configured(init) is Some {
                let r = first_configured(init)->0;
                let i = choose|i: int| 0 <= i < init.len() && has_config(#[trigger] init[i]) && init[i].name == r;
                assert(has_config(dirs[i]));
            }
            assert forall|j: int| 0 <= j < dirs.len() && has_config(#[trigger] dirs[j])
                implies j < dirs.len() - 1 && has_config(init[j]) by {}
        }
    }
}

/// No text comes before itself.
pub proof fn lemma_text_lt_irreflexive(a: Seq<char>)
    ensures
        !text_lt(a, a),
    decreases a.len(),
{
    if a.len() > 0 {
        lemma_text_lt_irreflexive(a.drop_first());
    }
}

/// Where an application's legacy `project.json` reads as a configuration,
/// that configuration is the one loaded, whatever its `package.json` holds.
pub proof fn lemma_legacy_wins(app: App, name: String)
    requires
        legacy_config(app, name@) is Some,
    ensures
        project_config(app, name) == Ok::<ProjectJson, ConfigError>(legacy_config(app, name@)->0),
{
}

/// Without a string `output_path` in its build target, an application's
/// output goes to `dist/apps/<name>`.
pub proof fn lemma_default_output_path(p: ProjectJson, name: Seq<char>)
    requires
        match p.targets.build.options {
            Some(o) => !(o.output_path matches Some(Json::Str(_))),
            None => true,
        },
    ensures
        output_path_of(p, name) == "dist/apps/"@ + name,
{
}

/// Where no legacy file reads and the manifest's `nx` member holds no
/// usable targets, loading fails: with `ParseError` where `nx.targets` is
/// there but does not read, else with `NotFound`.
pub proof fn lemma_no_usable_targets_fails(app: App, name: String)
    requires
        legacy_config(app, name@) is None,
        match manifest_targets(app, name@) {
            Some(t) => targets_of(t) is None,
            None => true,
        },
    ensures
        project_config(app, name) == if manifest_targets(app, name@) is Some {
            Err::<ProjectJson, ConfigError>(ConfigError::ParseError { app_name: name })
        } else {
            Err::<ProjectJson, ConfigError>(ConfigError::NotFound { app_name: name })
        },
{
}

} // verus!
