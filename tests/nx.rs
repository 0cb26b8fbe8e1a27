use nx_monorepo::json::{parse_json, Json};
use nx_monorepo::nx::{node_cmd, output_path_for, start_cmd_for, ConfigError, Nx};
use nx_monorepo::schema::{Configuration, NxJson, NxTargetOptions, ProjectJson, Target, Targets};
use nx_monorepo::text::{file_stem, text_eq, text_less};
use nx_monorepo::workspace::{App, AppDir, Environment, NX_APP_NAME_ENV_VAR};

fn dir(name: &str, project_json: Option<&str>, package_json: Option<&str>) -> AppDir {
    AppDir {
        name: name.to_string(),
        project_json: project_json.map(|s| s.to_string()),
        package_json: package_json.map(|s| s.to_string()),
    }
}

fn tree(nx_json: Option<&str>, apps: Option<Vec<AppDir>>) -> App {
    App { nx_json: nx_json.map(|s| s.to_string()), apps, dlx_command: "npx".to_string() }
}

fn env(name: Option<&str>) -> Environment {
    Environment { nx_app_name: name.map(|s| s.to_string()) }
}

const BUILD_START: &str = r#"{"targets": {
    "build": {"executor": "@nx/webpack:webpack", "options": {"outputPath": "dist/apps/web"}},
    "start": {"executor": "@nx/js:node"}
}}"#;

const BUILD_ONLY: &str = r#"{"targets": {"build": {"executor": "@nx/webpack:webpack"}}}"#;

fn project(text: &str) -> ProjectJson {
    ProjectJson::from_json(parse_json(text).unwrap()).unwrap()
}

fn start_for_api(text: &str) -> String {
    start_cmd_for(&project(text), "api", "npx")
}

#[test]
fn no_marker_and_no_config_is_not_monorepo() {
    let app = tree(None, Some(vec![dir("web", None, None), dir("api", None, Some("{}"))]));
    assert!(!Nx::is_nx_monorepo(&app, &env(None)));
    let app = tree(None, None);
    assert!(!Nx::is_nx_monorepo(&app, &env(None)));
}

#[test]
fn marker_without_any_config_is_not_monorepo() {
    let app = tree(Some("{}"), Some(vec![dir("web", None, None)]));
    assert!(!Nx::is_nx_monorepo(&app, &env(None)));
    assert_eq!(Nx::get_nx_app_name(&app, &env(None)), None);
}

#[test]
fn override_names_web_with_legacy_config() {
    let app = tree(
        Some(r#"{"defaultProject": "api"}"#),
        Some(vec![dir("api", Some(BUILD_ONLY), None), dir("web", Some(BUILD_START), None)]),
    );
    let e = env(Some("web"));
    assert!(Nx::is_nx_monorepo(&app, &e));
    assert_eq!(Nx::get_nx_app_name(&app, &e), Some("web".to_string()));
    assert_eq!(NX_APP_NAME_ENV_VAR, "NX_APP_NAME");
}

#[test]
fn override_beats_default_project() {
    let app = tree(Some(r#"{"defaultProject": "api"}"#), Some(vec![dir("admin", Some(BUILD_ONLY), None)]));
    assert_eq!(Nx::get_nx_app_name(&app, &env(Some("web"))), Some("web".to_string()));
}

#[test]
fn default_project_beats_scan() {
    let app = tree(Some(r#"{"default_project": "api"}"#), Some(vec![dir("admin", Some(BUILD_ONLY), None)]));
    assert_eq!(Nx::get_nx_app_name(&app, &env(None)), Some("api".to_string()));
}

#[test]
fn scan_takes_alphabetically_first_configured_dir() {
    let app = tree(
        Some("{}"),
        Some(vec![
            dir("zeta", Some(BUILD_ONLY), None),
            dir("beta", None, Some(r#"{"name": "beta"}"#)),
            dir("alpha", None, Some(r#"{"nx": {"targets": {"build": {"executor": "x"}}}}"#)),
            dir("aaa", None, None),
        ]),
    );
    assert_eq!(Nx::get_nx_app_name(&app, &env(None)), Some("alpha".to_string()));
}

#[test]
fn scan_without_apps_dir_finds_nothing() {
    let app = tree(Some(r#"{"npmScope": "x"}"#), None);
    assert_eq!(Nx::get_nx_app_name(&app, &env(None)), None);
    assert_eq!(Nx::get_nx_build_cmd(&app, &env(None)), None);
}

#[test]
fn unreadable_root_file_falls_through_to_scan() {
    let app = tree(Some("not json"), Some(vec![dir("web", Some(BUILD_START), None)]));
    assert_eq!(Nx::get_nx_app_name(&app, &env(None)), Some("web".to_string()));
    let app = tree(Some(r#"{"defaultProject": 3}"#), Some(vec![dir("web", Some(BUILD_START), None)]));
    assert_eq!(Nx::get_nx_app_name(&app, &env(None)), Some("web".to_string()));
}

#[test]
fn legacy_file_wins_over_manifest() {
    let manifest = r#"{"nx": {"targets": {"build": {"executor": "@nx/next:build"}}}}"#;
    let app = tree(Some("{}"), Some(vec![dir("api", Some(BUILD_START), Some(manifest))]));
    let p = Nx::get_nx_project_json_for_app(&app, &"api".to_string()).unwrap();
    assert_eq!(p.targets.build.executor, "@nx/webpack:webpack");
    assert!(p.targets.start.is_some());
}

#[test]
fn broken_legacy_file_falls_back_to_manifest() {
    let manifest = r#"{"nx": {"targets": {"build": {"executor": "@nx/next:build"}}}}"#;
    let app = tree(Some("{}"), Some(vec![dir("api", Some("{"), Some(manifest))]));
    let p = Nx::get_nx_project_json_for_app(&app, &"api".to_string()).unwrap();
    assert_eq!(p.targets.build.executor, "@nx/next:build");
}

#[test]
fn manifest_with_nx_but_no_targets_is_not_found() {
    let app = tree(Some("{}"), Some(vec![dir("api", None, Some(r#"{"nx": {}}"#))]));
    let e = Nx::get_nx_project_json_for_app(&app, &"api".to_string()).unwrap_err();
    assert_eq!(e, ConfigError::NotFound { app_name: "api".to_string() });
    let m = e.message();
    assert!(m.contains("project.json"));
    assert!(m.contains("package.json"));
    assert!(m.contains("nx.targets"));
    assert!(m.contains("NX_APP_NAME"));
    assert!(m.contains("'api'"));
}

#[test]
fn manifest_with_invalid_targets_is_parse_error() {
    let app = tree(Some("{}"), Some(vec![dir("api", None, Some(r#"{"nx": {"targets": {"start": {}}}}"#))]));
    let e = Nx::get_nx_project_json_for_app(&app, &"api".to_string()).unwrap_err();
    assert_eq!(e, ConfigError::ParseError { app_name: "api".to_string() });
    let m = e.message();
    assert!(m.contains("project.json"));
    assert!(m.contains("package.json"));
    assert!(m.contains("NX_APP_NAME"));
    assert_eq!(Nx::get_nx_output_path(&app, &"api".to_string()), Err(e));
}

#[test]
fn default_output_path_for_api() {
    let app = tree(Some("{}"), Some(vec![dir("api", Some(BUILD_ONLY), None)]));
    assert_eq!(Nx::get_nx_output_path(&app, &"api".to_string()), Ok("dist/apps/api".to_string()));
}

#[test]
fn declared_output_path_is_used_and_non_string_ignored() {
    let p = project(r#"{"targets": {"build": {"executor": "x", "options": {"output_path": "out/api"}}}}"#);
    assert_eq!(output_path_for(&p, "api"), "out/api");
    let p = project(r#"{"targets": {"build": {"executor": "x", "options": {"outputPath": ["a"]}}}}"#);
    assert_eq!(output_path_for(&p, "api"), "dist/apps/api");
    let p = project(r#"{"targets": {"build": {"executor": "x", "options": {"outputPath": null}}}}"#);
    assert_eq!(output_path_for(&p, "api"), "dist/apps/api");
}

#[test]
fn start_with_production_configuration() {
    let text = r#"{"targets": {"build": {"executor": "x"},
        "start": {"executor": "y", "configurations": {"production": {}}}}}"#;
    assert_eq!(start_for_api(text), "npx nx run api:start:production");
}

#[test]
fn production_key_with_null_value_counts() {
    let text = r#"{"targets": {"build": {"executor": "x"},
        "start": {"executor": "y", "configurations": {"production": null}}}}"#;
    assert_eq!(start_for_api(text), "npx nx run api:start:production");
}

#[test]
fn start_without_production_configuration() {
    let text = r#"{"targets": {"build": {"executor": "x"},
        "start": {"executor": "y", "configurations": {"development": {}}}}}"#;
    assert_eq!(start_for_api(text), "npx nx run api:start");
}

#[test]
fn next_build_starts_with_npm() {
    let text = r#"{"targets": {"build": {"executor": "@nx/next:build", "options": {"main": "src/main.ts"}}}}"#;
    assert_eq!(start_for_api(text), "cd dist/apps/api && npm run start");
    let text = r#"{"targets": {"build": {"executor": "@nrwl/next:build"}}}"#;
    assert_eq!(start_for_api(text), "cd dist/apps/api && npm run start");
}

#[test]
fn main_script_gives_node_command() {
    let text = r#"{"targets": {"build": {"executor": "@nx/webpack:webpack", "options": {"main": "src/main.ts"}}}}"#;
    assert_eq!(start_for_api(text), "node dist/apps/api/main.js");
}

#[test]
fn fallback_is_index_script() {
    assert_eq!(start_for_api(BUILD_ONLY), "node dist/apps/api/index.js");
    assert_eq!(node_cmd("out", "server"), "node out/server.js");
}

#[test]
fn start_command_of_whole_tree() {
    let app = tree(Some("{}"), Some(vec![dir("web", Some(BUILD_START), None)]));
    assert_eq!(Nx::get_nx_start_cmd(&app, &env(None)), Ok(Some("npx nx run web:start".to_string())));
    assert_eq!(
        Nx::get_nx_build_cmd(&app, &env(None)),
        Some("npx nx run web:build:production".to_string())
    );
}

#[test]
fn start_command_outside_monorepo_is_none() {
    let app = tree(None, Some(vec![dir("web", Some(BUILD_START), None)]));
    assert_eq!(Nx::get_nx_start_cmd(&app, &env(None)), Ok(None));
}

#[test]
fn json_parses_into_tree() {
    assert_eq!(
        parse_json(r#"{"a": [1, true, null, "s"]}"#),
        Some(Json::Object(vec![(
            "a".to_string(),
            Json::Array(vec![
                Json::Number("1".to_string()),
                Json::Bool(true),
                Json::Null,
                Json::Str("s".to_string()),
            ]),
        )]))
    );
    assert_eq!(parse_json("{"), None);
}

#[test]
fn aliases_are_accepted_but_not_both() {
    let j = parse_json(r#"{"defaultProject": "a"}"#).unwrap();
    assert_eq!(NxJson::from_json(j), Some(NxJson { default_project: Some("a".to_string()) }));
    let j = parse_json(r#"{"defaultProject": "a", "default_project": "b"}"#).unwrap();
    assert_eq!(NxJson::from_json(j), None);
}

#[test]
fn root_config_round_trip() {
    for d in [None, Some("web".to_string())] {
        let v = NxJson { default_project: d.clone() };
        assert_eq!(NxJson::from_json(v.to_json()), Some(NxJson { default_project: d }));
    }
}

#[test]
fn target_round_trip_keeps_presence() {
    let full = || Target {
        executor: "e".to_string(),
        options: Some(NxTargetOptions {
            output_path: Some(Json::Null),
            main: Some("src/main.ts".to_string()),
        }),
        configurations: Some(Configuration { production: Some(Json::Bool(false)) }),
    };
    assert_eq!(Target::from_json(full().to_json()), Some(full()));
    let bare = || Target {
        executor: "e".to_string(),
        options: Some(NxTargetOptions { output_path: None, main: None }),
        configurations: Some(Configuration { production: None }),
    };
    assert_eq!(Target::from_json(bare().to_json()), Some(bare()));
    let none = || Target { executor: "e".to_string(), options: None, configurations: None };
    assert_eq!(Target::from_json(none().to_json()), Some(none()));
}

#[test]
fn project_config_round_trip() {
    let mk = || ProjectJson {
        targets: Targets {
            build: Target { executor: "b".to_string(), options: None, configurations: None },
            start: Some(Target { executor: "s".to_string(), options: None, configurations: None }),
        },
    };
    assert_eq!(ProjectJson::from_json(mk().to_json()), Some(mk()));
}

#[test]
fn text_helpers() {
    assert!(text_less("alpha", "beta"));
    assert!(text_less("app", "apps"));
    assert!(!text_less("beta", "beta"));
    assert!(text_eq("a", "a"));
    assert!(!text_eq("a", "b"));
    assert_eq!(file_stem("src/main.ts"), Some("main".to_string()));
    assert_eq!(file_stem(".."), None);
}
