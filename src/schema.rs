//! The configuration files of an Nx workspace, and how they are read from a
//! JSON document.
//!
//! Optional fields of a string or record type are absent where their member
//! is missing or `null`. The fields that hold any JSON value (`output_path`,
//! `production`) are present wherever their member is, whatever its value.
//! An aliased field may be spelled either way, but not both ways at once.

use vstd::prelude::*;
use crate::json::{Json, lookup, take_member, push_member};

verus! {

/// The workspace file `nx.json`.
#[derive(Debug, PartialEq, Eq)]
pub struct NxJson {
    /// Read from `default_project` or `defaultProject`.
    pub default_project: Option<String>,
}

/// The configuration of one application.
#[derive(Debug, PartialEq, Eq)]
pub struct ProjectJson {
    pub targets: Targets,
}

#[derive(Debug, PartialEq, Eq)]
pub struct Targets {
    pub build: Target,
    pub start: Option<Target>,
}

#[derive(Debug, PartialEq, Eq)]
pub struct Target {
    pub executor: String,
    pub options: Option<NxTargetOptions>,
    pub configurations: Option<Configuration>,
}

#[derive(Debug, PartialEq, Eq)]
pub struct NxTargetOptions {
    /// Read from `output_path` or `outputPath`; only a string is a path.
    pub output_path: Option<Json>,
    pub main: Option<String>,
}

#[derive(Debug, PartialEq, Eq)]
pub struct Configuration {
    pub production: Option<Json>,
}

/// An aliased member: `None` where both spellings are present.
pub open spec fn aliased(a: Option<Json>, b: Option<Json>) -> Option<Option<Json>> {
    if a is Some && b is Some {
        None
    } else if a is Some {
        Some(a)
    } else {
        Some(b)
    }
}

/// An optional string member: `None` where it is neither missing, `null`
/// nor a string.
pub open spec fn opt_string(f: Option<Json>) -> Option<Option<String>> {
    match f {
        None => Some(None),
        Some(Json::Null) => Some(None),
        Some(Json::Str(s)) => Some(Some(s)),
        _ => None,
    }
}

pub open spec fn configuration_of(j: Json) -> Option<Configuration> {
    match j {
        Json::Object(ms) => Some(Configuration { production: lookup(ms@, "production"@) }),
        _ => None,
    }
}

pub open spec fn options_of(j: Json) -> Option<NxTargetOptions> {
    match j {
        Json::Object(ms) => match (
            aliased(lookup(ms@, "output_path"@), lookup(ms@, "outputPath"@)),
            opt_string(lookup(ms@, "main"@)),
        ) {
            (Some(o), Some(m)) => Some(NxTargetOptions { output_path: o, main: m }),
            _ => None,
        },
        _ => None,
    }
}

pub open spec fn opt_options(f: Option<Json>) -> Option<Option<NxTargetOptions>> {
    match f {
        None => Some(None),
        Some(Json::Null) => Some(None),
        Some(x) => match options_of(x) {
            Some(o) => Some(Some(o)),
            None => None,
        },
    }
}

pub open spec fn opt_configuration(f: Option<Json>) -> Option<Option<Configuration>> {
    match f {
        None => Some(None),
        Some(Json::Null) => Some(None),
        Some(x) => match configuration_of(x) {
            Some(c) => Some(Some(c)),
            None => None,
        },
    }
}

pub open spec fn target_of(j: Json) -> Option<Target> {
    match j {
        Json::Object(ms) => match (
            lookup(ms@, "executor"@),
            opt_options(lookup(ms@, "options"@)),
            opt_configuration(lookup(ms@, "configurations"@)),
        ) {
            (Some(Json::Str(e)), Some(o), Some(c)) => Some(
                Target { executor: e, options: o, configurations: c },
            ),
            _ => None,
        },
        _ => None,
    }
}

pub open spec fn opt_target(f: Option<Json>) -> Option<Option<Target>> {
    match f {
        None => Some(None),
        Some(Json::Null) => Some(None),
        Some(x) => match target_of(x) {
            Some(t) => Some(Some(t)),
            None => None,
        },
    }
}

pub open spec fn targets_of(j: Json) -> Option<Targets> {
    match j {
        Json::Object(ms) => match (lookup(ms@, "build"@), opt_target(lookup(ms@, "start"@))) {
            (Some(b), Some(s)) => match target_of(b) {
                Some(bt) => Some(Targets { build: bt, start: s }),
                None => None,
            },
            _ => None,
        },
        _ => None,
    }
}

pub open spec fn project_json_of(j: Json) -> Option<ProjectJson> {
    match j {
        Json::Object(ms) => match lookup(ms@, "targets"@) {
            Some(t) => match targets_of(t) {
                Some(ts) => Some(ProjectJson { targets: ts }),
                None => None,
            },
            None => None,
        },
        _ => None,
    }
}

pub open spec fn nx_json_of(j: Json) -> Option<NxJson> {
    match j {
        Json::Object(ms) => match aliased(
            lookup(ms@, "default_project"@),
            lookup(ms@, "defaultProject"@),
        ) {
            Some(f) => match opt_string(f) {
                Some(d) => Some(NxJson { default_project: d }),
                None => None,
            },
            None => None,
        },
        _ => None,
    }
}

fn pick_alias(a: Option<Json>, b: Option<Json>) -> (r: Option<Option<Json>>)
    ensures
        r == aliased(a, b),
{
    match (a, b) {
        (Some(_), Some(_)) => None,
        (Some(x), None) => Some(Some(x)),
        (None, y) => Some(y),
    }
}

fn string_member(f: Option<Json>) -> (r: Option<Option<String>>)
    ensures
        r == opt_string(f),
{
    match f {
        None => Some(None),
        Some(Json::Null) => Some(None),
        Some(Json::Str(s)) => Some(Some(s)),
        _ => None,
    }
}

impl Configuration {
    pub fn from_json(j: Json) -> (r: Option<Configuration>)
        ensures
            r == configuration_of(j),
    {
        match j {
            Json::Object(ms) => {
                let mut ms = ms;
                let p = take_member(&mut ms, "production");
                Some(Configuration { production: p })
            },
            _ => None,
        }
    }
}

impl NxTargetOptions {
    pub fn from_json(j: Json) -> (r: Option<NxTargetOptions>)
        ensures
            r == options_of(j),
    {
        match j {
            Json::Object(ms) => {
                let mut ms = ms;
                proof {
                    reveal_strlit("output_path");
                    reveal_strlit("outputPath");
                    reveal_strlit("main");
                    assert("main"@.len() != "output_path"@.len());
                    assert("main"@.len() != "outputPath"@.len());
                    assert("outputPath"@.len() != "output_path"@.len());
                }
                let a = take_member(&mut ms, "output_path");
                let b = take_member(&mut ms, "outputPath");
                let m = take_member(&mut ms, "main");
                let o = pick_alias(a, b);
                let m = string_member(m);
                match (o, m) {
                    (Some(o), Some(m)) => Some(NxTargetOptions { output_path: o, main: m }),
                    _ => None,
                }
            },
            _ => None,
        }
    }
}

fn options_member(f: Option<Json>) -> (r: Option<Option<NxTargetOptions>>)
    ensures
        r == opt_options(f),
{
    match f {
        None => Some(None),
        Some(Json::Null) => Some(None),
        Some(x) => match NxTargetOptions::from_json(x) {
            Some(o) => Some(Some(o)),
            None => None,
        },
    }
}

fn configuration_member(f: Option<Json>) -> (r: Option<Option<Configuration>>)
    ensures
        r == opt_configuration(f),
{
    match f {
        None => Some(None),
        Some(Json::Null) => Some(None),
        Some(x) => match Configuration::from_json(x) {
            Some(c) => Some(Some(c)),
            None => None,
        },
    }
}

fn target_member(f: Option<Json>) -> (r: Option<Option<Target>>)
    ensures
        r == opt_target(f),
{
    match f {
        None => Some(None),
        Some(Json::Null) => Some(None),
        Some(x) => match Target::from_json(x) {
            Some(t) => Some(Some(t)),
            None => None,
        },
    }
}

impl Target {
    pub fn from_json(j: Json) -> (r: Option<Target>)
        ensures
            r == target_of(j),
    {
        match j {
            Json::Object(ms) => {
                let mut ms = ms;
                proof {
                    reveal_strlit("executor");
                    reveal_strlit("options");
                    reveal_strlit("configurations");
                    assert("executor"@.len() != "options"@.len());
                    assert("executor"@.len() != "configurations"@.len());
                    assert("options"@.len() != "configurations"@.len());
                }
                let e = take_member(&mut ms, "executor");
                let o = take_member(&mut ms, "options");
                let c = take_member(&mut ms, "configurations");
                let o = options_member(o);
                let c = configuration_member(c);
                match (e, o, c) {
                    (Some(Json::Str(e)), Some(o), Some(c)) => Some(
                        Target { executor: e, options: o, configurations: c },
                    ),
                    _ => None,
                }
            },
            _ => None,
        }
    }
}

impl Targets {
    pub fn from_json(j: Json) -> (r: Option<Targets>)
        ensures
            r == targets_of(j),
    {
        match j {
            Json::Object(ms) => {
                let mut ms = ms;
                proof {
                    reveal_strlit("build");
                    reveal_strlit("start");
                    assert("build"@[0] != "start"@[0]);
                }
                let b = take_member(&mut ms, "build");
                let s = take_member(&mut ms, "start");
                let s = target_member(s);
                match (b, s) {
                    (Some(b), Some(s)) => match Target::from_json(b) {
                        Some(bt) => Some(Targets { build: bt, start: s }),
                        None => None,
                    },
                    _ => None,
                }
            },
            _ => None,
        }
    }
}

impl ProjectJson {
    pub fn from_json(j: Json) -> (r: Option<ProjectJson>)
        ensures
            r == project_json_of(j),
    {
        match j {
            Json::Object(ms) => {
                let mut ms = ms;
                match take_member(&mut ms, "targets") {
                    Some(t) => match Targets::from_json(t) {
                        Some(ts) => Some(ProjectJson { targets: ts }),
                        None => None,
                    },
                    None => None,
                }
            },
            _ => None,
        }
    }
}

impl NxJson {
    pub fn from_json(j: Json) -> (r: Option<NxJson>)
        ensures
            r == nx_json_of(j),
    {
        match j {
            Json::Object(ms) => {
                let mut ms = ms;
                proof {
                    reveal_strlit("default_project");
                    reveal_strlit("defaultProject");
                    assert("default_project"@.len() != "defaultProject"@.len());
                }
                let a = take_member(&mut ms, "default_project");
                let b = take_member(&mut ms, "defaultProject");
                match pick_alias(a, b) {
                    Some(f) => match string_member(f) {
                        Some(d) => Some(NxJson { default_project: d }),
                        None => None,
                    },
                    None => None,
                }
            },
            _ => None,
        }
    }
}

impl Configuration {
    /// The document that reads back as this configuration: one member per
    /// field that is present.
    pub fn to_json(self) -> (r: Json)
        ensures
            r is Object,
            configuration_of(r) == Some(self),
    {
        let mut ms: Vec<(String, Json)> = Vec::new();
        if let Some(p) = self.production {
            push_member(&mut ms, "production", p);
        }
        Json::Object(ms)
    }
}

impl NxTargetOptions {
    /// The document that reads back as these options: one member per field
    /// that is present, under the snake-case name.
    pub fn to_json(self) -> (r: Json)
        ensures
            r is Object,
            options_of(r) == Some(self),
    {
        proof {
            reveal_strlit("output_path");
            reveal_strlit("outputPath");
            reveal_strlit("main");
            assert("main"@.len() != "output_path"@.len());
            assert("main"@.len() != "outputPath"@.len());
            assert("outputPath"@.len() != "output_path"@.len());
        }
        let mut ms: Vec<(String, Json)> = Vec::new();
        if let Some(o) = self.output_path {
            push_member(&mut ms, "output_path", o);
        }
        if let Some(m) = self.main {
            push_member(&mut ms, "main", Json::Str(m));
        }
        Json::Object(ms)
    }
}

impl Target {
    /// The document that reads back as this target.
    pub fn to_json(self) -> (r: Json)
        ensures
            r is Object,
            target_of(r) == Some(self),
    {
        proof {
            reveal_strlit("executor");
            reveal_strlit("options");
            reveal_strlit("configurations");
            assert("executor"@.len() != "options"@.len());
            assert("executor"@.len() != "configurations"@.len());
            assert("options"@.len() != "configurations"@.len());
        }
        let mut ms: Vec<(String, Json)> = Vec::new();
        push_member(&mut ms, "executor", Json::Str(self.executor));
        if let Some(o) = self.options {
            push_member(&mut ms, "options", o.to_json());
        }
        if let Some(c) = self.configurations {
            push_member(&mut ms, "configurations", c.to_json());
        }
        Json::Object(ms)
    }
}

impl Targets {
    /// The document that reads back as these targets.
    pub fn to_json(self) -> (r: Json)
        ensures
            r is Object,
            targets_of(r) == Some(self),
    {
        proof {
            reveal_strlit("build");
            reveal_strlit("start");
            assert("build"@[0] != "start"@[0]);
        }
        let mut ms: Vec<(String, Json)> = Vec::new();
        push_member(&mut ms, "build", self.build.to_json());
        if let Some(s) = self.start {
            push_member(&mut ms, "start", s.to_json());
        }
        Json::Object(ms)
    }
}

impl ProjectJson {
    /// The document that reads back as this configuration.
    pub fn to_json(self) -> (r: Json)
        ensures
            r is Object,
            project_json_of(r) == Some(self),
    {
        let mut ms: Vec<(String, Json)> = Vec::new();
        push_member(&mut ms, "targets", self.targets.to_json());
        Json::Object(ms)
    }
}

impl NxJson {
    /// The document that reads back as this workspace file.
    pub fn to_json(self) -> (r: Json)
        ensures
            r is Object,
            nx_json_of(r) == Some(self),
    {
        proof {
            reveal_strlit("default_project");
            reveal_strlit("defaultProject");
            assert("default_project"@.len() != "defaultProject"@.len());
        }
        let mut ms: Vec<(String, Json)> = Vec::new();
        if let Some(d) = self.default_project {
            push_member(&mut ms, "default_project", Json::Str(d));
        }
        Json::Object(ms)
    }
}

} // verus!
