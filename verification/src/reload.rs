//! The shader reload protocol.
//!
//! The host rebuilds a shader module, loads the fresh artifact, resolves
//! its entry point and only then swaps it in. The decisions of that
//! protocol live here as pure functions over plain values; the host's
//! outer loop performs the build, the load and the file operations and
//! hands the outcomes back.
//!
//! The protocol's order is part of the contracts: a new handle is
//! installed before the previous module is retired, and a failure at any
//! step leaves the previous shader and the host state exactly as they
//! were.

use vstd::prelude::*;

use crate::export::{ShaderExport, ShaderRegistry};
use crate::shader::Shader;

verus! {

/// The spatial dimensionality a shader module declares.
#[derive(Clone, Copy, Debug, PartialEq, Eq, Structural)]
pub enum FragType {
    /// One-dimensional sample points.
    FragOne,
    /// Two-dimensional sample points.
    FragTwo,
    /// Three-dimensional sample points.
    FragThree,
}

/// The visualization section of a shader project's configuration.
#[derive(Clone, Debug)]
pub struct Visualization {
    /// The dimensionality the module's shader expects.
    pub fragment: FragType,
    /// The name of the module's export entry point.
    pub exports_fn_identifier: String,
}

/// A shader project's configuration file, as plain values.
#[derive(Clone, Debug)]
pub struct Config {
    pub visualization: Visualization,
}

/// Everything that can go wrong on the way to a running shader. Each is
/// reported to the user; none disturbs the shader already running.
#[derive(Clone, Debug)]
pub enum ErrorMessageEvent {
    /// No project folder has been chosen yet.
    ManifestPathNotSet,
    /// The chosen folder is not a buildable project.
    NotAWorkspace,
    /// The external build failed; the payload is its diagnostic text.
    CargoError(String),
    /// The build produced more than one loadable artifact.
    TooManyLibs,
    /// The build produced no loadable artifact.
    NoLibs,
    /// The loaded module lacks the expected entry point.
    NoShaderExport,
    /// The project has no configuration file.
    NoSharkToml,
    /// The configuration file could not be read.
    CouldntReadSharkToml,
    /// The configuration file could not be parsed.
    InvalidSharkToml,
    /// The module declares a dimensionality the host does not support.
    UnsupportedFrag,
}

impl ErrorMessageEvent {
    /// The user-facing description of the error.
    pub fn message(&self) -> (m: &'static str)
        ensures
            m@ == match self {
                ErrorMessageEvent::ManifestPathNotSet => "Set a manifest path first!"@,
                ErrorMessageEvent::NotAWorkspace => "The manifest path is not a workspace!"@,
                ErrorMessageEvent::CargoError(_) => "Check the console for build errors!"@,
                ErrorMessageEvent::TooManyLibs => "The build produced more than one library!"@,
                ErrorMessageEvent::NoLibs => "The build produced no library!"@,
                ErrorMessageEvent::NoShaderExport => "The shader exports no entry point!"@,
                ErrorMessageEvent::NoSharkToml => "The project has no shark.toml!"@,
                ErrorMessageEvent::CouldntReadSharkToml => "Could not read shark.toml!"@,
                ErrorMessageEvent::InvalidSharkToml => "Could not parse shark.toml!"@,
                ErrorMessageEvent::UnsupportedFrag => "Only three-dimensional shaders are supported!"@,
            },
    {
        match self {
            ErrorMessageEvent::ManifestPathNotSet => "Set a manifest path first!",
            ErrorMessageEvent::NotAWorkspace => "The manifest path is not a workspace!",
            ErrorMessageEvent::CargoError(_) => "Check the console for build errors!",
            ErrorMessageEvent::TooManyLibs => "The build produced more than one library!",
            ErrorMessageEvent::NoLibs => "The build produced no library!",
            ErrorMessageEvent::NoShaderExport => "The shader exports no entry point!",
            ErrorMessageEvent::NoSharkToml => "The project has no shark.toml!",
            ErrorMessageEvent::CouldntReadSharkToml => "Could not read shark.toml!",
            ErrorMessageEvent::InvalidSharkToml => "Could not parse shark.toml!",
            ErrorMessageEvent::UnsupportedFrag => "Only three-dimensional shaders are supported!",
        }
    }
}

/// What the external build reported: failure text, or the loadable
/// artifacts it produced.
pub enum BuildResult {
    Failed(String),
    Artifacts(Vec<String>),
}

/// What resolving the entry point of a freshly loaded module yielded:
/// the shader it exports, or nothing.
pub enum ResolveOutcome {
    Resolved(Shader),
    Missing,
}

/// A step the host performs after a successful swap, in order: retire
/// the superseded module, then delete its backing file.
#[derive(Clone, Debug)]
pub enum HostAction {
    RetireModule(String),
    DeleteFile(String),
}

/// The host's reload-relevant state: the chosen project folder, the
/// file backing the currently loaded module, the parsed configuration
/// and the handle of the running shader.
pub struct HostState {
    pub manifest_folder: Option<String>,
    pub lib_path: Option<String>,
    pub config: Option<Config>,
    pub active: Option<ShaderExport>,
}

impl HostState {
    /// A host with nothing chosen, loaded or running.
    pub fn new() -> (s: HostState)
        ensures
            s.manifest_folder is None,
            s.lib_path is None,
            s.config is None,
            s.active is None,
    {
        HostState { manifest_folder: None, lib_path: None, config: None, active: None }
    }
}

/// How reading the configuration file went: a parsed configuration, an
/// unreadable file, or unparseable contents.
pub enum ConfigReadOutcome {
    Read(Config),
    Unreadable,
    Invalid,
}

/// Applies the outcome of reading the project configuration: a parsed
/// configuration is stored; either failure leaves the stored one alone
/// and names the error.
pub fn apply_config(state: &mut HostState, outcome: ConfigReadOutcome) -> (r: Option<
    ErrorMessageEvent,
>)
    ensures
        final (state).manifest_folder == old(state).manifest_folder,
        final (state).lib_path == old(state).lib_path,
        final (state).active == old(state).active,
        match outcome {
            ConfigReadOutcome::Read(c) => final (state).config == Some(c) && r is None,
            ConfigReadOutcome::Unreadable => final (state).config == old(state).config && r
                == Some(ErrorMessageEvent::CouldntReadSharkToml),
            ConfigReadOutcome::Invalid => final (state).config == old(state).config && r == Some(
                ErrorMessageEvent::InvalidSharkToml,
            ),
        },
{
    match outcome {
        ConfigReadOutcome::Read(c) => {
            state.config = Some(c);
            None
        },
        ConfigReadOutcome::Unreadable => Some(ErrorMessageEvent::CouldntReadSharkToml),
        ConfigReadOutcome::Invalid => Some(ErrorMessageEvent::InvalidSharkToml),
    }
}

/// Picks the single loadable artifact of a build: none and several are
/// distinct errors, never an arbitrary choice.
pub fn select_artifact(libs: Vec<String>) -> (r: Result<String, ErrorMessageEvent>)
    ensures
        libs@.len() == 0 ==> r == Result::<String, ErrorMessageEvent>::Err(
            ErrorMessageEvent::NoLibs,
        ),
        libs@.len() > 1 ==> r == Result::<String, ErrorMessageEvent>::Err(
            ErrorMessageEvent::TooManyLibs,
        ),
        libs@.len() == 1 ==> r == Result::<String, ErrorMessageEvent>::Ok(libs@[0]),
{
    if libs.len() == 0 {
        Err(ErrorMessageEvent::NoLibs)
    } else if libs.len() > 1 {
        Err(ErrorMessageEvent::TooManyLibs)
    } else {
        let mut libs = libs;
        match libs.pop() {
            Some(x) => Ok(x),
            None => Err(ErrorMessageEvent::NoLibs),
        }
    }
}

/// Decides what a requested rebuild leads to: the artifact to load, or
/// the one error to report. Checked in order: a project folder must be
/// chosen, the build must have succeeded with exactly one artifact, the
/// configuration must be present, and only the fully supported
/// dimensionality proceeds.
pub fn plan_reload(state: &HostState, build: BuildResult) -> (r: Result<
    String,
    ErrorMessageEvent,
>)
    ensures
        state.manifest_folder is None ==> r == Result::<String, ErrorMessageEvent>::Err(
            ErrorMessageEvent::ManifestPathNotSet,
        ),
        state.manifest_folder is Some ==> match build {
            BuildResult::Failed(msg) => r == Result::<String, ErrorMessageEvent>::Err(
                ErrorMessageEvent::CargoError(msg),
            ),
            BuildResult::Artifacts(libs) => {
                if libs@.len() == 0 {
                    r == Result::<String, ErrorMessageEvent>::Err(ErrorMessageEvent::NoLibs)
                } else if libs@.len() > 1 {
                    r == Result::<String, ErrorMessageEvent>::Err(ErrorMessageEvent::TooManyLibs)
                } else if state.config is None {
                    r == Result::<String, ErrorMessageEvent>::Err(ErrorMessageEvent::NoSharkToml)
                } else if !(state.config->0.visualization.fragment is FragThree) {
                    r == Result::<String, ErrorMessageEvent>::Err(
                        ErrorMessageEvent::UnsupportedFrag,
                    )
                } else {
                    r == Result::<String, ErrorMessageEvent>::Ok(libs@[0])
                }
            },
        },
{
    if state.manifest_folder.is_none() {
        return Err(ErrorMessageEvent::ManifestPathNotSet);
    }
    match build {
        BuildResult::Failed(msg) => Err(ErrorMessageEvent::CargoError(msg)),
        BuildResult::Artifacts(libs) => {
            let lib = select_artifact(libs)?;
            match &state.config {
                None => Err(ErrorMessageEvent::NoSharkToml),
                Some(cfg) => {
                    match cfg.visualization.fragment {
                        FragType::FragThree => Ok(lib),
                        _ => Err(ErrorMessageEvent::UnsupportedFrag),
                    }
                },
            }
        },
    }
}

/// Completes a reload once the host has loaded the artifact and tried
/// to resolve its entry point.
///
/// Only after the new shader is installed and its handle made active
/// does the host retire the previous module and delete its file — the
/// returned actions, to be performed in order. A missing entry point
/// changes nothing: the host state, the active handle and the registry
/// stay exactly as they were, and the one error names the failure.
pub fn finish_reload(
    state: &mut HostState,
    registry: &mut ShaderRegistry,
    outcome: ResolveOutcome,
    new_path: String,
) -> (r: Result<Vec<HostAction>, ErrorMessageEvent>)
    requires
        match outcome {
            ResolveOutcome::Resolved(sh) => sh.wf(),
            ResolveOutcome::Missing => true,
        },
    ensures
        match outcome {
            ResolveOutcome::Missing => {
                &&& r == Result::<Vec<HostAction>, ErrorMessageEvent>::Err(
                    ErrorMessageEvent::NoShaderExport,
                )
                &&& final (state).manifest_folder == old(state).manifest_folder
                &&& final (state).lib_path == old(state).lib_path
                &&& final (state).config == old(state).config
                &&& final (state).active == old(state).active
                &&& final (registry).slots@ == old(registry).slots@
            },
            ResolveOutcome::Resolved(sh) => {
                &&& final (registry).slots@ == old(registry).slots@.push(sh)
                &&& final (state).active == Some(
                    ShaderExport { handle: old(registry).slots@.len() as usize },
                )
                &&& final (state).lib_path == Some(new_path)
                &&& final (state).manifest_folder == old(state).manifest_folder
                &&& final (state).config == old(state).config
                &&& r is Ok
                &&& match old(state).lib_path {
                    Some(p) => {
                        &&& r->Ok_0@.len() == 2
                        &&& r->Ok_0@[0] is RetireModule && r->Ok_0@[0]->RetireModule_0@ == p@
                        &&& r->Ok_0@[1] is DeleteFile && r->Ok_0@[1]->DeleteFile_0@ == p@
                    },
                    None => r->Ok_0@.len() == 0,
                }
            },
        },
{
    match outcome {
        ResolveOutcome::Missing => Err(ErrorMessageEvent::NoShaderExport),
        ResolveOutcome::Resolved(sh) => {
            let h = registry.install(sh);
            let prev: Option<String> = state.lib_path.take();
            state.lib_path = Some(new_path);
            state.active = Some(h);
            let mut acts: Vec<HostAction> = Vec::new();
            match prev {
                Some(p) => {
                    let p2 = p.clone();
                    acts.push(HostAction::RetireModule(p));
                    acts.push(HostAction::DeleteFile(p2));
                },
                None => {},
            }
            Ok(acts)
        },
    }
}

/// A handle to the platform's file picker, created on the main thread
/// as window systems require.
pub struct SystemFilePicker {
    created: bool,
}

impl SystemFilePicker {
    /// A picker for the thread that runs the user interface.
    pub fn new_from_main_thread() -> (p: SystemFilePicker) {
        SystemFilePicker { created: true }
    }
}

} // verus!
