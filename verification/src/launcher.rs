//! Launcher-level startup state: directory resolution, configuration
//! loading, and the state handed to the rest of the application together
//! with the orchestrated task set.

use vstd::prelude::*;
use crate::tasks::{spec_plan, spec_scheduled, Orchestrator, StartupPlanInputs, TaskKind};

verus! {

/// The launcher's visual theme, as picked by configuration.
#[derive(Clone, Copy, Debug, PartialEq, Eq, Structural)]
pub enum LauncherTheme {
    Dark,
    Light,
}

/// The configuration fields the startup core reads.
#[derive(Clone, Copy, Debug, PartialEq, Eq)]
pub struct LauncherConfig {
    /// Whether the peer-presence integration is allowed; unset means yes.
    pub rich_presence: Option<bool>,
}

/// Why the configuration could not be loaded.
#[derive(Clone, Debug, PartialEq, Eq)]
pub enum ConfigError {
    /// The launcher data directory could not be resolved.
    DirNotFound,
    /// Reading the file failed, with the error rendered as a message.
    Io(String),
    /// The file held invalid data, with the error rendered as a message.
    Json(String),
}

/// Splits the outcome of directory resolution into the resolved path (where
/// there is one) and the "resolution failed" flag the rest of startup runs
/// on.  Resolution failure is reported but non-fatal: the application
/// continues without a launcher directory, with degraded functionality.
pub fn load_launcher_dir(resolved: Result<Vec<u8>, String>) -> (r: (Option<Vec<u8>>, bool))
    ensures
        resolved is Ok ==> r.0 == Some(resolved->Ok_0) && !r.1,
        resolved is Err ==> r.0 is None && r.1,
{
    match resolved {
        Result::Ok(path) => (Some(path), false),
        Result::Err(_) => (None, true),
    }
}

/// The configuration load step: where the directory resolved, loading was
/// attempted and its result is taken as-is; where it did not, loading was
/// never attempted and the directory error is the result.
pub fn load_config(loaded: Option<Result<LauncherConfig, ConfigError>>) -> (r: Result<
    LauncherConfig,
    ConfigError,
>)
    ensures
        loaded is Some ==> r == loaded->0,
        loaded is None ==> r == Result::<LauncherConfig, ConfigError>::Err(
            ConfigError::DirNotFound,
        ),
{
    match loaded {
        Some(result) => result,
        None => Result::Err(ConfigError::DirNotFound),
    }
}

/// The launcher state the startup core assembles and exposes to the rest
/// of the application.
pub struct Launcher {
    /// The visual theme in effect.
    pub theme: LauncherTheme,
    /// Whether this is the first run (consumed by UI bootstrap).
    pub is_new_user: bool,
    /// The resolved data directory, where resolution succeeded.
    pub launcher_dir: Option<Vec<u8>>,
    /// Whether directory resolution failed (degraded functionality).
    pub dir_err: bool,
}

impl Launcher {
    /// Assembles the startup state and schedules the whole task registry
    /// in one step.  The migration guard and directory resolution have
    /// already run synchronously; their outcomes arrive here as inputs,
    /// and every scheduled task is in flight in the returned orchestrator.
    pub fn new(
        is_new_user: bool,
        theme: LauncherTheme,
        launcher_dir: Option<Vec<u8>>,
        dir_err: bool,
        inputs: &StartupPlanInputs,
    ) -> (r: (Launcher, Orchestrator))
        ensures
            r.0.theme == theme,
            r.0.is_new_user == is_new_user,
            r.0.launcher_dir == launcher_dir,
            r.0.dir_err == dir_err,
            r.1.wf(),
            r.1.tasks@ == spec_plan(*inputs),
            forall|t: TaskKind| #[trigger] r.1.tasks@.contains(t) <==> spec_scheduled(*inputs, t),
            r.1.tasks@.no_duplicates(),
            forall|i: int| 0 <= i < r.1.completed@.len() ==> !r.1.completed@[i],
            r.1.events@.len() == 0,
    {
        let launcher = Launcher { theme, is_new_user, launcher_dir, dir_err };
        let orchestrator = Orchestrator::start_all(inputs);
        (launcher, orchestrator)
    }

    /// The theme in effect, handed to the renderer.
    pub fn theme(&self) -> (t: LauncherTheme)
        ensures
            t == self.theme,
    {
        self.theme.clone()
    }
}

/// Assembles the font list handed to the renderer: the interface font, the
/// monospace font, the password-entry font and the icon font, in that
/// order (glyphs are resolved in list order).
pub fn load_fonts(regular: Vec<u8>, mono: Vec<u8>, password: Vec<u8>, icons: Vec<u8>) -> (fonts:
    Vec<Vec<u8>>)
    ensures
        fonts@.len() == 4,
        fonts@[0] == regular,
        fonts@[1] == mono,
        fonts@[2] == password,
        fonts@[3] == icons,
{
    let mut fonts: Vec<Vec<u8>> = Vec::new();
    fonts.push(regular);
    fonts.push(mono);
    fonts.push(password);
    fonts.push(icons);
    fonts
}

} // verus!
