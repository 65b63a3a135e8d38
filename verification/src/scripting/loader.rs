//! The script locator: resolves a task to the paths of its main script and
//! its optional pre/post hooks under the configured base directories.
//!
//! Probing the file system is the host's job; it reports whether the file
//! it probed exists, and the locator decides what that means: a missing
//! main script is a hard `ScriptNotFound` failure, a missing hook is simply
//! "no hook".

use vstd::prelude::*;
use vstd::string::StringExecFns;

use crate::error::AppError;
use crate::scripting::script::NuScript;
use crate::tasks::Task;

verus! {

/// The phase of an optional hook script.
#[derive(Debug, Clone, Copy, PartialEq, Eq, Structural)]
pub enum HookType {
    /// Runs immediately before the task's main script.
    Pre,
    /// Runs immediately after the task's main script.
    Post,
}

/// A loader for script files: joins the configured base directories with a
/// task's file names.
pub struct ScriptLoader {
    script_dir: String,
    hook_dir: String,
}

impl ScriptLoader {
    /// The directory that holds the main task scripts.
    pub closed spec fn spec_script_dir(&self) -> Seq<char> {
        self.script_dir@
    }

    /// The directory that holds the hook scripts.
    pub closed spec fn spec_hook_dir(&self) -> Seq<char> {
        self.hook_dir@
    }

    /// The path the loader attempts for a task's main script.
    pub open spec fn spec_script_path(&self, task: Task) -> Seq<char> {
        self.spec_script_dir() + "/"@ + task.spec_script_file()
    }

    /// The path the loader attempts for a task's hook of the given phase.
    pub open spec fn spec_hook_path(&self, task: Task, hook: HookType) -> Seq<char> {
        self.spec_hook_dir() + "/"@ + task.spec_hook_file(hook)
    }

    /// A loader over the given base directories. The directories are
    /// resolved once by the host (configuration root, environment
    /// override) and passed in explicitly.
    pub fn new(script_dir: String, hook_dir: String) -> (r: Self)
        ensures
            r.spec_script_dir() == script_dir@,
            r.spec_hook_dir() == hook_dir@,
    {
        ScriptLoader { script_dir, hook_dir }
    }

    /// The path the loader attempts for a task's main script: the host
    /// probes this path and reports what it found.
    pub fn script_path(&self, task: &Task) -> (r: String)
        ensures
            r@ == self.spec_script_path(*task),
    {
        self.script_dir.clone().concat("/").concat(task.script_file().as_str())
    }

    /// The path the loader attempts for a task's hook of the given phase:
    /// the host probes this path and reports what it found.
    pub fn hook_path(&self, task: &Task, hook: HookType) -> (r: String)
        ensures
            r@ == self.spec_hook_path(*task, hook),
    {
        self.hook_dir.clone().concat("/").concat(task.hook_file(hook).as_str())
    }

    /// Locates the main script of a task; `exists` is the host's report of
    /// whether the attempted path points at a file. A missing main script
    /// is fatal: the error names the exact attempted path.
    pub fn load(&self, task: &Task, exists: bool) -> (r: Result<NuScript, AppError>)
        ensures
            exists ==> (r matches Ok(s) && s.spec_path() == self.spec_script_path(*task) && s.wf()
                && s.spec_vars() == Seq::<(Seq<char>, crate::scripting::record::ValueModel)>::empty()),
            !exists ==> (r matches Err(e) && e matches AppError::ScriptNotFound(p) && p@
                == self.spec_script_path(*task)),
    {
        let path = self.script_path(task);
        if exists {
            Ok(NuScript::new(path))
        } else {
            Err(AppError::ScriptNotFound(path))
        }
    }

    /// Locates a hook of a task; `exists` is the host's report of whether
    /// the attempted path points at a file. Hooks are optional extension
    /// points: an absent hook is no error, just "no hook".
    pub fn load_hook(&self, task: &Task, hook: HookType, exists: bool) -> (r: Option<NuScript>)
        ensures
            exists ==> (r matches Some(s) && s.spec_path() == self.spec_hook_path(*task, hook)
                && s.wf() && s.spec_vars() == Seq::<
                (Seq<char>, crate::scripting::record::ValueModel),
            >::empty()),
            !exists ==> r is None,
    {
        if exists {
            Some(NuScript::new(self.hook_path(task, hook)))
        } else {
            None
        }
    }
}

} // verus!
