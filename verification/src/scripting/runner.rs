//! The per-task runner: a linear state machine that wraps a task's main
//! script with its optional pre/post hooks.
//!
//! The runner decides which script to invoke next and what the final
//! verdict is; the host performs each invocation and reports its outcome.
//! Failure at any state is terminal for the task: no retry, no skipping
//! ahead to remaining hooks.

use vstd::prelude::*;

use crate::error::AppError;
use crate::scripting::record::RecordValue;
use crate::scripting::script::NuScript;

verus! {

/// Where a task stands: the hooks run strictly around the main script, and
/// `Done`/`Failed` are terminal.
#[derive(Debug, Clone, Copy, PartialEq, Eq, Structural)]
pub enum RunState {
    Idle,
    PreHookRunning,
    MainRunning,
    PostHookRunning,
    Done,
    Failed,
}

/// What the runner asks of the host next: invoke one of the task's
/// scripts, or stop with the task's verdict.
#[derive(Debug, PartialEq, Eq)]
pub enum RunAction {
    /// Invoke the pre hook with the task's arguments.
    RunPre,
    /// Invoke the main script with the task's arguments.
    RunMain,
    /// Invoke the post hook with the task's arguments.
    RunPost,
    /// The task is over; holds its verdict.
    Finished(Result<(), AppError>),
}

/// The state a run enters once its current phase is decided: entering the
/// main phase fails on the spot when the main script was not found.
pub open spec fn spec_enter_main(main_loaded: bool) -> RunState {
    if main_loaded {
        RunState::MainRunning
    } else {
        RunState::Failed
    }
}

/// The first transition, out of `Idle`: the pre hook if it exists,
/// otherwise straight to the main phase.
pub open spec fn spec_start_state(has_pre: bool, main_loaded: bool) -> RunState {
    if has_pre {
        RunState::PreHookRunning
    } else {
        spec_enter_main(main_loaded)
    }
}

/// One transition out of a running phase, on the host's report of the
/// invocation: any failure is terminal, the pre hook hands over to the
/// main phase, the main script to the post hook if one exists, and the
/// post hook finishes the task.
pub open spec fn spec_advance_state(
    s: RunState,
    main_loaded: bool,
    has_post: bool,
    ok: bool,
) -> RunState {
    if !ok {
        RunState::Failed
    } else {
        match s {
            RunState::PreHookRunning => spec_enter_main(main_loaded),
            RunState::MainRunning => if has_post {
                RunState::PostHookRunning
            } else {
                RunState::Done
            },
            RunState::PostHookRunning => RunState::Done,
            _ => s,
        }
    }
}

/// A task wrapped with its optional hooks, ready to be driven to
/// completion.
///
/// The main script is held as the locator returned it: either the located
/// script or the error to fail with when the run reaches the main phase —
/// a present pre hook runs before that failure surfaces, exactly as the
/// phases are ordered.
pub struct TaskRunner {
    pre: Option<NuScript>,
    main: Result<NuScript, AppError>,
    post: Option<NuScript>,
    args: Vec<RecordValue>,
    state: RunState,
}

impl TaskRunner {
    /// The current state.
    pub closed spec fn spec_state(&self) -> RunState {
        self.state
    }

    /// The located pre hook, if one exists.
    pub closed spec fn spec_pre(&self) -> Option<NuScript> {
        self.pre
    }

    /// The located main script, or the error it failed to resolve with.
    pub closed spec fn spec_main(&self) -> Result<NuScript, AppError> {
        self.main
    }

    /// The located post hook, if one exists.
    pub closed spec fn spec_post(&self) -> Option<NuScript> {
        self.post
    }

    /// The marshaled positional arguments every invocation receives.
    pub closed spec fn spec_args(&self) -> Seq<RecordValue> {
        self.args@
    }

    /// Whether a pre hook exists.
    pub open spec fn has_pre(&self) -> bool {
        self.spec_pre() is Some
    }

    /// Whether the main script was found.
    pub open spec fn main_loaded(&self) -> bool {
        self.spec_main() is Ok
    }

    /// Whether a post hook exists.
    pub open spec fn has_post(&self) -> bool {
        self.spec_post() is Some
    }

    /// All parts but the state are frozen at construction.
    pub open spec fn same_task(&self, other: &Self) -> bool {
        &&& self.spec_pre() == other.spec_pre()
        &&& self.spec_main() == other.spec_main()
        &&& self.spec_post() == other.spec_post()
        &&& self.spec_args() == other.spec_args()
    }

    /// A runner for one task, idle until started.
    pub fn new(
        pre: Option<NuScript>,
        main: Result<NuScript, AppError>,
        post: Option<NuScript>,
        args: Vec<RecordValue>,
    ) -> (r: Self)
        ensures
            r.spec_state() is Idle,
            r.spec_pre() == pre,
            r.spec_main() == main,
            r.spec_post() == post,
            r.spec_args() == args@,
    {
        TaskRunner { pre, main, post, args, state: RunState::Idle }
    }

    /// The current state.
    pub fn state(&self) -> (r: RunState)
        ensures
            r == self.spec_state(),
    {
        self.state
    }

    /// The located pre hook, for the host to invoke when asked to.
    pub fn pre_script(&self) -> (r: Option<&NuScript>)
        ensures
            match r {
                Some(s) => self.spec_pre() == Some(*s),
                None => self.spec_pre() is None,
            },
    {
        self.pre.as_ref()
    }

    /// The located main script, for the host to invoke when asked to.
    pub fn main_script(&self) -> (r: Option<&NuScript>)
        ensures
            match r {
                Some(s) => self.spec_main() == Ok::<NuScript, AppError>(*s),
                None => self.spec_main() is Err,
            },
    {
        match &self.main {
            Ok(s) => Some(s),
            Err(_) => None,
        }
    }

    /// The located post hook, for the host to invoke when asked to.
    pub fn post_script(&self) -> (r: Option<&NuScript>)
        ensures
            match r {
                Some(s) => self.spec_post() == Some(*s),
                None => self.spec_post() is None,
            },
    {
        self.post.as_ref()
    }

    /// The marshaled positional arguments every invocation receives.
    pub fn args(&self) -> (r: &Vec<RecordValue>)
        ensures
            r@ == self.spec_args(),
    {
        &self.args
    }

    /// Starts the run: asks for the pre hook if one exists, otherwise for
    /// the main script; a main script that was not found fails the task on
    /// the spot.
    pub fn start(&mut self) -> (a: RunAction)
        requires
            old(self).spec_state() is Idle,
        ensures
            final(self).same_task(old(self)),
            final(self).spec_state() == spec_start_state(old(self).has_pre(), old(self).main_loaded()),
            old(self).has_pre() ==> a == RunAction::RunPre,
            !old(self).has_pre() && old(self).main_loaded() ==> a == RunAction::RunMain,
            !old(self).has_pre() && !old(self).main_loaded() ==> (a matches RunAction::Finished(
                res,
            ) && res matches Err(e) && e@ == old(self).spec_main()->Err_0@),
    {
        if self.pre.is_some() {
            self.state = RunState::PreHookRunning;
            RunAction::RunPre
        } else {
            self.enter_main()
        }
    }

    /// Feeds back the outcome of the invocation the runner last asked for,
    /// and asks for what comes next. A failed invocation is terminal: its
    /// error becomes the task's verdict, and nothing further is invoked.
    pub fn advance(&mut self, outcome: Result<(), AppError>) -> (a: RunAction)
        requires
            old(self).spec_state() is PreHookRunning || old(self).spec_state() is MainRunning
                || old(self).spec_state() is PostHookRunning,
        ensures
            final(self).same_task(old(self)),
            final(self).spec_state() == spec_advance_state(
                old(self).spec_state(),
                old(self).main_loaded(),
                old(self).has_post(),
                outcome is Ok,
            ),
            outcome matches Err(e) ==> a == RunAction::Finished(Err(e)),
            outcome is Ok ==> match old(self).spec_state() {
                RunState::PreHookRunning => {
                    &&& old(self).main_loaded() ==> a == RunAction::RunMain
                    &&& !old(self).main_loaded() ==> (a matches RunAction::Finished(res)
                        && res matches Err(e) && e@ == old(self).spec_main()->Err_0@)
                },
                RunState::MainRunning => {
                    &&& old(self).has_post() ==> a == RunAction::RunPost
                    &&& !old(self).has_post() ==> a == RunAction::Finished(Ok(()))
                },
                RunState::PostHookRunning => a == RunAction::Finished(Ok(())),
                _ => true,
            },
    {
        match outcome {
            Err(e) => {
                self.state = RunState::Failed;
                RunAction::Finished(Err(e))
            },
            Ok(()) => {
                match self.state {
                    RunState::PreHookRunning => self.enter_main(),
                    RunState::MainRunning => {
                        if self.post.is_some() {
                            self.state = RunState::PostHookRunning;
                            RunAction::RunPost
                        } else {
                            self.state = RunState::Done;
                            RunAction::Finished(Ok(()))
                        }
                    },
                    _ => {
                        self.state = RunState::Done;
                        RunAction::Finished(Ok(()))
                    },
                }
            },
        }
    }

    /// Moves into the main phase: asks for the main script, or fails the
    /// task with the locator's error when the script was not found.
    fn enter_main(&mut self) -> (a: RunAction)
        ensures
            final(self).same_task(old(self)),
            final(self).spec_state() == spec_enter_main(old(self).main_loaded()),
            old(self).main_loaded() ==> a == RunAction::RunMain,
            !old(self).main_loaded() ==> (a matches RunAction::Finished(res) && res matches Err(e)
                && e@ == old(self).spec_main()->Err_0@),
    {
        match &self.main {
            Ok(_) => {
                self.state = RunState::MainRunning;
                RunAction::RunMain
            },
            Err(e) => {
                self.state = RunState::Failed;
                RunAction::Finished(Err(e.clone()))
            },
        }
    }
}

/// A task with a pre hook, a found main script and no post hook performs
/// exactly two invocations, the pre hook first and the main script second,
/// and is done when both succeed.
pub proof fn lemma_pre_and_main_run_in_order()
    ensures
        spec_start_state(true, true) == RunState::PreHookRunning,
        spec_advance_state(RunState::PreHookRunning, true, false, true) == RunState::MainRunning,
        spec_advance_state(RunState::MainRunning, true, false, true) == RunState::Done,
{
}

/// When the main script's invocation fails, the run fails on the spot
/// whether or not a post hook exists: the post hook phase is never
/// entered.
pub proof fn lemma_failed_main_skips_post_hook(has_post: bool)
    ensures
        spec_advance_state(RunState::MainRunning, true, has_post, false) == RunState::Failed,
        spec_advance_state(RunState::MainRunning, true, has_post, false)
            != RunState::PostHookRunning,
{
}

} // verus!
