//! Drives an embedded scripting runtime through a fixed sequence of
//! installation tasks: typed configuration data is marshaled into the
//! interpreter's dynamic value model, scripts are located on disk, and each
//! task wraps its main script with optional pre/post hooks.
//!
//! The host process performs the file probing, the file reading and the
//! interpreter calls; this crate decides what to run, in which order, with
//! which arguments, and how every outcome maps to an error.

pub mod config;
pub mod error;
pub mod scripting;
pub mod tasks;
pub mod utils;

use vstd::prelude::*;
use vstd::string::StringExecFns;

use crate::config::{empty_config_model, Config};
use crate::error::AppError;
use crate::scripting::loader::{HookType, ScriptLoader};
use crate::scripting::record::{RecordValue, ValueModel};
use crate::scripting::runner::TaskRunner;
use crate::scripting::script::{get_args, spread_model, NuScript, ScriptArgs};
use crate::tasks::Task;

verus! {

broadcast use vstd::std_specs::vec::group_vec_axioms, vstd::seq::group_seq_axioms;

/// The version identifier every invoked script sees as `TRM_VERSION`.
pub const VERSION: &'static str = "1.0.0";

/// The default directory for main task scripts, used when the host passes
/// no configured location.
pub const DEFAULT_SCRIPT_DIR: &'static str = "/etc/tourmaline/scripts";

/// The default directory for hook scripts, used when the host passes no
/// configured location.
pub const DEFAULT_HOOK_DIR: &'static str = "/etc/tourmaline/hooks";

/// Drives the fixed, ordered pipeline of installation tasks over one
/// loaded configuration, aborting at the first failure.
pub struct TaskExecutor {
    config: Option<Config>,
    loader: ScriptLoader,
}

/// The fixed step order of one installation run: the optional steps are
/// planned only when their configuration flag or field says so, and are
/// omitted entirely otherwise.
pub open spec fn spec_install_plan(c: Config) -> Seq<Task> {
    seq![
        Task::CreatePartitions,
        Task::InstallBase,
        Task::InstallKernels,
        Task::InstallBootloader,
        Task::ConfigureLocale,
        Task::ConfigureNetwork,
    ] + (if c.enable_zramd {
        seq![Task::InstallZramd]
    } else {
        Seq::empty()
    }) + (if c.enable_timeshift {
        seq![Task::InstallTimeshift]
    } else {
        Seq::empty()
    }) + (if c.enable_flatpak {
        seq![Task::InstallFlatpak]
    } else {
        Seq::empty()
    }) + seq![
        Task::SetupUsers,
        Task::SetupRootUser,
        Task::InstallDesktop,
        Task::InstallExtraPackages,
    ] + (if c.unakite is Some {
        seq![Task::ConfigureUnakite]
    } else {
        Seq::empty()
    })
}

/// The positional arguments a task's scripts receive: the task's own
/// configuration domain, marshaled and spread.
pub open spec fn spec_task_args(c: Config, task: Task) -> Seq<ValueModel> {
    match task {
        Task::ConfigureLocale => spread_model(c.locale.model()),
        Task::ConfigureNetwork => spread_model(c.network.model()),
        Task::ConfigureUnakite => spread_model(c.unakite->0.model()),
        Task::CreatePartitions => spread_model(c.partitions.model()),
        Task::InstallBase => spread_model(ValueModel::Null),
        Task::InstallBootloader => spread_model(c.bootloader.model()),
        Task::InstallDesktop => spread_model(c.desktop.model()),
        Task::InstallExtraPackages => spread_model(c.extra_packages.model()),
        Task::InstallFlatpak => spread_model(ValueModel::Null),
        Task::InstallKernels => spread_model(c.kernels.model()),
        Task::InstallTimeshift => spread_model(ValueModel::Null),
        Task::InstallZramd => spread_model(ValueModel::Null),
        Task::SetupRootUser => spread_model(c.root_user.model()),
        Task::SetupUsers => spread_model(c.users.model()),
    }
}

/// Marshals the configuration domain that belongs to a task into the
/// positional arguments its scripts receive.
pub fn task_args(config: &Config, task: Task) -> (r: Vec<RecordValue>)
    requires
        task is ConfigureUnakite ==> config.unakite is Some,
    ensures
        crate::scripting::script::args_model(r@) == spec_task_args(*config, task),
{
    match task {
        Task::ConfigureLocale => get_args(&config.locale),
        Task::ConfigureNetwork => get_args(&config.network),
        Task::ConfigureUnakite => match &config.unakite {
            Some(u) => get_args(u),
            None => vstd::pervasive::unreached(),
        },
        Task::CreatePartitions => get_args(&config.partitions),
        Task::InstallBase => get_args(&()),
        Task::InstallBootloader => get_args(&config.bootloader),
        Task::InstallDesktop => get_args(&config.desktop),
        Task::InstallExtraPackages => get_args(&config.extra_packages),
        Task::InstallFlatpak => get_args(&()),
        Task::InstallKernels => get_args(&config.kernels),
        Task::InstallTimeshift => get_args(&()),
        Task::InstallZramd => get_args(&()),
        Task::SetupRootUser => get_args(&config.root_user),
        Task::SetupUsers => get_args(&config.users),
    }
}

impl TaskExecutor {
    /// The loaded configuration, if any.
    pub closed spec fn spec_config(&self) -> Option<Config> {
        self.config
    }

    /// The script locator in use.
    pub closed spec fn spec_loader(&self) -> ScriptLoader {
        self.loader
    }

    /// What every invoked script sees as `TRM_CONFIG`: the loaded
    /// configuration, or the all-empty one when none is loaded.
    pub open spec fn spec_config_model(&self) -> ValueModel {
        match self.spec_config() {
            Some(c) => c.model(),
            None => empty_config_model(),
        }
    }

    /// The global variables every invoked script receives.
    pub open spec fn spec_global_vars(&self) -> Seq<(Seq<char>, ValueModel)> {
        seq![
            ("TRM_CONFIG"@, self.spec_config_model()),
            ("TRM_VERSION"@, ValueModel::Str(VERSION@)),
        ]
    }

    /// An executor over a loaded configuration and a locator.
    pub fn with_config(config: Config, loader: ScriptLoader) -> (r: Self)
        ensures
            r.spec_config() == Some(config),
            r.spec_loader() == loader,
    {
        TaskExecutor { config: Some(config), loader }
    }

    /// The script locator in use.
    pub fn loader(&self) -> (r: &ScriptLoader)
        ensures
            *r == self.spec_loader(),
    {
        &self.loader
    }

    /// The fixed, ordered pipeline of this run, or `MissingConfig` when
    /// the executor holds no configuration.
    pub fn install_plan(&self) -> (r: Result<Vec<Task>, AppError>)
        ensures
            self.spec_config() matches Some(c) ==> (r matches Ok(p) && p@ == spec_install_plan(c)),
            self.spec_config() is None ==> r == Result::<Vec<Task>, AppError>::Err(
                AppError::MissingConfig,
            ),
    {
        let c = match &self.config {
            Some(c) => c,
            None => {
                return Err(AppError::MissingConfig);
            },
        };
        let mut p: Vec<Task> = Vec::new();
        p.push(Task::CreatePartitions);
        p.push(Task::InstallBase);
        p.push(Task::InstallKernels);
        p.push(Task::InstallBootloader);
        p.push(Task::ConfigureLocale);
        p.push(Task::ConfigureNetwork);
        if c.enable_zramd {
            p.push(Task::InstallZramd);
        }
        if c.enable_timeshift {
            p.push(Task::InstallTimeshift);
        }
        if c.enable_flatpak {
            p.push(Task::InstallFlatpak);
        }
        p.push(Task::SetupUsers);
        p.push(Task::SetupRootUser);
        p.push(Task::InstallDesktop);
        p.push(Task::InstallExtraPackages);
        if c.unakite.is_some() {
            p.push(Task::ConfigureUnakite);
        }
        proof {
            assert(p@ =~= spec_install_plan(self.spec_config()->0));
        }
        Ok(p)
    }

    /// Injects the global variables every script invocation receives: the
    /// full configuration (or the all-empty one) as `TRM_CONFIG`, and the
    /// version string as `TRM_VERSION`.
    pub fn prepare_script(&self, script: NuScript) -> (r: NuScript)
        requires
            script.wf(),
            script.spec_vars().len() == 0,
        ensures
            r.wf(),
            r.spec_path() == script.spec_path(),
            r.spec_vars() == self.spec_global_vars(),
    {
        let mut s = script;
        let cfg_val = match &self.config {
            Some(c) => c.to_value(),
            None => Config::empty().to_value(),
        };
        proof {
            reveal_strlit("TRM_CONFIG");
            reveal_strlit("TRM_VERSION");
            assert("TRM_CONFIG"@.len() != "TRM_VERSION"@.len());
        }
        s.set_global_var(String::from_str("TRM_CONFIG"), cfg_val);
        s.set_global_var(
            String::from_str("TRM_VERSION"),
            RecordValue::Str(String::from_str(VERSION)),
        );
        proof {
            assert(s.spec_vars() =~= self.spec_global_vars());
        }
        s
    }

    /// Assembles the runner for one task: locates the main script and the
    /// hooks from the host's existence reports, marshals the task's
    /// arguments, and injects the global variables into every located
    /// script. The runner starts idle; the host drives it.
    pub fn prepare_task(
        &self,
        task: Task,
        pre_exists: bool,
        main_exists: bool,
        post_exists: bool,
    ) -> (r: TaskRunner)
        requires
            self.spec_config() is Some,
            task is ConfigureUnakite ==> self.spec_config()->0.unakite is Some,
        ensures
            r.spec_state() is Idle,
            r.has_pre() == pre_exists,
            r.main_loaded() == main_exists,
            r.has_post() == post_exists,
            crate::scripting::script::args_model(r.spec_args()) == spec_task_args(
                self.spec_config()->0,
                task,
            ),
            pre_exists ==> {
                let s = r.spec_pre()->0;
                &&& s.spec_path() == self.spec_loader().spec_hook_path(task, HookType::Pre)
                &&& s.spec_vars() == self.spec_global_vars()
                &&& s.wf()
            },
            main_exists ==> {
                let s = r.spec_main()->Ok_0;
                &&& s.spec_path() == self.spec_loader().spec_script_path(task)
                &&& s.spec_vars() == self.spec_global_vars()
                &&& s.wf()
            },
            !main_exists ==> (r.spec_main() matches Err(e) && e matches AppError::ScriptNotFound(p)
                && p@ == self.spec_loader().spec_script_path(task)),
            post_exists ==> {
                let s = r.spec_post()->0;
                &&& s.spec_path() == self.spec_loader().spec_hook_path(task, HookType::Post)
                &&& s.spec_vars() == self.spec_global_vars()
                &&& s.wf()
            },
    {
        let config = match &self.config {
            Some(c) => c,
            None => vstd::pervasive::unreached(),
        };
        let args = task_args(config, task);
        let pre = match self.loader.load_hook(&task, HookType::Pre, pre_exists) {
            Some(s) => Some(self.prepare_script(s)),
            None => None,
        };
        let main = match self.loader.load(&task, main_exists) {
            Ok(s) => Ok(self.prepare_script(s)),
            Err(e) => Err(e),
        };
        let post = match self.loader.load_hook(&task, HookType::Post, post_exists) {
            Some(s) => Some(self.prepare_script(s)),
            None => None,
        };
        TaskRunner::new(pre, main, post, args)
    }
}

impl Default for TaskExecutor {
    /// An executor without a configuration, over the default directories:
    /// scripts invoked through it see the all-empty configuration.
    fn default() -> (r: Self)
        ensures
            r.spec_config() is None,
            r.spec_loader().spec_script_dir() == DEFAULT_SCRIPT_DIR@,
            r.spec_loader().spec_hook_dir() == DEFAULT_HOOK_DIR@,
    {
        TaskExecutor {
            config: None,
            loader: ScriptLoader::new(
                String::from_str(DEFAULT_SCRIPT_DIR),
                String::from_str(DEFAULT_HOOK_DIR),
            ),
        }
    }
}

/// With the zram step disabled, the timeshift step enabled and the flatpak
/// step disabled, the planned pipeline invokes the timeshift task exactly
/// once and never the zram or flatpak tasks.
pub proof fn lemma_optional_steps_planned(c: Config)
    requires
        !c.enable_zramd,
        c.enable_timeshift,
        !c.enable_flatpak,
    ensures
        exists|i: int|
            0 <= i < spec_install_plan(c).len() && spec_install_plan(c)[i]
                == Task::InstallTimeshift,
        forall|i: int, j: int|
            (0 <= i < spec_install_plan(c).len() && 0 <= j < spec_install_plan(c).len()
                && spec_install_plan(c)[i] == Task::InstallTimeshift && spec_install_plan(c)[j]
                == Task::InstallTimeshift) ==> i == j,
        forall|i: int|
            0 <= i < spec_install_plan(c).len() ==> spec_install_plan(c)[i] != Task::InstallZramd,
        forall|i: int|
            0 <= i < spec_install_plan(c).len() ==> spec_install_plan(c)[i]
                != Task::InstallFlatpak,
{
    let p = spec_install_plan(c);
    let base = seq![
        Task::CreatePartitions,
        Task::InstallBase,
        Task::InstallKernels,
        Task::InstallBootloader,
        Task::ConfigureLocale,
        Task::ConfigureNetwork,
        Task::InstallTimeshift,
        Task::SetupUsers,
        Task::SetupRootUser,
        Task::InstallDesktop,
        Task::InstallExtraPackages,
    ];
    if c.unakite is Some {
        assert(p =~= base + seq![Task::ConfigureUnakite]);
    } else {
        assert(p =~= base);
    }
    assert(p[6] == Task::InstallTimeshift);
    assert forall|i: int| 0 <= i < p.len() && i != 6 implies p[i] != Task::InstallTimeshift by {
        assert(p[i] == (if i < 11 {
            base[i]
        } else {
            Task::ConfigureUnakite
        }));
    }
    assert forall|i: int| 0 <= i < p.len() implies p[i] != Task::InstallZramd && p[i]
        != Task::InstallFlatpak by {
        assert(p[i] == (if i < 11 {
            base[i]
        } else {
            Task::ConfigureUnakite
        }));
    }
}

} // verus!
