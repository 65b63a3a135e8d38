//! The fixed registry of installation tasks.
//!
//! Each task pairs a stable identifier with a script file name; the
//! orchestrator iterates this registry instead of hand-writing one call per
//! task. The script naming convention is part of the contract: the main
//! script is the task name plus the interpreter's extension, and the hooks
//! insert `.pre` / `.post` before the extension.

pub mod configure_locale;
pub mod configure_network;
pub mod configure_unakite;
pub mod create_partitions;
pub mod install_bootloader;
pub mod install_desktop;
pub mod install_extra_packages;
pub mod install_flatpak;
pub mod install_kernels;
pub mod install_zramd;
pub mod setup_root_user;
pub mod setup_users;

pub use configure_locale::LocaleConfig;
pub use configure_network::NetworkConfig;
pub use configure_unakite::UnakiteConfig;
pub use create_partitions::{FileSystem, Partition, Partitions, PartitionsConfig};
pub use install_bootloader::{BootloaderConfig, BootloaderPreset};
pub use install_desktop::DesktopConfig;
pub use install_extra_packages::ExtraPackages;
pub use install_flatpak::FlatpakConfig;
pub use install_kernels::{Kernel, KernelConfig};
pub use install_zramd::ZRamDConfig;
pub use setup_root_user::RootUserConfig;
pub use setup_users::{User, UsersConfig};

use vstd::prelude::*;
use vstd::string::StringExecFns;

use crate::scripting::loader::HookType;

verus! {

/// One named installation step, bound to a script file and an argument
/// shape.
#[derive(Debug, Clone, Copy, PartialEq, Eq, Structural)]
pub enum Task {
    ConfigureLocale,
    ConfigureNetwork,
    ConfigureUnakite,
    CreatePartitions,
    InstallBase,
    InstallBootloader,
    InstallDesktop,
    InstallExtraPackages,
    InstallFlatpak,
    InstallKernels,
    InstallTimeshift,
    InstallZramd,
    SetupRootUser,
    SetupUsers,
}

impl Task {
    /// The task's name: the stem of every script file that belongs to it.
    pub open spec fn spec_stem(self) -> Seq<char> {
        match self {
            Task::ConfigureLocale => "configure-locale"@,
            Task::ConfigureNetwork => "configure-network"@,
            Task::ConfigureUnakite => "configure-unakite"@,
            Task::CreatePartitions => "create-partitions"@,
            Task::InstallBase => "install-base"@,
            Task::InstallBootloader => "install-bootloader"@,
            Task::InstallDesktop => "install-desktop"@,
            Task::InstallExtraPackages => "install-extra-packages"@,
            Task::InstallFlatpak => "install-flatpak"@,
            Task::InstallKernels => "install-kernels"@,
            Task::InstallTimeshift => "install-timeshift"@,
            Task::InstallZramd => "install-zramd"@,
            Task::SetupRootUser => "setup-root-user"@,
            Task::SetupUsers => "setup-users"@,
        }
    }

    /// The file name of the main script: the task name plus the script
    /// extension.
    pub open spec fn spec_script_file(self) -> Seq<char> {
        self.spec_stem() + ".nu"@
    }

    /// The file name of the pre hook: `.pre` before the extension.
    pub open spec fn spec_pre_hook_file(self) -> Seq<char> {
        self.spec_stem() + ".pre.nu"@
    }

    /// The file name of the post hook: `.post` before the extension.
    pub open spec fn spec_post_hook_file(self) -> Seq<char> {
        self.spec_stem() + ".post.nu"@
    }

    /// The file name of the hook of the given phase.
    pub open spec fn spec_hook_file(self, hook: HookType) -> Seq<char> {
        match hook {
            HookType::Pre => self.spec_pre_hook_file(),
            HookType::Post => self.spec_post_hook_file(),
        }
    }

    /// The task's name.
    pub fn stem(&self) -> (r: String)
        ensures
            r@ == self.spec_stem(),
    {
        match self {
            Task::ConfigureLocale => String::from_str("configure-locale"),
            Task::ConfigureNetwork => String::from_str("configure-network"),
            Task::ConfigureUnakite => String::from_str("configure-unakite"),
            Task::CreatePartitions => String::from_str("create-partitions"),
            Task::InstallBase => String::from_str("install-base"),
            Task::InstallBootloader => String::from_str("install-bootloader"),
            Task::InstallDesktop => String::from_str("install-desktop"),
            Task::InstallExtraPackages => String::from_str("install-extra-packages"),
            Task::InstallFlatpak => String::from_str("install-flatpak"),
            Task::InstallKernels => String::from_str("install-kernels"),
            Task::InstallTimeshift => String::from_str("install-timeshift"),
            Task::InstallZramd => String::from_str("install-zramd"),
            Task::SetupRootUser => String::from_str("setup-root-user"),
            Task::SetupUsers => String::from_str("setup-users"),
        }
    }

    /// The file name of the main script.
    pub fn script_file(&self) -> (r: String)
        ensures
            r@ == self.spec_script_file(),
    {
        self.stem().concat(".nu")
    }

    /// The file name of the pre hook.
    pub fn pre_hook_file(&self) -> (r: String)
        ensures
            r@ == self.spec_pre_hook_file(),
    {
        self.stem().concat(".pre.nu")
    }

    /// The file name of the post hook.
    pub fn post_hook_file(&self) -> (r: String)
        ensures
            r@ == self.spec_post_hook_file(),
    {
        self.stem().concat(".post.nu")
    }

    /// The file name of the hook of the given phase.
    pub fn hook_file(&self, hook: HookType) -> (r: String)
        ensures
            r@ == self.spec_hook_file(hook),
    {
        match hook {
            HookType::Pre => self.pre_hook_file(),
            HookType::Post => self.post_hook_file(),
        }
    }
}

/// The registry order: every task, in the order the scaffolding utility
/// walks them.
pub open spec fn task_order() -> Seq<Task> {
    seq![
        Task::ConfigureLocale,
        Task::ConfigureNetwork,
        Task::ConfigureUnakite,
        Task::CreatePartitions,
        Task::InstallBase,
        Task::InstallBootloader,
        Task::InstallDesktop,
        Task::InstallExtraPackages,
        Task::InstallFlatpak,
        Task::InstallKernels,
        Task::InstallTimeshift,
        Task::InstallZramd,
        Task::SetupRootUser,
        Task::SetupUsers,
    ]
}

/// Every task, in registry order.
pub fn task_list() -> (r: Vec<Task>)
    ensures
        r@ == task_order(),
{
    let mut r: Vec<Task> = Vec::new();
    r.push(Task::ConfigureLocale);
    r.push(Task::ConfigureNetwork);
    r.push(Task::ConfigureUnakite);
    r.push(Task::CreatePartitions);
    r.push(Task::InstallBase);
    r.push(Task::InstallBootloader);
    r.push(Task::InstallDesktop);
    r.push(Task::InstallExtraPackages);
    r.push(Task::InstallFlatpak);
    r.push(Task::InstallKernels);
    r.push(Task::InstallTimeshift);
    r.push(Task::InstallZramd);
    r.push(Task::SetupRootUser);
    r.push(Task::SetupUsers);
    proof {
        assert(r@ =~= task_order());
    }
    r
}

/// The three script file names of one task.
pub struct TaskFiles {
    pub script: String,
    pub pre_hook: String,
    pub post_hook: String,
}

impl TaskFiles {
    /// Where the main script lives under a base directory.
    pub fn script_path(&self, base: &str) -> (r: String)
        ensures
            r@ == base@ + "/scripts/"@ + self.script@,
    {
        String::from_str(base).concat("/scripts/").concat(self.script.as_str())
    }

    /// Where the pre hook lives under a base directory.
    pub fn pre_hook_path(&self, base: &str) -> (r: String)
        ensures
            r@ == base@ + "/hooks/"@ + self.pre_hook@,
    {
        String::from_str(base).concat("/hooks/").concat(self.pre_hook.as_str())
    }

    /// Where the post hook lives under a base directory.
    pub fn post_hook_path(&self, base: &str) -> (r: String)
        ensures
            r@ == base@ + "/hooks/"@ + self.post_hook@,
    {
        String::from_str(base).concat("/hooks/").concat(self.post_hook.as_str())
    }
}

/// The script and hook file names of every task, in registry order.
pub fn all_tasks() -> (r: Vec<TaskFiles>)
    ensures
        r@.len() == task_order().len(),
        forall|i: int|
            0 <= i < r@.len() ==> {
                &&& (#[trigger] r@[i]).script@ == task_order()[i].spec_script_file()
                &&& r@[i].pre_hook@ == task_order()[i].spec_pre_hook_file()
                &&& r@[i].post_hook@ == task_order()[i].spec_post_hook_file()
            },
{
    let tasks = task_list();
    let mut r: Vec<TaskFiles> = Vec::new();
    let n = tasks.len();
    let mut i: usize = 0;
    while i < n
        invariant
            n == tasks@.len(),
            tasks@ == task_order(),
            i <= n,
            r@.len() == i,
            forall|j: int|
                0 <= j < i ==> {
                    &&& (#[trigger] r@[j]).script@ == task_order()[j].spec_script_file()
                    &&& r@[j].pre_hook@ == task_order()[j].spec_pre_hook_file()
                    &&& r@[j].post_hook@ == task_order()[j].spec_post_hook_file()
                },
        decreases n - i,
    {
        let t = tasks[i];
        r.push(
            TaskFiles {
                script: t.script_file(),
                pre_hook: t.pre_hook_file(),
                post_hook: t.post_hook_file(),
            },
        );
        i = i + 1;
    }
    r
}

} // verus!
