//! The executor: the planned pipeline, the prepared tasks and the global
//! variable injections.

use tourmaline::config::Config;
use tourmaline::error::AppError;
use tourmaline::scripting::loader::ScriptLoader;
use tourmaline::scripting::record::RecordValue;
use tourmaline::scripting::runner::{RunAction, RunState};
use tourmaline::scripting::script::{InvocationEvent, ScriptArgs};
use tourmaline::tasks::{Task, UnakiteConfig};
use tourmaline::{task_args, TaskExecutor, DEFAULT_HOOK_DIR, DEFAULT_SCRIPT_DIR, VERSION};

fn s(v: &str) -> String {
    v.to_string()
}

fn loader() -> ScriptLoader {
    ScriptLoader::new(s("/cfg/scripts"), s("/cfg/hooks"))
}

fn executor_with(config: Config) -> TaskExecutor {
    TaskExecutor::with_config(config, loader())
}

#[test]
fn plan_with_only_timeshift_enabled_runs_it_exactly_once() {
    let mut config = Config::empty();
    config.enable_zramd = false;
    config.enable_timeshift = true;
    config.enable_flatpak = false;
    let plan = executor_with(config).install_plan().unwrap();
    let timeshift = plan.iter().filter(|t| **t == Task::InstallTimeshift).count();
    assert_eq!(timeshift, 1);
    assert!(!plan.contains(&Task::InstallZramd));
    assert!(!plan.contains(&Task::InstallFlatpak));
}

#[test]
fn plan_without_flags_holds_the_ten_fixed_steps_in_order() {
    let plan = executor_with(Config::empty()).install_plan().unwrap();
    assert_eq!(
        plan,
        vec![
            Task::CreatePartitions,
            Task::InstallBase,
            Task::InstallKernels,
            Task::InstallBootloader,
            Task::ConfigureLocale,
            Task::ConfigureNetwork,
            Task::SetupUsers,
            Task::SetupRootUser,
            Task::InstallDesktop,
            Task::InstallExtraPackages,
        ]
    );
}

#[test]
fn plan_with_everything_enabled_holds_all_fourteen_steps_in_order() {
    let mut config = Config::empty();
    config.enable_zramd = true;
    config.enable_timeshift = true;
    config.enable_flatpak = true;
    config.unakite = Some(UnakiteConfig {
        root: s("/mnt"),
        old_root: s("/"),
        efidir: s("/efi"),
        bootdev: s("/dev/sda1"),
    });
    let plan = executor_with(config).install_plan().unwrap();
    assert_eq!(
        plan,
        vec![
            Task::CreatePartitions,
            Task::InstallBase,
            Task::InstallKernels,
            Task::InstallBootloader,
            Task::ConfigureLocale,
            Task::ConfigureNetwork,
            Task::InstallZramd,
            Task::InstallTimeshift,
            Task::InstallFlatpak,
            Task::SetupUsers,
            Task::SetupRootUser,
            Task::InstallDesktop,
            Task::InstallExtraPackages,
            Task::ConfigureUnakite,
        ]
    );
}

#[test]
fn executor_without_config_cannot_plan() {
    let executor = TaskExecutor::default();
    assert_eq!(executor.install_plan().unwrap_err(), AppError::MissingConfig);
}

#[test]
fn default_directories_live_under_the_configuration_root() {
    assert_eq!(DEFAULT_SCRIPT_DIR, "/etc/tourmaline/scripts");
    assert_eq!(DEFAULT_HOOK_DIR, "/etc/tourmaline/hooks");
    let executor = TaskExecutor::with_config(
        Config::empty(),
        ScriptLoader::new(s(DEFAULT_SCRIPT_DIR), s(DEFAULT_HOOK_DIR)),
    );
    let runner = executor.prepare_task(Task::InstallBase, false, true, false);
    assert_eq!(
        runner.main_script().unwrap().path(),
        "/etc/tourmaline/scripts/install-base.nu"
    );
}

#[test]
fn prepared_task_carries_paths_arguments_and_globals() {
    let mut config = Config::empty();
    config.network.hostname = s("box");
    let expected_config_value = config.clone().to_value();
    let expected_args = task_args(&config, Task::ConfigureNetwork);
    let executor = executor_with(config);
    let runner = executor.prepare_task(Task::ConfigureNetwork, true, true, false);

    assert_eq!(runner.state(), RunState::Idle);
    let pre = runner.pre_script().unwrap();
    assert_eq!(pre.path(), "/cfg/hooks/configure-network.pre.nu");
    let main = runner.main_script().unwrap();
    assert_eq!(main.path(), "/cfg/scripts/configure-network.nu");
    assert!(runner.post_script().is_none());
    assert_eq!(runner.args(), &expected_args);

    let vars = main.vars();
    assert_eq!(vars.len(), 2);
    assert_eq!(vars[0].0, s("TRM_CONFIG"));
    assert_eq!(vars[0].1, expected_config_value);
    assert_eq!(vars[1], (s("TRM_VERSION"), RecordValue::Str(s(VERSION))));
    assert_eq!(pre.vars(), main.vars());
}

#[test]
fn prepared_task_without_main_fails_with_script_not_found() {
    let executor = executor_with(Config::empty());
    let mut runner = executor.prepare_task(Task::SetupUsers, true, false, false);
    assert_eq!(runner.start(), RunAction::RunPre);
    assert_eq!(
        runner.advance(Ok(())),
        RunAction::Finished(Err(AppError::ScriptNotFound(s("/cfg/scripts/setup-users.nu"))))
    );
}

#[test]
fn runtime_error_in_main_reports_failure_and_skips_post_hook() {
    let executor = executor_with(Config::empty());
    let mut runner = executor.prepare_task(Task::InstallDesktop, false, true, true);
    assert_eq!(runner.start(), RunAction::RunMain);
    let main = runner.main_script().unwrap();
    let outcome = main.invocation_outcome(InvocationEvent::RuntimeFailed);
    assert_eq!(
        runner.advance(outcome),
        RunAction::Finished(Err(AppError::FailedToExecuteScript))
    );
    assert_eq!(runner.state(), RunState::Failed);
}

#[test]
fn task_args_spread_lists_and_wrap_records() {
    let mut config = Config::empty();
    config.extra_packages = vec![s("htop"), s("git")];
    let extra = task_args(&config, Task::InstallExtraPackages);
    assert_eq!(extra.len(), 2);
    let locale = task_args(&config, Task::ConfigureLocale);
    assert_eq!(locale.len(), 1);
    let base = task_args(&config, Task::InstallBase);
    assert_eq!(base, vec![RecordValue::Null]);
}

#[test]
fn empty_config_marshals_to_a_record_with_all_domains() {
    let value = Config::empty().to_value();
    match value {
        RecordValue::Record(entries) => {
            let keys: Vec<String> = entries
                .iter()
                .map(|(k, _)| match k {
                    RecordValue::Str(name) => name.clone(),
                    _ => String::new(),
                })
                .collect();
            assert_eq!(
                keys,
                vec![
                    s("locale"),
                    s("network"),
                    s("partitions"),
                    s("bootloader"),
                    s("kernels"),
                    s("desktop"),
                    s("users"),
                    s("root_user"),
                    s("unakite"),
                    s("extra_packages"),
                    s("enable_timeshift"),
                    s("enable_flatpak"),
                    s("enable_zramd"),
                ]
            );
        },
        other => panic!("expected a record, got {:?}", other),
    }
}
