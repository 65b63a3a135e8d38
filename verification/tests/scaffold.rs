//! The task registry and the placeholder script scaffolding.

use tourmaline::tasks::{all_tasks, task_list, Task, TaskFiles};
use tourmaline::utils::{
    placeholder_script_files, MAIN_SCRIPT_TEMPLATE, POST_HOOK_TEMPLATE, PRE_HOOK_TEMPLATE,
};

#[test]
fn the_registry_holds_all_fourteen_tasks_in_order() {
    let tasks = task_list();
    assert_eq!(
        tasks,
        vec![
            Task::ConfigureLocale,
            Task::ConfigureNetwork,
            Task::ConfigureUnakite,
            Task::CreatePartitions,
            Task::InstallBase,
            Task::InstallBootloader,
            Task::InstallDesktop,
            Task::InstallExtraPackages,
            Task::InstallFlatpak,
            Task::InstallKernels,
            Task::InstallTimeshift,
            Task::InstallZramd,
            Task::SetupRootUser,
            Task::SetupUsers,
        ]
    );
}

#[test]
fn all_tasks_lists_every_script_and_hook_name() {
    let files = all_tasks();
    assert_eq!(files.len(), 14);
    assert_eq!(files[0].script, "configure-locale.nu");
    assert_eq!(files[0].pre_hook, "configure-locale.pre.nu");
    assert_eq!(files[0].post_hook, "configure-locale.post.nu");
    assert_eq!(files[13].script, "setup-users.nu");
    for (i, task) in task_list().iter().enumerate() {
        assert_eq!(files[i].script, task.script_file());
        assert_eq!(files[i].pre_hook, task.pre_hook_file());
        assert_eq!(files[i].post_hook, task.post_hook_file());
    }
}

#[test]
fn task_files_join_paths_under_the_base_directory() {
    let files = TaskFiles {
        script: "a.nu".to_string(),
        pre_hook: "a.pre.nu".to_string(),
        post_hook: "a.post.nu".to_string(),
    };
    assert_eq!(files.script_path("/out"), "/out/scripts/a.nu");
    assert_eq!(files.pre_hook_path("/out"), "/out/hooks/a.pre.nu");
    assert_eq!(files.post_hook_path("/out"), "/out/hooks/a.post.nu");
}

#[test]
fn scaffolding_plans_three_files_per_task() {
    let plan = placeholder_script_files("/out");
    assert_eq!(plan.len(), 42);
    assert_eq!(plan[0].0, "/out/scripts/configure-locale.nu");
    assert_eq!(plan[0].1, MAIN_SCRIPT_TEMPLATE);
    assert_eq!(plan[1].0, "/out/hooks/configure-locale.pre.nu");
    assert_eq!(plan[1].1, PRE_HOOK_TEMPLATE);
    assert_eq!(plan[2].0, "/out/hooks/configure-locale.post.nu");
    assert_eq!(plan[2].1, POST_HOOK_TEMPLATE);
    assert_eq!(plan[41].0, "/out/hooks/setup-users.post.nu");
}

#[test]
fn placeholder_scripts_define_a_main_entry_point() {
    assert!(MAIN_SCRIPT_TEMPLATE.contains("def main [cfg]"));
    assert!(PRE_HOOK_TEMPLATE.contains("def main [cfg]"));
    assert!(PRE_HOOK_TEMPLATE.contains("$TRM_CONFIG"));
    assert!(POST_HOOK_TEMPLATE.contains("def main [cfg]"));
    assert!(POST_HOOK_TEMPLATE.contains("$TRM_CONFIG"));
}
