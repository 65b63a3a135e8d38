//! The locator, the script values and the invocation-outcome mapping.

use tourmaline::error::AppError;
use tourmaline::scripting::loader::{HookType, ScriptLoader};
use tourmaline::scripting::record::RecordValue;
use tourmaline::scripting::script::{InvocationEvent, NuScript};
use tourmaline::tasks::Task;

fn s(v: &str) -> String {
    v.to_string()
}

fn loader() -> ScriptLoader {
    ScriptLoader::new(s("/etc/tourmaline/scripts"), s("/etc/tourmaline/hooks"))
}

#[test]
fn present_main_script_resolves_to_its_path() {
    let script = loader().load(&Task::ConfigureLocale, true).unwrap();
    assert_eq!(script.path(), "/etc/tourmaline/scripts/configure-locale.nu");
    assert!(script.vars().is_empty());
}

#[test]
fn absent_main_script_fails_with_the_attempted_path() {
    let r = loader().load(&Task::SetupUsers, false);
    assert_eq!(
        r.unwrap_err(),
        AppError::ScriptNotFound(s("/etc/tourmaline/scripts/setup-users.nu"))
    );
}

#[test]
fn absent_hook_is_no_error() {
    assert!(loader().load_hook(&Task::ConfigureLocale, HookType::Pre, false).is_none());
    assert!(loader().load_hook(&Task::ConfigureLocale, HookType::Post, false).is_none());
}

#[test]
fn present_hooks_resolve_to_their_paths() {
    let pre = loader().load_hook(&Task::InstallKernels, HookType::Pre, true).unwrap();
    assert_eq!(pre.path(), "/etc/tourmaline/hooks/install-kernels.pre.nu");
    let post = loader().load_hook(&Task::InstallKernels, HookType::Post, true).unwrap();
    assert_eq!(post.path(), "/etc/tourmaline/hooks/install-kernels.post.nu");
}

#[test]
fn script_and_hook_names_follow_the_naming_convention() {
    assert_eq!(Task::CreatePartitions.script_file(), "create-partitions.nu");
    assert_eq!(Task::CreatePartitions.pre_hook_file(), "create-partitions.pre.nu");
    assert_eq!(Task::CreatePartitions.post_hook_file(), "create-partitions.post.nu");
    assert_eq!(Task::InstallZramd.hook_file(HookType::Pre), "install-zramd.pre.nu");
}

#[test]
fn global_vars_keep_insertion_order() {
    let mut script = NuScript::new(s("/tmp/a.nu"));
    script.set_global_var(s("FIRST"), RecordValue::Int(1));
    script.set_global_var(s("SECOND"), RecordValue::Int(2));
    let vars = script.vars();
    assert_eq!(vars.len(), 2);
    assert_eq!(vars[0], (s("FIRST"), RecordValue::Int(1)));
    assert_eq!(vars[1], (s("SECOND"), RecordValue::Int(2)));
}

#[test]
fn setting_an_existing_global_var_overwrites_in_place() {
    let mut script = NuScript::new(s("/tmp/a.nu"));
    script.set_global_var(s("A"), RecordValue::Int(1));
    script.set_global_var(s("B"), RecordValue::Int(2));
    script.set_global_var(s("A"), RecordValue::Int(3));
    let vars = script.vars();
    assert_eq!(vars.len(), 2);
    assert_eq!(vars[0], (s("A"), RecordValue::Int(3)));
    assert_eq!(vars[1], (s("B"), RecordValue::Int(2)));
}

#[test]
fn completed_invocation_is_ok() {
    let script = NuScript::new(s("/x.nu"));
    assert_eq!(script.invocation_outcome(InvocationEvent::Completed), Ok(()));
}

#[test]
fn parse_failure_aborts_with_the_diagnostic() {
    let script = NuScript::new(s("/x.nu"));
    assert_eq!(
        script.invocation_outcome(InvocationEvent::ParseFailed(s("unexpected token"))),
        Err(AppError::ParseError(s("unexpected token")))
    );
}

#[test]
fn missing_main_names_the_script_path() {
    let script = NuScript::new(s("/etc/tourmaline/scripts/install-base.nu"));
    assert_eq!(
        script.invocation_outcome(InvocationEvent::MainMissing),
        Err(AppError::MissingMain(s("/etc/tourmaline/scripts/install-base.nu")))
    );
}

#[test]
fn runtime_failure_is_failed_to_execute_script() {
    let script = NuScript::new(s("/x.nu"));
    assert_eq!(
        script.invocation_outcome(InvocationEvent::RuntimeFailed),
        Err(AppError::FailedToExecuteScript)
    );
}

#[test]
fn error_messages_name_their_subject() {
    assert_eq!(
        AppError::ScriptNotFound(s("/a.nu")).message(),
        "could not find the script file /a.nu"
    );
    assert_eq!(
        AppError::MissingMain(s("/b.nu")).message(),
        "could not find the main method in the script file /b.nu"
    );
    assert_eq!(AppError::ParseError(s("bad")).message(), "failed to parse the script: bad");
    assert_eq!(AppError::FailedToExecuteScript.message(), "failed to execute script");
    assert_eq!(AppError::MissingConfig.message(), "missing config");
    assert_eq!(AppError::Io(s("gone")).message(), "io error: gone");
    assert_eq!(AppError::Json(s("eof")).message(), "json deserialization error: eof");
}

#[test]
fn display_string_renders_ints_strings_and_bools() {
    assert_eq!(RecordValue::Int(0).to_string(), "0");
    assert_eq!(RecordValue::Int(42).to_string(), "42");
    assert_eq!(RecordValue::Int(-123).to_string(), "-123");
    assert_eq!(RecordValue::Int(i64::MAX).to_string(), "9223372036854775807");
    assert_eq!(RecordValue::Int(i64::MIN).to_string(), "-9223372036854775808");
    assert_eq!(RecordValue::Str("key".to_string()).to_string(), "key");
    assert_eq!(RecordValue::Bool(true).to_string(), "true");
    assert_eq!(RecordValue::Bool(false).to_string(), "false");
    assert_eq!(RecordValue::Null.to_string(), "");
    assert_eq!(RecordValue::List(vec![]).to_string(), "");
}
