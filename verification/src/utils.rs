//! Scaffolding: the placeholder script files that give every task a
//! trivial main script and hooks which echo their arguments.
//!
//! This module only plans the files — each path paired with its contents;
//! writing them to disk is the host's job.

use vstd::prelude::*;
use vstd::string::StringExecFns;

use crate::tasks::{all_tasks, task_order};

verus! {

/// The placeholder main script: a `main` that echoes its configuration.
pub const MAIN_SCRIPT_TEMPLATE: &'static str = "def main [cfg] {\n    echo \"Executing Task with config\" $cfg\n}\n";

/// The placeholder pre hook: echoes the task and global configuration.
pub const PRE_HOOK_TEMPLATE: &'static str = "def main [cfg] {\n    echo \"Executing before Task with task config: \" $cfg\n    echo \"The global config is: \" $TRM_CONFIG\n}\n";

/// The placeholder post hook: echoes the task and global configuration.
pub const POST_HOOK_TEMPLATE: &'static str = "def main [cfg] {\n    echo \"Executing after Task with task config: \" $cfg\n    echo \"The global config is: \" $TRM_CONFIG\n}\n";

/// Plans the placeholder script files under an output directory: for every
/// task, in registry order, the main script, the pre hook and the post
/// hook, each path paired with its contents.
pub fn placeholder_script_files(output: &str) -> (r: Vec<(String, String)>)
    ensures
        r@.len() == 3 * task_order().len(),
        forall|i: int|
            #![trigger task_order()[i]]
            0 <= i < task_order().len() ==> {
                &&& r@[3 * i].0@ == output@ + "/scripts/"@ + task_order()[i].spec_script_file()
                &&& r@[3 * i].1@ == MAIN_SCRIPT_TEMPLATE@
                &&& r@[3 * i + 1].0@ == output@ + "/hooks/"@
                    + task_order()[i].spec_pre_hook_file()
                &&& r@[3 * i + 1].1@ == PRE_HOOK_TEMPLATE@
                &&& r@[3 * i + 2].0@ == output@ + "/hooks/"@
                    + task_order()[i].spec_post_hook_file()
                &&& r@[3 * i + 2].1@ == POST_HOOK_TEMPLATE@
            },
{
    let files = all_tasks();
    let mut r: Vec<(String, String)> = Vec::new();
    let n = files.len();
    let mut i: usize = 0;
    while i < n
        invariant
            n == files@.len(),
            n == task_order().len(),
            i <= n,
            r@.len() == 3 * i,
            forall|j: int|
                0 <= j < files@.len() ==> {
                    &&& (#[trigger] files@[j]).script@ == task_order()[j].spec_script_file()
                    &&& files@[j].pre_hook@ == task_order()[j].spec_pre_hook_file()
                    &&& files@[j].post_hook@ == task_order()[j].spec_post_hook_file()
                },
            forall|j: int|
                #![trigger task_order()[j]]
                0 <= j < i ==> {
                    &&& r@[3 * j].0@ == output@ + "/scripts/"@ + task_order()[j].spec_script_file()
                    &&& r@[3 * j].1@ == MAIN_SCRIPT_TEMPLATE@
                    &&& r@[3 * j + 1].0@ == output@ + "/hooks/"@
                        + task_order()[j].spec_pre_hook_file()
                    &&& r@[3 * j + 1].1@ == PRE_HOOK_TEMPLATE@
                    &&& r@[3 * j + 2].0@ == output@ + "/hooks/"@
                        + task_order()[j].spec_post_hook_file()
                    &&& r@[3 * j + 2].1@ == POST_HOOK_TEMPLATE@
                },
        decreases n - i,
    {
        let f = &files[i];
        r.push((f.script_path(output), String::from_str(MAIN_SCRIPT_TEMPLATE)));
        r.push((f.pre_hook_path(output), String::from_str(PRE_HOOK_TEMPLATE)));
        r.push((f.post_hook_path(output), String::from_str(POST_HOOK_TEMPLATE)));
        i = i + 1;
    }
    r
}

} // verus!
