//! A crash report, as the bug tracker publishes it.

use vstd::prelude::*;

verus! {

/// A commit that fixes the crash.
#[derive(Debug)]
pub struct FixCommit {
    pub title: String,
    pub link: String,
    pub hash: String,
    pub repo: String,
    pub branch: String,
}

/// One occurrence of the crash, with what is needed to reproduce it.
#[derive(Debug)]
pub struct Crash {
    pub title: String,
    pub syz_reproducer: String,
    pub c_reproducer: String,
    pub kernel_config: String,
    pub kernel_source_git: String,
    pub kernel_source_commit: String,
    pub syzkaller_git: String,
    pub syzkaller_commit: String,
    pub compiler_description: String,
    pub architecture: String,
    pub crash_report_link: String,
}

/// A reported crash.
#[derive(Debug)]
pub struct CrashReport {
    pub version: i32,
    pub title: String,
    pub display_title: String,
    pub id: String,
    pub status: String,
    pub fix_commits: Vec<FixCommit>,
    pub discussions: Vec<String>,
    pub crashes: Vec<Crash>,
    pub subsystems: Vec<String>,
    pub parent_of_fix_commit: String,
    pub patch: String,
    pub patch_modified_files: Vec<String>,
}

impl CrashReport {
    /// The first crash of the report, the one that is reproduced.
    pub fn first_crash(&self) -> (r: Option<&Crash>)
        ensures
            r.is_some() == (self.crashes@.len() > 0),
            r matches Some(crash) ==> *crash == self.crashes@[0],
    {
        if self.crashes.len() > 0 {
            Some(&self.crashes[0])
        } else {
            None
        }
    }
}

} // verus!
