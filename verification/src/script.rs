//! The helper scripts that prepare the disk image of the virtual machine
//! and fetch the memory dump from it.

use crate::command::texts;
use crate::compile::ProcessRequest;
use crate::paths::{join_path, joined};
use crate::report::CrashReport;
use vstd::prelude::*;

verus! {

/// Whether `req` runs `script` for a report, in the script directory under
/// `root`, with the report's id and the commit of its first crash.
pub open spec fn is_script_request(
    req: ProcessRequest,
    script: Seq<char>,
    root: Seq<char>,
    report: CrashReport,
) -> bool {
    &&& req.program@ == script
    &&& texts(req.args@) == seq![report.id@, report.crashes@[0].kernel_source_commit@]
    &&& req.working_dir@ == joined(root, "script"@)
}

/// The process that runs a helper script for a report. A report without a
/// crash has no commit to run it for.
pub fn script_request(script: &str, root: &str, report: &CrashReport) -> (r: Option<
    ProcessRequest,
>)
    ensures
        r.is_some() == (report.crashes@.len() > 0),
        r matches Some(req) ==> is_script_request(req, script@, root@, *report),
{
    match report.first_crash() {
        Some(crash) => {
            let mut args: Vec<String> = Vec::new();
            args.push(report.id.clone());
            args.push(crash.kernel_source_commit.clone());
            assert(texts(args@) =~= seq![report.id@, report.crashes@[0].kernel_source_commit@]);
            Some(
                ProcessRequest {
                    program: String::from_str(script),
                    args,
                    working_dir: join_path(root, "script"),
                },
            )
        },
        None => None,
    }
}

/// The process that mounts the disk image.
pub fn mount(root: &str, report: &CrashReport) -> (r: Option<ProcessRequest>)
    ensures
        r.is_some() == (report.crashes@.len() > 0),
        r matches Some(req) ==> is_script_request(req, "./mount.sh"@, root@, *report),
{
    script_request("./mount.sh", root, report)
}

/// The process that fetches the memory dump.
pub fn get_vmcore(root: &str, report: &CrashReport) -> (r: Option<ProcessRequest>)
    ensures
        r.is_some() == (report.crashes@.len() > 0),
        r matches Some(req) ==> is_script_request(req, "./get.sh"@, root@, *report),
{
    script_request("./get.sh", root, report)
}

/// The result of a helper script, from whether its process succeeded: the
/// given message where it did not.
pub fn script_status(succeeded: bool, failure: &str) -> (r: Result<(), String>)
    ensures
        r.is_ok() == succeeded,
        r matches Err(message) ==> message@ == failure@,
{
    if succeeded {
        Ok(())
    } else {
        Err(String::from_str(failure))
    }
}

} // verus!
