//! Where the work on a crash report takes place on disk.
//!
//! Paths are texts with `/` as the separator.

use crate::error::prefixed;
use crate::report::CrashReport;
use vstd::prelude::*;

verus! {

/// `base` extended by `suffix`: an absolute suffix replaces the base, and an
/// empty base gives way to the suffix; otherwise the two are joined by one
/// separator, unless the base already ends in one.
pub open spec fn joined(base: Seq<char>, suffix: Seq<char>) -> Seq<char> {
    if suffix.len() > 0 && suffix[0] == '/' {
        suffix
    } else if base.len() == 0 {
        suffix
    } else if base.last() == '/' {
        base + suffix
    } else {
        base + "/"@ + suffix
    }
}

/// The directory of a report under `root`.
pub open spec fn build_dir(root: Seq<char>, id: Seq<char>) -> Seq<char> {
    joined(root, "workspace/"@ + id)
}

/// The directory of the kernel source of a report under `root`.
pub open spec fn source_dir(root: Seq<char>, id: Seq<char>, commit: Seq<char>) -> Seq<char> {
    joined(build_dir(root, id), "linux-"@ + commit)
}

/// Extends the path `base` by `suffix`.
pub fn join_path(base: &str, suffix: &str) -> (path: String)
    ensures
        path@ == joined(base@, suffix@),
{
    let suffix_len = suffix.unicode_len();
    if suffix_len > 0 && suffix.get_char(0) == '/' {
        return String::from_str(suffix);
    }
    let base_len = base.unicode_len();
    if base_len == 0 {
        return String::from_str(suffix);
    }
    let mut path = String::from_str(base);
    if base.get_char(base_len - 1) != '/' {
        path.append("/");
    }
    path.append(suffix);
    path
}

/// The directory in which a report is worked on: `workspace/<id>` under
/// `root`, the directory that the toolkit runs in.
pub fn build_path(root: &str, report: &CrashReport) -> (path: String)
    ensures
        path@ == build_dir(root@, report.id@),
{
    let suffix = prefixed("workspace/", report.id.as_str());
    join_path(root, suffix.as_str())
}

/// The directory of the kernel source of a report: `linux-<commit>` under
/// its build directory, for the commit of its first crash. A report without
/// a crash has none.
pub fn kernel_source_path(root: &str, report: &CrashReport) -> (path: Option<String>)
    ensures
        path.is_some() == (report.crashes@.len() > 0),
        path matches Some(p) ==> p@ == source_dir(
            root@,
            report.id@,
            report.crashes@[0].kernel_source_commit@,
        ),
{
    match report.first_crash() {
        Some(crash) => {
            let base = build_path(root, report);
            let suffix = prefixed("linux-", crash.kernel_source_commit.as_str());
            Some(join_path(base.as_str(), suffix.as_str()))
        },
        None => None,
    }
}

} // verus!
