//! What to fetch for a crash report, and where to put it.
//!
//! The functions here plan a download; fetching and unpacking are the
//! caller's work.

use crate::config::{ProxyConfig, ProxyConfigView};
use crate::error::prefixed;
use crate::paths::{build_dir, build_path, join_path, joined, kernel_source_path, source_dir};
use crate::report::CrashReport;
use crate::text::{decimal, format_decimal, strip_leading, trim, trimmed, without_leading};
use vstd::prelude::*;

verus! {

/// Where kernel source archives are fetched from, by commit.
pub const KERNEL_DOWNLOAD_URL: &'static str = "https://github.com/torvalds/linux/archive/";

/// Where reproducers and kernel configurations are fetched from.
pub const SYZKALLER_URL: &'static str = "https://syzkaller.appspot.com/";

/// Why a download did not take place or failed.
#[derive(Debug, PartialEq, Eq)]
pub enum DownloadError {
    /// The target file is there already.
    FileExists(String),
    /// Anything else, with its description.
    Other(String),
}

pub enum DownloadErrorView {
    FileExists(Seq<char>),
    Other(Seq<char>),
}

impl View for DownloadError {
    type V = DownloadErrorView;

    open spec fn view(&self) -> DownloadErrorView {
        match self {
            DownloadError::FileExists(path) => DownloadErrorView::FileExists(path@),
            DownloadError::Other(reason) => DownloadErrorView::Other(reason@),
        }
    }
}

impl DownloadErrorView {
    /// The text shown to a user for this error.
    pub open spec fn message(self) -> Seq<char> {
        match self {
            DownloadErrorView::FileExists(path) => "File already exists: "@ + path,
            DownloadErrorView::Other(reason) => reason,
        }
    }
}

impl DownloadError {
    /// The text shown to a user for this error.
    pub fn to_string(&self) -> (s: String)
        ensures
            s@ == self@.message(),
    {
        match self {
            DownloadError::FileExists(path) => prefixed("File already exists: ", path.as_str()),
            DownloadError::Other(reason) => reason.clone(),
        }
    }
}

/// One file to fetch.
#[derive(Debug, PartialEq, Eq)]
pub struct Download {
    pub url: String,
    /// The file to write. A file that is there already is not overwritten.
    pub target: String,
    /// Whether the request goes through the configured proxy.
    pub use_proxy: bool,
}

/// The kernel source to fetch and unpack.
#[derive(Debug, PartialEq, Eq)]
pub struct KernelDownload {
    pub archive: Download,
    /// The directory to unpack the archive in.
    pub save_dir: String,
    /// The directory that unpacking creates. Where it is there already,
    /// nothing is fetched.
    pub source_dir: String,
}

/// The address of the source archive of a commit.
pub open spec fn archive_url(commit: Seq<char>) -> Seq<char> {
    KERNEL_DOWNLOAD_URL@ + commit + ".tar.gz"@
}

/// The file name of the source archive of a commit.
pub open spec fn archive_name(commit: Seq<char>) -> Seq<char> {
    "linux-"@ + commit + ".tar.gz"@
}

/// The address of an artifact of the bug tracker, from its link without
/// surrounding white space: the leading slashes of the link are dropped.
pub open spec fn artifact_address(link: Seq<char>) -> Seq<char> {
    SYZKALLER_URL@ + without_leading(link, '/')
}

/// The address of the proxy.
pub open spec fn proxy_address(proxy: ProxyConfigView) -> Seq<char> {
    "http://"@ + proxy.host + ":"@ + decimal(proxy.port as nat)
}

/// Whether `d` fetches `url` into `target`.
pub open spec fn is_download(d: Download, url: Seq<char>, target: Seq<char>, use_proxy: bool) -> bool {
    d.url@ == url && d.target@ == target && d.use_proxy == use_proxy
}

/// The address of the proxy, as the HTTP client takes it.
pub fn proxy_url(proxy: &ProxyConfig) -> (url: String)
    ensures
        url@ == proxy_address(proxy@),
{
    let mut url = prefixed("http://", proxy.host.as_str());
    url.append(":");
    url.append(format_decimal(proxy.port as u64).as_str());
    url
}

/// The address of an artifact of the bug tracker, from its link without
/// surrounding white space.
pub fn artifact_url(link: &str) -> (url: String)
    ensures
        url@ == artifact_address(link@),
{
    let path = strip_leading(link, '/');
    prefixed(SYZKALLER_URL, path.as_str())
}

/// Plans the download of the kernel source of the report's first crash: the
/// archive of its commit, into the report's build directory.
pub fn download_kernel(root: &str, report: &CrashReport) -> (r: Result<
    KernelDownload,
    DownloadError,
>)
    ensures
        r.is_ok() == (report.crashes@.len() > 0),
        r matches Err(e) ==> e@ == DownloadErrorView::Other(
            "No crashes found in the report, cannot download kernel."@,
        ),
        r matches Ok(plan) ==> {
            let commit = report.crashes@[0].kernel_source_commit@;
            &&& is_download(
                plan.archive,
                archive_url(commit),
                joined(build_dir(root@, report.id@), archive_name(commit)),
                false,
            )
            &&& plan.save_dir@ == build_dir(root@, report.id@)
            &&& plan.source_dir@ == source_dir(root@, report.id@, commit)
        },
{
    let crash = match report.first_crash() {
        Some(crash) => crash,
        None => {
            return Err(
                DownloadError::Other(
                    String::from_str("No crashes found in the report, cannot download kernel."),
                ),
            );
        },
    };
    let commit = crash.kernel_source_commit.as_str();
    let mut url = prefixed(KERNEL_DOWNLOAD_URL, commit);
    url.append(".tar.gz");
    let mut name = prefixed("linux-", commit);
    name.append(".tar.gz");
    let save_dir = build_path(root, report);
    let target = join_path(save_dir.as_str(), name.as_str());
    let source = match kernel_source_path(root, report) {
        Some(path) => path,
        None => String::new(),
    };
    Ok(
        KernelDownload {
            archive: Download { url, target, use_proxy: false },
            save_dir,
            source_dir: source,
        },
    )
}

/// Plans the download of the C reproducer of the report's first crash, into
/// `reproducer.c` in the report's build directory, through the proxy.
pub fn download_bug(root: &str, report: &CrashReport) -> (r: Result<Download, DownloadError>)
    ensures
        r.is_ok() == (report.crashes@.len() > 0),
        r matches Err(e) ==> e@ == DownloadErrorView::Other(
            "No crashes found in the report, cannot download bug."@,
        ),
        r matches Ok(d) ==> is_download(
            d,
            artifact_address(trimmed(report.crashes@[0].c_reproducer@)),
            joined(build_dir(root@, report.id@), "reproducer.c"@),
            true,
        ),
{
    let crash = match report.first_crash() {
        Some(crash) => crash,
        None => {
            return Err(
                DownloadError::Other(
                    String::from_str("No crashes found in the report, cannot download bug."),
                ),
            );
        },
    };
    let link = trim(crash.c_reproducer.as_str());
    let url = artifact_url(link.as_str());
    let dir = build_path(root, report);
    let target = join_path(dir.as_str(), "reproducer.c");
    Ok(Download { url, target, use_proxy: true })
}

/// Plans the download of the kernel configuration of the report's first
/// crash, into `build/.config` in the report's build directory, through the
/// proxy.
pub fn download_config(root: &str, report: &CrashReport) -> (r: Result<Download, DownloadError>)
    ensures
        r.is_ok() == (report.crashes@.len() > 0),
        r matches Err(e) ==> e@ == DownloadErrorView::Other(
            "No crashes found in the report, cannot download config."@,
        ),
        r matches Ok(d) ==> is_download(
            d,
            artifact_address(trimmed(report.crashes@[0].kernel_config@)),
            joined(joined(build_dir(root@, report.id@), "build"@), ".config"@),
            true,
        ),
{
    let crash = match report.first_crash() {
        Some(crash) => crash,
        None => {
            return Err(
                DownloadError::Other(
                    String::from_str("No crashes found in the report, cannot download config."),
                ),
            );
        },
    };
    let link = trim(crash.kernel_config.as_str());
    let url = artifact_url(link.as_str());
    let dir = build_path(root, report);
    let build = join_path(dir.as_str(), "build");
    let target = join_path(build.as_str(), ".config");
    Ok(Download { url, target, use_proxy: true })
}

/// Whether the work on the kernel source goes on after the download of its
/// archive: after a success, and where the archive was there already.
pub fn archive_is_ready(fetched: &Result<(), DownloadError>) -> (ready: bool)
    ensures
        ready == (fetched is Ok || (fetched matches Err(e) && e is FileExists)),
{
    match fetched {
        Ok(_) => true,
        Err(DownloadError::FileExists(_)) => true,
        Err(_) => false,
    }
}

} // verus!
