//! The commands that build a kernel for a crash report.
//!
//! The functions here say which processes to run, with which arguments and
//! where; running them is the caller's work.

use crate::command::texts;
use crate::compiler::{select_compiler, selected, Compiler, CompilerType, ParseCompilerError};
use crate::error::prefixed;
use crate::paths::{build_dir, build_path, join_path, joined, kernel_source_path, source_dir};
use crate::report::CrashReport;
use crate::text::{decimal, format_decimal, format_signed, signed_decimal};
use vstd::prelude::*;

verus! {

/// The command that installs the kernel headers after a build.
pub const HEADERS_COMMAND: &'static str =
    "make O=../build headers_install INSTALL_HDR_PATH=../install";

/// The command that completes a kernel configuration with defaults.
pub const OLDDEFCONFIG_COMMAND: &'static str = "make O=../build olddefconfig";

/// One process to run.
#[derive(Debug, PartialEq, Eq)]
pub struct ProcessRequest {
    pub program: String,
    pub args: Vec<String>,
    pub working_dir: String,
}

/// A shell with the toolchain of one compiler, in which build commands run.
#[derive(Debug, PartialEq, Eq)]
pub struct NixCommand {
    pub shell_script: String,
    pub compiler: String,
    pub working_dir: String,
}

/// The steps of one kernel build.
#[derive(Debug, PartialEq, Eq)]
pub struct BuildPlan {
    /// The shell in which the two commands run.
    pub nix: NixCommand,
    pub make_command: String,
    /// The kernel image that the build must leave behind.
    pub image_path: String,
    pub headers_command: String,
}

/// Why a build cannot be planned.
#[derive(Debug, PartialEq, Eq)]
pub enum BuildError {
    /// The compiler of the crashing kernel is not known.
    Compiler(ParseCompilerError),
    /// The machine has fewer than the two processors that are kept free.
    TooFewProcessors(usize),
}

/// How an optional exit code is written in a message.
pub open spec fn exit_code_text(exit_code: Option<i32>) -> Seq<char> {
    match exit_code {
        Some(code) => "Some("@ + signed_decimal(code as int) + ")"@,
        None => "None"@,
    }
}

/// The arguments with which the shell of `nix` runs `command`.
pub open spec fn nix_arguments(nix: NixCommand, command: Seq<char>) -> Seq<Seq<char>> {
    seq![
        nix.shell_script@,
        "--pure"@,
        "--argstr"@,
        "compiler"@,
        nix.compiler@,
        "--run"@,
        command,
    ]
}

/// The start of the make command for a compiler: through `bear`, which
/// records the compile commands, and with the LLVM tools for clang.
pub open spec fn make_prefix(compiler_type: CompilerType, rebuild: bool) -> Seq<char> {
    let bear = if rebuild {
        "bear --output rebuild_compile_commands.json -- "@
    } else {
        "bear -- "@
    };
    let make = match compiler_type {
        CompilerType::GCC => "make O=../build -j"@,
        CompilerType::CLANG =>
            "make O=../build LLVM=1 CC=clang LD=ld.lld AR=llvm-ar NM=llvm-nm OBJCOPY=llvm-objcopy -j"@,
    };
    bear + make
}

/// The make command on a machine with `cpus` processors, two of which are
/// kept free.
pub open spec fn make_line(compiler_type: CompilerType, cpus: usize, rebuild: bool) -> Seq<char>
    recommends
        cpus >= 2,
{
    make_prefix(compiler_type, rebuild) + decimal((cpus - 2) as nat)
}

/// The name of the toolchain of a compiler: its name and major version.
pub open spec fn toolchain_name(compiler: Compiler) -> Seq<char> {
    compiler.compiler_type.name() + "-"@ + decimal(compiler.major as nat)
}

/// The name and full version of a compiler.
pub open spec fn compiler_label(compiler: Compiler) -> Seq<char> {
    compiler.compiler_type.name() + "-"@ + decimal(compiler.major as nat) + "."@ + decimal(
        compiler.minor as nat,
    ) + "."@ + decimal(compiler.patch as nat)
}

/// The shell script that sets up the toolchains, under `root`.
pub open spec fn shell_script_path(root: Seq<char>) -> Seq<char> {
    joined(joined(root, "nix"@), "shell.nix"@)
}

/// The kernel image of a build in `build_dir`.
pub open spec fn image_path(build_dir: Seq<char>) -> Seq<char> {
    joined(joined(build_dir, "build"@), "arch/x86_64/boot/bzImage"@)
}

/// Whether `plan` builds the kernel of a report with `compiler` on a
/// machine with `cpus` processors.
pub open spec fn is_build_plan(
    plan: BuildPlan,
    root: Seq<char>,
    id: Seq<char>,
    commit: Seq<char>,
    compiler: Compiler,
    cpus: usize,
    rebuild: bool,
) -> bool {
    &&& plan.nix.shell_script@ == shell_script_path(root)
    &&& plan.nix.compiler@ == toolchain_name(compiler)
    &&& plan.nix.working_dir@ == source_dir(root, id, commit)
    &&& plan.make_command@ == make_line(compiler.compiler_type, cpus, rebuild)
    &&& plan.image_path@ == image_path(build_dir(root, id))
    &&& plan.headers_command@ == HEADERS_COMMAND@
}

/// The plan, or the reason for none, for a report on a machine with `cpus`
/// processors: the compiler must be known, and two processors stay free.
pub open spec fn build_outcome(
    r: Result<BuildPlan, BuildError>,
    root: Seq<char>,
    report: CrashReport,
    cpus: usize,
    rebuild: bool,
) -> bool {
    match selected(report) {
        Err(e) => r matches Err(BuildError::Compiler(found)) && found@ == e,
        Ok(compiler) => if cpus < 2 {
            r == Err::<BuildPlan, BuildError>(BuildError::TooFewProcessors(cpus))
        } else {
            r matches Ok(plan) && is_build_plan(
                plan,
                root,
                report.id@,
                report.crashes@[0].kernel_source_commit@,
                compiler,
                cpus,
                rebuild,
            )
        },
    }
}

impl NixCommand {
    /// A shell set up by `shell_script` for `compiler`, in `working_dir`.
    pub fn new(shell_script: String, compiler: &str, working_dir: String) -> (nix: Self)
        ensures
            nix.shell_script == shell_script,
            nix.compiler@ == compiler@,
            nix.working_dir == working_dir,
    {
        NixCommand { shell_script, compiler: String::from_str(compiler), working_dir }
    }

    /// The process that runs `command` in this shell.
    pub fn execute(&self, command: &str) -> (req: ProcessRequest)
        ensures
            req.program@ == "nix-shell"@,
            texts(req.args@) == nix_arguments(*self, command@),
            req.working_dir@ == self.working_dir@,
    {
        let mut args: Vec<String> = Vec::new();
        args.push(self.shell_script.clone());
        args.push(String::from_str("--pure"));
        args.push(String::from_str("--argstr"));
        args.push(String::from_str("compiler"));
        args.push(self.compiler.clone());
        args.push(String::from_str("--run"));
        args.push(String::from_str(command));
        assert(texts(args@) =~= nix_arguments(*self, command@));
        ProcessRequest {
            program: String::from_str("nix-shell"),
            args,
            working_dir: self.working_dir.clone(),
        }
    }
}

/// Renders an optional exit code.
pub fn format_exit_code(exit_code: Option<i32>) -> (s: String)
    ensures
        s@ == exit_code_text(exit_code),
{
    match exit_code {
        Some(code) => {
            let mut s = prefixed("Some(", format_signed(code).as_str());
            s.append(")");
            s
        },
        None => String::from_str("None"),
    }
}

/// The result of a command that ran in a shell, from its exit code: success
/// for zero, else a message with the code and the command.
pub fn nix_status(exit_code: Option<i32>, command: &str) -> (r: Result<(), String>)
    ensures
        r.is_ok() == (exit_code == Some(0i32)),
        r matches Err(message) ==> message@ == "Command failed with exit code: "@
            + exit_code_text(exit_code) + "\nCommand: "@ + command@,
{
    if let Some(code) = exit_code {
        if code == 0 {
            return Ok(());
        }
    }
    let mut message = prefixed(
        "Command failed with exit code: ",
        format_exit_code(exit_code).as_str(),
    );
    message.append("\nCommand: ");
    message.append(command);
    Err(message)
}

/// The make command for a compiler on a machine with `cpus` processors.
/// There is none on a machine with fewer than two.
pub fn make_command(compiler_type: CompilerType, cpus: usize, rebuild: bool) -> (line: Option<
    String,
>)
    ensures
        line.is_some() == (cpus >= 2),
        line matches Some(l) ==> l@ == make_line(compiler_type, cpus, rebuild),
{
    if cpus < 2 {
        return None;
    }
    let mut line = if rebuild {
        String::from_str("bear --output rebuild_compile_commands.json -- ")
    } else {
        String::from_str("bear -- ")
    };
    match compiler_type {
        CompilerType::GCC => line.append("make O=../build -j"),
        CompilerType::CLANG => line.append(
            "make O=../build LLVM=1 CC=clang LD=ld.lld AR=llvm-ar NM=llvm-nm OBJCOPY=llvm-objcopy -j",
        ),
    }
    line.append(format_decimal((cpus - 2) as u64).as_str());
    Some(line)
}

/// The name of the toolchain of a compiler.
pub fn toolchain(compiler: &Compiler) -> (name: String)
    ensures
        name@ == toolchain_name(*compiler),
{
    let mut name = compiler.compiler_type.to_string();
    name.append("-");
    name.append(format_decimal(compiler.major as u64).as_str());
    name
}

/// The name and full version of a compiler, for messages.
pub fn describe_compiler(compiler: &Compiler) -> (label: String)
    ensures
        label@ == compiler_label(*compiler),
{
    let mut label = toolchain(compiler);
    label.append(".");
    label.append(format_decimal(compiler.minor as u64).as_str());
    label.append(".");
    label.append(format_decimal(compiler.patch as u64).as_str());
    label
}

/// Calls `num_cpus::get`: the number of processors that this process can
/// use. It depends on the machine; all that is claimed is that it is at
/// least one.
#[verifier::external_body]
fn cpu_count() -> (cpus: usize)
    ensures
        cpus >= 1,
{
    num_cpus::get()
}

/// Plans the build of the kernel of a report on a machine with `cpus`
/// processors.
pub fn plan_build(root: &str, report: &CrashReport, cpus: usize, rebuild: bool) -> (r: Result<
    BuildPlan,
    BuildError,
>)
    ensures
        build_outcome(r, root@, *report, cpus, rebuild),
{
    let compiler = match select_compiler(report) {
        Ok(compiler) => compiler,
        Err(e) => {
            return Err(BuildError::Compiler(e));
        },
    };
    let make = match make_command(compiler.compiler_type, cpus, rebuild) {
        Some(line) => line,
        None => {
            return Err(BuildError::TooFewProcessors(cpus));
        },
    };
    let source = match kernel_source_path(root, report) {
        Some(path) => path,
        None => String::new(),
    };
    let nix_dir = join_path(root, "nix");
    let script = join_path(nix_dir.as_str(), "shell.nix");
    let name = toolchain(&compiler);
    let nix = NixCommand::new(script, name.as_str(), source);
    let dir = build_path(root, report);
    let build = join_path(dir.as_str(), "build");
    let image = join_path(build.as_str(), "arch/x86_64/boot/bzImage");
    Ok(
        BuildPlan {
            nix,
            make_command: make,
            image_path: image,
            headers_command: String::from_str(HEADERS_COMMAND),
        },
    )
}

/// Plans the first build of the kernel of a report on this machine.
pub fn make_kernel(root: &str, report: &CrashReport) -> (r: Result<BuildPlan, BuildError>)
    ensures
        exists|cpus: usize| cpus >= 1 && #[trigger] build_outcome(r, root@, *report, cpus, false),
{
    let cpus = cpu_count();
    plan_build(root, report, cpus, false)
}

/// Plans the build of the kernel of a report on this machine after its
/// source was changed.
pub fn rebuild_kernel(root: &str, report: &CrashReport) -> (r: Result<BuildPlan, BuildError>)
    ensures
        exists|cpus: usize| cpus >= 1 && #[trigger] build_outcome(r, root@, *report, cpus, true),
{
    let cpus = cpu_count();
    plan_build(root, report, cpus, true)
}

/// How a patch is applied to the kernel source of a report.
#[derive(Debug, PartialEq, Eq)]
pub struct PatchPlan {
    /// Where the patch is copied to before it is applied.
    pub patch_path: String,
    pub process: ProcessRequest,
}

/// Plans the application of a patch: it is copied to `patch.diff` in the
/// kernel source directory and applied there. A report without a crash has
/// no source to patch.
pub fn apply_patch(root: &str, report: &CrashReport) -> (r: Option<PatchPlan>)
    ensures
        r.is_some() == (report.crashes@.len() > 0),
        r matches Some(plan) ==> {
            let dir = source_dir(root@, report.id@, report.crashes@[0].kernel_source_commit@);
            &&& plan.patch_path@ == joined(dir, "patch.diff"@)
            &&& plan.process.program@ == "patch"@
            &&& texts(plan.process.args@) == seq!["-p1"@, "-i"@, "patch.diff"@]
            &&& plan.process.working_dir@ == dir
        },
{
    let dir = match kernel_source_path(root, report) {
        Some(path) => path,
        None => {
            return None;
        },
    };
    let mut args: Vec<String> = Vec::new();
    args.push(String::from_str("-p1"));
    args.push(String::from_str("-i"));
    args.push(String::from_str("patch.diff"));
    assert(texts(args@) =~= seq!["-p1"@, "-i"@, "patch.diff"@]);
    Some(
        PatchPlan {
            patch_path: join_path(dir.as_str(), "patch.diff"),
            process: ProcessRequest { program: String::from_str("patch"), args, working_dir: dir },
        },
    )
}

/// The result of applying a patch, from the exit code of the process.
pub fn patch_status(exit_code: Option<i32>) -> (r: Result<(), String>)
    ensures
        r.is_ok() == (exit_code == Some(0i32)),
        r matches Err(message) ==> message@ == "Failed to apply patch, exit code: "@
            + exit_code_text(exit_code),
{
    if let Some(code) = exit_code {
        if code == 0 {
            return Ok(());
        }
    }
    Err(prefixed("Failed to apply patch, exit code: ", format_exit_code(exit_code).as_str()))
}

} // verus!
