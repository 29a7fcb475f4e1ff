use kernel_builder::compile::{
    apply_patch, describe_compiler, format_exit_code, make_command, make_kernel, nix_status,
    patch_status, plan_build, rebuild_kernel, toolchain, BuildError, NixCommand,
};
use kernel_builder::compiler::{Compiler, CompilerType, ParseCompilerError};
use kernel_builder::config::ProxyConfig;
use kernel_builder::download::{
    archive_is_ready, artifact_url, download_bug, download_config, download_kernel, proxy_url,
    Download, DownloadError,
};
use kernel_builder::qemu::QEMUError;
use kernel_builder::report::{Crash, CrashReport};
use kernel_builder::script::{get_vmcore, mount, script_status};
use kernel_builder::text::{ends_with, find_char, same_text, starts_with, strip_leading};

fn sample_report(crashes: usize) -> CrashReport {
    let mut list = Vec::new();
    for i in 0..crashes {
        list.push(Crash {
            title: "t".to_string(),
            syz_reproducer: "/text?tag=ReproSyz&x=1".to_string(),
            c_reproducer: format!("  //text?tag=ReproC&x={}\n", i),
            kernel_config: "\t/text?tag=KernelConfig&x=3 ".to_string(),
            kernel_source_git: "git".to_string(),
            kernel_source_commit: format!("c0ffee{}", i),
            syzkaller_git: "g".to_string(),
            syzkaller_commit: "s".to_string(),
            compiler_description: "clang (Debian 15.0.6) 15.0.6".to_string(),
            architecture: "amd64".to_string(),
            crash_report_link: "l".to_string(),
        });
    }
    CrashReport {
        version: 1,
        title: "t".to_string(),
        display_title: "t".to_string(),
        id: "bug42".to_string(),
        status: "open".to_string(),
        fix_commits: Vec::new(),
        discussions: Vec::new(),
        crashes: list,
        subsystems: Vec::new(),
        parent_of_fix_commit: String::new(),
        patch: String::new(),
        patch_modified_files: Vec::new(),
    }
}

#[test]
fn kernel_download_plan() {
    let plan = download_kernel("/work", &sample_report(2)).unwrap();
    assert_eq!(
        plan.archive,
        Download {
            url: "https://github.com/torvalds/linux/archive/c0ffee0.tar.gz".to_string(),
            target: "/work/workspace/bug42/linux-c0ffee0.tar.gz".to_string(),
            use_proxy: false,
        }
    );
    assert_eq!(plan.save_dir, "/work/workspace/bug42");
    assert_eq!(plan.source_dir, "/work/workspace/bug42/linux-c0ffee0");
}

#[test]
fn reproducer_and_config_download_plans() {
    let report = sample_report(1);
    assert_eq!(
        download_bug("/work", &report),
        Ok(Download {
            url: "https://syzkaller.appspot.com/text?tag=ReproC&x=0".to_string(),
            target: "/work/workspace/bug42/reproducer.c".to_string(),
            use_proxy: true,
        })
    );
    assert_eq!(
        download_config("/work", &report),
        Ok(Download {
            url: "https://syzkaller.appspot.com/text?tag=KernelConfig&x=3".to_string(),
            target: "/work/workspace/bug42/build/.config".to_string(),
            use_proxy: true,
        })
    );
}

#[test]
fn downloads_need_a_crash() {
    let report = sample_report(0);
    assert_eq!(
        download_kernel("/work", &report),
        Err(DownloadError::Other(
            "No crashes found in the report, cannot download kernel.".to_string()
        ))
    );
    assert_eq!(
        download_bug("/work", &report),
        Err(DownloadError::Other(
            "No crashes found in the report, cannot download bug.".to_string()
        ))
    );
    assert_eq!(
        download_config("/work", &report),
        Err(DownloadError::Other(
            "No crashes found in the report, cannot download config.".to_string()
        ))
    );
}

#[test]
fn artifact_url_drops_leading_slashes() {
    assert_eq!(artifact_url("/x/y"), "https://syzkaller.appspot.com/x/y");
    assert_eq!(artifact_url("///x/"), "https://syzkaller.appspot.com/x/");
    assert_eq!(artifact_url("x"), "https://syzkaller.appspot.com/x");
    assert_eq!(artifact_url(""), "https://syzkaller.appspot.com/");
    assert_eq!(artifact_url("//"), "https://syzkaller.appspot.com/");
}

#[test]
fn proxy_url_of_a_proxy() {
    let proxy = ProxyConfig { host: "127.0.0.1".to_string(), port: 7890 };
    assert_eq!(proxy_url(&proxy), "http://127.0.0.1:7890");
    let proxy = ProxyConfig { host: "p".to_string(), port: 0 };
    assert_eq!(proxy_url(&proxy), "http://p:0");
    let proxy = ProxyConfig { host: "p".to_string(), port: u16::MAX };
    assert_eq!(proxy_url(&proxy), "http://p:65535");
}

#[test]
fn existing_archive_is_ready() {
    assert!(archive_is_ready(&Ok(())));
    assert!(archive_is_ready(&Err(DownloadError::FileExists("/a".to_string()))));
    assert!(!archive_is_ready(&Err(DownloadError::Other("404".to_string()))));
}

#[test]
fn download_error_messages() {
    assert_eq!(
        DownloadError::FileExists("/a/b".to_string()).to_string(),
        "File already exists: /a/b"
    );
    assert_eq!(DownloadError::Other("boom".to_string()).to_string(), "boom");
}

#[test]
fn make_command_lines() {
    assert_eq!(
        make_command(CompilerType::GCC, 8, false),
        Some("bear -- make O=../build -j6".to_string())
    );
    assert_eq!(
        make_command(CompilerType::CLANG, 16, false),
        Some(
            "bear -- make O=../build LLVM=1 CC=clang LD=ld.lld AR=llvm-ar NM=llvm-nm OBJCOPY=llvm-objcopy -j14"
                .to_string()
        )
    );
    assert_eq!(
        make_command(CompilerType::GCC, 2, true),
        Some("bear --output rebuild_compile_commands.json -- make O=../build -j0".to_string())
    );
    assert_eq!(
        make_command(CompilerType::CLANG, 3, true),
        Some(
            "bear --output rebuild_compile_commands.json -- make O=../build LLVM=1 CC=clang LD=ld.lld AR=llvm-ar NM=llvm-nm OBJCOPY=llvm-objcopy -j1"
                .to_string()
        )
    );
    assert_eq!(make_command(CompilerType::GCC, 1, false), None);
    assert_eq!(make_command(CompilerType::GCC, 0, true), None);
}

#[test]
fn compiler_names() {
    let compiler = Compiler { compiler_type: CompilerType::GCC, major: 10, minor: 2, patch: 1 };
    assert_eq!(toolchain(&compiler), "gcc-10");
    assert_eq!(describe_compiler(&compiler), "gcc-10.2.1");
    let compiler = Compiler { compiler_type: CompilerType::CLANG, major: 15, minor: 0, patch: 6 };
    assert_eq!(toolchain(&compiler), "clang-15");
    assert_eq!(describe_compiler(&compiler), "clang-15.0.6");
}

#[test]
fn nix_command_arguments() {
    let nix = NixCommand::new("/work/nix/shell.nix".to_string(), "gcc-10", "/src".to_string());
    let req = nix.execute("make -j4");
    assert_eq!(req.program, "nix-shell");
    assert_eq!(
        req.args,
        vec!["/work/nix/shell.nix", "--pure", "--argstr", "compiler", "gcc-10", "--run", "make -j4"]
    );
    assert_eq!(req.working_dir, "/src");
}

#[test]
fn exit_code_messages() {
    assert_eq!(format_exit_code(Some(1)), "Some(1)");
    assert_eq!(format_exit_code(Some(-7)), "Some(-7)");
    assert_eq!(format_exit_code(None), "None");
    assert_eq!(format_exit_code(Some(3)), format!("{:?}", Some(3)));
    assert_eq!(nix_status(Some(0), "make"), Ok(()));
    assert_eq!(
        nix_status(Some(2), "make -j4"),
        Err("Command failed with exit code: Some(2)\nCommand: make -j4".to_string())
    );
    assert_eq!(
        nix_status(None, "make"),
        Err("Command failed with exit code: None\nCommand: make".to_string())
    );
    assert_eq!(patch_status(Some(0)), Ok(()));
    assert_eq!(
        patch_status(Some(1)),
        Err("Failed to apply patch, exit code: Some(1)".to_string())
    );
}

#[test]
fn build_plan_for_a_report() {
    let plan = plan_build("/work", &sample_report(1), 6, false).unwrap();
    assert_eq!(plan.nix.shell_script, "/work/nix/shell.nix");
    assert_eq!(plan.nix.compiler, "clang-15");
    assert_eq!(plan.nix.working_dir, "/work/workspace/bug42/linux-c0ffee0");
    assert_eq!(
        plan.make_command,
        "bear -- make O=../build LLVM=1 CC=clang LD=ld.lld AR=llvm-ar NM=llvm-nm OBJCOPY=llvm-objcopy -j4"
    );
    assert_eq!(plan.image_path, "/work/workspace/bug42/build/arch/x86_64/boot/bzImage");
    assert_eq!(
        plan.headers_command,
        "make O=../build headers_install INSTALL_HDR_PATH=../install"
    );
    let again = plan_build("/work", &sample_report(1), 6, true).unwrap();
    assert!(again.make_command.starts_with("bear --output rebuild_compile_commands.json -- "));
}

#[test]
fn build_plan_failures() {
    assert_eq!(
        plan_build("/work", &sample_report(0), 6, false),
        Err(BuildError::Compiler(ParseCompilerError::NoCrashData))
    );
    assert_eq!(
        plan_build("/work", &sample_report(1), 1, false),
        Err(BuildError::TooFewProcessors(1))
    );
    let mut odd = sample_report(1);
    odd.crashes[0].compiler_description = "rustc 1.80".to_string();
    assert_eq!(
        plan_build("/work", &odd, 6, true),
        Err(BuildError::Compiler(ParseCompilerError::FormatNotMatched))
    );
}

#[test]
fn build_plan_on_this_machine() {
    let report = sample_report(1);
    match make_kernel("/work", &report) {
        Ok(plan) => {
            assert!(plan.make_command.starts_with("bear -- make O=../build LLVM=1 "));
            assert_eq!(plan.nix.compiler, "clang-15");
        }
        Err(e) => assert_eq!(e, BuildError::TooFewProcessors(1)),
    }
    match rebuild_kernel("/work", &report) {
        Ok(plan) => assert!(plan.make_command.starts_with("bear --output ")),
        Err(e) => assert_eq!(e, BuildError::TooFewProcessors(1)),
    }
    assert_eq!(
        make_kernel("/work", &sample_report(0)),
        Err(BuildError::Compiler(ParseCompilerError::NoCrashData))
    );
}

#[test]
fn patch_plan() {
    let plan = apply_patch("/work", &sample_report(1)).unwrap();
    assert_eq!(plan.patch_path, "/work/workspace/bug42/linux-c0ffee0/patch.diff");
    assert_eq!(plan.process.program, "patch");
    assert_eq!(plan.process.args, vec!["-p1", "-i", "patch.diff"]);
    assert_eq!(plan.process.working_dir, "/work/workspace/bug42/linux-c0ffee0");
    assert_eq!(apply_patch("/work", &sample_report(0)), None);
}

#[test]
fn helper_scripts() {
    let report = sample_report(1);
    let req = mount("/work", &report).unwrap();
    assert_eq!(req.program, "./mount.sh");
    assert_eq!(req.args, vec!["bug42", "c0ffee0"]);
    assert_eq!(req.working_dir, "/work/script");
    let req = get_vmcore("/work/", &report).unwrap();
    assert_eq!(req.program, "./get.sh");
    assert_eq!(req.args, vec!["bug42", "c0ffee0"]);
    assert_eq!(req.working_dir, "/work/script");
    assert_eq!(mount("/work", &sample_report(0)), None);
    assert_eq!(get_vmcore("/work", &sample_report(0)), None);
    assert_eq!(script_status(true, "failed to mount debian.img"), Ok(()));
    assert_eq!(
        script_status(false, "failed to mount debian.img"),
        Err("failed to mount debian.img".to_string())
    );
}

#[test]
fn qemu_error_messages() {
    assert_eq!(QEMUError::VMStartupFailed("a".to_string()).to_string(), "VM startup failed: a");
    assert_eq!(
        QEMUError::MonitorConnectionFailed("b".to_string()).to_string(),
        "Monitor connection failed: b"
    );
    assert_eq!(
        QEMUError::MonitorCommandExecutionFailed("c".to_string()).to_string(),
        "Monitor command execution failed: c"
    );
    assert_eq!(
        QEMUError::SSHConnectionFailed("d".to_string()).to_string(),
        "SSH connection failed: d"
    );
    assert_eq!(QEMUError::ProcessError("e".to_string()).to_string(), "Process error: e");
    assert_eq!(QEMUError::Io("f".to_string()).to_string(), "IO error: f");
    assert_eq!(QEMUError::VMNotRunning.to_string(), "VM not running");
    assert_eq!(QEMUError::MonitorNotConnected.to_string(), "Monitor not connected");
    assert_eq!(QEMUError::ConfigError("g".to_string()).to_string(), "Configuration error: g");
    assert_eq!(QEMUError::TimeoutError("h".to_string()).to_string(), "Timeout error: h");
    assert_eq!(QEMUError::Serialization("i".to_string()).to_string(), "Serialization error: i");
    assert_eq!(QEMUError::FileNotFound("j".to_string()).to_string(), "File not found: j");
}

#[test]
fn text_helpers_as_std_does() {
    let samples = ["", "a", "ab", "abc", "=", "a=b", "a=b=c", "héllo", "é", "//a/", "#x"];
    for s in samples {
        for t in samples {
            assert_eq!(starts_with(s, t), s.starts_with(t));
            assert_eq!(ends_with(s, t), s.ends_with(t));
            assert_eq!(same_text(s, t), s == t);
        }
        let expected = s.chars().position(|c| c == '=');
        assert_eq!(find_char(s, '='), expected);
        assert_eq!(strip_leading(s, '/'), s.trim_start_matches('/'));
    }
    assert_eq!(find_char("é=1", '='), Some(1));
}
