use kernel_builder::backoff::Backoff;
use kernel_builder::command::{
    command_output, command_succeeded, judge_command, CommandOutcome,
};
use kernel_builder::config::SSHConfig;
use kernel_builder::error::SSHError;
use kernel_builder::session::{
    disconnect_result, AttemptOutcome, BatchStep, ConnectProgress, ConnectStep, SSHManager,
};

fn config(max_retries: usize, initial_backoff: u64, max_backoff: u64) -> SSHConfig {
    SSHConfig {
        host: "10.0.0.1".to_string(),
        port: 2222,
        user: "root".to_string(),
        key_path: "/keys/id".to_string(),
        timeout: 30_000,
        max_retries,
        initial_backoff,
        max_backoff,
        strict_host_key_checking: true,
        compression: true,
        keep_alive_interval: None,
    }
}

fn connected(channel: u32) -> SSHManager<u32> {
    let mut manager = SSHManager::new(config(3, 1_000, 4_000)).unwrap();
    let mut progress = manager.begin_connect();
    let step = manager.connect(&mut progress, AttemptOutcome::Established(channel), 77);
    assert!(matches!(step, ConnectStep::Connected));
    manager
}

fn finished(stdout: &str, stderr: &str, exit_code: Option<i32>) -> CommandOutcome {
    CommandOutcome::Finished {
        stdout: stdout.as_bytes().to_vec(),
        stderr: stderr.as_bytes().to_vec(),
        exit_code,
    }
}

fn always_failing(max_retries: usize) -> (usize, Vec<u64>, SSHError) {
    let mut manager = SSHManager::<u32>::new(config(max_retries, 1_000, 4_000)).unwrap();
    let mut progress = manager.begin_connect();
    let mut attempts = 0;
    let mut bases = Vec::new();
    loop {
        attempts += 1;
        let outcome = AttemptOutcome::Refused("no route".to_string());
        match manager.connect(&mut progress, outcome, 0) {
            ConnectStep::Connected => panic!("a failed attempt cannot connect"),
            ConnectStep::Retry(delay) => {
                assert!(delay.jitter < delay.base || delay.base == 4_000);
                bases.push(delay.base);
            }
            ConnectStep::Failed(e) => return (attempts, bases, e),
        }
        assert!(attempts <= max_retries);
    }
}

#[test]
fn new_refuses_an_invalid_configuration() {
    let err = SSHManager::<u32>::new(config(0, 1, 1)).err().unwrap();
    assert_eq!(
        err,
        SSHError::ConfigurationError("Max retries must be greater than 0".to_string())
    );
    let mut no_host = config(5, 1, 1);
    no_host.host = String::new();
    let err = SSHManager::<u32>::new(no_host).err().unwrap();
    assert_eq!(err, SSHError::ConfigurationError("Host cannot be empty".to_string()));
}

#[test]
fn always_failing_connect_makes_exactly_max_retries_attempts() {
    for n in 1..=6 {
        let (attempts, bases, err) = always_failing(n);
        assert_eq!(attempts, n);
        assert_eq!(bases.len(), n - 1);
        assert!(matches!(err, SSHError::ConnectionFailed(_)));
    }
}

#[test]
fn unreachable_host_with_three_retries() {
    let (attempts, bases, err) = always_failing(3);
    assert_eq!(attempts, 3);
    assert_eq!(bases, vec![1_000, 2_000]);
    assert_eq!(bases.iter().sum::<u64>(), 3_000);
    assert_eq!(
        err,
        SSHError::ConnectionFailed(
            "Failed to connect after 3 attempts: Connection failed: Failed to connect to root@10.0.0.1: no route"
                .to_string()
        )
    );
}

#[test]
fn backoff_bases_of_a_long_connect() {
    let (_, bases, _) = always_failing(6);
    assert_eq!(bases, vec![1_000, 2_000, 4_000, 4_000, 4_000]);
}

#[test]
fn single_attempt_fails_without_sleep() {
    let mut manager = SSHManager::<u32>::new(config(1, 1_000, 4_000)).unwrap();
    let mut progress = manager.begin_connect();
    let step = manager.connect(&mut progress, AttemptOutcome::TimedOut, 0);
    match step {
        ConnectStep::Failed(e) => assert_eq!(
            e,
            SSHError::ConnectionFailed(
                "Failed to connect after 1 attempts: Timeout error: Connection timed out"
                    .to_string()
            )
        ),
        _ => panic!("the only attempt failed"),
    }
    assert_eq!(progress, ConnectProgress { failures: 0, backoff: Backoff::new(1_000, 4_000) });
    assert!(manager.connection_info().is_none());
}

#[test]
fn timeout_is_retried() {
    let mut manager = SSHManager::<u32>::new(config(2, 1_000, 4_000)).unwrap();
    let mut progress = manager.begin_connect();
    match manager.connect(&mut progress, AttemptOutcome::TimedOut, 0) {
        ConnectStep::Retry(delay) => {
            assert_eq!(delay.base, 1_000);
            assert!(delay.jitter < 1_000);
        }
        _ => panic!("one attempt is left"),
    }
    assert_eq!(progress.failures, 1);
    assert_eq!(progress.backoff, Backoff { current: 2_000, max: 4_000 });
    let step = manager.connect(&mut progress, AttemptOutcome::Established(9), 500);
    assert!(matches!(step, ConnectStep::Connected));
    let info = manager.connection_info().unwrap();
    assert_eq!(info.connected_at, 500);
}

#[test]
fn unreadable_key_is_not_retried() {
    let mut manager = SSHManager::<u32>::new(config(5, 1_000, 4_000)).unwrap();
    let mut progress = manager.begin_connect();
    let step =
        manager.connect(&mut progress, AttemptOutcome::KeyUnreadable("no such file".to_string()), 0);
    match step {
        ConnectStep::Failed(e) => assert_eq!(
            e,
            SSHError::ConfigurationError(
                "Cannot read key file /keys/id: no such file".to_string()
            )
        ),
        _ => panic!("a missing key is fatal"),
    }
    assert_eq!(progress.failures, 0);
    assert!(manager.connection_info().is_none());
}

#[test]
fn connect_request_carries_the_configuration() {
    let manager = SSHManager::<u32>::new(config(3, 1_000, 4_000)).unwrap();
    let req = manager.connect_request();
    assert_eq!(req.destination, "root@10.0.0.1");
    assert_eq!(req.port, 2222);
    assert_eq!(req.key_path, "/keys/id");
    assert_eq!(req.timeout, 30_000);
    assert_eq!(req.keep_alive_interval, 60_000);
    assert!(req.compression);
    assert!(req.strict_host_key_checking);

    let mut other = config(3, 1_000, 4_000);
    other.keep_alive_interval = Some(5_000);
    other.compression = false;
    other.strict_host_key_checking = false;
    let req = SSHManager::<u32>::new(other).unwrap().connect_request();
    assert_eq!(req.keep_alive_interval, 5_000);
    assert!(!req.compression);
    assert!(!req.strict_host_key_checking);
}

#[test]
fn execute_before_connect_is_refused() {
    let mut manager = SSHManager::<u32>::new(config(2, 1_000, 4_000)).unwrap();
    assert_eq!(manager.execute("uname -a").unwrap_err(), SSHError::ClientNotInitialized);
    let mut progress = manager.begin_connect();
    let _ = manager.connect(&mut progress, AttemptOutcome::TimedOut, 0);
    let _ = manager.connect(&mut progress, AttemptOutcome::Refused("x".to_string()), 0);
    assert_eq!(manager.execute("uname -a").unwrap_err(), SSHError::ClientNotInitialized);
    assert!(manager.probe().is_none());
    assert!(!manager.is_connected(Some(&finished("test\n", "", Some(0)))));
}

#[test]
fn execute_runs_in_a_login_shell() {
    let manager = connected(1);
    let req = manager.execute("ls -l /boot").unwrap();
    assert_eq!(req.program, "bash");
    assert_eq!(req.args, vec!["-lc".to_string(), "ls -l /boot".to_string()]);
    assert_eq!(req.timeout, 30_000);
}

#[test]
fn connection_info_of_a_connected_session() {
    let manager = connected(4);
    let info = manager.connection_info().unwrap();
    assert_eq!(info.host, "10.0.0.1");
    assert_eq!(info.port, 2222);
    assert_eq!(info.user, "root");
    assert_eq!(info.connected_at, 77);
}

#[test]
fn disconnect_releases_the_channel_once() {
    let mut manager = connected(42);
    assert_eq!(manager.disconnect(), Some(42));
    assert!(manager.connection_info().is_none());
    assert_eq!(manager.disconnect(), None);
    assert_eq!(manager.execute("true").unwrap_err(), SSHError::ClientNotInitialized);
}

#[test]
fn session_can_be_connected_again() {
    let mut manager = connected(1);
    assert_eq!(manager.disconnect(), Some(1));
    let mut progress = manager.begin_connect();
    let step = manager.connect(&mut progress, AttemptOutcome::Established(2), 900);
    assert!(matches!(step, ConnectStep::Connected));
    assert_eq!(manager.connection_info().unwrap().connected_at, 900);
    assert_eq!(manager.disconnect(), Some(2));
}

#[test]
fn disconnect_result_reports_a_failed_close() {
    assert_eq!(disconnect_result(None), Ok(()));
    assert_eq!(
        disconnect_result(Some("broken pipe".to_string())),
        Err(SSHError::SessionFailed("Failed to close session: broken pipe".to_string()))
    );
}

#[test]
fn command_output_of_a_success() {
    assert_eq!(command_output(&finished("hello\n", "", Some(0))), Ok("hello\n".to_string()));
}

#[test]
fn stderr_with_status_zero_is_no_error() {
    assert_eq!(
        command_output(&finished("out", "warning: deprecated", Some(0))),
        Ok("out".to_string())
    );
}

#[test]
fn non_zero_status_carries_stderr_and_code() {
    assert_eq!(
        command_output(&finished("partial", "boom", Some(2))),
        Err(SSHError::CommandExecutionFailed(
            "Command failed with status: 2, stderr: boom".to_string()
        ))
    );
    assert_eq!(
        command_output(&finished("", "", Some(-1))),
        Err(SSHError::CommandExecutionFailed(
            "Command failed with status: -1, stderr: ".to_string()
        ))
    );
    assert_eq!(
        command_output(&finished("", "killed", None)),
        Err(SSHError::CommandExecutionFailed(
            "Command failed with status: unknown, stderr: killed".to_string()
        ))
    );
}

#[test]
fn invalid_bytes_are_replaced() {
    let outcome = CommandOutcome::Finished {
        stdout: vec![b'a', 0xff, b'b'],
        stderr: vec![0xc3],
        exit_code: Some(0),
    };
    assert_eq!(command_output(&outcome), Ok("a\u{fffd}b".to_string()));
    let outcome = CommandOutcome::Finished {
        stdout: vec![],
        stderr: vec![b'x', 0xfe],
        exit_code: Some(1),
    };
    assert_eq!(
        command_output(&outcome),
        Err(SSHError::CommandExecutionFailed(
            "Command failed with status: 1, stderr: x\u{fffd}".to_string()
        ))
    );
}

#[test]
fn multi_byte_output_is_decoded() {
    let outcome = CommandOutcome::Finished {
        stdout: "héllo ✓".as_bytes().to_vec(),
        stderr: vec![],
        exit_code: Some(0),
    };
    assert_eq!(command_output(&outcome), Ok("héllo ✓".to_string()));
}

#[test]
fn command_timeout_and_channel_failure() {
    assert_eq!(
        command_output(&CommandOutcome::TimedOut),
        Err(SSHError::TimeoutError("Command execution timed out".to_string()))
    );
    assert_eq!(
        command_output(&CommandOutcome::ChannelFailed("connection reset".to_string())),
        Err(SSHError::CommandExecutionFailed(
            "Failed to execute command: connection reset".to_string()
        ))
    );
}

#[test]
fn judge_command_by_status() {
    assert_eq!(judge_command(Some(0), "o".to_string(), "e".to_string()), Ok("o".to_string()));
    assert_eq!(
        judge_command(Some(255), "o".to_string(), "e".to_string()),
        Err(SSHError::CommandExecutionFailed(
            "Command failed with status: 255, stderr: e".to_string()
        ))
    );
}

#[test]
fn probe_and_liveness() {
    let manager = connected(3);
    let req = manager.probe().unwrap();
    assert_eq!(req.program, "echo");
    assert_eq!(req.args, vec!["test".to_string()]);
    assert_eq!(req.timeout, 5_000);
    assert!(manager.is_connected(Some(&finished("test\n", "", Some(0)))));
    assert!(!manager.is_connected(Some(&finished("", "", Some(1)))));
    assert!(!manager.is_connected(Some(&finished("", "", None))));
    assert!(!manager.is_connected(Some(&CommandOutcome::TimedOut)));
    assert!(!manager.is_connected(Some(&CommandOutcome::ChannelFailed("gone".to_string()))));
    assert!(!manager.is_connected(None));
    assert!(command_succeeded(&finished("", "noise", Some(0))));
    assert!(!command_succeeded(&CommandOutcome::TimedOut));
}

#[test]
fn batch_runs_commands_in_order() {
    let manager = connected(1);
    let commands = vec!["one".to_string(), "two".to_string(), "three".to_string()];
    let mut outcomes = Vec::new();
    let mut ran = Vec::new();
    let outputs = loop {
        match manager.execute_batch(&commands, &outcomes) {
            BatchStep::Run(req) => {
                assert_eq!(req.program, "bash");
                assert_eq!(req.args[0], "-lc");
                ran.push(req.args[1].clone());
                outcomes.push(finished(&format!("out of {}", req.args[1]), "", Some(0)));
            }
            BatchStep::Done(outputs) => break outputs,
            BatchStep::Failed(e) => panic!("{}", e.to_string()),
        }
    };
    assert_eq!(ran, commands);
    assert_eq!(outputs, vec!["out of one", "out of two", "out of three"]);
}

#[test]
fn batch_stops_at_the_first_failure() {
    let manager = connected(1);
    let commands = vec!["one".to_string(), "two".to_string(), "three".to_string()];
    let outcomes = vec![finished("1", "", Some(0)), finished("", "bad", Some(3))];
    match manager.execute_batch(&commands, &outcomes) {
        BatchStep::Failed(e) => assert_eq!(
            e,
            SSHError::CommandExecutionFailed(
                "Command failed with status: 3, stderr: bad".to_string()
            )
        ),
        _ => panic!("the second command failed"),
    }
    let outcomes = vec![
        CommandOutcome::TimedOut,
        finished("", "bad", Some(3)),
        finished("3", "", Some(0)),
    ];
    match manager.execute_batch(&commands, &outcomes) {
        BatchStep::Failed(e) => {
            assert_eq!(e, SSHError::TimeoutError("Command execution timed out".to_string()))
        }
        _ => panic!("the first command failed"),
    }
}

#[test]
fn batch_on_an_unconnected_session() {
    let manager = SSHManager::<u32>::new(config(2, 1, 1)).unwrap();
    let commands = vec!["one".to_string()];
    match manager.execute_batch(&commands, &Vec::new()) {
        BatchStep::Failed(e) => assert_eq!(e, SSHError::ClientNotInitialized),
        _ => panic!("there is no channel"),
    }
    match manager.execute_batch(&Vec::new(), &Vec::new()) {
        BatchStep::Done(outputs) => assert!(outputs.is_empty()),
        _ => panic!("an empty batch is done"),
    }
}

#[test]
fn batch_ignores_outcomes_beyond_the_commands() {
    let manager = connected(1);
    let commands = vec!["one".to_string()];
    let outcomes = vec![finished("1", "", Some(0)), finished("", "late", Some(9))];
    match manager.execute_batch(&commands, &outcomes) {
        BatchStep::Done(outputs) => assert_eq!(outputs, vec!["1"]),
        _ => panic!("the only command succeeded"),
    }
}
