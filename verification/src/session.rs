//! One remote session: connecting with retries, running commands, probing
//! and disconnecting.
//!
//! The session does no network work itself. It says what to do next (attempt
//! a connection, sleep, run a command) and is told what came of it. The
//! caller owns the transport; the session owns the live channel that the
//! transport hands over, and gives it back on disconnect.

use crate::backoff::{Backoff, Delay};
use crate::builder::SSHConfigBuilder;
use crate::command::{
    command_output, command_succeeded, is_probe_request, is_shell_request, output_of, succeeded,
    texts, CommandOutcome, CommandRequest, PROBE_TIMEOUT,
};
use crate::config::{SSHConfig, SSHConfigView};
use crate::error::{prefixed, SSHError, SSHErrorView};
use crate::text::{decimal, format_decimal};
use vstd::prelude::*;

verus! {

/// Keep-alive period used when the configuration sets none, in milliseconds.
pub const DEFAULT_KEEP_ALIVE: u64 = 60_000;

/// The parameters of one connection attempt.
#[derive(Debug)]
pub struct ConnectRequest {
    /// `user@host`.
    pub destination: String,
    pub port: u16,
    /// The private key file, to be resolved before any network work.
    pub key_path: String,
    /// Limit for this attempt, in milliseconds.
    pub timeout: u64,
    pub keep_alive_interval: u64,
    pub compression: bool,
    /// Whether unknown or changed host keys are rejected; otherwise they are
    /// accepted and remembered.
    pub strict_host_key_checking: bool,
}

/// What came of one connection attempt.
pub enum AttemptOutcome<C> {
    /// The channel is up.
    Established(C),
    /// The attempt ran out of time.
    TimedOut,
    /// The transport failed, with its own description.
    Refused(String),
    /// The private key file is missing or unreadable. No network work was done.
    KeyUnreadable(String),
}

/// What to do after a connection attempt.
#[derive(Debug)]
pub enum ConnectStep {
    /// The session is connected.
    Connected,
    /// Sleep for the delay, then attempt again.
    Retry(Delay),
    /// Give up with this error.
    Failed(SSHError),
}

/// How far a `connect` has come.
#[derive(Debug, Clone, Copy, PartialEq, Eq, Structural)]
pub struct ConnectProgress {
    /// Failed attempts that were followed by a retry.
    pub failures: usize,
    pub backoff: Backoff,
}

/// `user@host`.
pub open spec fn destination_of(cfg: SSHConfigView) -> Seq<char> {
    cfg.user + "@"@ + cfg.host
}

/// The parameters with which `cfg` asks to connect.
pub open spec fn request_matches(cfg: SSHConfigView, req: ConnectRequest) -> bool {
    &&& req.destination@ == destination_of(cfg)
    &&& req.port == cfg.port
    &&& req.key_path@ == cfg.key_path
    &&& req.timeout == cfg.timeout
    &&& req.keep_alive_interval == match cfg.keep_alive_interval {
        Some(interval) => interval,
        None => DEFAULT_KEEP_ALIVE,
    }
    &&& req.compression == cfg.compression
    &&& req.strict_host_key_checking == cfg.strict_host_key_checking
}

/// The message for a key file that cannot be read.
pub open spec fn key_message(cfg: SSHConfigView, reason: Seq<char>) -> Seq<char> {
    "Cannot read key file "@ + cfg.key_path + ": "@ + reason
}

/// The error that a failed attempt stands for; an established channel
/// stands for none. A key file that cannot be read is a fault of the
/// configuration; the other two are faults of the connection.
pub open spec fn attempt_error<C>(cfg: SSHConfigView, outcome: AttemptOutcome<C>) -> Option<
    SSHErrorView,
> {
    match outcome {
        AttemptOutcome::Established(_) => None,
        AttemptOutcome::TimedOut => Some(SSHErrorView::TimeoutError("Connection timed out"@)),
        AttemptOutcome::Refused(reason) => Some(
            SSHErrorView::ConnectionFailed(
                "Failed to connect to "@ + destination_of(cfg) + ": "@ + reason@,
            ),
        ),
        AttemptOutcome::KeyUnreadable(reason) => Some(
            SSHErrorView::ConfigurationError(key_message(cfg, reason@)),
        ),
    }
}

/// The message of the error that ends a `connect` after `attempts` attempts,
/// the last of which failed with `cause`.
pub open spec fn exhausted_message(attempts: usize, cause: SSHErrorView) -> Seq<char> {
    "Failed to connect after "@ + decimal(attempts as nat) + " attempts: "@ + cause.message()
}

impl ConnectProgress {
    /// The progress before the first attempt.
    pub open spec fn initial(cfg: SSHConfigView) -> ConnectProgress {
        ConnectProgress {
            failures: 0,
            backoff: Backoff::after(cfg.initial_backoff, cfg.max_backoff, 0),
        }
    }

    /// Whether one more failure leaves an attempt to make.
    pub open spec fn may_retry(self, cfg: SSHConfigView) -> bool {
        self.failures + 1 < cfg.max_retries
    }

    /// The progress after one more failure that is followed by a retry.
    pub open spec fn failed_once(self) -> ConnectProgress {
        ConnectProgress {
            failures: (self.failures + 1) as usize,
            backoff: self.backoff.advanced(),
        }
    }

    /// The progress after `failures` failures, each followed by a retry.
    pub open spec fn after_failures(cfg: SSHConfigView, failures: nat) -> ConnectProgress
        decreases failures,
    {
        if failures == 0 {
            ConnectProgress::initial(cfg)
        } else {
            ConnectProgress::after_failures(cfg, (failures - 1) as nat).failed_once()
        }
    }

    /// The number of attempts that a connect makes from this progress on
    /// when every one of them fails: one, and one more for each retry.
    pub open spec fn attempts_when_failing(self, cfg: SSHConfigView) -> nat
        decreases cfg.max_retries - self.failures,
    {
        if self.may_retry(cfg) {
            1 + self.failed_once().attempts_when_failing(cfg)
        } else {
            1
        }
    }

    /// What a retryable failure leads to: a retry with the delay of the
    /// current round while an attempt is left, else the final error.
    pub open spec fn failure_step(
        self,
        cfg: SSHConfigView,
        cause: SSHErrorView,
        step: ConnectStep,
        next: ConnectProgress,
    ) -> bool {
        if self.may_retry(cfg) {
            &&& step matches ConnectStep::Retry(delay)
            &&& delay.base == self.backoff.base()
            &&& self.backoff.admits(delay.jitter)
            &&& next == self.failed_once()
        } else {
            &&& step matches ConnectStep::Failed(e)
            &&& e@ == SSHErrorView::ConnectionFailed(exhausted_message(cfg.max_retries, cause))
            &&& next == self
        }
    }
}

/// The channel that a session holds after a connection attempt: the
/// established one, or the one held before.
pub open spec fn channel_after<C>(held: Option<C>, outcome: AttemptOutcome<C>) -> Option<C> {
    match outcome {
        AttemptOutcome::Established(channel) => Some(channel),
        _ => held,
    }
}

/// The channel that a session holds after a run of connection attempts.
pub open spec fn channel_after_all<C>(held: Option<C>, outcomes: Seq<AttemptOutcome<C>>) -> Option<
    C,
>
    decreases outcomes.len(),
{
    if outcomes.len() == 0 {
        held
    } else {
        channel_after(channel_after_all(held, outcomes.drop_last()), outcomes.last())
    }
}

/// Why a command is refused before anything is asked of the transport: the
/// session holds no channel.
pub open spec fn execute_error<C>(held: Option<C>) -> Option<SSHErrorView> {
    if held is None {
        Some(SSHErrorView::ClientNotInitialized)
    } else {
        None
    }
}

/// What to do next in a batch of commands.
#[derive(Debug)]
pub enum BatchStep {
    /// Run this command and report its outcome.
    Run(CommandRequest),
    /// Every command succeeded; these are their outputs, in order.
    Done(Vec<String>),
    /// The batch ends with this error.
    Failed(SSHError),
}

/// Whether the first `count` outcomes are all successes.
pub open spec fn all_succeeded(outcomes: Seq<CommandOutcome>, count: int) -> bool {
    forall|i: int| 0 <= i < count ==> (#[trigger] output_of(outcomes[i])) is Ok
}

/// The outputs of the first `count` outcomes.
pub open spec fn outputs(outcomes: Seq<CommandOutcome>, count: int) -> Seq<Seq<char>> {
    Seq::new(
        count as nat,
        |i: int|
            match output_of(outcomes[i]) {
                Ok(text) => text,
                Err(_) => Seq::empty(),
            },
    )
}

/// The step that a batch takes, given the outcomes reported so far, one per
/// command and in the order of the commands.
///
/// An empty batch is done. A batch on an unconnected session fails before
/// its first command. The first failed outcome ends the batch with its
/// error. While every outcome so far is a success, the next command runs;
/// when none is left, the batch is done with all the outputs.
pub open spec fn batch_step(
    connected: bool,
    timeout: u64,
    commands: Seq<Seq<char>>,
    outcomes: Seq<CommandOutcome>,
    step: BatchStep,
) -> bool {
    let total = commands.len() as int;
    let seen = if outcomes.len() < total {
        outcomes.len() as int
    } else {
        total
    };
    if total == 0 {
        step matches BatchStep::Done(list) && list@.len() == 0
    } else if !connected {
        step matches BatchStep::Failed(e) && e@ == SSHErrorView::ClientNotInitialized
    } else if !all_succeeded(outcomes, seen) {
        step matches BatchStep::Failed(e) && exists|i: int|
            0 <= i < seen && all_succeeded(outcomes, i) && #[trigger] output_of(outcomes[i])
                == Err::<Seq<char>, SSHErrorView>(e@)
    } else if seen < total {
        step matches BatchStep::Run(req) && is_shell_request(req, commands[seen], timeout)
    } else {
        step matches BatchStep::Done(list) && texts(list@) == outputs(outcomes, total)
    }
}

/// A live channel and the time at which it came up.
struct Link<C> {
    channel: C,
    since: u64,
}

/// A configuration that has passed validation.
struct Checked {
    settings: SSHConfig,
}

impl Checked {
    #[verifier::type_invariant]
    spec fn valid(&self) -> bool {
        self.settings@.is_valid()
    }
}

/// One remote session to a single host. It holds at most one live channel.
pub struct SSHManager<C> {
    config: Checked,
    link: Option<Link<C>>,
}

/// A snapshot of a connected session.
#[derive(Debug)]
pub struct ConnectionInfo {
    pub host: String,
    pub port: u16,
    pub user: String,
    /// When the channel came up, in milliseconds on the caller's clock.
    pub connected_at: u64,
}

impl<C> SSHManager<C> {
    /// The configuration of the session.
    pub closed spec fn config(&self) -> SSHConfigView {
        self.config.settings@
    }

    /// The live channel, if the session is connected.
    pub closed spec fn channel(&self) -> Option<C> {
        match self.link {
            Some(link) => Some(link.channel),
            None => None,
        }
    }

    /// When the live channel came up.
    pub closed spec fn connected_at(&self) -> Option<u64> {
        match self.link {
            Some(link) => Some(link.since),
            None => None,
        }
    }

    /// What `connect` makes of this session, for an outcome and a time:
    /// `after` is the session, `next` the progress and `step` the answer.
    ///
    /// The configuration stays. An established channel is held, with the
    /// time; otherwise channel and time stay. An established channel gives
    /// `Connected`, an unreadable key file its error at once, each with the
    /// progress unchanged; a timeout or a transport failure gives what the
    /// retry policy says.
    pub open spec fn connect_result(
        self,
        after: Self,
        progress: ConnectProgress,
        next: ConnectProgress,
        outcome: AttemptOutcome<C>,
        now: u64,
        step: ConnectStep,
    ) -> bool {
        &&& after.config() == self.config()
        &&& after.channel() == channel_after(self.channel(), outcome)
        &&& after.connected_at() == if outcome is Established {
            Some(now)
        } else {
            self.connected_at()
        }
        &&& match outcome {
            AttemptOutcome::Established(_) => step is Connected && next == progress,
            AttemptOutcome::KeyUnreadable(_) => {
                &&& step matches ConnectStep::Failed(e)
                &&& Some(e@) == attempt_error(self.config(), outcome)
                &&& next == progress
            },
            _ => progress.failure_step(
                self.config(),
                attempt_error(self.config(), outcome).unwrap(),
                step,
                next,
            ),
        }
    }

    /// What `disconnect` makes of this session: `after` holds no channel
    /// and no time, and `released` is the channel that was held.
    pub open spec fn disconnect_outcome(self, after: Self, released: Option<C>) -> bool {
        &&& released == self.channel()
        &&& after.channel() is None
        &&& after.connected_at() is None
        &&& after.config() == self.config()
    }

    /// A session for `config`, not yet connected. An invalid configuration
    /// is refused.
    pub fn new(config: SSHConfig) -> (r: Result<Self, SSHError>)
        ensures
            r.is_ok() <==> config@.is_valid(),
            r matches Ok(m) ==> m.config() == config@ && m.channel() is None && m.connected_at()
                is None,
            r matches Err(e) ==> e@ == config@.validation_error(),
    {
        match config.validate() {
            Ok(()) => Ok(SSHManager { config: Checked { settings: config }, link: None }),
            Err(e) => Err(e),
        }
    }

    /// A builder for a configuration.
    pub fn builder() -> (b: SSHConfigBuilder)
        ensures
            b@ == SSHConfigBuilder::empty(),
    {
        SSHConfigBuilder::default()
    }

    /// The progress with which a `connect` starts. The configuration of a
    /// session is always valid, so at least one attempt is allowed.
    pub fn begin_connect(&self) -> (p: ConnectProgress)
        ensures
            p == ConnectProgress::initial(self.config()),
            self.config().is_valid(),
    {
        proof {
            use_type_invariant(&self.config);
        }
        ConnectProgress {
            failures: 0,
            backoff: Backoff::new(self.config.settings.initial_backoff, self.config.settings.max_backoff),
        }
    }

    /// The parameters of the next connection attempt.
    pub fn connect_request(&self) -> (req: ConnectRequest)
        ensures
            request_matches(self.config(), req),
    {
        let mut destination = self.config.settings.user.clone();
        destination.append("@");
        destination.append(self.config.settings.host.as_str());
        ConnectRequest {
            destination,
            port: self.config.settings.port,
            key_path: self.config.settings.key_path.clone(),
            timeout: self.config.settings.timeout,
            keep_alive_interval: match self.config.settings.keep_alive_interval {
                Some(interval) => interval,
                None => DEFAULT_KEEP_ALIVE,
            },
            compression: self.config.settings.compression,
            strict_host_key_checking: self.config.settings.strict_host_key_checking,
        }
    }

    /// Takes the outcome of one connection attempt and decides how the
    /// connect goes on.
    ///
    /// An established channel is taken over, with `now` as its time, and
    /// replaces a channel held before. An unreadable key file ends the
    /// connect at once. A timeout or a transport failure is retried, after a
    /// delay drawn from the backoff policy, until the configured number of
    /// attempts is used up.
    pub fn connect(
        &mut self,
        progress: &mut ConnectProgress,
        outcome: AttemptOutcome<C>,
        now: u64,
    ) -> (step: ConnectStep)
        ensures
            old(self).connect_result(
                *final(self),
                *old(progress),
                *final(progress),
                outcome,
                now,
                step,
            ),
    {
        proof {
            use_type_invariant(&self.config);
        }
        let cause = match outcome {
            AttemptOutcome::Established(channel) => {
                self.link = Some(Link { channel, since: now });
                return ConnectStep::Connected;
            },
            AttemptOutcome::KeyUnreadable(reason) => {
                let mut message = String::from_str("Cannot read key file ");
                message.append(self.config.settings.key_path.as_str());
                message.append(": ");
                message.append(reason.as_str());
                assert(message@ =~= key_message(self.config.settings@, reason@));
                return ConnectStep::Failed(SSHError::ConfigurationError(message));
            },
            AttemptOutcome::TimedOut => SSHError::TimeoutError(
                String::from_str("Connection timed out"),
            ),
            AttemptOutcome::Refused(reason) => {
                let mut message = String::from_str("Failed to connect to ");
                message.append(self.config.settings.user.as_str());
                message.append("@");
                message.append(self.config.settings.host.as_str());
                message.append(": ");
                message.append(reason.as_str());
                assert(message@ =~= "Failed to connect to "@ + destination_of(self.config.settings@) + ": "@
                    + reason@);
                SSHError::ConnectionFailed(message)
            },
        };
        if progress.failures < self.config.settings.max_retries - 1 {
            let delay = progress.backoff.retry_delay();
            progress.failures = progress.failures + 1;
            ConnectStep::Retry(delay)
        } else {
            let mut message = String::from_str("Failed to connect after ");
            message.append(format_decimal(self.config.settings.max_retries as u64).as_str());
            message.append(" attempts: ");
            message.append(cause.to_string().as_str());
            assert(message@ =~= exhausted_message(self.config.settings.max_retries, cause@));
            ConnectStep::Failed(SSHError::ConnectionFailed(message))
        }
    }

    /// The request that runs `command` in a login shell on the live channel,
    /// under the configured limit. A session without a channel refuses, and
    /// nothing is asked of the transport.
    pub fn execute(&self, command: &str) -> (r: Result<CommandRequest, SSHError>)
        ensures
            r.is_ok() <==> self.channel() is Some,
            r matches Ok(req) ==> is_shell_request(req, command@, self.config().timeout),
            r matches Err(e) ==> execute_error(self.channel()) == Some(e@),
    {
        if self.link.is_none() {
            return Err(SSHError::ClientNotInitialized);
        }
        let mut args: Vec<String> = Vec::new();
        args.push(String::from_str("-lc"));
        args.push(String::from_str(command));
        assert(texts(args@) =~= seq!["-lc"@, command@]);
        Ok(CommandRequest { program: String::from_str("bash"), args, timeout: self.config.settings.timeout })
    }

    /// The next step of a batch: `commands` are run one by one, in order,
    /// and `outcomes` holds what was reported of those run so far.
    pub fn execute_batch(&self, commands: &Vec<String>, outcomes: &Vec<CommandOutcome>) -> (step:
        BatchStep)
        ensures
            batch_step(
                self.channel() is Some,
                self.config().timeout,
                texts(commands@),
                outcomes@,
                step,
            ),
    {
        let total = commands.len();
        if total == 0 {
            return BatchStep::Done(Vec::new());
        }
        if self.link.is_none() {
            return BatchStep::Failed(SSHError::ClientNotInitialized);
        }
        let seen = if outcomes.len() < total {
            outcomes.len()
        } else {
            total
        };
        let mut results: Vec<String> = Vec::new();
        let mut i: usize = 0;
        while i < seen
            invariant
                i <= seen,
                seen <= outcomes.len(),
                seen <= total,
                total == commands.len(),
                total > 0,
                seen == total || seen == outcomes.len(),
                self.channel() is Some,
                all_succeeded(outcomes@, i as int),
                results@.len() == i,
                texts(results@) == outputs(outcomes@, i as int),
            decreases seen - i,
        {
            match command_output(&outcomes[i]) {
                Ok(text) => {
                    let ghost before = results@;
                    results.push(text);
                    assert(output_of(outcomes@[i as int]) == Ok::<Seq<char>, SSHErrorView>(text@));
                    assert forall|j: int| 0 <= j < i + 1 implies texts(results@)[j] == outputs(
                        outcomes@,
                        i + 1,
                    )[j] by {
                        if j < i {
                            assert(texts(before)[j] == outputs(outcomes@, i as int)[j]);
                        }
                    }
                    assert(texts(results@) =~= outputs(outcomes@, i + 1));
                },
                Err(e) => {
                    assert(output_of(outcomes@[i as int]) == Err::<Seq<char>, SSHErrorView>(e@));
                    assert(!all_succeeded(outcomes@, seen as int));
                    return BatchStep::Failed(e);
                },
            }
            i = i + 1;
        }
        if seen < total {
            match self.execute(commands[seen].as_str()) {
                Ok(req) => BatchStep::Run(req),
                Err(e) => BatchStep::Failed(e),
            }
        } else {
            BatchStep::Done(results)
        }
    }

    /// The liveness probe to run: a trivial command under a short limit of
    /// its own. A session without a channel has nothing to probe.
    pub fn probe(&self) -> (r: Option<CommandRequest>)
        ensures
            r.is_some() == self.channel().is_some(),
            r matches Some(req) ==> is_probe_request(req),
    {
        if self.link.is_none() {
            return None;
        }
        let mut args: Vec<String> = Vec::new();
        args.push(String::from_str("test"));
        assert(texts(args@) =~= seq!["test"@]);
        Some(CommandRequest { program: String::from_str("echo"), args, timeout: PROBE_TIMEOUT })
    }

    /// Whether the session is alive: it holds a channel and the probe ran to
    /// its end with status zero. Every other report of the probe, and none
    /// at all, means that it is not.
    pub fn is_connected(&self, probe: Option<&CommandOutcome>) -> (alive: bool)
        ensures
            alive == (self.channel() is Some && (probe matches Some(outcome) && succeeded(
                *outcome,
            ))),
    {
        if self.link.is_none() {
            return false;
        }
        match probe {
            Some(outcome) => command_succeeded(outcome),
            None => false,
        }
    }

    /// The live channel, for the transport to run a request on.
    pub fn live_channel(&self) -> (r: Option<&C>)
        ensures
            r.is_some() == self.channel().is_some(),
            r matches Some(channel) ==> self.channel() == Some(*channel),
    {
        match &self.link {
            Some(link) => Some(&link.channel),
            None => None,
        }
    }

    /// A snapshot of the connection, if there is one.
    pub fn connection_info(&self) -> (info: Option<ConnectionInfo>)
        ensures
            info.is_some() == self.channel().is_some(),
            info matches Some(i) ==> {
                &&& i.host@ == self.config().host
                &&& i.port == self.config().port
                &&& i.user@ == self.config().user
                &&& Some(i.connected_at) == self.connected_at()
            },
    {
        match &self.link {
            Some(link) => Some(
                ConnectionInfo {
                    host: self.config.settings.host.clone(),
                    port: self.config.settings.port,
                    user: self.config.settings.user.clone(),
                    connected_at: link.since,
                },
            ),
            None => None,
        }
    }

    /// Releases the channel, if one is held, for the caller to close. The
    /// session is unconnected afterwards, whatever comes of the closing.
    pub fn disconnect(&mut self) -> (released: Option<C>)
        ensures
            old(self).disconnect_outcome(*final(self), released),
    {
        match self.link.take() {
            Some(link) => Some(link.channel),
            None => None,
        }
    }
}

/// The result of a disconnect, from what the closing of the channel
/// reported: its error, if it failed.
pub fn disconnect_result(close_error: Option<String>) -> (r: Result<(), SSHError>)
    ensures
        r.is_ok() <==> close_error is None,
        r matches Err(e) ==> e@ == SSHErrorView::SessionFailed(
            "Failed to close session: "@ + close_error.unwrap()@,
        ),
{
    match close_error {
        None => Ok(()),
        Some(reason) => Err(
            SSHError::SessionFailed(prefixed("Failed to close session: ", reason.as_str())),
        ),
    }
}

/// A connect that always fails makes exactly as many attempts as the
/// configuration allows, and ends with `ConnectionFailed`. After failure
/// number `attempt` of a run of retryable failures, the step is a retry
/// while `attempt` is below `max_retries`, and the error `ConnectionFailed`
/// when it reaches it.
pub proof fn lemma_always_failing_connect(
    cfg: SSHConfigView,
    attempt: nat,
    cause: SSHErrorView,
    step: ConnectStep,
    next: ConnectProgress,
)
    requires
        cfg.is_valid(),
        1 <= attempt <= cfg.max_retries,
        ConnectProgress::after_failures(cfg, (attempt - 1) as nat).failure_step(
            cfg,
            cause,
            step,
            next,
        ),
    ensures
        ConnectProgress::initial(cfg).attempts_when_failing(cfg) == cfg.max_retries,
        ConnectProgress::after_failures(cfg, (attempt - 1) as nat).failures == attempt - 1,
        attempt < cfg.max_retries ==> step is Retry && next == ConnectProgress::after_failures(
            cfg,
            attempt,
        ),
        attempt == cfg.max_retries ==> (step matches ConnectStep::Failed(e) && e@
            is ConnectionFailed),
{
    lemma_progress_after(cfg, (attempt - 1) as nat);
    lemma_attempts_left(cfg, ConnectProgress::initial(cfg));
}

/// The number of attempts of an always failing connect, from a progress
/// that has counted `failures` retries: those that the configuration still
/// allows.
pub proof fn lemma_attempts_left(cfg: SSHConfigView, progress: ConnectProgress)
    requires
        progress.failures < cfg.max_retries,
    ensures
        progress.attempts_when_failing(cfg) == cfg.max_retries - progress.failures,
    decreases cfg.max_retries - progress.failures,
{
    if progress.may_retry(cfg) {
        lemma_attempts_left(cfg, progress.failed_once());
    }
}

/// After `failures` failures, each followed by a retry, the progress has
/// counted them and the backoff has advanced once for each.
pub proof fn lemma_progress_after(cfg: SSHConfigView, failures: nat)
    requires
        failures < cfg.max_retries,
    ensures
        ConnectProgress::after_failures(cfg, failures).failures == failures,
        ConnectProgress::after_failures(cfg, failures).backoff == Backoff::after(
            cfg.initial_backoff,
            cfg.max_backoff,
            failures,
        ),
    decreases failures,
{
    if failures > 0 {
        lemma_progress_after(cfg, (failures - 1) as nat);
    }
}

/// A session that holds no channel and is handed none holds none
/// afterwards, however many attempts fail; a command on it is refused with
/// `ClientNotInitialized` before anything is asked of the transport.
pub proof fn lemma_execute_needs_connection<C>(outcomes: Seq<AttemptOutcome<C>>)
    requires
        forall|i: int| 0 <= i < outcomes.len() ==> !(#[trigger] outcomes[i] is Established),
    ensures
        channel_after_all(None::<C>, outcomes) is None,
        execute_error(channel_after_all(None::<C>, outcomes)) == Some(
            SSHErrorView::ClientNotInitialized,
        ),
    decreases outcomes.len(),
{
    if outcomes.len() > 0 {
        lemma_execute_needs_connection(outcomes.drop_last());
    }
}

} // verus!
