//! Step-by-step construction of a session configuration.

use crate::config::{fallback_config, Config, SSHConfig, SSHConfigView};
use crate::error::SSHError;
use vstd::prelude::*;

verus! {

/// Collects the settings that were given; the others come from the defaults.
pub struct SSHConfigBuilder {
    host: Option<String>,
    port: Option<u16>,
    user: Option<String>,
    key_path: Option<String>,
    timeout: Option<u64>,
    max_retries: Option<usize>,
    initial_backoff: Option<u64>,
    max_backoff: Option<u64>,
    compression: Option<bool>,
    strict_host_key_checking: Option<bool>,
    keep_alive_interval: Option<u64>,
}

/// The settings that a builder holds.
pub struct SSHConfigBuilderView {
    pub host: Option<Seq<char>>,
    pub port: Option<u16>,
    pub user: Option<Seq<char>>,
    pub key_path: Option<Seq<char>>,
    pub timeout: Option<u64>,
    pub max_retries: Option<usize>,
    pub initial_backoff: Option<u64>,
    pub max_backoff: Option<u64>,
    pub compression: Option<bool>,
    pub strict_host_key_checking: Option<bool>,
    pub keep_alive_interval: Option<u64>,
}

/// The text of an optional string.
pub open spec fn text_of(s: Option<String>) -> Option<Seq<char>> {
    match s {
        Some(s) => Some(s@),
        None => None,
    }
}

impl View for SSHConfigBuilder {
    type V = SSHConfigBuilderView;

    closed spec fn view(&self) -> SSHConfigBuilderView {
        SSHConfigBuilderView {
            host: text_of(self.host),
            port: self.port,
            user: text_of(self.user),
            key_path: text_of(self.key_path),
            timeout: self.timeout,
            max_retries: self.max_retries,
            initial_backoff: self.initial_backoff,
            max_backoff: self.max_backoff,
            compression: self.compression,
            strict_host_key_checking: self.strict_host_key_checking,
            keep_alive_interval: self.keep_alive_interval,
        }
    }
}

impl SSHConfigBuilderView {
    /// The configuration that these settings give over `defaults`: each
    /// setting that was given, and the default for each that was not.
    pub open spec fn over(self, defaults: SSHConfigView) -> SSHConfigView {
        SSHConfigView {
            host: self.host.unwrap_or(defaults.host),
            port: self.port.unwrap_or(defaults.port),
            user: self.user.unwrap_or(defaults.user),
            key_path: self.key_path.unwrap_or(defaults.key_path),
            timeout: self.timeout.unwrap_or(defaults.timeout),
            max_retries: self.max_retries.unwrap_or(defaults.max_retries),
            initial_backoff: self.initial_backoff.unwrap_or(defaults.initial_backoff),
            max_backoff: self.max_backoff.unwrap_or(defaults.max_backoff),
            strict_host_key_checking: self.strict_host_key_checking.unwrap_or(
                defaults.strict_host_key_checking,
            ),
            compression: self.compression.unwrap_or(defaults.compression),
            keep_alive_interval: match self.keep_alive_interval {
                Some(interval) => Some(interval),
                None => defaults.keep_alive_interval,
            },
        }
    }
}

impl Default for SSHConfigBuilder {
    fn default() -> (b: Self)
        ensures
            b@ == SSHConfigBuilder::empty(),
    {
        SSHConfigBuilder {
            host: None,
            port: None,
            user: None,
            key_path: None,
            timeout: None,
            max_retries: None,
            initial_backoff: None,
            max_backoff: None,
            compression: None,
            strict_host_key_checking: None,
            keep_alive_interval: None,
        }
    }
}

impl SSHConfigBuilder {
    /// The builder in which nothing is set.
    pub open spec fn empty() -> SSHConfigBuilderView {
        SSHConfigBuilderView {
            host: None,
            port: None,
            user: None,
            key_path: None,
            timeout: None,
            max_retries: None,
            initial_backoff: None,
            max_backoff: None,
            compression: None,
            strict_host_key_checking: None,
            keep_alive_interval: None,
        }
    }

    pub fn host(self, host: &str) -> (b: Self)
        ensures
            b@ == (SSHConfigBuilderView { host: Some(host@), ..self@ }),
    {
        let mut b = self;
        b.host = Some(String::from_str(host));
        b
    }

    pub fn port(self, port: u16) -> (b: Self)
        ensures
            b@ == (SSHConfigBuilderView { port: Some(port), ..self@ }),
    {
        let mut b = self;
        b.port = Some(port);
        b
    }

    pub fn user(self, user: &str) -> (b: Self)
        ensures
            b@ == (SSHConfigBuilderView { user: Some(user@), ..self@ }),
    {
        let mut b = self;
        b.user = Some(String::from_str(user));
        b
    }

    pub fn key_path(self, path: &str) -> (b: Self)
        ensures
            b@ == (SSHConfigBuilderView { key_path: Some(path@), ..self@ }),
    {
        let mut b = self;
        b.key_path = Some(String::from_str(path));
        b
    }

    /// Sets the limit for one attempt and one command, in milliseconds.
    pub fn timeout(self, timeout: u64) -> (b: Self)
        ensures
            b@ == (SSHConfigBuilderView { timeout: Some(timeout), ..self@ }),
    {
        let mut b = self;
        b.timeout = Some(timeout);
        b
    }

    pub fn max_retries(self, max_retries: usize) -> (b: Self)
        ensures
            b@ == (SSHConfigBuilderView { max_retries: Some(max_retries), ..self@ }),
    {
        let mut b = self;
        b.max_retries = Some(max_retries);
        b
    }

    /// Sets the first and the largest delay between retries, in milliseconds.
    pub fn backoff(self, initial: u64, max: u64) -> (b: Self)
        ensures
            b@ == (SSHConfigBuilderView {
                initial_backoff: Some(initial),
                max_backoff: Some(max),
                ..self@
            }),
    {
        let mut b = self;
        b.initial_backoff = Some(initial);
        b.max_backoff = Some(max);
        b
    }

    pub fn compression(self, enable: bool) -> (b: Self)
        ensures
            b@ == (SSHConfigBuilderView { compression: Some(enable), ..self@ }),
    {
        let mut b = self;
        b.compression = Some(enable);
        b
    }

    pub fn strict_host_key_checking(self, enable: bool) -> (b: Self)
        ensures
            b@ == (SSHConfigBuilderView { strict_host_key_checking: Some(enable), ..self@ }),
    {
        let mut b = self;
        b.strict_host_key_checking = Some(enable);
        b
    }

    /// Sets the period of the transport's liveness probes, in milliseconds.
    pub fn keep_alive_interval(self, interval: u64) -> (b: Self)
        ensures
            b@ == (SSHConfigBuilderView { keep_alive_interval: Some(interval), ..self@ }),
    {
        let mut b = self;
        b.keep_alive_interval = Some(interval);
        b
    }

    /// The configuration over the given defaults, if it is valid.
    pub fn build_over(self, defaults: SSHConfig) -> (r: Result<SSHConfig, SSHError>)
        ensures
            r.is_ok() <==> self@.over(defaults@).is_valid(),
            r matches Ok(config) ==> config@ == self@.over(defaults@),
            r matches Err(e) ==> e@ == self@.over(defaults@).validation_error(),
    {
        let config = SSHConfig {
            host: match self.host {
                Some(host) => host,
                None => defaults.host,
            },
            port: match self.port {
                Some(port) => port,
                None => defaults.port,
            },
            user: match self.user {
                Some(user) => user,
                None => defaults.user,
            },
            key_path: match self.key_path {
                Some(path) => path,
                None => defaults.key_path,
            },
            timeout: match self.timeout {
                Some(timeout) => timeout,
                None => defaults.timeout,
            },
            max_retries: match self.max_retries {
                Some(n) => n,
                None => defaults.max_retries,
            },
            initial_backoff: match self.initial_backoff {
                Some(initial) => initial,
                None => defaults.initial_backoff,
            },
            max_backoff: match self.max_backoff {
                Some(max) => max,
                None => defaults.max_backoff,
            },
            compression: match self.compression {
                Some(enable) => enable,
                None => defaults.compression,
            },
            strict_host_key_checking: match self.strict_host_key_checking {
                Some(enable) => enable,
                None => defaults.strict_host_key_checking,
            },
            keep_alive_interval: match self.keep_alive_interval {
                Some(interval) => Some(interval),
                None => defaults.keep_alive_interval,
            },
        };
        match config.validate() {
            Ok(()) => Ok(config),
            Err(e) => Err(e),
        }
    }

    /// The configuration over the fallback settings, if it is valid.
    pub fn build(self) -> (r: Result<SSHConfig, SSHError>)
        ensures
            r.is_ok() <==> self@.over(fallback_config().ssh).is_valid(),
            r matches Ok(config) ==> config@ == self@.over(fallback_config().ssh),
            r matches Err(e) ==> e@ == self@.over(fallback_config().ssh).validation_error(),
    {
        self.build_over(Config::default().ssh)
    }
}

} // verus!
