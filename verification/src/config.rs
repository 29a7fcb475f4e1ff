//! Settings of the toolkit: the download proxy and the remote session.
//!
//! Durations are whole milliseconds.

use crate::error::{SSHError, SSHErrorView};
use vstd::prelude::*;

verus! {

/// The HTTP proxy through which crash artifacts are fetched.
#[derive(Debug)]
pub struct ProxyConfig {
    pub host: String,
    pub port: u16,
}

/// How to reach and authenticate to a remote host, and how hard to retry.
#[derive(Debug)]
pub struct SSHConfig {
    pub host: String,
    pub port: u16,
    pub user: String,
    /// Path of the private key file, as given; it is resolved when connecting.
    pub key_path: String,
    /// Limit for one connection attempt and for one command, in milliseconds.
    pub timeout: u64,
    pub max_retries: usize,
    /// Delay before the first retry, in milliseconds.
    pub initial_backoff: u64,
    /// Upper limit of the delay between retries, in milliseconds.
    pub max_backoff: u64,
    pub strict_host_key_checking: bool,
    pub compression: bool,
    /// Period of the transport's liveness probes, in milliseconds.
    pub keep_alive_interval: Option<u64>,
}

/// All settings of the toolkit.
#[derive(Debug)]
pub struct Config {
    pub proxy: ProxyConfig,
    pub ssh: SSHConfig,
}

pub struct ProxyConfigView {
    pub host: Seq<char>,
    pub port: u16,
}

pub struct SSHConfigView {
    pub host: Seq<char>,
    pub port: u16,
    pub user: Seq<char>,
    pub key_path: Seq<char>,
    pub timeout: u64,
    pub max_retries: usize,
    pub initial_backoff: u64,
    pub max_backoff: u64,
    pub strict_host_key_checking: bool,
    pub compression: bool,
    pub keep_alive_interval: Option<u64>,
}

pub struct ConfigView {
    pub proxy: ProxyConfigView,
    pub ssh: SSHConfigView,
}

impl View for ProxyConfig {
    type V = ProxyConfigView;

    open spec fn view(&self) -> ProxyConfigView {
        ProxyConfigView { host: self.host@, port: self.port }
    }
}

impl View for SSHConfig {
    type V = SSHConfigView;

    open spec fn view(&self) -> SSHConfigView {
        SSHConfigView {
            host: self.host@,
            port: self.port,
            user: self.user@,
            key_path: self.key_path@,
            timeout: self.timeout,
            max_retries: self.max_retries,
            initial_backoff: self.initial_backoff,
            max_backoff: self.max_backoff,
            strict_host_key_checking: self.strict_host_key_checking,
            compression: self.compression,
            keep_alive_interval: self.keep_alive_interval,
        }
    }
}

impl View for Config {
    type V = ConfigView;

    open spec fn view(&self) -> ConfigView {
        ConfigView { proxy: self.proxy@, ssh: self.ssh@ }
    }
}

impl SSHConfigView {
    /// A configuration is valid when it names a host and allows at least one
    /// connection attempt.
    pub open spec fn is_valid(self) -> bool {
        self.host.len() > 0 && self.max_retries > 0
    }

    /// Why a configuration is refused: an empty host is reported before a
    /// zero retry count.
    pub open spec fn validation_error(self) -> SSHErrorView {
        if self.host.len() == 0 {
            SSHErrorView::ConfigurationError("Host cannot be empty"@)
        } else {
            SSHErrorView::ConfigurationError("Max retries must be greater than 0"@)
        }
    }
}

/// The settings used when no settings file can be loaded.
pub open spec fn fallback_config() -> ConfigView {
    ConfigView {
        proxy: ProxyConfigView { host: "127.0.0.1"@, port: 7890 },
        ssh: SSHConfigView {
            host: "127.0.0.1"@,
            port: 22,
            user: "root"@,
            key_path: "~/.ssh/debian-key"@,
            timeout: 30_000,
            max_retries: 5,
            initial_backoff: 1_000,
            max_backoff: 30_000,
            strict_host_key_checking: false,
            compression: false,
            keep_alive_interval: Some(60_000u64),
        },
    }
}

impl Clone for ProxyConfig {
    fn clone(&self) -> (c: Self)
        ensures
            c@ == self@,
    {
        ProxyConfig { host: self.host.clone(), port: self.port }
    }
}

impl Clone for SSHConfig {
    fn clone(&self) -> (c: Self)
        ensures
            c@ == self@,
    {
        SSHConfig {
            host: self.host.clone(),
            port: self.port,
            user: self.user.clone(),
            key_path: self.key_path.clone(),
            timeout: self.timeout,
            max_retries: self.max_retries,
            initial_backoff: self.initial_backoff,
            max_backoff: self.max_backoff,
            strict_host_key_checking: self.strict_host_key_checking,
            compression: self.compression,
            keep_alive_interval: self.keep_alive_interval,
        }
    }
}

impl Clone for Config {
    fn clone(&self) -> (c: Self)
        ensures
            c@ == self@,
    {
        Config { proxy: self.proxy.clone(), ssh: self.ssh.clone() }
    }
}

impl Default for Config {
    /// The fallback settings.
    fn default() -> (c: Self)
        ensures
            c@ == fallback_config(),
    {
        Config {
            proxy: ProxyConfig { host: String::from_str("127.0.0.1"), port: 7890 },
            ssh: SSHConfig {
                host: String::from_str("127.0.0.1"),
                port: 22,
                user: String::from_str("root"),
                key_path: String::from_str("~/.ssh/debian-key"),
                timeout: 30_000,
                max_retries: 5,
                initial_backoff: 1_000,
                max_backoff: 30_000,
                strict_host_key_checking: false,
                compression: false,
                keep_alive_interval: Some(60_000),
            },
        }
    }
}

impl SSHConfig {
    /// Accepts the configuration exactly when it is valid, and says why not
    /// otherwise.
    pub fn validate(&self) -> (r: Result<(), SSHError>)
        ensures
            r.is_ok() <==> self@.is_valid(),
            r.is_err() ==> r.unwrap_err()@ == self@.validation_error(),
    {
        if self.host.as_str().is_empty() {
            return Err(SSHError::ConfigurationError(String::from_str("Host cannot be empty")));
        }
        if self.max_retries == 0 {
            return Err(
                SSHError::ConfigurationError(
                    String::from_str("Max retries must be greater than 0"),
                ),
            );
        }
        Ok(())
    }
}

} // verus!
