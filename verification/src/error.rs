//! Errors of the remote session manager.

use vstd::prelude::*;

verus! {

/// What can go wrong while configuring, establishing, using or tearing down
/// a remote session.
#[derive(Debug, PartialEq, Eq)]
pub enum SSHError {
    /// The configuration cannot be used: it names no host, allows no
    /// attempt, or its key file cannot be read. Found before any network
    /// work, and never retried.
    ConfigurationError(String),
    /// The attempts to connect are used up, or the pool is full.
    ConnectionFailed(String),
    AuthenticationFailed(String),
    /// Closing a channel failed.
    SessionFailed(String),
    /// A local file or device failed.
    IO(String),
    /// The transport reported an error of its own.
    OpenSSH(String),
    /// A command was issued on a session that holds no live channel.
    ClientNotInitialized,
    /// The command exited with a non-zero status, or the channel failed under it.
    CommandExecutionFailed(String),
    HostKeyVerificationFailed,
    /// One attempt, command or probe ran out of time.
    TimeoutError(String),
    UnexpectedEof,
}

/// The mathematical value of an `SSHError`: the same variants over sequences
/// of characters.
pub enum SSHErrorView {
    ConfigurationError(Seq<char>),
    ConnectionFailed(Seq<char>),
    AuthenticationFailed(Seq<char>),
    SessionFailed(Seq<char>),
    IO(Seq<char>),
    OpenSSH(Seq<char>),
    ClientNotInitialized,
    CommandExecutionFailed(Seq<char>),
    HostKeyVerificationFailed,
    TimeoutError(Seq<char>),
    UnexpectedEof,
}

impl View for SSHError {
    type V = SSHErrorView;

    open spec fn view(&self) -> SSHErrorView {
        match self {
            SSHError::ConfigurationError(m) => SSHErrorView::ConfigurationError(m@),
            SSHError::ConnectionFailed(m) => SSHErrorView::ConnectionFailed(m@),
            SSHError::AuthenticationFailed(m) => SSHErrorView::AuthenticationFailed(m@),
            SSHError::SessionFailed(m) => SSHErrorView::SessionFailed(m@),
            SSHError::IO(m) => SSHErrorView::IO(m@),
            SSHError::OpenSSH(m) => SSHErrorView::OpenSSH(m@),
            SSHError::ClientNotInitialized => SSHErrorView::ClientNotInitialized,
            SSHError::CommandExecutionFailed(m) => SSHErrorView::CommandExecutionFailed(m@),
            SSHError::HostKeyVerificationFailed => SSHErrorView::HostKeyVerificationFailed,
            SSHError::TimeoutError(m) => SSHErrorView::TimeoutError(m@),
            SSHError::UnexpectedEof => SSHErrorView::UnexpectedEof,
        }
    }
}

impl SSHErrorView {
    /// The text shown to a user for this error.
    pub open spec fn message(self) -> Seq<char> {
        match self {
            SSHErrorView::ConfigurationError(m) => "Configuration error: "@ + m,
            SSHErrorView::ConnectionFailed(m) => "Connection failed: "@ + m,
            SSHErrorView::AuthenticationFailed(m) => "Authentication failed: "@ + m,
            SSHErrorView::SessionFailed(m) => "Session failed: "@ + m,
            SSHErrorView::IO(m) => "IO error: "@ + m,
            SSHErrorView::OpenSSH(m) => "OpenSSH error: "@ + m,
            SSHErrorView::ClientNotInitialized => "Client not initialized"@,
            SSHErrorView::CommandExecutionFailed(m) => "SSH command execution failed: "@ + m,
            SSHErrorView::HostKeyVerificationFailed => "Host key verification failed"@,
            SSHErrorView::TimeoutError(m) => "Timeout error: "@ + m,
            SSHErrorView::UnexpectedEof => "Unexpected EOF or connection closed"@,
        }
    }
}

/// `prefix` followed by `detail`.
pub fn prefixed(prefix: &str, detail: &str) -> (s: String)
    ensures
        s@ == prefix@ + detail@,
{
    let mut s = String::from_str(prefix);
    s.append(detail);
    s
}

impl Clone for SSHError {
    fn clone(&self) -> (c: Self)
        ensures
            c@ == self@,
    {
        match self {
            SSHError::ConfigurationError(m) => SSHError::ConfigurationError(m.clone()),
            SSHError::ConnectionFailed(m) => SSHError::ConnectionFailed(m.clone()),
            SSHError::AuthenticationFailed(m) => SSHError::AuthenticationFailed(m.clone()),
            SSHError::SessionFailed(m) => SSHError::SessionFailed(m.clone()),
            SSHError::IO(m) => SSHError::IO(m.clone()),
            SSHError::OpenSSH(m) => SSHError::OpenSSH(m.clone()),
            SSHError::ClientNotInitialized => SSHError::ClientNotInitialized,
            SSHError::CommandExecutionFailed(m) => SSHError::CommandExecutionFailed(m.clone()),
            SSHError::HostKeyVerificationFailed => SSHError::HostKeyVerificationFailed,
            SSHError::TimeoutError(m) => SSHError::TimeoutError(m.clone()),
            SSHError::UnexpectedEof => SSHError::UnexpectedEof,
        }
    }
}

impl SSHError {
    /// The text shown to a user for this error.
    pub fn to_string(&self) -> (s: String)
        ensures
            s@ == self@.message(),
    {
        match self {
            SSHError::ConfigurationError(m) => prefixed("Configuration error: ", m.as_str()),
            SSHError::ConnectionFailed(m) => prefixed("Connection failed: ", m.as_str()),
            SSHError::AuthenticationFailed(m) => prefixed("Authentication failed: ", m.as_str()),
            SSHError::SessionFailed(m) => prefixed("Session failed: ", m.as_str()),
            SSHError::IO(m) => prefixed("IO error: ", m.as_str()),
            SSHError::OpenSSH(m) => prefixed("OpenSSH error: ", m.as_str()),
            SSHError::ClientNotInitialized => String::from_str("Client not initialized"),
            SSHError::CommandExecutionFailed(m) => prefixed(
                "SSH command execution failed: ",
                m.as_str(),
            ),
            SSHError::HostKeyVerificationFailed => String::from_str(
                "Host key verification failed",
            ),
            SSHError::TimeoutError(m) => prefixed("Timeout error: ", m.as_str()),
            SSHError::UnexpectedEof => String::from_str("Unexpected EOF or connection closed"),
        }
    }
}

} // verus!
