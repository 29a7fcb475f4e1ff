//! The virtual machine that a reproducer runs in.

use crate::error::prefixed;
use vstd::prelude::*;

verus! {

/// What can go wrong while running the virtual machine.
#[derive(Debug, PartialEq, Eq)]
pub enum QEMUError {
    VMStartupFailed(String),
    MonitorConnectionFailed(String),
    MonitorCommandExecutionFailed(String),
    SSHConnectionFailed(String),
    ProcessError(String),
    /// A local file or device failed.
    Io(String),
    VMNotRunning,
    MonitorNotConnected,
    ConfigError(String),
    TimeoutError(String),
    /// The settings of the machine could not be read.
    Serialization(String),
    FileNotFound(String),
}

pub enum QEMUErrorView {
    VMStartupFailed(Seq<char>),
    MonitorConnectionFailed(Seq<char>),
    MonitorCommandExecutionFailed(Seq<char>),
    SSHConnectionFailed(Seq<char>),
    ProcessError(Seq<char>),
    Io(Seq<char>),
    VMNotRunning,
    MonitorNotConnected,
    ConfigError(Seq<char>),
    TimeoutError(Seq<char>),
    Serialization(Seq<char>),
    FileNotFound(Seq<char>),
}

impl View for QEMUError {
    type V = QEMUErrorView;

    open spec fn view(&self) -> QEMUErrorView {
        match self {
            QEMUError::VMStartupFailed(m) => QEMUErrorView::VMStartupFailed(m@),
            QEMUError::MonitorConnectionFailed(m) => QEMUErrorView::MonitorConnectionFailed(m@),
            QEMUError::MonitorCommandExecutionFailed(m) =>
                QEMUErrorView::MonitorCommandExecutionFailed(m@),
            QEMUError::SSHConnectionFailed(m) => QEMUErrorView::SSHConnectionFailed(m@),
            QEMUError::ProcessError(m) => QEMUErrorView::ProcessError(m@),
            QEMUError::Io(m) => QEMUErrorView::Io(m@),
            QEMUError::VMNotRunning => QEMUErrorView::VMNotRunning,
            QEMUError::MonitorNotConnected => QEMUErrorView::MonitorNotConnected,
            QEMUError::ConfigError(m) => QEMUErrorView::ConfigError(m@),
            QEMUError::TimeoutError(m) => QEMUErrorView::TimeoutError(m@),
            QEMUError::Serialization(m) => QEMUErrorView::Serialization(m@),
            QEMUError::FileNotFound(m) => QEMUErrorView::FileNotFound(m@),
        }
    }
}

impl QEMUErrorView {
    /// The text shown to a user for this error.
    pub open spec fn message(self) -> Seq<char> {
        match self {
            QEMUErrorView::VMStartupFailed(m) => "VM startup failed: "@ + m,
            QEMUErrorView::MonitorConnectionFailed(m) => "Monitor connection failed: "@ + m,
            QEMUErrorView::MonitorCommandExecutionFailed(m) =>
                "Monitor command execution failed: "@ + m,
            QEMUErrorView::SSHConnectionFailed(m) => "SSH connection failed: "@ + m,
            QEMUErrorView::ProcessError(m) => "Process error: "@ + m,
            QEMUErrorView::Io(m) => "IO error: "@ + m,
            QEMUErrorView::VMNotRunning => "VM not running"@,
            QEMUErrorView::MonitorNotConnected => "Monitor not connected"@,
            QEMUErrorView::ConfigError(m) => "Configuration error: "@ + m,
            QEMUErrorView::TimeoutError(m) => "Timeout error: "@ + m,
            QEMUErrorView::Serialization(m) => "Serialization error: "@ + m,
            QEMUErrorView::FileNotFound(m) => "File not found: "@ + m,
        }
    }
}

impl QEMUError {
    /// The text shown to a user for this error.
    pub fn to_string(&self) -> (s: String)
        ensures
            s@ == self@.message(),
    {
        match self {
            QEMUError::VMStartupFailed(m) => prefixed("VM startup failed: ", m.as_str()),
            QEMUError::MonitorConnectionFailed(m) => prefixed(
                "Monitor connection failed: ",
                m.as_str(),
            ),
            QEMUError::MonitorCommandExecutionFailed(m) => prefixed(
                "Monitor command execution failed: ",
                m.as_str(),
            ),
            QEMUError::SSHConnectionFailed(m) => prefixed("SSH connection failed: ", m.as_str()),
            QEMUError::ProcessError(m) => prefixed("Process error: ", m.as_str()),
            QEMUError::Io(m) => prefixed("IO error: ", m.as_str()),
            QEMUError::VMNotRunning => String::from_str("VM not running"),
            QEMUError::MonitorNotConnected => String::from_str("Monitor not connected"),
            QEMUError::ConfigError(m) => prefixed("Configuration error: ", m.as_str()),
            QEMUError::TimeoutError(m) => prefixed("Timeout error: ", m.as_str()),
            QEMUError::Serialization(m) => prefixed("Serialization error: ", m.as_str()),
            QEMUError::FileNotFound(m) => prefixed("File not found: ", m.as_str()),
        }
    }
}

/// The settings of one virtual machine.
#[derive(Debug)]
pub struct VMConfig {
    pub name: String,
    pub image_path: String,
    pub kernel_path: Option<String>,
    pub memory: String,
    pub monitor_port: u16,
    pub ssh_port: u16,
    pub kernel_append: Option<String>,
    pub log_file: Option<String>,
}

} // verus!
