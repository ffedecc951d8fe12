//! The requests, responses and errors of the four remote-access protocols.

use vstd::prelude::*;
use crate::tag::ProtocolTag;
use crate::text::concat;

verus! {

/// The protocols of remote access.
#[derive(Clone, Copy, Debug, PartialEq, Eq, Structural)]
pub enum SshProtocol {
    /// Run a command on the server.
    Execute,
    /// Start an interactive shell session.
    Shell,
    /// Reach an HTTP service through the server.
    HttpProxy,
    /// Bring a member's configuration up to date.
    ConfigSync,
}

#[derive(Debug)]
pub struct ExecuteRequest {
    pub client_id52: String,
    pub command: String,
    pub args: Vec<String>,
    /// Environment variables, each a name and a value.
    pub env: Vec<(String, String)>,
    pub working_dir: Option<String>,
}

#[derive(Debug)]
pub struct ExecuteResponse {
    pub stdout: Vec<u8>,
    pub stderr: Vec<u8>,
    pub exit_code: i32,
}

#[derive(Debug)]
pub struct ExecuteError {
    pub message: String,
    pub error_code: ExecuteErrorCode,
}

#[derive(Clone, Copy, Debug, PartialEq, Eq, Structural)]
pub enum ExecuteErrorCode {
    PermissionDenied,
    CommandNotFound,
    ExecutionFailed,
    InvalidRequest,
}

#[derive(Debug)]
pub struct ShellRequest {
    pub client_id52: String,
    /// Width and height of the terminal.
    pub terminal_size: Option<(u16, u16)>,
    pub env: Vec<(String, String)>,
}

#[derive(Debug)]
pub struct ShellResponse {
    pub session_id: String,
    pub banner: Option<String>,
}

#[derive(Debug)]
pub struct ShellError {
    pub message: String,
    pub error_code: ShellErrorCode,
}

#[derive(Clone, Copy, Debug, PartialEq, Eq, Structural)]
pub enum ShellErrorCode {
    PermissionDenied,
    SessionFailed,
    InvalidRequest,
}

#[derive(Debug)]
pub struct HttpProxyRequest {
    pub client_id52: String,
    pub service_name: String,
    pub method: String,
    pub path: String,
    pub headers: Vec<(String, String)>,
    pub body: Vec<u8>,
}

#[derive(Debug)]
pub struct HttpProxyResponse {
    pub status_code: u16,
    pub headers: Vec<(String, String)>,
    pub body: Vec<u8>,
}

#[derive(Debug)]
pub struct HttpProxyError {
    pub message: String,
    pub error_code: HttpProxyErrorCode,
}

#[derive(Clone, Copy, Debug, PartialEq, Eq, Structural)]
pub enum HttpProxyErrorCode {
    PermissionDenied,
    ServiceNotFound,
    ServiceUnavailable,
    InvalidRequest,
    ProxyError,
}

#[derive(Debug)]
pub struct ConfigSyncRequest {
    pub member_id52: String,
    pub current_config_hash: Option<String>,
}

#[derive(Debug)]
pub struct ConfigSyncResponse {
    pub config_hash: String,
    /// The configuration as TOML, sent only where the hashes differ.
    pub config_data: Option<String>,
    pub needs_update: bool,
}

#[derive(Debug)]
pub struct ConfigSyncError {
    pub message: String,
    pub error_code: ConfigSyncErrorCode,
}

#[derive(Clone, Copy, Debug, PartialEq, Eq, Structural)]
pub enum ConfigSyncErrorCode {
    MemberNotFound,
    InvalidHash,
    SyncFailed,
}

/// An error as it is shown: the message, then the code in brackets.
pub open spec fn spec_error_text(message: Seq<char>, code: Seq<char>) -> Seq<char> {
    message + " ("@ + code + ")"@
}

fn error_text(message: &str, code: &str) -> (text: String)
    ensures
        text@ == spec_error_text(message@, code@),
{
    let opened = concat(message, " (");
    let coded = concat(opened.as_str(), code);
    concat(coded.as_str(), ")")
}

impl SshProtocol {
    /// The protocol's name, as it is shown.
    pub open spec fn spec_name(self) -> Seq<char> {
        match self {
            SshProtocol::Execute => "ssh-execute"@,
            SshProtocol::Shell => "ssh-shell"@,
            SshProtocol::HttpProxy => "ssh-http-proxy"@,
            SshProtocol::ConfigSync => "ssh-config-sync"@,
        }
    }

    pub open spec fn spec_tag(self) -> ProtocolTag {
        match self {
            SshProtocol::Execute => ProtocolTag::Execute,
            SshProtocol::Shell => ProtocolTag::Shell,
            SshProtocol::HttpProxy => ProtocolTag::HttpProxy,
            SshProtocol::ConfigSync => ProtocolTag::ConfigSync,
        }
    }

    pub fn to_string(&self) -> (name: String)
        ensures
            name@ == self.spec_name(),
    {
        match self {
            SshProtocol::Execute => "ssh-execute".to_owned(),
            SshProtocol::Shell => "ssh-shell".to_owned(),
            SshProtocol::HttpProxy => "ssh-http-proxy".to_owned(),
            SshProtocol::ConfigSync => "ssh-config-sync".to_owned(),
        }
    }

    /// The tag under which the protocol goes over the wire.
    pub fn tag(&self) -> (tag: ProtocolTag)
        ensures
            tag == self.spec_tag(),
    {
        match self {
            SshProtocol::Execute => ProtocolTag::Execute,
            SshProtocol::Shell => ProtocolTag::Shell,
            SshProtocol::HttpProxy => ProtocolTag::HttpProxy,
            SshProtocol::ConfigSync => ProtocolTag::ConfigSync,
        }
    }

    /// The protocol that a tag stands for, if it is one of the four.
    pub fn from_tag(tag: ProtocolTag) -> (protocol: Option<SshProtocol>)
        ensures
            match protocol {
                Some(p) => p.spec_tag() == tag,
                None => forall|p: SshProtocol| p.spec_tag() != tag,
            },
    {
        match tag {
            ProtocolTag::Execute => Some(SshProtocol::Execute),
            ProtocolTag::Shell => Some(SshProtocol::Shell),
            ProtocolTag::HttpProxy => Some(SshProtocol::HttpProxy),
            ProtocolTag::ConfigSync => Some(SshProtocol::ConfigSync),
            _ => None,
        }
    }
}

impl ExecuteErrorCode {
    pub open spec fn spec_name(self) -> Seq<char> {
        match self {
            ExecuteErrorCode::PermissionDenied => "PermissionDenied"@,
            ExecuteErrorCode::CommandNotFound => "CommandNotFound"@,
            ExecuteErrorCode::ExecutionFailed => "ExecutionFailed"@,
            ExecuteErrorCode::InvalidRequest => "InvalidRequest"@,
        }
    }

    pub fn name(&self) -> (name: &'static str)
        ensures
            name@ == self.spec_name(),
    {
        match self {
            ExecuteErrorCode::PermissionDenied => "PermissionDenied",
            ExecuteErrorCode::CommandNotFound => "CommandNotFound",
            ExecuteErrorCode::ExecutionFailed => "ExecutionFailed",
            ExecuteErrorCode::InvalidRequest => "InvalidRequest",
        }
    }
}

impl ShellErrorCode {
    pub open spec fn spec_name(self) -> Seq<char> {
        match self {
            ShellErrorCode::PermissionDenied => "PermissionDenied"@,
            ShellErrorCode::SessionFailed => "SessionFailed"@,
            ShellErrorCode::InvalidRequest => "InvalidRequest"@,
        }
    }

    pub fn name(&self) -> (name: &'static str)
        ensures
            name@ == self.spec_name(),
    {
        match self {
            ShellErrorCode::PermissionDenied => "PermissionDenied",
            ShellErrorCode::SessionFailed => "SessionFailed",
            ShellErrorCode::InvalidRequest => "InvalidRequest",
        }
    }
}

impl HttpProxyErrorCode {
    pub open spec fn spec_name(self) -> Seq<char> {
        match self {
            HttpProxyErrorCode::PermissionDenied => "PermissionDenied"@,
            HttpProxyErrorCode::ServiceNotFound => "ServiceNotFound"@,
            HttpProxyErrorCode::ServiceUnavailable => "ServiceUnavailable"@,
            HttpProxyErrorCode::InvalidRequest => "InvalidRequest"@,
            HttpProxyErrorCode::ProxyError => "ProxyError"@,
        }
    }

    pub fn name(&self) -> (name: &'static str)
        ensures
            name@ == self.spec_name(),
    {
        match self {
            HttpProxyErrorCode::PermissionDenied => "PermissionDenied",
            HttpProxyErrorCode::ServiceNotFound => "ServiceNotFound",
            HttpProxyErrorCode::ServiceUnavailable => "ServiceUnavailable",
            HttpProxyErrorCode::InvalidRequest => "InvalidRequest",
            HttpProxyErrorCode::ProxyError => "ProxyError",
        }
    }
}

impl ConfigSyncErrorCode {
    pub open spec fn spec_name(self) -> Seq<char> {
        match self {
            ConfigSyncErrorCode::MemberNotFound => "MemberNotFound"@,
            ConfigSyncErrorCode::InvalidHash => "InvalidHash"@,
            ConfigSyncErrorCode::SyncFailed => "SyncFailed"@,
        }
    }

    pub fn name(&self) -> (name: &'static str)
        ensures
            name@ == self.spec_name(),
    {
        match self {
            ConfigSyncErrorCode::MemberNotFound => "MemberNotFound",
            ConfigSyncErrorCode::InvalidHash => "InvalidHash",
            ConfigSyncErrorCode::SyncFailed => "SyncFailed",
        }
    }
}

impl ExecuteError {
    pub fn to_string(&self) -> (text: String)
        ensures
            text@ == spec_error_text(self.message@, self.error_code.spec_name()),
    {
        error_text(self.message.as_str(), self.error_code.name())
    }
}

impl ShellError {
    pub fn to_string(&self) -> (text: String)
        ensures
            text@ == spec_error_text(self.message@, self.error_code.spec_name()),
    {
        error_text(self.message.as_str(), self.error_code.name())
    }
}

impl HttpProxyError {
    pub fn to_string(&self) -> (text: String)
        ensures
            text@ == spec_error_text(self.message@, self.error_code.spec_name()),
    {
        error_text(self.message.as_str(), self.error_code.name())
    }
}

impl ConfigSyncError {
    pub fn to_string(&self) -> (text: String)
        ensures
            text@ == spec_error_text(self.message@, self.error_code.spec_name()),
    {
        error_text(self.message.as_str(), self.error_code.name())
    }
}

} // verus!
