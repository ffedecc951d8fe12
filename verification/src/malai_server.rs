//! The two protocols that every identity serves: taking a configuration from
//! the cluster manager, and running a command for a peer.

use vstd::prelude::*;
use crate::identity::{id52_to_public_key, spec_id52_to_public_key};
use crate::tag::ProtocolTag;
use crate::text::concat;

verus! {

/// The protocols of a malai server.
#[derive(Clone, Copy, Debug, PartialEq, Eq, Structural)]
pub enum MalaiProtocol {
    /// Cluster manager to machine: a new configuration.
    ConfigUpdate,
    /// Any machine to any machine: run a command.
    ExecuteCommand,
}

#[derive(Debug)]
pub struct ConfigRequest {
    pub sender_id52: String,
    pub config_content: String,
    pub timestamp: String,
}

#[derive(Debug)]
pub struct ConfigResponse {
    pub success: bool,
    pub message: String,
}

#[derive(Debug)]
pub struct ConfigError {
    pub message: String,
}

#[derive(Debug)]
pub struct CommandRequest {
    pub client_id52: String,
    pub command: String,
    pub args: Vec<String>,
}

#[derive(Debug)]
pub struct CommandResponse {
    pub stdout: Vec<u8>,
    pub stderr: Vec<u8>,
    pub exit_code: i32,
}

#[derive(Debug)]
pub struct CommandError {
    pub error_type: String,
    pub message: String,
}

/// Why a command was not run, or did not run.
#[derive(Clone, Copy, Debug, PartialEq, Eq, Structural)]
pub enum CommandErrorKind {
    /// The configuration that holds the access list could not be read.
    NoConfig,
    /// The host still waits for its configuration.
    WaitingConfig,
    /// The access list does not let the caller in.
    PermissionDenied,
    /// The command could not be started.
    ExecutionFailed,
}

/// What a finished subprocess left behind.
#[derive(Debug)]
pub struct ProcessOutput {
    pub stdout: Vec<u8>,
    pub stderr: Vec<u8>,
    /// `None` where a signal ended the process.
    pub exit_code: Option<i32>,
}

/// What came back from a call to a peer: the call itself may fail, and the
/// peer may answer with its own error.
#[derive(Debug)]
pub enum CallOutcome<R, E> {
    Answered(R),
    Refused(E),
    /// The peer could not be reached, or did not answer.
    Unreachable(String),
}

/// Why a request did not go through.
#[derive(Debug)]
pub enum SendError {
    /// The target is no ID52.
    InvalidTarget,
    /// The peer answered with an error.
    Peer(String),
    /// The peer could not be reached.
    P2p(String),
}

impl MalaiProtocol {
    pub open spec fn spec_tag(self) -> ProtocolTag {
        match self {
            MalaiProtocol::ConfigUpdate => ProtocolTag::ConfigUpdate,
            MalaiProtocol::ExecuteCommand => ProtocolTag::ExecuteCommand,
        }
    }

    /// The tag under which the protocol goes over the wire.
    pub fn tag(&self) -> (tag: ProtocolTag)
        ensures
            tag == self.spec_tag(),
    {
        match self {
            MalaiProtocol::ConfigUpdate => ProtocolTag::ConfigUpdate,
            MalaiProtocol::ExecuteCommand => ProtocolTag::ExecuteCommand,
        }
    }

    /// The protocol that a tag stands for, if it is one of the two.
    pub fn from_tag(tag: ProtocolTag) -> (protocol: Option<MalaiProtocol>)
        ensures
            match protocol {
                Some(p) => p.spec_tag() == tag,
                None => tag != ProtocolTag::ConfigUpdate && tag != ProtocolTag::ExecuteCommand,
            },
    {
        match tag {
            ProtocolTag::ConfigUpdate => Some(MalaiProtocol::ConfigUpdate),
            ProtocolTag::ExecuteCommand => Some(MalaiProtocol::ExecuteCommand),
            _ => None,
        }
    }

    /// The protocol's name, as it is shown.
    pub fn to_string(&self) -> (name: String)
        ensures
            name@ == self.spec_tag().spec_name(),
    {
        self.tag().name().to_owned()
    }
}

impl CommandErrorKind {
    pub open spec fn spec_name(self) -> Seq<char> {
        match self {
            CommandErrorKind::NoConfig => "no_config"@,
            CommandErrorKind::WaitingConfig => "waiting_config"@,
            CommandErrorKind::PermissionDenied => "permission_denied"@,
            CommandErrorKind::ExecutionFailed => "execution_failed"@,
        }
    }

    /// The kind as it stands in `CommandError::error_type`.
    pub fn name(&self) -> (name: &'static str)
        ensures
            name@ == self.spec_name(),
    {
        match self {
            CommandErrorKind::NoConfig => "no_config",
            CommandErrorKind::WaitingConfig => "waiting_config",
            CommandErrorKind::PermissionDenied => "permission_denied",
            CommandErrorKind::ExecutionFailed => "execution_failed",
        }
    }
}

impl CommandError {
    pub fn new(kind: CommandErrorKind, message: String) -> (error: CommandError)
        ensures
            error.error_type@ == kind.spec_name(),
            error.message == message,
    {
        CommandError { error_type: kind.name().to_owned(), message }
    }
}

/// The protocols that a malai server listens for.
pub fn server_protocols() -> (protocols: Vec<MalaiProtocol>)
    ensures
        protocols@ == seq![MalaiProtocol::ConfigUpdate, MalaiProtocol::ExecuteCommand],
{
    let mut protocols: Vec<MalaiProtocol> = Vec::new();
    protocols.push(MalaiProtocol::ConfigUpdate);
    protocols.push(MalaiProtocol::ExecuteCommand);
    assert(protocols@ =~= seq![MalaiProtocol::ConfigUpdate, MalaiProtocol::ExecuteCommand]);
    protocols
}

/// The name of the file in which a stand-alone server keeps the
/// configuration that it was sent.
pub fn machine_config_file() -> (name: &'static str)
    ensures
        name@ == "machine-config.toml"@,
{
    "machine-config.toml"
}

/// The answer to a configuration update, once the configuration was written
/// or could not be: `saved` holds the error of the write where it failed.
pub fn handle_config_update(saved: Result<(), String>) -> (answer: Result<
    ConfigResponse,
    ConfigError,
>)
    ensures
        match saved {
            Ok(()) => answer matches Ok(response) && response.success && response.message@
                == "Config received and saved successfully"@,
            Err(cause) => answer matches Err(error) && error.message@
                == "Failed to save config: "@ + cause@,
        },
{
    match saved {
        Ok(()) => Ok(
            ConfigResponse {
                success: true,
                message: "Config received and saved successfully".to_owned(),
            },
        ),
        Err(cause) => Err(
            ConfigError { message: concat("Failed to save config: ", cause.as_str()) },
        ),
    }
}

/// Whether a stand-alone server runs commands at all: only once it holds a
/// configuration.
pub fn handle_command_execution(has_config: bool) -> (gate: Result<(), CommandError>)
    ensures
        match gate {
            Ok(()) => has_config,
            Err(error) => !has_config && error.error_type@
                == CommandErrorKind::NoConfig.spec_name() && error.message@
                == "Machine has no configuration"@,
        },
{
    if has_config {
        Ok(())
    } else {
        Err(
            CommandError::new(
                CommandErrorKind::NoConfig,
                "Machine has no configuration".to_owned(),
            ),
        )
    }
}

/// The answer to a command, once the subprocess has ended or could not be
/// started. A process that a signal ended counts as exit code -1.
pub fn command_finished(ran: Result<ProcessOutput, String>) -> (answer: Result<
    CommandResponse,
    CommandError,
>)
    ensures
        match ran {
            Ok(output) => answer matches Ok(response) && response.stdout == output.stdout
                && response.stderr == output.stderr && response.exit_code == (
            match output.exit_code {
                Some(code) => code,
                None => -1i32,
            }),
            Err(cause) => answer matches Err(error) && error.error_type@
                == CommandErrorKind::ExecutionFailed.spec_name() && error.message == cause,
        },
{
    match ran {
        Ok(output) => {
            let exit_code = match output.exit_code {
                Some(code) => code,
                None => -1,
            };
            Ok(CommandResponse { stdout: output.stdout, stderr: output.stderr, exit_code })
        },
        Err(cause) => Err(CommandError::new(CommandErrorKind::ExecutionFailed, cause)),
    }
}

/// The request that carries a configuration to `target_id52`, or
/// `InvalidTarget` where the target is no ID52.
pub fn send_config(
    sender_id52: String,
    target_id52: &str,
    config_content: &str,
    timestamp: String,
) -> (request: Result<ConfigRequest, SendError>)
    ensures
        match request {
            Ok(built) => {
                &&& spec_id52_to_public_key(target_id52@).is_some()
                &&& built.sender_id52 == sender_id52
                &&& built.config_content@ == config_content@
                &&& built.timestamp == timestamp
            },
            Err(error) => error is InvalidTarget && spec_id52_to_public_key(
                target_id52@,
            ).is_none(),
        },
{
    match id52_to_public_key(target_id52) {
        Some(_) => Ok(
            ConfigRequest { sender_id52, config_content: config_content.to_owned(), timestamp },
        ),
        None => Err(SendError::InvalidTarget),
    }
}

/// The request that asks `target_id52` to run a command, or `InvalidTarget`
/// where the target is no ID52.
pub fn send_command(client_id52: String, target_id52: &str, command: &str, args: Vec<String>) -> (request:
    Result<CommandRequest, SendError>)
    ensures
        match request {
            Ok(built) => {
                &&& spec_id52_to_public_key(target_id52@).is_some()
                &&& built.client_id52 == client_id52
                &&& built.command@ == command@
                &&& built.args == args
            },
            Err(error) => error is InvalidTarget && spec_id52_to_public_key(
                target_id52@,
            ).is_none(),
        },
{
    match id52_to_public_key(target_id52) {
        Some(_) => Ok(CommandRequest { client_id52, command: command.to_owned(), args }),
        None => Err(SendError::InvalidTarget),
    }
}

/// What the sender of a configuration makes of the answer: the peer's
/// message, or the error to report.
pub fn config_sent(outcome: CallOutcome<ConfigResponse, ConfigError>) -> (result: Result<
    String,
    SendError,
>)
    ensures
        match outcome {
            CallOutcome::Answered(response) => result matches Ok(message) && message
                == response.message,
            CallOutcome::Refused(error) => result matches Err(SendError::Peer(text)) && text@
                == "Config error: "@ + error.message@,
            CallOutcome::Unreachable(cause) => result matches Err(SendError::P2p(text)) && text@
                == "P2P failed: "@ + cause@,
        },
{
    match outcome {
        CallOutcome::Answered(response) => Ok(response.message),
        CallOutcome::Refused(error) => Err(
            SendError::Peer(concat("Config error: ", error.message.as_str())),
        ),
        CallOutcome::Unreachable(cause) => Err(
            SendError::P2p(concat("P2P failed: ", cause.as_str())),
        ),
    }
}

/// What the sender of a command makes of the answer: the peer's response, or
/// the error to report.
pub fn command_sent(outcome: CallOutcome<CommandResponse, CommandError>) -> (result: Result<
    CommandResponse,
    SendError,
>)
    ensures
        match outcome {
            CallOutcome::Answered(response) => result matches Ok(same) && same == response,
            CallOutcome::Refused(error) => result matches Err(SendError::Peer(text)) && text@
                == "Command error: "@ + error.error_type@ + ": "@ + error.message@,
            CallOutcome::Unreachable(cause) => result matches Err(SendError::P2p(text)) && text@
                == "P2P failed: "@ + cause@,
        },
{
    match outcome {
        CallOutcome::Answered(response) => Ok(response),
        CallOutcome::Refused(error) => {
            let head = concat("Command error: ", error.error_type.as_str());
            let middle = concat(head.as_str(), ": ");
            Err(SendError::Peer(concat(middle.as_str(), error.message.as_str())))
        },
        CallOutcome::Unreachable(cause) => Err(
            SendError::P2p(concat("P2P failed: ", cause.as_str())),
        ),
    }
}

} // verus!
