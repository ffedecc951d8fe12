//! The remote-access server of one machine: which requests it serves, and
//! what it answers.
//!
//! Running a command is left to the caller. The server decides whether the
//! command may run, and turns what came of it into the response.

use vstd::prelude::*;
use crate::config::Config;
use crate::identity::Identity;
use crate::malai_server::ProcessOutput;
use crate::protocol::{
    ConfigSyncRequest, ConfigSyncResponse, ExecuteError, ExecuteErrorCode, ExecuteRequest, ExecuteResponse,
    HttpProxyError, HttpProxyErrorCode, HttpProxyRequest, ShellError, ShellErrorCode,
    ShellRequest, SshProtocol,
};
use crate::text::concat;

verus! {

pub struct Server {
    config: Config,
    machine_name: String,
    identity: Identity,
}

/// What came of running a command.
#[derive(Debug)]
pub enum RunOutcome {
    Finished(ProcessOutput),
    /// The command could not be started, with the reason.
    NotStarted(String),
    /// The command was started and could not be waited for, with the reason.
    WaitFailed(String),
}

/// The services of a machine with their ports, in the order of the table.
pub open spec fn service_ports(pairs: Seq<(Seq<char>, crate::config::ServiceConfig)>) -> Seq<
    (Seq<char>, u16),
> {
    pairs.map_values(|pair: (Seq<char>, crate::config::ServiceConfig)| (pair.0, pair.1.port))
}

pub open spec fn port_views(services: Seq<(String, u16)>) -> Seq<(Seq<char>, u16)> {
    services.map_values(|service: (String, u16)| (service.0@, service.1))
}

/// `Permission denied: {client} cannot {what} on {machine}`
pub open spec fn denial(client: Seq<char>, what: Seq<char>, machine: Seq<char>) -> Seq<char> {
    "Permission denied: "@ + client + " cannot "@ + what + " on "@ + machine
}

fn denial_text(client: &str, what: &str, machine: &str) -> (text: String)
    ensures
        text@ == denial(client@, what@, machine@),
{
    let a = concat("Permission denied: ", client);
    let b = concat(a.as_str(), " cannot ");
    let c = concat(b.as_str(), what);
    let d = concat(c.as_str(), " on ");
    concat(d.as_str(), machine)
}

impl Server {
    pub closed spec fn config(&self) -> Config {
        self.config
    }

    pub closed spec fn name(&self) -> Seq<char> {
        self.machine_name@
    }

    pub closed spec fn identity(&self) -> Identity {
        self.identity
    }

    pub open spec fn wf(&self) -> bool {
        self.config().wf()
    }

    pub fn new(config: Config, machine_name: String, identity: Identity) -> (server: Self)
        ensures
            server.config() == config,
            server.name() == machine_name@,
            server.identity() == identity,
    {
        Server { config, machine_name, identity }
    }

    pub fn machine_name(&self) -> (name: &String)
        ensures
            name@ == self.name(),
    {
        &self.machine_name
    }

    pub fn get_config(&self) -> (config: &Config)
        ensures
            *config == self.config(),
    {
        &self.config
    }

    pub fn get_identity(&self) -> (identity: &Identity)
        ensures
            *identity == self.identity(),
    {
        &self.identity
    }

    /// The protocols to listen for, or why the server cannot start: its
    /// machine must stand in the configuration.
    pub fn start(&self) -> (protocols: Result<Vec<SshProtocol>, String>)
        requires
            self.wf(),
        ensures
            match protocols {
                Ok(list) => self.config().machines@.contains_key(self.name()) && list@ == seq![
                    SshProtocol::Execute,
                    SshProtocol::Shell,
                    SshProtocol::HttpProxy,
                    SshProtocol::ConfigSync,
                ],
                Err(reason) => !self.config().machines@.contains_key(self.name()) && reason@
                    == "Machine '"@ + self.name() + "' not found in configuration"@,
            },
    {
        if self.config.machines.contains_key(self.machine_name.as_str()) {
            let mut list: Vec<SshProtocol> = Vec::new();
            list.push(SshProtocol::Execute);
            list.push(SshProtocol::Shell);
            list.push(SshProtocol::HttpProxy);
            list.push(SshProtocol::ConfigSync);
            assert(list@ =~= seq![
                SshProtocol::Execute,
                SshProtocol::Shell,
                SshProtocol::HttpProxy,
                SshProtocol::ConfigSync,
            ]);
            Ok(list)
        } else {
            let head = concat("Machine '", self.machine_name.as_str());
            Err(concat(head.as_str(), "' not found in configuration"))
        }
    }

    /// Whether a command may run: `Ok` lets the caller run it, and a client
    /// without permission gets the error to send back.
    pub fn handle_execute_request(&self, request: &ExecuteRequest) -> (verdict: Result<
        (),
        ExecuteError,
    >)
        requires
            self.wf(),
        ensures
            match verdict {
                Ok(()) => self.config().spec_can_execute_command(
                    request.client_id52@,
                    self.name(),
                    request.command@,
                ),
                Err(error) => {
                    &&& !self.config().spec_can_execute_command(
                        request.client_id52@,
                        self.name(),
                        request.command@,
                    )
                    &&& error.error_code == ExecuteErrorCode::PermissionDenied
                    &&& error.message@ == denial(
                        request.client_id52@,
                        "execute '"@ + request.command@ + "'"@,
                        self.name(),
                    )
                },
            },
    {
        if self.config.can_execute_command(
            request.client_id52.as_str(),
            self.machine_name.as_str(),
            request.command.as_str(),
        ) {
            Ok(())
        } else {
            let opened = concat("execute '", request.command.as_str());
            let what = concat(opened.as_str(), "'");
            Err(
                ExecuteError {
                    message: denial_text(
                        request.client_id52.as_str(),
                        what.as_str(),
                        self.machine_name.as_str(),
                    ),
                    error_code: ExecuteErrorCode::PermissionDenied,
                },
            )
        }
    }

    /// The answer to the shell request of a client. No client gets a shell
    /// yet: one without permission is told so, any other is told that the
    /// session failed.
    pub fn handle_shell_request(&self, request: &ShellRequest) -> (error: ShellError)
        requires
            self.wf(),
        ensures
            if self.config().spec_can_execute_command(request.client_id52@, self.name(), "bash"@) {
                &&& error.error_code == ShellErrorCode::SessionFailed
                &&& error.message@ == "Interactive shell not yet implemented"@
            } else {
                &&& error.error_code == ShellErrorCode::PermissionDenied
                &&& error.message@ == denial(
                    request.client_id52@,
                    "access shell"@,
                    self.name(),
                )
            },
    {
        if self.config.can_execute_command(
            request.client_id52.as_str(),
            self.machine_name.as_str(),
            "bash",
        ) {
            ShellError {
                message: "Interactive shell not yet implemented".to_owned(),
                error_code: ShellErrorCode::SessionFailed,
            }
        } else {
            ShellError {
                message: denial_text(
                    request.client_id52.as_str(),
                    "access shell",
                    self.machine_name.as_str(),
                ),
                error_code: ShellErrorCode::PermissionDenied,
            }
        }
    }

    /// The answer to a request for an HTTP service. No request is proxied
    /// yet: a client without permission is told so, any other is told that
    /// the service is unavailable.
    pub fn handle_http_proxy_request(&self, request: &HttpProxyRequest) -> (error: HttpProxyError)
        requires
            self.wf(),
        ensures
            if self.config().spec_can_access_service(
                request.client_id52@,
                self.name(),
                request.service_name@,
            ) {
                &&& error.error_code == HttpProxyErrorCode::ServiceUnavailable
                &&& error.message@ == "HTTP proxy not yet implemented"@
            } else {
                &&& error.error_code == HttpProxyErrorCode::PermissionDenied
                &&& error.message@ == denial(
                    request.client_id52@,
                    "access service "@ + request.service_name@,
                    self.name(),
                )
            },
    {
        if self.config.can_access_service(
            request.client_id52.as_str(),
            self.machine_name.as_str(),
            request.service_name.as_str(),
        ) {
            HttpProxyError {
                message: "HTTP proxy not yet implemented".to_owned(),
                error_code: HttpProxyErrorCode::ServiceUnavailable,
            }
        } else {
            let what = concat("access service ", request.service_name.as_str());
            HttpProxyError {
                message: denial_text(
                    request.client_id52.as_str(),
                    what.as_str(),
                    self.machine_name.as_str(),
                ),
                error_code: HttpProxyErrorCode::PermissionDenied,
            }
        }
    }

    /// The answer to a member that asks whether its configuration is up to
    /// date: it is where the member holds the hash of the configuration as
    /// it is now. A member that is behind is sent the configuration.
    pub fn handle_config_sync_request(
        &self,
        request: &ConfigSyncRequest,
        config_hash: &str,
        config_text: &str,
    ) -> (response: ConfigSyncResponse)
        ensures
            response.config_hash@ == config_hash@,
            response.needs_update == !(request.current_config_hash matches Some(held) && held@
                == config_hash@),
            match response.config_data {
                Some(text) => response.needs_update && text@ == config_text@,
                None => !response.needs_update,
            },
    {
        let current = match &request.current_config_hash {
            Some(held) => crate::text::same_text(held.as_str(), config_hash),
            None => false,
        };
        ConfigSyncResponse {
            config_hash: config_hash.to_owned(),
            config_data: if current {
                None
            } else {
                Some(config_text.to_owned())
            },
            needs_update: !current,
        }
    }

    /// The HTTP services that the machine offers, each with its port; none
    /// where the configuration does not know the machine.
    pub fn get_exposed_services(&self) -> (services: Vec<(String, u16)>)
        requires
            self.wf(),
        ensures
            port_views(services@) == (if self.config().machines@.contains_key(self.name()) {
                service_ports(self.config().machines@[self.name()].services.pairs())
            } else {
                Seq::empty()
            }),
    {
        let mut services: Vec<(String, u16)> = Vec::new();
        match self.config.machines.get(self.machine_name.as_str()) {
            Some(machine) => {
                let count = machine.services.len();
                let ghost pairs = machine.services.pairs();
                let mut i: usize = 0;
                while i < count
                    invariant
                        i <= count,
                        count == pairs.len(),
                        pairs == machine.services.pairs(),
                        services@.len() == i,
                        forall|j: int|
                            0 <= j < i ==> (#[trigger] services@[j]).0@ == pairs[j].0
                                && services@[j].1 == pairs[j].1.port,
                    decreases count - i,
                {
                    services.push(
                        (machine.services.name_at(i).clone(), machine.services.value_at(i).port),
                    );
                    i += 1;
                }
                assert(port_views(services@) =~= service_ports(pairs));
            },
            None => {
                assert(port_views(services@) =~= Seq::empty());
            },
        }
        services
    }

    /// Whether a client may reach an HTTP service of this machine.
    pub fn can_client_access_service(&self, client_id52: &str, service_name: &str) -> (allowed:
        bool)
        requires
            self.wf(),
        ensures
            allowed == self.config().spec_can_access_service(
                client_id52@,
                self.name(),
                service_name@,
            ),
    {
        self.config.can_access_service(client_id52, self.machine_name.as_str(), service_name)
    }
}

/// The answer to a command that was let through, from what came of running
/// it. A process that a signal ended counts as exit code -1.
pub fn execute_finished(ran: RunOutcome) -> (answer: Result<ExecuteResponse, ExecuteError>)
    ensures
        match ran {
            RunOutcome::Finished(output) => answer matches Ok(response) && response.stdout
                == output.stdout && response.stderr == output.stderr && response.exit_code == (
            match output.exit_code {
                Some(code) => code,
                None => -1i32,
            }),
            RunOutcome::NotStarted(reason) => answer matches Err(error) && error.error_code
                == ExecuteErrorCode::CommandNotFound && error.message@
                == "Failed to execute command: "@ + reason@,
            RunOutcome::WaitFailed(reason) => answer matches Err(error) && error.error_code
                == ExecuteErrorCode::ExecutionFailed && error.message@
                == "Failed to wait for command: "@ + reason@,
        },
{
    match ran {
        RunOutcome::Finished(output) => {
            let exit_code = match output.exit_code {
                Some(code) => code,
                None => -1,
            };
            Ok(ExecuteResponse { stdout: output.stdout, stderr: output.stderr, exit_code })
        },
        RunOutcome::NotStarted(reason) => Err(
            ExecuteError {
                message: concat("Failed to execute command: ", reason.as_str()),
                error_code: ExecuteErrorCode::CommandNotFound,
            },
        ),
        RunOutcome::WaitFailed(reason) => Err(
            ExecuteError {
                message: concat("Failed to wait for command: ", reason.as_str()),
                error_code: ExecuteErrorCode::ExecutionFailed,
            },
        ),
    }
}

} // verus!
