//! The agent that keeps connections to servers for the command line, and
//! what it tells the shell about itself.

use vstd::prelude::*;
use crate::table::Table;
use crate::text::{concat, same_text, u64_to_string, decimal};

verus! {

/// A point in time of the monotonic clock.
#[verifier::external_type_specification]
#[verifier::external_body]
pub struct ExInstant(std::time::Instant);

/// The text in lower case, as `str::to_lowercase` gives it.
pub uninterp spec fn lowercase(text: Seq<char>) -> Seq<char>;

/// Trusted: `str::to_lowercase`, which maps each character to its lower
/// case as Unicode defines it.
#[verifier::external_body]
fn to_lowercase(text: &str) -> (lower: String)
    ensures
        lower@ == lowercase(text@),
{
    text.to_lowercase()
}

/// Trusted: `Instant::now`. Nothing is known of the clock.
#[verifier::external_body]
fn now() -> (instant: std::time::Instant) {
    std::time::Instant::now()
}

/// Trusted: `Instant::elapsed`. Nothing is known of the clock.
#[verifier::external_body]
fn elapsed(since: &std::time::Instant) -> (passed: std::time::Duration) {
    since.elapsed()
}

/// Trusted: `Duration::as_nanos`.
#[verifier::external_body]
fn duration_nanos(duration: &std::time::Duration) -> (nanos: u128) {
    duration.as_nanos()
}

/// A connection that the agent keeps to a server.
#[derive(Debug)]
pub struct Connection {
    pub server_id52: String,
    pub last_used: std::time::Instant,
}

/// Whether a connection that was last used `elapsed_nanos` ago has been idle
/// for longer than `timeout_nanos`.
pub fn is_idle_after(elapsed_nanos: u128, timeout_nanos: u128) -> (idle: bool)
    ensures
        idle == (elapsed_nanos > timeout_nanos),
{
    elapsed_nanos > timeout_nanos
}

impl Connection {
    /// A connection that was used just now.
    pub fn new(server_id52: String) -> (connection: Self)
        ensures
            connection.server_id52 == server_id52,
    {
        Connection { server_id52, last_used: now() }
    }

    /// Notes that the connection was used just now.
    pub fn update_last_used(&mut self)
        ensures
            final(self).server_id52 == old(self).server_id52,
    {
        self.used_at(now());
    }

    /// Whether the connection has been idle for longer than the timeout, by
    /// the clock at the time of the call.
    pub fn is_idle(&self, idle_timeout: std::time::Duration) -> (idle: bool) {
        let passed = elapsed(&self.last_used);
        is_idle_after(duration_nanos(&passed), duration_nanos(&idle_timeout))
    }

    /// Notes that the connection was used at a reading of the clock.
    pub fn used_at(&mut self, at: std::time::Instant)
        ensures
            final(self).server_id52 == old(self).server_id52,
            final(self).last_used == at,
    {
        self.last_used = at;
    }
}

/// The agent of one client.
#[derive(Debug)]
pub struct Agent {
    socket_path: String,
    data_dir: String,
    client_id52: String,
    /// The connections by the ID52 of the server.
    connections: Table<Connection>,
    http_proxy_port: Option<u16>,
}

/// The lines that tell a shell about an agent.
pub open spec fn spec_environment(
    socket_path: Seq<char>,
    lockdown_mode: bool,
    http_proxy: bool,
    port: Option<u16>,
) -> Seq<Seq<char>> {
    let first = seq!["MALAI_SSH_AGENT="@ + socket_path];
    let second = if lockdown_mode {
        first.push("MALAI_LOCKDOWN_MODE=true"@)
    } else {
        first
    };
    match port {
        Some(p) => if http_proxy {
            second.push("HTTP_PROXY=http://127.0.0.1:"@ + decimal(p as nat))
        } else {
            second
        },
        None => second,
    }
}

impl Agent {
    pub closed spec fn socket(&self) -> Seq<char> {
        self.socket_path@
    }

    pub closed spec fn dir(&self) -> Seq<char> {
        self.data_dir@
    }

    pub closed spec fn client(&self) -> Seq<char> {
        self.client_id52@
    }

    pub closed spec fn port(&self) -> Option<u16> {
        self.http_proxy_port
    }

    /// The connections by the ID52 of the server.
    pub closed spec fn connections(&self) -> Map<Seq<char>, Connection> {
        self.connections@
    }

    pub closed spec fn wf(&self) -> bool {
        self.connections.wf()
    }

    /// An agent whose socket is `ssh/agent.sock` under the data directory,
    /// without connections and without an HTTP proxy.
    pub fn new(data_dir: String, client_id52: String) -> (agent: Self)
        ensures
            agent.wf(),
            agent.socket() == data_dir@ + "/ssh/agent.sock"@,
            agent.dir() == data_dir@,
            agent.client() == client_id52@,
            agent.connections() == Map::<Seq<char>, Connection>::empty(),
            agent.port().is_none(),
    {
        let socket_path = concat(data_dir.as_str(), "/ssh/agent.sock");
        Agent {
            socket_path,
            data_dir,
            client_id52,
            connections: Table::new(),
            http_proxy_port: None,
        }
    }

    pub fn get_socket_path(&self) -> (path: &String)
        ensures
            path@ == self.socket(),
    {
        &self.socket_path
    }

    pub fn get_data_dir(&self) -> (dir: &String)
        ensures
            dir@ == self.dir(),
    {
        &self.data_dir
    }

    pub fn get_client_id52(&self) -> (client: &String)
        ensures
            client@ == self.client(),
    {
        &self.client_id52
    }

    pub fn get_http_proxy_port(&self) -> (port: Option<u16>)
        ensures
            port == self.port(),
    {
        self.http_proxy_port
    }

    /// How many connections the agent keeps.
    pub fn connection_count(&self) -> (count: usize)
        requires
            self.wf(),
        ensures
            self.connections().dom().finite(),
            count == self.connections().len(),
    {
        self.connections.len()
    }

    /// Notes the port on which the HTTP proxy listens.
    pub fn start_http_proxy(&mut self, port: u16)
        ensures
            final(self).port() == Some(port),
            final(self).socket() == old(self).socket(),
            final(self).dir() == old(self).dir(),
            final(self).client() == old(self).client(),
            final(self).connections() == old(self).connections(),
            final(self).wf() == old(self).wf(),
    {
        self.http_proxy_port = Some(port);
    }

    /// The lines that tell a shell about the agent: where its socket is,
    /// that lockdown mode is on where it is, and where the HTTP proxy listens
    /// where it is asked for and runs.
    pub fn print_environment(&self, lockdown_mode: bool, http_proxy: bool) -> (lines: Vec<String>)
        ensures
            crate::text::text_views(lines@) == spec_environment(
                self.socket(),
                lockdown_mode,
                http_proxy,
                self.port(),
            ),
    {
        let mut lines: Vec<String> = Vec::new();
        lines.push(concat("MALAI_SSH_AGENT=", self.socket_path.as_str()));
        if lockdown_mode {
            lines.push("MALAI_LOCKDOWN_MODE=true".to_owned());
        }
        if http_proxy {
            match self.http_proxy_port {
                Some(port) => {
                    let number = u64_to_string(port as u64);
                    lines.push(concat("HTTP_PROXY=http://127.0.0.1:", number.as_str()));
                },
                None => {},
            }
        }
        assert(crate::text::text_views(lines@) =~= spec_environment(
            self.socket(),
            lockdown_mode,
            http_proxy,
            self.port(),
        ));
        lines
    }
}

/// Helpers around the agent.
#[derive(Clone, Copy, Debug)]
pub struct AgentUtils;

impl AgentUtils {
    /// Whether lockdown mode is on, from the value of `MALAI_LOCKDOWN_MODE`:
    /// it is where the variable is set to `true`, in any case of letters.
    pub fn is_lockdown_mode(value: Option<&str>) -> (on: bool)
        ensures
            on == (value matches Some(text) && lowercase(text@) == "true"@),
    {
        match value {
            Some(text) => {
                let lower = to_lowercase(text);
                same_text(lower.as_str(), "true")
            },
            None => false,
        }
    }
}

} // verus!
