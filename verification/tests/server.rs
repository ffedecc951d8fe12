use malai::config::{ClusterManagerConfig, CommandConfig, Config, MachineConfig, ServiceConfig};
use malai::identity::Identity;
use malai::malai_server::ProcessOutput;
use malai::protocol::{
    ConfigSyncRequest, ExecuteErrorCode, ExecuteRequest, HttpProxyErrorCode, HttpProxyRequest, ShellErrorCode,
    ShellRequest, SshProtocol,
};
use malai::server::{execute_finished, RunOutcome, Server};

fn server(machine: &str) -> Server {
    let mut config = Config::new(ClusterManagerConfig {
        id52: "manager".to_string(),
        use_keyring: true,
        private_key_file: None,
        private_key: None,
    });
    let mut web01 = MachineConfig::new("web01-id52".to_string());
    web01.accept_ssh = true;
    web01.allow_from = Some("admin".to_string());
    web01.commands.insert("ls".to_string(), CommandConfig { allow_from: "reader".to_string() });
    web01.services.insert(
        "api".to_string(),
        ServiceConfig { port: 8080, allow_from: "reader".to_string() },
    );
    web01.services.insert("db".to_string(), ServiceConfig { port: 5432, allow_from: "*".to_string() });
    config.machines.insert("web01".to_string(), web01);
    Server::new(
        config,
        machine.to_string(),
        Identity { secret_key: [0u8; 32], id52: "web01-id52".to_string() },
    )
}

fn execute(client: &str, command: &str) -> ExecuteRequest {
    ExecuteRequest {
        client_id52: client.to_string(),
        command: command.to_string(),
        args: Vec::new(),
        env: Vec::new(),
        working_dir: None,
    }
}

#[test]
fn server_start_needs_its_machine() {
    assert_eq!(
        server("web01").start().unwrap(),
        vec![
            SshProtocol::Execute,
            SshProtocol::Shell,
            SshProtocol::HttpProxy,
            SshProtocol::ConfigSync,
        ]
    );
    assert_eq!(
        server("web02").start().unwrap_err(),
        "Machine 'web02' not found in configuration"
    );
    assert_eq!(server("web01").get_identity().id52, "web01-id52");
}

#[test]
fn server_execute_permission() {
    let server = server("web01");
    assert!(server.handle_execute_request(&execute("admin", "bash")).is_ok());
    assert!(server.handle_execute_request(&execute("reader", "ls")).is_ok());
    let denied = server.handle_execute_request(&execute("reader", "bash")).unwrap_err();
    assert_eq!(denied.error_code, ExecuteErrorCode::PermissionDenied);
    assert_eq!(denied.message, "Permission denied: reader cannot execute 'bash' on web01");
}

#[test]
fn server_shell_and_proxy_answers() {
    let server = server("web01");
    let shell = |client: &str| ShellRequest {
        client_id52: client.to_string(),
        terminal_size: Some((80, 24)),
        env: Vec::new(),
    };
    let allowed = server.handle_shell_request(&shell("admin"));
    assert_eq!(allowed.error_code, ShellErrorCode::SessionFailed);
    assert_eq!(allowed.message, "Interactive shell not yet implemented");
    let denied = server.handle_shell_request(&shell("reader"));
    assert_eq!(denied.error_code, ShellErrorCode::PermissionDenied);
    assert_eq!(denied.message, "Permission denied: reader cannot access shell on web01");

    let proxy = |client: &str, service: &str| HttpProxyRequest {
        client_id52: client.to_string(),
        service_name: service.to_string(),
        method: "GET".to_string(),
        path: "/".to_string(),
        headers: Vec::new(),
        body: Vec::new(),
    };
    let allowed = server.handle_http_proxy_request(&proxy("reader", "api"));
    assert_eq!(allowed.error_code, HttpProxyErrorCode::ServiceUnavailable);
    assert_eq!(allowed.message, "HTTP proxy not yet implemented");
    let denied = server.handle_http_proxy_request(&proxy("admin", "api"));
    assert_eq!(denied.error_code, HttpProxyErrorCode::PermissionDenied);
    assert_eq!(denied.message, "Permission denied: admin cannot access service api on web01");
    let sync = |held: Option<&str>| {
        server.handle_config_sync_request(
            &ConfigSyncRequest {
                member_id52: "reader".to_string(),
                current_config_hash: held.map(|h| h.to_string()),
            },
            "hash-2",
            "a = 1",
        )
    };
    let current = sync(Some("hash-2"));
    assert_eq!(current.config_hash, "hash-2");
    assert!(current.config_data.is_none());
    assert!(!current.needs_update);
    let behind = sync(Some("hash-1"));
    assert_eq!(behind.config_hash, "hash-2");
    assert_eq!(behind.config_data.as_deref(), Some("a = 1"));
    assert!(behind.needs_update);
    let new = sync(None);
    assert!(new.needs_update);
    assert_eq!(new.config_data.as_deref(), Some("a = 1"));
}

#[test]
fn server_exposed_services_in_order() {
    assert_eq!(
        server("web01").get_exposed_services(),
        vec![("api".to_string(), 8080), ("db".to_string(), 5432)]
    );
    assert!(server("web02").get_exposed_services().is_empty());
    assert!(server("web01").can_client_access_service("anyone", "db"));
    assert!(!server("web02").can_client_access_service("anyone", "db"));
}

#[test]
fn server_execute_outcomes() {
    let done = execute_finished(RunOutcome::Finished(ProcessOutput {
        stdout: b"o".to_vec(),
        stderr: b"e".to_vec(),
        exit_code: Some(0),
    }))
    .unwrap();
    assert_eq!((done.stdout, done.stderr, done.exit_code), (b"o".to_vec(), b"e".to_vec(), 0));
    let killed = execute_finished(RunOutcome::Finished(ProcessOutput {
        stdout: Vec::new(),
        stderr: Vec::new(),
        exit_code: None,
    }))
    .unwrap();
    assert_eq!(killed.exit_code, -1);
    let missing = execute_finished(RunOutcome::NotStarted("no such file".to_string())).unwrap_err();
    assert_eq!(missing.error_code, ExecuteErrorCode::CommandNotFound);
    assert_eq!(missing.message, "Failed to execute command: no such file");
    let lost = execute_finished(RunOutcome::WaitFailed("interrupted".to_string())).unwrap_err();
    assert_eq!(lost.error_code, ExecuteErrorCode::ExecutionFailed);
    assert_eq!(lost.message, "Failed to wait for command: interrupted");
}
