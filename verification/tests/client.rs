use malai::client::{command_executed, Client, InvalidAddress};
use malai::config::{ClusterManagerConfig, Config, MachineConfig};
use malai::identity::Identity;
use malai::malai_server::CallOutcome;
use malai::protocol::{ExecuteError, ExecuteErrorCode, ExecuteResponse};
use std::path::PathBuf;

fn identity() -> Identity {
    Identity { secret_key: [1u8; 32], id52: "client-id52".to_string() }
}

#[test]
fn test_server_address_parsing() {
    let client = Client::new(identity(), "/tmp".to_string());

    // Test domain-based address
    let result = client.parse_server_address("web01.company.com");
    assert!(result.is_ok());
    let parsed = result.unwrap();
    assert!(parsed.cluster.is_domain);
    assert_eq!(parsed.cluster.cluster_id, "company.com");

    // Test ID-based address
    let result = client.parse_server_address("web01.cluster-id52");
    assert!(result.is_ok());
    let parsed = result.unwrap();
    assert!(!parsed.cluster.is_domain);
    assert_eq!(parsed.cluster.cluster_id, "cluster-id52");
}

#[test]
fn test_cluster_directory_path() {
    let client = Client::new(identity(), "/home/user/.local/share/malai".to_string());

    let cluster_dir = client.get_cluster_dir("test-cluster");
    assert_eq!(
        PathBuf::from(cluster_dir),
        PathBuf::from("/home/user/.local/share/malai/ssh/clusters/test-cluster")
    );
}

#[test]
fn test_client_creation() {
    let data_dir = "/tmp/malai".to_string();
    let client = Client::new(identity(), data_dir.clone());

    assert_eq!(client.get_data_dir(), &data_dir);
    assert_eq!(client.get_identity().secret_key, identity().secret_key);
    assert_eq!(client.get_identity().id52, identity().id52);
}

#[test]
fn client_address_without_dot_is_refused() {
    let client = Client::new(identity(), "/tmp".to_string());
    assert_eq!(client.parse_server_address("web01").unwrap_err(), InvalidAddress);
    assert_eq!(client.parse_server_address("").unwrap_err(), InvalidAddress);
    let parsed = client.parse_server_address("web01.").unwrap();
    assert_eq!(parsed.node, "web01");
    assert_eq!(parsed.cluster.cluster_id, "");
    assert!(!parsed.cluster.is_domain);
}

#[test]
fn client_builds_requests_in_its_own_name() {
    let client = Client::new(identity(), "/tmp".to_string());
    let request = client.execute_command(
        "echo",
        vec!["hello".to_string()],
        vec![("PATH".to_string(), "/usr/bin".to_string())],
        Some("/tmp".to_string()),
    );
    assert_eq!(request.client_id52, "client-id52");
    assert_eq!(request.command, "echo");
    assert_eq!(request.args, vec!["hello".to_string()]);
    assert_eq!(request.env, vec![("PATH".to_string(), "/usr/bin".to_string())]);
    assert_eq!(request.working_dir, Some("/tmp".to_string()));
    let shell = client.start_shell(Vec::new());
    assert_eq!(shell.client_id52, "client-id52");
    assert!(shell.terminal_size.is_none());
    assert_eq!(
        client.cluster_config_path("c1"),
        "/tmp/ssh/clusters/c1/cluster-config.toml"
    );
}

#[test]
fn client_reports_each_kind_of_answer() {
    let response = ExecuteResponse { stdout: b"hi".to_vec(), stderr: Vec::new(), exit_code: 0 };
    let ok = command_executed(CallOutcome::Answered(response)).unwrap();
    assert_eq!(ok.stdout, b"hi".to_vec());
    let refused = command_executed(CallOutcome::Refused(ExecuteError {
        message: "denied".to_string(),
        error_code: ExecuteErrorCode::PermissionDenied,
    }));
    assert_eq!(refused.unwrap_err(), "SSH execute error: denied (PermissionDenied)");
    let lost = command_executed(CallOutcome::Unreachable("timeout".to_string()));
    assert_eq!(lost.unwrap_err(), "Failed to call remote server: timeout");
}

#[test]
fn client_lists_the_servers_open_to_it() {
    let mut config = Config::new(ClusterManagerConfig {
        id52: "m".to_string(),
        use_keyring: true,
        private_key_file: None,
        private_key: None,
    });
    let mut open = MachineConfig::new("a-id52".to_string());
    open.accept_ssh = true;
    open.allow_from = Some("client-id52".to_string());
    let mut closed = MachineConfig::new("b-id52".to_string());
    closed.accept_ssh = true;
    closed.allow_from = Some("someone-else".to_string());
    config.machines.insert("a".to_string(), open);
    config.machines.insert("b".to_string(), closed);
    let client = Client::new(identity(), "/tmp".to_string());
    assert_eq!(client.get_available_servers(&config), vec!["a".to_string()]);
}
