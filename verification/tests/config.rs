use malai::cluster::ClusterManager;
use malai::config::{
    default_true, ClusterManagerConfig, CommandConfig, Config, GroupConfig, MachineConfig,
    MachineRole, ServiceConfig,
};
use malai::identity::Identity;
use malai::server::Server;

fn manager(id52: &str) -> ClusterManagerConfig {
    ClusterManagerConfig {
        id52: id52.to_string(),
        use_keyring: default_true(),
        private_key_file: None,
        private_key: None,
    }
}

fn server_machine(id52: &str, allow_from: Option<&str>) -> MachineConfig {
    let mut machine = MachineConfig::new(id52.to_string());
    machine.accept_ssh = true;
    machine.allow_from = allow_from.map(|s| s.to_string());
    machine
}

fn access_control_config() -> Config {
    let mut config = Config::new(manager("cluster-manager-id52"));
    let mut web01 = server_machine("web01-id52", Some("client1-id52,client2-id52"));
    web01.commands.insert(
        "ls".to_string(),
        CommandConfig { allow_from: "readonly-client-id52".to_string() },
    );
    config.machines.insert("web01".to_string(), web01);
    config.machines.insert("laptop".to_string(), MachineConfig::new("laptop-id52".to_string()));
    config
}

fn server_config() -> Config {
    let mut config = Config::new(manager("cluster-manager-id52"));
    let mut web01 = server_machine("web01-id52", Some("client1-id52,client2-id52"));
    web01.commands.insert(
        "ls".to_string(),
        CommandConfig { allow_from: "readonly-client-id52".to_string() },
    );
    web01.services.insert(
        "admin".to_string(),
        ServiceConfig { port: 8080, allow_from: "admin-client-id52".to_string() },
    );
    config.machines.insert("web01".to_string(), web01);
    config.machines.insert("client".to_string(), MachineConfig::new("client1-id52".to_string()));
    config
}

fn some_identity() -> Identity {
    Identity { secret_key: [7u8; 32], id52: "server-id52".to_string() }
}

#[test]
fn test_config_parsing() {
    let mut config = Config::new(manager("test-cluster-manager-id52"));
    let mut web01 = server_machine("web01-id52", Some("laptop-id52,admin-id52"));
    web01.commands.insert("ls".to_string(), CommandConfig { allow_from: "readonly-id52".to_string() });
    web01.services.insert(
        "admin".to_string(),
        ServiceConfig { port: 8080, allow_from: "admin-id52".to_string() },
    );
    config.machines.insert("web01".to_string(), web01);
    config.machines.insert("laptop".to_string(), MachineConfig::new("laptop-id52".to_string()));
    config.groups.insert("web_servers".to_string(), GroupConfig { members: "web01,web02".to_string() });

    assert_eq!(config.cluster_manager.id52, "test-cluster-manager-id52");
    assert_eq!(config.machines.len(), 2);
    assert_eq!(config.groups.len(), 1);
    assert!(config.machines.get("web01").unwrap().accept_ssh);
    assert!(!config.machines.get("laptop").unwrap().accept_ssh);
}

#[test]
fn test_access_control() {
    let config = access_control_config();

    // Test machine SSH access
    assert!(config.can_execute_command("client1-id52", "web01", "bash"));
    assert!(!config.can_execute_command("client3-id52", "web01", "bash"));

    // Test command-specific access
    assert!(config.can_execute_command("readonly-client-id52", "web01", "ls"));
    assert!(!config.can_execute_command("readonly-client-id52", "web01", "bash"));

    // Test client-only machine cannot accept SSH
    assert!(!config.can_execute_command("client1-id52", "laptop", "bash"));
}

#[test]
fn config_test_role_detection() {
    let mut config = Config::new(manager("manager-id52"));
    config.machines.insert("web01".to_string(), server_machine("web01-id52", None));
    config.machines.insert("laptop".to_string(), MachineConfig::new("laptop-id52".to_string()));

    assert_eq!(config.get_local_role("manager-id52"), MachineRole::ClusterManager);
    assert_eq!(config.get_local_role("web01-id52"), MachineRole::SshServer("web01".to_string()));
    assert_eq!(config.get_local_role("laptop-id52"), MachineRole::ClientOnly("laptop".to_string()));
    assert_eq!(config.get_local_role("unknown-id52"), MachineRole::Unknown);
}

#[test]
fn test_config_parsing_basic() {
    let mut config = Config::new(manager("cluster-manager-id52-test"));
    config.machines.insert("web01".to_string(), server_machine("web01-id52-test", Some("*")));
    config.machines.insert("laptop".to_string(), MachineConfig::new("laptop-id52-test".to_string()));
    config.groups.insert("servers".to_string(), GroupConfig { members: "web01".to_string() });

    // Test basic structure
    assert_eq!(config.cluster_manager.id52, "cluster-manager-id52-test");
    assert_eq!(config.machines.len(), 2);
    assert_eq!(config.groups.len(), 1);

    // Test machine properties
    let web01 = config.machines.get("web01").expect("web01 should exist");
    assert_eq!(web01.id52, "web01-id52-test");
    assert!(web01.accept_ssh);
    assert_eq!(web01.allow_from.as_ref().unwrap(), "*");

    let laptop = config.machines.get("laptop").expect("laptop should exist");
    assert_eq!(laptop.id52, "laptop-id52-test");
    assert!(!laptop.accept_ssh); // defaults to false
}

#[test]
fn ssh_config_test_test_role_detection() {
    let mut config = Config::new(manager("manager-id52"));
    config.machines.insert("server1".to_string(), server_machine("server1-id52", None));
    config.machines.insert("client1".to_string(), MachineConfig::new("client1-id52".to_string()));

    // Test role detection
    assert_eq!(config.get_local_role("manager-id52"), MachineRole::ClusterManager);
    assert_eq!(
        config.get_local_role("server1-id52"),
        MachineRole::SshServer("server1".to_string())
    );
    assert_eq!(
        config.get_local_role("client1-id52"),
        MachineRole::ClientOnly("client1".to_string())
    );
    assert_eq!(config.get_local_role("unknown-id52"), MachineRole::Unknown);
}

#[test]
fn test_permission_checking() {
    let mut config = Config::new(manager("manager-id52"));
    let mut web01 = server_machine("web01-id52", Some("client1-id52,admin-id52"));
    web01.commands.insert("ls".to_string(), CommandConfig { allow_from: "readonly-id52".to_string() });
    web01.services.insert(
        "api".to_string(),
        ServiceConfig { port: 8080, allow_from: "client1-id52".to_string() },
    );
    config.machines.insert("web01".to_string(), web01);
    config.machines.insert("client1".to_string(), MachineConfig::new("client1-id52".to_string()));

    // Test SSH access permissions
    assert!(config.can_execute_command("client1-id52", "web01", "bash"));
    assert!(!config.can_execute_command("unknown-id52", "web01", "bash"));
    assert!(!config.can_execute_command("client1-id52", "client1", "bash")); // client1 doesn't accept SSH

    // Test command-specific permissions
    assert!(config.can_execute_command("readonly-id52", "web01", "ls"));
    assert!(!config.can_execute_command("client1-id52", "web01", "ls")); // needs specific permission for ls

    // Test service access permissions
    assert!(config.can_access_service("client1-id52", "web01", "api"));
    assert!(!config.can_access_service("unknown-id52", "web01", "api"));
}

#[test]
fn test_server_creation() {
    let config = server_config();
    let server = Server::new(config, "web01".to_string(), some_identity());

    assert_eq!(server.machine_name(), "web01");
    assert_eq!(server.get_config().machines.len(), 2);
}

#[test]
fn test_service_access_control() {
    let config = server_config();
    let server = Server::new(config, "web01".to_string(), some_identity());

    // admin-client-id52 should be able to access admin service
    assert!(server.can_client_access_service("admin-client-id52", "admin"));

    // client1-id52 should not be able to access admin service
    assert!(!server.can_client_access_service("client1-id52", "admin"));
}

#[test]
fn test_exposed_services() {
    let config = server_config();
    let server = Server::new(config, "web01".to_string(), some_identity());

    let services = server.get_exposed_services();
    assert_eq!(services.len(), 1);
    assert_eq!(services[0].0, "admin");
    assert_eq!(services[0].1, 8080);
}

#[test]
fn test_cluster_manager_creation() {
    let mut config = Config::new(manager("cluster-manager-id52"));
    config.machines.insert("web01".to_string(), server_machine("web01-id52", Some("device1-id52")));
    config.machines.insert("laptop".to_string(), MachineConfig::new("laptop-id52".to_string()));

    let manager =
        ClusterManager::new(config, "cluster-config.toml".to_string(), "abc".to_string());
    assert_eq!(manager.get_config().cluster_manager.id52, "cluster-manager-id52");
    assert_eq!(manager.get_config().machines.len(), 2);
    assert_eq!(manager.get_all_members(), vec!["web01".to_string(), "laptop".to_string()]);
}

#[test]
fn test_member_config_filtering() {
    let mut cluster_manager = manager("cluster-manager-id52");
    cluster_manager.private_key = Some("secret-key-here".to_string());
    let mut config = Config::new(cluster_manager);
    config.machines.insert("web01".to_string(), MachineConfig::new("web01-id52".to_string()));

    let manager =
        ClusterManager::new(config, "cluster-config.toml".to_string(), "abc".to_string());
    let member_config = manager.get_member_config("web01-id52");

    // Sensitive data should be removed
    assert!(member_config.cluster_manager.private_key.is_none());
    assert!(member_config.cluster_manager.private_key_file.is_none());
    assert_eq!(member_config.cluster_manager.id52, "cluster-manager-id52");
    assert_eq!(member_config.machines.len(), 1);
}

#[test]
fn config_wildcard_lets_everybody_in() {
    let mut config = Config::new(manager("m"));
    config.machines.insert("web".to_string(), server_machine("web-id52", Some("*")));
    assert!(config.can_execute_command("anyone", "web", "ls"));
    assert_eq!(config.get_accessible_machines("anyone"), vec!["web".to_string()]);
}

#[test]
fn config_accessible_machines_keep_table_order() {
    let mut config = Config::new(manager("m"));
    config.machines.insert("b".to_string(), server_machine("b-id52", Some("me")));
    config.machines.insert("quiet".to_string(), MachineConfig::new("q-id52".to_string()));
    config.machines.insert("a".to_string(), server_machine("a-id52", Some("me,you")));
    config.machines.insert("c".to_string(), server_machine("c-id52", Some("you")));
    assert_eq!(config.get_accessible_machines("me"), vec!["b".to_string(), "a".to_string()]);
    assert!(config.get_accessible_machines("nobody").is_empty());
}

#[test]
fn config_unknown_machine_or_service_is_refused() {
    let config = server_config();
    assert!(!config.can_execute_command("client1-id52", "nowhere", "ls"));
    assert!(!config.can_access_service("admin-client-id52", "web01", "nothing"));
    assert!(!config.can_access_service("admin-client-id52", "nowhere", "admin"));
}

#[test]
fn cluster_manager_tracks_member_hashes() {
    let config = Config::new(manager("m"));
    let mut manager = ClusterManager::new(config, "c.toml".to_string(), "hash-1".to_string());
    assert!(!manager.is_member_config_current("web01-id52"));
    manager.update_member_hash("web01-id52".to_string(), "hash-0".to_string());
    assert!(!manager.is_member_config_current("web01-id52"));
    manager.update_member_hash("web01-id52".to_string(), "hash-1".to_string());
    assert!(manager.is_member_config_current("web01-id52"));
    assert_eq!(manager.get_config_hash(), "hash-1");
    assert_eq!(manager.get_config_path(), "c.toml");
}

#[test]
fn cluster_manager_member_config_is_a_copy() {
    let mut cluster_manager = manager("cluster-manager-id52");
    cluster_manager.private_key = Some("secret-key-here".to_string());
    cluster_manager.private_key_file = Some("/etc/key".to_string());
    cluster_manager.use_keyring = false;
    let mut config = server_config();
    config.cluster_manager = cluster_manager;
    config.groups.insert("web".to_string(), GroupConfig { members: "web01".to_string() });
    let manager = ClusterManager::new(config, "c.toml".to_string(), "h".to_string());
    let copy = manager.get_member_config("web01-id52");
    assert!(!copy.cluster_manager.use_keyring);
    assert!(copy.cluster_manager.private_key.is_none());
    assert!(copy.cluster_manager.private_key_file.is_none());
    assert!(manager.get_config().cluster_manager.private_key.is_some());
    assert_eq!(copy.machines.len(), 2);
    assert_eq!(copy.machines.name_at(0), "web01");
    assert_eq!(copy.machines.name_at(1), "client");
    let web01 = copy.machines.get("web01").unwrap();
    assert_eq!(web01.id52, "web01-id52");
    assert!(web01.accept_ssh);
    assert_eq!(web01.allow_from.as_deref(), Some("client1-id52,client2-id52"));
    assert_eq!(web01.commands.get("ls").unwrap().allow_from, "readonly-client-id52");
    assert_eq!(web01.services.get("admin").unwrap().port, 8080);
    assert_eq!(copy.groups.get("web").unwrap().members, "web01");
    assert!(copy.can_execute_command("readonly-client-id52", "web01", "ls"));
    assert!(!copy.can_execute_command("readonly-client-id52", "web01", "bash"));
    let machine = web01.copy();
    assert_eq!(machine.services.len(), 1);
}
