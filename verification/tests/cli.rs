use malai::cli::{
    direct_target, execute_direct_command, find_machine_id52_in_config, get_malai_home,
    identity_read_err_msg, public_check, remote_access_finished, rescan_steps,
    send_remote_access_command, start_malai_daemon, ClusterDirState, DirectError, DirectTarget,
    RemoteError, RescanStep, REMOTE_TIMEOUT_SECS,
};
use malai::identity::Identity;
use malai::keygen::{
    init_machine_with_dns_support, keygen, keygen_announcement, resolve_cluster_manager_id52,
    ClusterManagerName, KeygenStep,
};
use malai::malai_server::{
    command_finished, command_sent, config_sent, handle_command_execution,
    handle_config_update, machine_config_file, send_command, send_config, server_protocols,
    CallOutcome, CommandError, CommandErrorKind, CommandResponse, ConfigError, ConfigResponse,
    MalaiProtocol, ProcessOutput, SendError,
};
use malai::simple_server::{run_simple_malai_server, simple_protocols, EchoRequest};
use malai::tag::ProtocolTag;
use malai::toml_value::TomlValue;

fn table(members: Vec<(&str, TomlValue)>) -> TomlValue {
    TomlValue::Table(members.into_iter().map(|(k, v)| (k.to_string(), v)).collect())
}

fn text(value: &str) -> TomlValue {
    TomlValue::Text(value.to_string())
}

fn cluster_config() -> TomlValue {
    table(vec![
        ("cluster_manager", table(vec![("id52", text("manager-id52"))])),
        (
            "machine",
            table(vec![
                ("web01", table(vec![("id52", text("web01-id52")), ("accept_ssh", TomlValue::Boolean(true))])),
                ("odd", table(vec![("id52", TomlValue::Integer(7))])),
                ("bare", table(vec![("accept_ssh", TomlValue::Boolean(true))])),
                ("flat", text("not a table")),
            ]),
        ),
    ])
}

const BOTH_FILES: ClusterDirState = ClusterDirState {
    exists: true,
    has_cluster_key: true,
    has_machine_key: false,
    has_cluster_toml: true,
    has_machine_toml: false,
};

#[test]
fn test_malai_home_detection() {
    // Test default behavior
    let default_home = get_malai_home(None, Some("/home/u/.local/share".to_string()));
    assert!(default_home.contains("malai"));
    assert_eq!(default_home, "/home/u/.local/share/malai");

    // Test override behavior
    let custom_home = get_malai_home(
        Some("/tmp/custom-malai-test".to_string()),
        Some("/home/u/.local/share".to_string()),
    );
    assert_eq!(custom_home, "/tmp/custom-malai-test");
    assert_eq!(get_malai_home(None, None), "malai");
}

#[test]
fn cli_public_check() {
    assert!(public_check(true, "folder", "malai folder --public x").is_none());
    let refusal = public_check(false, "HTTP service", "malai http 80 --public").unwrap();
    assert_eq!(refusal.len(), 3);
    assert_eq!(
        refusal[0],
        "You need to pass --public to expose the HTTP service. This is a security feature to prevent exposing your service to the public without your knowledge."
    );
    assert_eq!(refusal[1], "Instead, run: malai http 80 --public");
    assert_eq!(refusal[2], "In future, we will add a way to add access control.");
}

#[test]
fn cli_daemon_environment() {
    assert_eq!(
        start_malai_daemon("/home/u/malai"),
        vec![
            "MALAI_HOME=/home/u/malai".to_string(),
            "MALAI_DAEMON_SOCK=/home/u/malai/malai.socket".to_string(),
        ]
    );
}

#[test]
fn cli_rescan_steps() {
    let check_only = rescan_steps(true, Some("x".to_string()));
    assert_eq!(check_only.len(), 1);
    assert!(matches!(&check_only[0], RescanStep::Check(Some(name)) if name == "x"));
    let apply = rescan_steps(false, None);
    assert_eq!(apply.len(), 2);
    assert!(matches!(&apply[0], RescanStep::Check(None)));
    assert!(matches!(&apply[1], RescanStep::Reload(None)));
    let selective = rescan_steps(false, Some("y".to_string()));
    assert!(matches!(&selective[0], RescanStep::Check(Some(name)) if name == "y"));
    assert!(matches!(&selective[1], RescanStep::Reload(Some(name)) if name == "y"));
}

#[test]
fn cli_direct_command_plan() {
    let plan = execute_direct_command("web01.prod", BOTH_FILES).unwrap();
    assert_eq!(plan.machine_alias, "web01");
    assert_eq!(plan.cluster_alias, "prod");
    assert_eq!(plan.key_file, "cluster.private-key");
    assert_eq!(plan.config_file, "cluster.toml");
    let machine = ClusterDirState {
        exists: true,
        has_cluster_key: false,
        has_machine_key: true,
        has_cluster_toml: false,
        has_machine_toml: true,
    };
    let plan = execute_direct_command("web01.prod", machine).unwrap();
    assert_eq!(plan.key_file, "machine.private-key");
    assert_eq!(plan.config_file, "machine.toml");
    let mixed = ClusterDirState { has_cluster_toml: true, ..machine };
    assert_eq!(execute_direct_command("a.b", mixed).unwrap().config_file, "cluster.toml");
}

#[test]
fn cli_direct_command_errors() {
    for address in ["web01", "a.b.c", "", "a..b"] {
        assert_eq!(
            execute_direct_command(address, BOTH_FILES).unwrap_err(),
            DirectError::InvalidFormat
        );
    }
    let missing = ClusterDirState { exists: false, ..BOTH_FILES };
    assert_eq!(
        execute_direct_command("a.b", missing).unwrap_err(),
        DirectError::ClusterNotFound
    );
    let both = ClusterDirState { has_machine_key: true, ..BOTH_FILES };
    assert_eq!(execute_direct_command("a.b", both).unwrap_err(), DirectError::BothKeys);
    let none = ClusterDirState { has_cluster_key: false, ..BOTH_FILES };
    assert_eq!(execute_direct_command("a.b", none).unwrap_err(), DirectError::NoIdentity);
    let unconfigured = ClusterDirState { has_cluster_toml: false, ..BOTH_FILES };
    assert_eq!(execute_direct_command("a.b", unconfigured).unwrap_err(), DirectError::NoConfig);
}

#[test]
fn cli_machine_lookup() {
    let config = cluster_config();
    assert_eq!(find_machine_id52_in_config(&config, "web01").unwrap(), "web01-id52");
    assert_eq!(find_machine_id52_in_config(&config, "odd").unwrap(), "");
    assert_eq!(
        find_machine_id52_in_config(&config, "bare").unwrap_err(),
        DirectError::NoId52
    );
    assert_eq!(
        find_machine_id52_in_config(&config, "flat").unwrap_err(),
        DirectError::InvalidMachineConfig
    );
    assert_eq!(
        find_machine_id52_in_config(&config, "nobody").unwrap_err(),
        DirectError::MachineNotFound
    );
    assert_eq!(
        find_machine_id52_in_config(&table(vec![]), "web01").unwrap_err(),
        DirectError::NoMachineSection
    );
    assert_eq!(
        find_machine_id52_in_config(&table(vec![("machine", text("x"))]), "web01").unwrap_err(),
        DirectError::NoMachinesTable
    );
    assert_eq!(
        find_machine_id52_in_config(&text("x"), "web01").unwrap_err(),
        DirectError::NoMachineSection
    );
}

#[test]
fn cli_self_command_runs_locally() {
    let config = cluster_config();
    assert!(matches!(direct_target(&config, "web01", "web01-id52"), Ok(DirectTarget::Local)));
    match direct_target(&config, "web01", "laptop-id52") {
        Ok(DirectTarget::Remote(id52)) => assert_eq!(id52, "web01-id52"),
        other => panic!("unexpected target {:?}", other),
    }
    assert_eq!(
        direct_target(&config, "nobody", "x").unwrap_err(),
        DirectError::MachineNotFound
    );
}

#[test]
fn toml_value_lookup() {
    let value = table(vec![("a", text("1")), ("b", TomlValue::Integer(2)), ("a", text("3"))]);
    assert_eq!(value.get("a").unwrap().as_str(), Some("1"));
    assert!(value.get("b").unwrap().as_str().is_none());
    assert!(value.get("c").is_none());
    assert!(value.is_table());
    assert!(!text("x").is_table());
    assert!(text("x").get("a").is_none());
    assert!(TomlValue::Array(vec![text("x")]).get("a").is_none());
    assert!(TomlValue::Other.as_str().is_none());
}

#[test]
fn keygen_steps() {
    let identity = Identity::from_secret([0xabu8; 32]);
    match keygen(&identity, None, false) {
        KeygenStep::Print(key) => assert_eq!(key, "ab".repeat(32)),
        other => panic!("unexpected step {:?}", other),
    }
    match keygen(&identity, Some("id.key".to_string()), false) {
        KeygenStep::Save { file, content } => {
            assert_eq!(file, "id.key");
            assert_eq!(content, format!("{}\n", "ab".repeat(32)));
        }
        other => panic!("unexpected step {:?}", other),
    }
    match keygen(&identity, Some("id.key".to_string()), true) {
        KeygenStep::Refuse(message) => assert_eq!(
            message,
            "File `id.key` already exists. Please choose a different file name."
        ),
        other => panic!("unexpected step {:?}", other),
    }
    assert_eq!(
        keygen_announcement(&identity),
        format!("Generated Public Key (ID52): {}", identity.id52)
    );
}

#[test]
fn machine_init_files() {
    let machine = Identity { secret_key: [1u8; 32], id52: "machine-id52".to_string() };
    let by_domain = init_machine_with_dns_support("corp.example", "cm-id52", "prod", &machine);
    assert_eq!(by_domain.private_key, "01".repeat(32));
    assert_eq!(
        by_domain.cluster_info,
        "# Cluster registration information\ncluster_alias = \"prod\"\ncluster_manager_id52 = \"cm-id52\"\nmachine_id52 = \"machine-id52\"\ndomain = \"corp.example\"\n"
    );
    let by_id = init_machine_with_dns_support("cm-id52", "cm-id52", "prod", &machine);
    assert!(by_id.cluster_info.ends_with("domain = \"\"\n"));
    assert!(matches!(
        resolve_cluster_manager_id52("corp.example"),
        ClusterManagerName::Domain(ref d) if d == "corp.example"
    ));
    assert!(matches!(
        resolve_cluster_manager_id52("cm-id52"),
        ClusterManagerName::Id52(ref d) if d == "cm-id52"
    ));
}

#[test]
fn malai_server_protocols() {
    assert_eq!(
        server_protocols(),
        vec![MalaiProtocol::ConfigUpdate, MalaiProtocol::ExecuteCommand]
    );
    assert_eq!(MalaiProtocol::ConfigUpdate.to_string(), "ConfigUpdate");
    assert_eq!(MalaiProtocol::ExecuteCommand.to_string(), "ExecuteCommand");
    assert_eq!(MalaiProtocol::ConfigUpdate.tag(), ProtocolTag::ConfigUpdate);
    assert_eq!(
        MalaiProtocol::from_tag(ProtocolTag::ExecuteCommand),
        Some(MalaiProtocol::ExecuteCommand)
    );
    assert_eq!(MalaiProtocol::from_tag(ProtocolTag::Execute), None);
    assert_eq!(machine_config_file(), "machine-config.toml");
}

#[test]
fn malai_server_answers() {
    let saved = handle_config_update(Ok(())).unwrap();
    assert!(saved.success);
    assert_eq!(saved.message, "Config received and saved successfully");
    assert_eq!(
        handle_config_update(Err("full".to_string())).unwrap_err().message,
        "Failed to save config: full"
    );
    assert!(handle_command_execution(true).is_ok());
    let gate = handle_command_execution(false).unwrap_err();
    assert_eq!(gate.error_type, "no_config");
    assert_eq!(gate.message, "Machine has no configuration");
    let done = command_finished(Ok(ProcessOutput {
        stdout: b"out".to_vec(),
        stderr: b"err".to_vec(),
        exit_code: Some(3),
    }))
    .unwrap();
    assert_eq!((done.stdout, done.stderr, done.exit_code), (b"out".to_vec(), b"err".to_vec(), 3));
    let killed = command_finished(Ok(ProcessOutput {
        stdout: Vec::new(),
        stderr: Vec::new(),
        exit_code: None,
    }))
    .unwrap();
    assert_eq!(killed.exit_code, -1);
    let failed = command_finished(Err("not found".to_string())).unwrap_err();
    assert_eq!(failed.error_type, "execution_failed");
    assert_eq!(failed.message, "not found");
    assert_eq!(CommandErrorKind::PermissionDenied.name(), "permission_denied");
    assert_eq!(CommandErrorKind::WaitingConfig.name(), "waiting_config");
}

#[test]
fn malai_server_client_side() {
    let target = Identity::from_secret([8u8; 32]).id52;
    let request =
        send_config("me".to_string(), &target, "a = 1", "2024-01-01T00:00:00Z".to_string())
            .unwrap();
    assert_eq!(request.sender_id52, "me");
    assert_eq!(request.config_content, "a = 1");
    assert_eq!(request.timestamp, "2024-01-01T00:00:00Z");
    assert!(matches!(
        send_config("me".to_string(), "nobody", "a = 1", String::new()),
        Err(SendError::InvalidTarget)
    ));
    let command = send_command("me".to_string(), &target, "ls", vec!["-l".to_string()]).unwrap();
    assert_eq!(command.client_id52, "me");
    assert_eq!(command.command, "ls");
    assert_eq!(command.args, vec!["-l".to_string()]);
    assert!(matches!(
        send_command("me".to_string(), "", "ls", Vec::new()),
        Err(SendError::InvalidTarget)
    ));
    let answered = config_sent(CallOutcome::Answered(ConfigResponse {
        success: true,
        message: "ok".to_string(),
    }));
    assert_eq!(answered.unwrap(), "ok");
    assert!(matches!(
        config_sent(CallOutcome::Refused(ConfigError { message: "no".to_string() })),
        Err(SendError::Peer(ref m)) if m == "Config error: no"
    ));
    assert!(matches!(
        config_sent(CallOutcome::Unreachable("down".to_string())),
        Err(SendError::P2p(ref m)) if m == "P2P failed: down"
    ));
    let response = CommandResponse { stdout: b"x".to_vec(), stderr: Vec::new(), exit_code: 0 };
    assert_eq!(command_sent(CallOutcome::Answered(response)).unwrap().stdout, b"x".to_vec());
    assert!(matches!(
        command_sent(CallOutcome::Refused(CommandError {
            error_type: "permission_denied".to_string(),
            message: "Access denied".to_string(),
        })),
        Err(SendError::Peer(ref m)) if m == "Command error: permission_denied: Access denied"
    ));
    assert!(matches!(
        command_sent(CallOutcome::Unreachable("down".to_string())),
        Err(SendError::P2p(ref m)) if m == "P2P failed: down"
    ));
}

#[test]
fn cli_remote_command_plan() {
    let plan = send_remote_access_command("web01.prod", true, true).unwrap();
    assert_eq!((plan.machine_alias.as_str(), plan.cluster_alias.as_str()), ("web01", "prod"));
    let plan = send_remote_access_command("web01.prod.example.com", true, true).unwrap();
    assert_eq!((plan.machine_alias.as_str(), plan.cluster_alias.as_str()), ("web01", "prod"));
    assert_eq!(
        send_remote_access_command("web01", true, true).unwrap_err(),
        RemoteError::InvalidAddress
    );
    assert_eq!(
        send_remote_access_command("web01.prod", false, false).unwrap_err(),
        RemoteError::NoClusterConfig
    );
    assert_eq!(
        send_remote_access_command("web01.prod", true, false).unwrap_err(),
        RemoteError::NoIdentity
    );
}

#[test]
fn cli_remote_command_outcomes() {
    assert_eq!(REMOTE_TIMEOUT_SECS, 30);
    let response = CommandResponse { stdout: b"x".to_vec(), stderr: Vec::new(), exit_code: 0 };
    assert_eq!(
        remote_access_finished(Some(CallOutcome::Answered(response))).unwrap().stdout,
        b"x".to_vec()
    );
    assert_eq!(
        remote_access_finished(Some(CallOutcome::Refused(CommandError {
            error_type: "permission_denied".to_string(),
            message: "Access denied".to_string(),
        })))
        .unwrap_err(),
        "Remote access error: permission_denied: Access denied"
    );
    assert_eq!(
        remote_access_finished(Some(CallOutcome::Unreachable("down".to_string()))).unwrap_err(),
        "P2P communication failed: down"
    );
    assert_eq!(
        remote_access_finished(None).unwrap_err(),
        "Remote command timed out after 30 seconds"
    );
    assert_eq!(
        identity_read_err_msg("no keyring"),
        vec![
            "failed to get identity",
            "malai uses your system keyring for storing identities securely.",
            "use `malai keygen` if system keyring is not available.",
            "full error:",
            "no keyring",
        ]
    );
}

#[test]
fn simple_server_answers() {
    let request = EchoRequest { message: "hello".to_string() };
    let protocols = simple_protocols();
    assert_eq!(protocols.len(), 3);
    assert_eq!(run_simple_malai_server(protocols[0], &request).response, "Echo: hello");
    assert_eq!(run_simple_malai_server(protocols[1], &request).response, "Config received");
    assert_eq!(run_simple_malai_server(protocols[2], &request).response, "Executed: hello");
    assert_eq!(protocols[0].to_string(), "Echo");
    assert_eq!(protocols[2].tag(), ProtocolTag::Execute);
    assert_eq!(
        malai::simple_server::MalaiProtocol::from_tag(ProtocolTag::Config),
        Some(protocols[1])
    );
    assert_eq!(malai::simple_server::MalaiProtocol::from_tag(ProtocolTag::Ping), None);
}
