use malai::table::Table;
use malai::test_utils::cluster::{ClusterTestHelper, AGENT_WAIT_SECS, AGENT_WAIT_SECS_CI};
use malai::test_utils::malai_cmd::MalaiCommand;
use malai::test_utils::simple::{detect_target_dir, get_malai_binary, CommandOutput, OutputError};
use malai::test_utils::ssh::SshTestHelper;
use malai::test_utils::{MalaiCliConfig, DEFAULT_TIMEOUT_SECS};
use std::time::Duration;

fn output(stdout: &str, stderr: &str, code: Option<i32>) -> CommandOutput {
    CommandOutput::from_output(stdout.to_string(), stderr.to_string(), code)
}

#[test]
fn test_utils_default_config() {
    let config = MalaiCliConfig::default();
    assert!(config.pre_build);
    assert!(config.cleanup_on_drop);
    assert!(config.skip_keyring);
    assert_eq!(config.default_timeout, Duration::from_secs(30));
    assert_eq!(DEFAULT_TIMEOUT_SECS, 30);
}

#[test]
fn test_utils_binary_location() {
    assert_eq!(get_malai_binary("/w/target/debug"), "/w/target/debug/malai");
    let workspace = "/w/target/debug".to_string();
    let parent = Some("/target/debug".to_string());
    assert_eq!(detect_target_dir(workspace.clone(), true, parent.clone(), true), workspace);
    assert_eq!(detect_target_dir(workspace.clone(), false, parent.clone(), true), "/target/debug");
    assert_eq!(detect_target_dir(workspace.clone(), false, parent, false), workspace);
    assert_eq!(detect_target_dir(workspace.clone(), false, None, true), workspace);
}

#[test]
fn test_utils_command_builder() {
    let command = MalaiCommand::new("/bin/malai".to_string())
        .malai_home("/tmp/home")
        .env("A", "1")
        .env("B", "2")
        .env("A", "3")
        .timeout(Duration::from_secs(5));
    assert_eq!(command.get_binary_path(), "/bin/malai");
    assert_eq!(command.get_malai_home().as_deref(), Some("/tmp/home"));
    assert_eq!(command.get_env("A").map(|s| s.as_str()), Some("3"));
    assert_eq!(command.get_env("B").map(|s| s.as_str()), Some("2"));
    assert_eq!(command.get_env("C"), None);
    assert_eq!(command.get_timeout(), Duration::from_secs(5));
    let fresh = MalaiCommand::new("/bin/malai".to_string());
    assert_eq!(fresh.get_timeout(), Duration::from_secs(30));
    assert!(fresh.get_malai_home().is_none());
}

#[test]
fn test_utils_arguments() {
    assert_eq!(MalaiCommand::ssh_create_cluster(None), vec!["ssh", "create-cluster"]);
    assert_eq!(
        MalaiCommand::ssh_create_cluster(Some("prod")),
        vec!["ssh", "create-cluster", "--alias", "prod"]
    );
    assert_eq!(
        MalaiCommand::ssh_exec("web01", "ls", &["-l".to_string(), "/".to_string()]),
        vec!["ssh", "exec", "web01", "ls", "-l", "/"]
    );
    assert_eq!(MalaiCommand::ssh_exec("web01", "ls", &[]), vec!["ssh", "exec", "web01", "ls"]);
    assert_eq!(MalaiCommand::http(8080, true), vec!["http", "8080", "--public"]);
    assert_eq!(MalaiCommand::http(0, false), vec!["http", "0"]);
    assert_eq!(MalaiCommand::http(65535, false), vec!["http", "65535"]);
    assert_eq!(MalaiCommand::folder("/srv", true), vec!["folder", "/srv", "--public"]);
    assert_eq!(MalaiCommand::folder("/srv", false), vec!["folder", "/srv"]);
}

#[test]
fn test_utils_output_expectations() {
    let ok = output("fine", "", Some(0));
    assert!(ok.success);
    assert_eq!(ok.exit_code, Some(0));
    assert!(ok.expect_success().is_ok());
    assert_eq!(output("", "bad", Some(2)).expect_success().unwrap_err(), OutputError::Failed);
    assert_eq!(output("", "", None).expect_success().unwrap_err(), OutputError::Failed);
    assert!(output("", "bad", Some(2)).expect_failure().is_ok());
    assert_eq!(
        output("fine", "", Some(0)).expect_failure().unwrap_err(),
        OutputError::UnexpectedSuccess
    );
    let both = output("in stdout", "in stderr", Some(0));
    assert!(both.contains("stdout"));
    assert!(both.contains("in stderr"));
    assert!(!both.contains("nowhere"));
    assert_eq!(both.assert_contains("stdout"), Ok(()));
    assert_eq!(both.assert_contains("nowhere"), Err(OutputError::TextMissing));
}

#[test]
fn test_utils_extract_id52() {
    let from_stderr = output(
        "Generated Public Key (ID52): from-stdout\n",
        "warn\r\nGenerated Public Key (ID52):  abc123 \r\nmore\n",
        Some(0),
    );
    assert_eq!(from_stderr.extract_id52().unwrap(), "abc123");
    let from_stdout = output("x\nID52: one:two\n", "nothing here", Some(0));
    assert_eq!(from_stdout.extract_id52().unwrap(), "one");
    let last_line = output("ID52:tail", "", Some(0));
    assert_eq!(last_line.extract_id52().unwrap(), "tail");
    assert_eq!(output("ID52 without colon", "", Some(0)).extract_id52(), Err(OutputError::NoId52));
    assert_eq!(output("", "", Some(0)).extract_id52(), Err(OutputError::NoId52));
    assert_eq!(output("a: b", "", Some(0)).extract_id52(), Err(OutputError::NoId52));
    // the colon may stand before the marker
    assert_eq!(output("key: ID52 x", "", Some(0)).extract_id52().unwrap(), "ID52 x");
}

#[test]
fn test_utils_extract_cluster_id() {
    let created = output("working\nCluster created with ID: c-52 \nnext\n", "", Some(0));
    assert_eq!(created.extract_cluster_id().unwrap(), "c-52");
    let in_stderr = output("", "Cluster created with ID: c-52", Some(0));
    assert_eq!(in_stderr.extract_cluster_id(), Err(OutputError::NoClusterId));
    let earlier_colon = output("note: Cluster created with ID: c-52", "", Some(0));
    assert_eq!(earlier_colon.extract_cluster_id().unwrap(), "Cluster created with ID");
}

#[test]
fn test_utils_basic_cluster() {
    let cluster = SshTestHelper::create_basic_cluster("c-52".to_string());
    assert_eq!(cluster.cluster_id(), "c-52");
    assert_eq!(cluster.manager(), "cluster-manager");
    assert_eq!(cluster.server(), "ssh-server");
    assert_eq!(cluster.client(), "client");
    assert_eq!(ClusterTestHelper::setup_basic_ssh_cluster(true), AGENT_WAIT_SECS_CI);
    assert_eq!(ClusterTestHelper::setup_basic_ssh_cluster(false), AGENT_WAIT_SECS);
    assert_eq!((AGENT_WAIT_SECS, AGENT_WAIT_SECS_CI), (3, 10));
}

#[test]
fn test_utils_config_sections() {
    assert_eq!(
        SshTestHelper::add_machine_to_cluster("web01", "w-id52", true, "*"),
        "\n[machine.web01]\nid52 = \"w-id52\"\naccept_ssh = true\nallow_from = \"*\"\n"
    );
    assert_eq!(
        SshTestHelper::add_machine_to_cluster("client1", "c-id52", false, ""),
        "\n[machine.client1]\nid52 = \"c-id52\"\n"
    );
    assert_eq!(
        SshTestHelper::add_http_service("web01", "api", 8080, "c-id52"),
        "\n[machine.web01.service.api]\nport = 8080\nallow_from = \"c-id52\"\n"
    );
    let parsed: toml::Value =
        toml::from_str(&SshTestHelper::add_machine_to_cluster("web01", "w-id52", true, "*"))
            .unwrap();
    assert_eq!(parsed["machine"]["web01"]["id52"].as_str(), Some("w-id52"));
}

#[test]
fn table_keeps_names_unique_and_ordered() {
    let mut table: Table<u32> = Table::new();
    assert!(table.is_empty());
    assert_eq!(table.insert("b".to_string(), 1), None);
    assert_eq!(table.insert("a".to_string(), 2), None);
    assert_eq!(table.insert("b".to_string(), 3), Some(1));
    assert_eq!(table.len(), 2);
    assert_eq!(table.name_at(0), "b");
    assert_eq!(*table.value_at(0), 3);
    assert_eq!(table.name_at(1), "a");
    assert_eq!(table.get("a"), Some(&2));
    assert_eq!(table.get("c"), None);
    assert_eq!(table.position("a"), Some(1));
    assert!(table.contains_key("b"));
    assert_eq!(table.remove("b"), Some(3));
    assert_eq!(table.remove("b"), None);
    assert_eq!(table.len(), 1);
    assert_eq!(table.name_at(0), "a");
    assert!(!table.is_empty());
}
