use malai::frame::{decode_tag, tag_json};
use malai::protocol::{
    ConfigSyncError, ConfigSyncErrorCode, ExecuteError, ExecuteErrorCode, HttpProxyError,
    HttpProxyErrorCode, ShellError, ShellErrorCode, SshProtocol,
};
use malai::tag::ProtocolTag;

#[test]
fn test_protocol_display() {
    assert_eq!(SshProtocol::Execute.to_string(), "ssh-execute");
    assert_eq!(SshProtocol::Shell.to_string(), "ssh-shell");
    assert_eq!(SshProtocol::HttpProxy.to_string(), "ssh-http-proxy");
    assert_eq!(SshProtocol::ConfigSync.to_string(), "ssh-config-sync");
}

#[test]
fn test_protocol_serialization() {
    let protocol = SshProtocol::Execute;
    let json = tag_json(protocol.tag());
    let deserialized = SshProtocol::from_tag(decode_tag(&json).unwrap()).unwrap();
    assert_eq!(protocol, deserialized);
}

#[test]
fn protocol_tag_json_is_quoted_name() {
    assert_eq!(tag_json(ProtocolTag::Execute), b"\"Execute\"".to_vec());
    assert_eq!(tag_json(ProtocolTag::Ping), b"\"Ping\"".to_vec());
}

#[test]
fn protocol_from_tag_refuses_foreign_tags() {
    assert_eq!(SshProtocol::from_tag(ProtocolTag::Ping), None);
    assert_eq!(SshProtocol::from_tag(ProtocolTag::ConfigUpdate), None);
    assert_eq!(SshProtocol::from_tag(ProtocolTag::Shell), Some(SshProtocol::Shell));
}

#[test]
fn protocol_errors_show_message_and_code() {
    let execute = ExecuteError {
        message: "no".to_string(),
        error_code: ExecuteErrorCode::PermissionDenied,
    };
    assert_eq!(execute.to_string(), "no (PermissionDenied)");
    let shell = ShellError { message: "gone".to_string(), error_code: ShellErrorCode::SessionFailed };
    assert_eq!(shell.to_string(), "gone (SessionFailed)");
    let proxy = HttpProxyError {
        message: "down".to_string(),
        error_code: HttpProxyErrorCode::ServiceUnavailable,
    };
    assert_eq!(proxy.to_string(), "down (ServiceUnavailable)");
    let sync = ConfigSyncError {
        message: "who".to_string(),
        error_code: ConfigSyncErrorCode::MemberNotFound,
    };
    assert_eq!(sync.to_string(), "who (MemberNotFound)");
}
