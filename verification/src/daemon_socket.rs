//! The messages that a daemon and its command line exchange over the
//! control socket: one request, one response, then the connection closes.

use vstd::prelude::*;
use vstd::utf8::encode_utf8;
use crate::json::{json_object_members, json_string_text, member_views, parse_members, quote};
use crate::text::{concat, same_text};

verus! {

/// A message on the control socket.
#[derive(Debug)]
pub enum DaemonMessage {
    /// Request: rescan every cluster.
    RescanAll,
    /// Request: rescan one cluster.
    RescanCluster(String),
    /// Response: done.
    Success,
    /// Response: failed, with the reason.
    Error(String),
}

/// A message, as the contracts see it.
pub enum MessageView {
    RescanAll,
    RescanCluster(Seq<char>),
    Success,
    Error(Seq<char>),
}

impl View for DaemonMessage {
    type V = MessageView;

    open spec fn view(&self) -> MessageView {
        match self {
            DaemonMessage::RescanAll => MessageView::RescanAll,
            DaemonMessage::RescanCluster(name) => MessageView::RescanCluster(name@),
            DaemonMessage::Success => MessageView::Success,
            DaemonMessage::Error(text) => MessageView::Error(text@),
        }
    }
}

/// What the daemon does with the bytes of a connection.
#[derive(Debug)]
pub enum ControlStep {
    /// The client sent nothing: close.
    Closed,
    /// The bytes are no message: close without a response.
    Malformed,
    /// Rescan, one cluster or all, then answer with the outcome.
    Rescan(Option<String>),
    /// Answer with this message.
    Respond(DaemonMessage),
}

/// Why a rescan that was asked of a daemon did not succeed.
#[derive(Debug)]
pub enum RescanError {
    /// There is no socket: no daemon runs.
    DaemonNotRunning,
    /// The daemon closed the connection without a response.
    NoResponse,
    /// The response is no message, or is a request.
    InvalidResponse,
    /// The daemon reported an error.
    Failed(String),
}

/// `{"name":null}`
pub open spec fn null_member(name: Seq<char>) -> Seq<char> {
    "{"@ + json_string_text(name) + ":null}"@
}

/// `{"name":"value"}`
pub open spec fn text_member(name: Seq<char>, value: Seq<char>) -> Seq<char> {
    "{"@ + json_string_text(name) + ":"@ + json_string_text(value) + "}"@
}

/// A message as it is written: an object with one member, whose name is the
/// kind of the message and whose value is its text, or `null`.
pub open spec fn spec_encode(message: MessageView) -> Seq<char> {
    match message {
        MessageView::RescanAll => null_member("RescanAll"@),
        MessageView::RescanCluster(name) => text_member("RescanCluster"@, name),
        MessageView::Success => null_member("Success"@),
        MessageView::Error(text) => text_member("Error"@, text),
    }
}

/// The message that the members of an object stand for, if any.
pub open spec fn message_of(members: Seq<(Seq<char>, Option<Seq<char>>)>) -> Option<MessageView> {
    if members.len() != 1 {
        None
    } else {
        let (name, value) = members[0];
        match value {
            None => if name == "RescanAll"@ {
                Some(MessageView::RescanAll)
            } else if name == "Success"@ {
                Some(MessageView::Success)
            } else {
                None
            },
            Some(text) => if name == "RescanCluster"@ {
                Some(MessageView::RescanCluster(text))
            } else if name == "Error"@ {
                Some(MessageView::Error(text))
            } else {
                None
            },
        }
    }
}

/// The message that bytes stand for, if any.
pub open spec fn spec_decode(bytes: Seq<u8>) -> Option<MessageView> {
    match json_object_members(bytes) {
        Some(members) => message_of(members),
        None => None,
    }
}

fn encode_null_member(name: &str) -> (text: String)
    ensures
        text@ == null_member(name@),
{
    let quoted = quote(name);
    let head = concat("{", quoted.as_str());
    concat(head.as_str(), ":null}")
}

fn encode_text_member(name: &str, value: &str) -> (text: String)
    ensures
        text@ == text_member(name@, value@),
{
    let quoted = quote(name);
    let text = quote(value);
    let head = concat("{", quoted.as_str());
    let named = concat(head.as_str(), ":");
    let valued = concat(named.as_str(), text.as_str());
    concat(valued.as_str(), "}")
}

impl DaemonMessage {
    /// Writes the message down.
    pub fn encode(&self) -> (bytes: Vec<u8>)
        ensures
            bytes@ == encode_utf8(spec_encode(self@)),
    {
        let text = match self {
            DaemonMessage::RescanAll => encode_null_member("RescanAll"),
            DaemonMessage::RescanCluster(name) => encode_text_member(
                "RescanCluster",
                name.as_str(),
            ),
            DaemonMessage::Success => encode_null_member("Success"),
            DaemonMessage::Error(reason) => encode_text_member("Error", reason.as_str()),
        };
        text.as_str().as_bytes_vec()
    }

    /// Reads a message.
    pub fn decode(bytes: &[u8]) -> (message: Option<DaemonMessage>)
        ensures
            match message {
                Some(m) => spec_decode(bytes@) == Some(m@),
                None => spec_decode(bytes@).is_none(),
            },
    {
        let mut members = match parse_members(bytes) {
            Some(members) => members,
            None => {
                return None;
            },
        };
        if members.len() != 1 {
            return None;
        }
        let ghost views = member_views(members@);
        let (name, value) = members.remove(0);
        assert(views[0] == (
            name@,
            match value {
                Some(text) => Some(text@),
                None => None,
            },
        ));
        match value {
            None => {
                if same_text(name.as_str(), "RescanAll") {
                    Some(DaemonMessage::RescanAll)
                } else if same_text(name.as_str(), "Success") {
                    Some(DaemonMessage::Success)
                } else {
                    None
                }
            },
            Some(text) => {
                if same_text(name.as_str(), "RescanCluster") {
                    Some(DaemonMessage::RescanCluster(text))
                } else if same_text(name.as_str(), "Error") {
                    Some(DaemonMessage::Error(text))
                } else {
                    None
                }
            },
        }
    }
}

/// What the daemon does with what it read from a connection.
///
/// Nothing read closes the connection. Bytes that are no message close it
/// too, with no response. A rescan request is carried out and answered with
/// its outcome; a response where a request belongs is answered with an
/// error.
pub fn handle_socket_connection(received: &[u8]) -> (step: ControlStep)
    ensures
        match step {
            ControlStep::Closed => received@.len() == 0,
            ControlStep::Malformed => received@.len() > 0 && spec_decode(received@).is_none(),
            ControlStep::Rescan(None) => received@.len() > 0 && spec_decode(received@) == Some(
                MessageView::RescanAll,
            ),
            ControlStep::Rescan(Some(name)) => received@.len() > 0 && spec_decode(received@)
                == Some(MessageView::RescanCluster(name@)),
            ControlStep::Respond(message) => {
                &&& received@.len() > 0
                &&& spec_decode(received@) matches Some(request)
                &&& request is Success || request is Error
                &&& message@ == MessageView::Error("Invalid message type"@)
            },
        },
{
    if received.len() == 0 {
        return ControlStep::Closed;
    }
    match DaemonMessage::decode(received) {
        None => ControlStep::Malformed,
        Some(DaemonMessage::RescanAll) => ControlStep::Rescan(None),
        Some(DaemonMessage::RescanCluster(name)) => ControlStep::Rescan(Some(name)),
        Some(_) => ControlStep::Respond(DaemonMessage::Error("Invalid message type".to_owned())),
    }
}

/// The response to a rescan request: success, or the error as text.
pub fn rescan_response(outcome: Result<(), String>) -> (message: DaemonMessage)
    ensures
        message@ == (match outcome {
            Ok(()) => MessageView::Success,
            Err(reason) => MessageView::Error(reason@),
        }),
{
    match outcome {
        Ok(()) => DaemonMessage::Success,
        Err(reason) => DaemonMessage::Error(reason),
    }
}

/// The request that asks a daemon to rescan one cluster, or all of them.
pub fn rescan_request(cluster_name: Option<String>) -> (message: DaemonMessage)
    ensures
        message@ == (match cluster_name {
            Some(name) => MessageView::RescanCluster(name@),
            None => MessageView::RescanAll,
        }),
{
    match cluster_name {
        Some(name) => DaemonMessage::RescanCluster(name),
        None => DaemonMessage::RescanAll,
    }
}

/// The first half of asking a daemon to rescan: the bytes to send. Without a
/// socket there is no daemon to ask, and nothing is sent.
pub fn send_daemon_rescan_command(socket_exists: bool, cluster_name: Option<String>) -> (request:
    Result<Vec<u8>, RescanError>)
    ensures
        match request {
            Ok(bytes) => socket_exists && bytes@ == encode_utf8(
                spec_encode(
                    match cluster_name {
                        Some(name) => MessageView::RescanCluster(name@),
                        None => MessageView::RescanAll,
                    },
                ),
            ),
            Err(RescanError::DaemonNotRunning) => !socket_exists,
            Err(_) => false,
        },
{
    if !socket_exists {
        return Err(RescanError::DaemonNotRunning);
    }
    Ok(rescan_request(cluster_name).encode())
}

/// The second half: what the daemon's response means.
pub fn daemon_rescan_response(received: &[u8]) -> (outcome: Result<(), RescanError>)
    ensures
        match outcome {
            Ok(()) => received@.len() > 0 && spec_decode(received@) == Some(MessageView::Success),
            Err(RescanError::NoResponse) => received@.len() == 0,
            Err(RescanError::Failed(reason)) => received@.len() > 0 && spec_decode(received@)
                == Some(MessageView::Error(reason@)),
            Err(RescanError::InvalidResponse) => received@.len() > 0 && !(spec_decode(
                received@,
            ) matches Some(message) && (message is Success || message is Error)),
            Err(_) => false,
        },
{
    if received.len() == 0 {
        return Err(RescanError::NoResponse);
    }
    match DaemonMessage::decode(received) {
        Some(DaemonMessage::Success) => Ok(()),
        Some(DaemonMessage::Error(reason)) => Err(RescanError::Failed(reason)),
        _ => Err(RescanError::InvalidResponse),
    }
}

} // verus!
