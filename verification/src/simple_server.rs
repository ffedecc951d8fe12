//! A server with three protocols that answer with a line of text each: the
//! smallest thing that can be listened to and called.

use vstd::prelude::*;
use crate::tag::ProtocolTag;
use crate::text::concat;

verus! {

/// The protocols of the simple server.
#[derive(Clone, Copy, Debug, PartialEq, Eq, Structural)]
pub enum MalaiProtocol {
    Echo,
    Config,
    Execute,
}

#[derive(Debug)]
pub struct EchoRequest {
    pub message: String,
}

#[derive(Debug)]
pub struct EchoResponse {
    pub response: String,
}

#[derive(Debug)]
pub struct EchoError {
    pub error: String,
}

impl MalaiProtocol {
    pub open spec fn spec_tag(self) -> ProtocolTag {
        match self {
            MalaiProtocol::Echo => ProtocolTag::Echo,
            MalaiProtocol::Config => ProtocolTag::Config,
            MalaiProtocol::Execute => ProtocolTag::Execute,
        }
    }

    /// The tag under which the protocol goes over the wire.
    pub fn tag(&self) -> (tag: ProtocolTag)
        ensures
            tag == self.spec_tag(),
    {
        match self {
            MalaiProtocol::Echo => ProtocolTag::Echo,
            MalaiProtocol::Config => ProtocolTag::Config,
            MalaiProtocol::Execute => ProtocolTag::Execute,
        }
    }

    /// The protocol that a tag stands for, if it is one of the three.
    pub fn from_tag(tag: ProtocolTag) -> (protocol: Option<MalaiProtocol>)
        ensures
            match protocol {
                Some(p) => p.spec_tag() == tag,
                None => forall|p: MalaiProtocol| p.spec_tag() != tag,
            },
    {
        match tag {
            ProtocolTag::Echo => Some(MalaiProtocol::Echo),
            ProtocolTag::Config => Some(MalaiProtocol::Config),
            ProtocolTag::Execute => Some(MalaiProtocol::Execute),
            _ => None,
        }
    }

    /// The protocol's name, as it is shown.
    pub fn to_string(&self) -> (name: String)
        ensures
            name@ == self.spec_tag().spec_name(),
    {
        self.tag().name().to_owned()
    }
}

/// The protocols that the simple server listens for.
pub fn simple_protocols() -> (protocols: Vec<MalaiProtocol>)
    ensures
        protocols@ == seq![MalaiProtocol::Echo, MalaiProtocol::Config, MalaiProtocol::Execute],
{
    let mut protocols: Vec<MalaiProtocol> = Vec::new();
    protocols.push(MalaiProtocol::Echo);
    protocols.push(MalaiProtocol::Config);
    protocols.push(MalaiProtocol::Execute);
    assert(protocols@ =~= seq![
        MalaiProtocol::Echo,
        MalaiProtocol::Config,
        MalaiProtocol::Execute,
    ]);
    protocols
}

/// What the simple server answers to a request.
pub open spec fn spec_answer(protocol: MalaiProtocol, message: Seq<char>) -> Seq<char> {
    match protocol {
        MalaiProtocol::Echo => "Echo: "@ + message,
        MalaiProtocol::Config => "Config received"@,
        MalaiProtocol::Execute => "Executed: "@ + message,
    }
}

/// Answers a request: an echo comes back as it is, a configuration is
/// acknowledged, and a command is reported as run.
pub fn run_simple_malai_server(protocol: MalaiProtocol, request: &EchoRequest) -> (answer:
    EchoResponse)
    ensures
        answer.response@ == spec_answer(protocol, request.message@),
{
    match protocol {
        MalaiProtocol::Echo => EchoResponse {
            response: concat("Echo: ", request.message.as_str()),
        },
        MalaiProtocol::Config => EchoResponse { response: "Config received".to_owned() },
        MalaiProtocol::Execute => EchoResponse {
            response: concat("Executed: ", request.message.as_str()),
        },
    }
}

} // verus!
