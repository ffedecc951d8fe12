//! The closed set of protocol tags that both ends of a stream agree on, and
//! the one-line header that opens every stream.

use vstd::prelude::*;
use crate::text::same_text;

verus! {

/// What a stream is for. `Ping` is the health check; every other tag names a
/// request that a handler serves.
#[derive(Clone, Copy, Debug, PartialEq, Eq, Structural)]
pub enum ProtocolTag {
    Ping,
    Http,
    HttpProxy,
    Tcp,
    Execute,
    Shell,
    ConfigSync,
    ConfigUpdate,
    ExecuteCommand,
    Echo,
    Config,
}

/// The first one or two lines of a stream: the tag, and an optional second
/// line that only the protocol itself interprets.
#[derive(Clone, Debug)]
pub struct ProtocolHeader {
    pub protocol: ProtocolTag,
    pub extra: Option<String>,
}

impl ProtocolTag {
    /// The tag's name on the wire.
    pub open spec fn spec_name(self) -> Seq<char> {
        match self {
            ProtocolTag::Ping => "Ping"@,
            ProtocolTag::Http => "Http"@,
            ProtocolTag::HttpProxy => "HttpProxy"@,
            ProtocolTag::Tcp => "Tcp"@,
            ProtocolTag::Execute => "Execute"@,
            ProtocolTag::Shell => "Shell"@,
            ProtocolTag::ConfigSync => "ConfigSync"@,
            ProtocolTag::ConfigUpdate => "ConfigUpdate"@,
            ProtocolTag::ExecuteCommand => "ExecuteCommand"@,
            ProtocolTag::Echo => "Echo"@,
            ProtocolTag::Config => "Config"@,
        }
    }

    /// The tag that a name stands for, if any.
    pub open spec fn spec_from_name(name: Seq<char>) -> Option<ProtocolTag> {
        if name == "Ping"@ {
            Some(ProtocolTag::Ping)
        } else if name == "Http"@ {
            Some(ProtocolTag::Http)
        } else if name == "HttpProxy"@ {
            Some(ProtocolTag::HttpProxy)
        } else if name == "Tcp"@ {
            Some(ProtocolTag::Tcp)
        } else if name == "Execute"@ {
            Some(ProtocolTag::Execute)
        } else if name == "Shell"@ {
            Some(ProtocolTag::Shell)
        } else if name == "ConfigSync"@ {
            Some(ProtocolTag::ConfigSync)
        } else if name == "ConfigUpdate"@ {
            Some(ProtocolTag::ConfigUpdate)
        } else if name == "ExecuteCommand"@ {
            Some(ProtocolTag::ExecuteCommand)
        } else if name == "Echo"@ {
            Some(ProtocolTag::Echo)
        } else if name == "Config"@ {
            Some(ProtocolTag::Config)
        } else {
            None
        }
    }

    pub fn name(&self) -> (name: &'static str)
        ensures
            name@ == self.spec_name(),
    {
        match self {
            ProtocolTag::Ping => "Ping",
            ProtocolTag::Http => "Http",
            ProtocolTag::HttpProxy => "HttpProxy",
            ProtocolTag::Tcp => "Tcp",
            ProtocolTag::Execute => "Execute",
            ProtocolTag::Shell => "Shell",
            ProtocolTag::ConfigSync => "ConfigSync",
            ProtocolTag::ConfigUpdate => "ConfigUpdate",
            ProtocolTag::ExecuteCommand => "ExecuteCommand",
            ProtocolTag::Echo => "Echo",
            ProtocolTag::Config => "Config",
        }
    }

    pub fn from_name(name: &str) -> (tag: Option<ProtocolTag>)
        ensures
            tag == Self::spec_from_name(name@),
    {
        if same_text(name, "Ping") {
            Some(ProtocolTag::Ping)
        } else if same_text(name, "Http") {
            Some(ProtocolTag::Http)
        } else if same_text(name, "HttpProxy") {
            Some(ProtocolTag::HttpProxy)
        } else if same_text(name, "Tcp") {
            Some(ProtocolTag::Tcp)
        } else if same_text(name, "Execute") {
            Some(ProtocolTag::Execute)
        } else if same_text(name, "Shell") {
            Some(ProtocolTag::Shell)
        } else if same_text(name, "ConfigSync") {
            Some(ProtocolTag::ConfigSync)
        } else if same_text(name, "ConfigUpdate") {
            Some(ProtocolTag::ConfigUpdate)
        } else if same_text(name, "ExecuteCommand") {
            Some(ProtocolTag::ExecuteCommand)
        } else if same_text(name, "Echo") {
            Some(ProtocolTag::Echo)
        } else if same_text(name, "Config") {
            Some(ProtocolTag::Config)
        } else {
            None
        }
    }

    /// Whether the tag is one of `declared`.
    pub fn is_among(&self, declared: &[ProtocolTag]) -> (found: bool)
        ensures
            found == declared@.contains(*self),
    {
        let mut i: usize = 0;
        while i < declared.len()
            invariant
                i <= declared.len(),
                forall|j: int| 0 <= j < i ==> declared@[j] != *self,
            decreases declared.len() - i,
        {
            if declared[i] == *self {
                return true;
            }
            i += 1;
        }
        false
    }
}

/// Reveals what each tag name holds.
pub proof fn lemma_tag_names()
    ensures
        "Ping"@ == seq!['P', 'i', 'n', 'g'],
        "Http"@ == seq!['H', 't', 't', 'p'],
        "HttpProxy"@ == seq!['H', 't', 't', 'p', 'P', 'r', 'o', 'x', 'y'],
        "Tcp"@ == seq!['T', 'c', 'p'],
        "Execute"@ == seq!['E', 'x', 'e', 'c', 'u', 't', 'e'],
        "Shell"@ == seq!['S', 'h', 'e', 'l', 'l'],
        "ConfigSync"@ == seq!['C', 'o', 'n', 'f', 'i', 'g', 'S', 'y', 'n', 'c'],
        "ConfigUpdate"@ == seq!['C', 'o', 'n', 'f', 'i', 'g', 'U', 'p', 'd', 'a', 't', 'e'],
        "ExecuteCommand"@ == seq![
            'E', 'x', 'e', 'c', 'u', 't', 'e', 'C', 'o', 'm', 'm', 'a', 'n', 'd',
        ],
        "Echo"@ == seq!['E', 'c', 'h', 'o'],
        "Config"@ == seq!['C', 'o', 'n', 'f', 'i', 'g'],
{
    reveal_strlit("Ping");
    reveal_strlit("Http");
    reveal_strlit("HttpProxy");
    reveal_strlit("Tcp");
    reveal_strlit("Execute");
    reveal_strlit("Shell");
    reveal_strlit("ConfigSync");
    reveal_strlit("ConfigUpdate");
    reveal_strlit("ExecuteCommand");
    reveal_strlit("Echo");
    reveal_strlit("Config");
    assert("Ping"@ =~= seq!['P', 'i', 'n', 'g']);
    assert("Http"@ =~= seq!['H', 't', 't', 'p']);
    assert("HttpProxy"@ =~= seq!['H', 't', 't', 'p', 'P', 'r', 'o', 'x', 'y']);
    assert("Tcp"@ =~= seq!['T', 'c', 'p']);
    assert("Execute"@ =~= seq!['E', 'x', 'e', 'c', 'u', 't', 'e']);
    assert("Shell"@ =~= seq!['S', 'h', 'e', 'l', 'l']);
    assert("ConfigSync"@ =~= seq!['C', 'o', 'n', 'f', 'i', 'g', 'S', 'y', 'n', 'c']);
    assert("ConfigUpdate"@ =~= seq!['C', 'o', 'n', 'f', 'i', 'g', 'U', 'p', 'd', 'a', 't', 'e']);
    assert("ExecuteCommand"@ =~= seq![
        'E', 'x', 'e', 'c', 'u', 't', 'e', 'C', 'o', 'm', 'm', 'a', 'n', 'd',
    ]);
    assert("Echo"@ =~= seq!['E', 'c', 'h', 'o']);
    assert("Config"@ =~= seq!['C', 'o', 'n', 'f', 'i', 'g']);
}

/// A tag is found again from its own name: no two tags share one.
pub proof fn lemma_name_round_trip(tag: ProtocolTag)
    ensures
        ProtocolTag::spec_from_name(tag.spec_name()) == Some(tag),
{
    lemma_tag_names();
    let n = tag.spec_name();
    assert(n.len() > 2);
    match tag {
        ProtocolTag::Ping => {},
        ProtocolTag::Http => { assert(n[0] != 'P'); },
        ProtocolTag::HttpProxy => { assert(n[0] != 'P'); assert(n.len() != 4); },
        ProtocolTag::Tcp => { assert(n.len() == 3); },
        ProtocolTag::Execute => { assert(n.len() == 7); assert(n[0] == 'E'); },
        ProtocolTag::Shell => { assert(n.len() == 5); },
        ProtocolTag::ConfigSync => { assert(n.len() == 10); },
        ProtocolTag::ConfigUpdate => { assert(n.len() == 12); },
        ProtocolTag::ExecuteCommand => { assert(n.len() == 14); },
        ProtocolTag::Echo => { assert(n.len() == 4); assert(n[0] == 'E'); assert(n[1] == 'c'); },
        ProtocolTag::Config => { assert(n.len() == 6); },
    }
}

} // verus!
