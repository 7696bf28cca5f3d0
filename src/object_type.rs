//! The catalog of interface kinds known to the registry.
use vstd::prelude::*;
use vstd::string::*;

verus! {

/// Compares two strings character by character.
fn text_eq(a: &str, b: &str) -> (r: bool)
    ensures
        r == (a@ == b@),
{
    let n = a.unicode_len();
    let m = b.unicode_len();
    if n != m {
        return false;
    }
    let mut i: usize = 0;
    while i < n
        invariant
            n == a@.len(),
            m == b@.len(),
            n == m,
            i <= n,
            forall|j: int| 0 <= j < i ==> a@[j] == b@[j],
        decreases n - i,
    {
        if a.get_char(i) != b.get_char(i) {
            assert(a@[i as int] != b@[i as int]);
            return false;
        }
        i += 1;
    }
    assert(a@ =~= b@);
    true
}


/// The interface kind of a registry object: one of the kinds this library
/// knows, each with the protocol version it speaks, or `Other` with the
/// interface name as the remote side sent it.
#[derive(Debug, Clone)]
pub enum ObjectType {
    Client,
    ClientEndpoint,
    ClientNode,
    ClientSession,
    Core,
    Device,
    Endpoint,
    EndpointLink,
    EndpointStream,
    Factory,
    Link,
    Metadata,
    Module,
    Node,
    Port,
    Profiler,
    Registry,
    Session,
    Other(String),
}

/// Why an operation on a registry object could not be carried out.
#[derive(Debug, Clone, Copy, PartialEq, Eq, Structural)]
pub enum RegistryError {
    /// The object kind is not in the catalog, so no version is known for it.
    InvalidKind,
    /// The permission mask holds a bit outside read, write, execute and metadata.
    InvalidPermissions,
}

/// The kind of the catalog that carries the interface name `name`, if any.
pub open spec fn catalog_entry(name: Seq<char>) -> Option<ObjectType> {
    if name == "PipeWire:Interface:Client"@ {
        Some(ObjectType::Client)
    } else if name == "PipeWire:Interface:ClientEndpoint"@ {
        Some(ObjectType::ClientEndpoint)
    } else if name == "PipeWire:Interface:ClientNode"@ {
        Some(ObjectType::ClientNode)
    } else if name == "PipeWire:Interface:ClientSession"@ {
        Some(ObjectType::ClientSession)
    } else if name == "PipeWire:Interface:Core"@ {
        Some(ObjectType::Core)
    } else if name == "PipeWire:Interface:Device"@ {
        Some(ObjectType::Device)
    } else if name == "PipeWire:Interface:Endpoint"@ {
        Some(ObjectType::Endpoint)
    } else if name == "PipeWire:Interface:EndpointLink"@ {
        Some(ObjectType::EndpointLink)
    } else if name == "PipeWire:Interface:EndpointStream"@ {
        Some(ObjectType::EndpointStream)
    } else if name == "PipeWire:Interface:Factory"@ {
        Some(ObjectType::Factory)
    } else if name == "PipeWire:Interface:Link"@ {
        Some(ObjectType::Link)
    } else if name == "PipeWire:Interface:Metadata"@ {
        Some(ObjectType::Metadata)
    } else if name == "PipeWire:Interface:Module"@ {
        Some(ObjectType::Module)
    } else if name == "PipeWire:Interface:Node"@ {
        Some(ObjectType::Node)
    } else if name == "PipeWire:Interface:Port"@ {
        Some(ObjectType::Port)
    } else if name == "PipeWire:Interface:Profiler"@ {
        Some(ObjectType::Profiler)
    } else if name == "PipeWire:Interface:Registry"@ {
        Some(ObjectType::Registry)
    } else if name == "PipeWire:Interface:Session"@ {
        Some(ObjectType::Session)
    } else {
        None
    }
}

/// `t` is the object type that the interface name `name` stands for: the
/// catalog kind of that name, or `Other` holding the name itself.
pub open spec fn names_type(name: Seq<char>, t: ObjectType) -> bool {
    &&& t.spec_name() == name
    &&& match catalog_entry(name) {
        Some(k) => t == k,
        None => t is Other,
    }
}

impl ObjectType {
    /// The interface name of the kind: the canonical name of a catalog kind,
    /// or the stored name of `Other`.
    pub open spec fn spec_name(&self) -> Seq<char> {
        match self {
            ObjectType::Client => "PipeWire:Interface:Client"@,
            ObjectType::ClientEndpoint => "PipeWire:Interface:ClientEndpoint"@,
            ObjectType::ClientNode => "PipeWire:Interface:ClientNode"@,
            ObjectType::ClientSession => "PipeWire:Interface:ClientSession"@,
            ObjectType::Core => "PipeWire:Interface:Core"@,
            ObjectType::Device => "PipeWire:Interface:Device"@,
            ObjectType::Endpoint => "PipeWire:Interface:Endpoint"@,
            ObjectType::EndpointLink => "PipeWire:Interface:EndpointLink"@,
            ObjectType::EndpointStream => "PipeWire:Interface:EndpointStream"@,
            ObjectType::Factory => "PipeWire:Interface:Factory"@,
            ObjectType::Link => "PipeWire:Interface:Link"@,
            ObjectType::Metadata => "PipeWire:Interface:Metadata"@,
            ObjectType::Module => "PipeWire:Interface:Module"@,
            ObjectType::Node => "PipeWire:Interface:Node"@,
            ObjectType::Port => "PipeWire:Interface:Port"@,
            ObjectType::Profiler => "PipeWire:Interface:Profiler"@,
            ObjectType::Registry => "PipeWire:Interface:Registry"@,
            ObjectType::Session => "PipeWire:Interface:Session"@,
            ObjectType::Other(s) => s@,
        }
    }

    /// The protocol version this library expects for the kind; none for `Other`.
    pub open spec fn spec_version(&self) -> Option<u32> {
        match self {
            ObjectType::Client => Some(3u32),
            ObjectType::ClientEndpoint => Some(0u32),
            ObjectType::ClientNode => Some(3u32),
            ObjectType::ClientSession => Some(0u32),
            ObjectType::Core => Some(3u32),
            ObjectType::Device => Some(3u32),
            ObjectType::Endpoint => Some(0u32),
            ObjectType::EndpointLink => Some(0u32),
            ObjectType::EndpointStream => Some(0u32),
            ObjectType::Factory => Some(3u32),
            ObjectType::Link => Some(3u32),
            ObjectType::Metadata => Some(3u32),
            ObjectType::Module => Some(3u32),
            ObjectType::Node => Some(3u32),
            ObjectType::Port => Some(3u32),
            ObjectType::Profiler => Some(3u32),
            ObjectType::Registry => Some(3u32),
            ObjectType::Session => Some(0u32),
            ObjectType::Other(_) => None,
        }
    }

    /// Reads an interface name: a name of the catalog gives its kind, any other
    /// name gives `Other` holding it.
    pub fn from_str(s: &str) -> (r: ObjectType)
        ensures
            names_type(s@, r),
    {
        if text_eq(s, "PipeWire:Interface:Client") {
            ObjectType::Client
        } else if text_eq(s, "PipeWire:Interface:ClientEndpoint") {
            ObjectType::ClientEndpoint
        } else if text_eq(s, "PipeWire:Interface:ClientNode") {
            ObjectType::ClientNode
        } else if text_eq(s, "PipeWire:Interface:ClientSession") {
            ObjectType::ClientSession
        } else if text_eq(s, "PipeWire:Interface:Core") {
            ObjectType::Core
        } else if text_eq(s, "PipeWire:Interface:Device") {
            ObjectType::Device
        } else if text_eq(s, "PipeWire:Interface:Endpoint") {
            ObjectType::Endpoint
        } else if text_eq(s, "PipeWire:Interface:EndpointLink") {
            ObjectType::EndpointLink
        } else if text_eq(s, "PipeWire:Interface:EndpointStream") {
            ObjectType::EndpointStream
        } else if text_eq(s, "PipeWire:Interface:Factory") {
            ObjectType::Factory
        } else if text_eq(s, "PipeWire:Interface:Link") {
            ObjectType::Link
        } else if text_eq(s, "PipeWire:Interface:Metadata") {
            ObjectType::Metadata
        } else if text_eq(s, "PipeWire:Interface:Module") {
            ObjectType::Module
        } else if text_eq(s, "PipeWire:Interface:Node") {
            ObjectType::Node
        } else if text_eq(s, "PipeWire:Interface:Port") {
            ObjectType::Port
        } else if text_eq(s, "PipeWire:Interface:Profiler") {
            ObjectType::Profiler
        } else if text_eq(s, "PipeWire:Interface:Registry") {
            ObjectType::Registry
        } else if text_eq(s, "PipeWire:Interface:Session") {
            ObjectType::Session
        } else {
            ObjectType::Other(s.to_string())
        }
    }

    /// The interface name of the kind.
    pub fn to_str(&self) -> (r: &str)
        ensures
            r@ == self.spec_name(),
    {
        match self {
            ObjectType::Client => "PipeWire:Interface:Client",
            ObjectType::ClientEndpoint => "PipeWire:Interface:ClientEndpoint",
            ObjectType::ClientNode => "PipeWire:Interface:ClientNode",
            ObjectType::ClientSession => "PipeWire:Interface:ClientSession",
            ObjectType::Core => "PipeWire:Interface:Core",
            ObjectType::Device => "PipeWire:Interface:Device",
            ObjectType::Endpoint => "PipeWire:Interface:Endpoint",
            ObjectType::EndpointLink => "PipeWire:Interface:EndpointLink",
            ObjectType::EndpointStream => "PipeWire:Interface:EndpointStream",
            ObjectType::Factory => "PipeWire:Interface:Factory",
            ObjectType::Link => "PipeWire:Interface:Link",
            ObjectType::Metadata => "PipeWire:Interface:Metadata",
            ObjectType::Module => "PipeWire:Interface:Module",
            ObjectType::Node => "PipeWire:Interface:Node",
            ObjectType::Port => "PipeWire:Interface:Port",
            ObjectType::Profiler => "PipeWire:Interface:Profiler",
            ObjectType::Registry => "PipeWire:Interface:Registry",
            ObjectType::Session => "PipeWire:Interface:Session",
            ObjectType::Other(s) => s.as_str(),
        }
    }

    /// The protocol version expected for the kind; `InvalidKind` for `Other`,
    /// whose version is unknown.
    pub fn expected_version(&self) -> (r: Result<u32, RegistryError>)
        ensures
            match self.spec_version() {
                Some(v) => r == Ok::<u32, RegistryError>(v),
                None => r == Err::<u32, RegistryError>(RegistryError::InvalidKind),
            },
    {
        match self {
            ObjectType::Client => Ok(3),
            ObjectType::ClientEndpoint => Ok(0),
            ObjectType::ClientNode => Ok(3),
            ObjectType::ClientSession => Ok(0),
            ObjectType::Core => Ok(3),
            ObjectType::Device => Ok(3),
            ObjectType::Endpoint => Ok(0),
            ObjectType::EndpointLink => Ok(0),
            ObjectType::EndpointStream => Ok(0),
            ObjectType::Factory => Ok(3),
            ObjectType::Link => Ok(3),
            ObjectType::Metadata => Ok(3),
            ObjectType::Module => Ok(3),
            ObjectType::Node => Ok(3),
            ObjectType::Port => Ok(3),
            ObjectType::Profiler => Ok(3),
            ObjectType::Registry => Ok(3),
            ObjectType::Session => Ok(0),
            ObjectType::Other(_) => Err(RegistryError::InvalidKind),
        }
    }

    /// The protocol version of a catalog kind.
    pub fn client_version(&self) -> (r: u32)
        requires
            !(self is Other),
        ensures
            self.spec_version() == Some(r),
    {
        match self.expected_version() {
            Ok(v) => v,
            Err(_) => 0,
        }
    }
}


impl PartialEq for ObjectType {
    /// Two object types are equal when both are catalog kinds or both are
    /// `Other`, and their interface names agree.
    fn eq(&self, other: &ObjectType) -> (r: bool) {
        matches!(self, ObjectType::Other(_)) == matches!(other, ObjectType::Other(_))
            && text_eq(self.to_str(), other.to_str())
    }
}

impl vstd::std_specs::cmp::PartialEqSpecImpl for ObjectType {
    open spec fn obeys_eq_spec() -> bool {
        true
    }

    open spec fn eq_spec(&self, other: &ObjectType) -> bool {
        (self is Other) == (other is Other) && self.spec_name() == other.spec_name()
    }
}

impl Eq for ObjectType {}

/// Reading back the name of a catalog kind gives that kind again.
pub proof fn lemma_name_round_trip(t: ObjectType)
    requires
        !(t is Other),
    ensures
        catalog_entry(t.spec_name()) == Some(t),
        forall|r: ObjectType| names_type(t.spec_name(), r) ==> r == t,
{
    match t {
        ObjectType::Client => {
            reveal_strlit("PipeWire:Interface:Client");
        },
        ObjectType::ClientEndpoint => {
            reveal_strlit("PipeWire:Interface:ClientEndpoint");
            reveal_strlit("PipeWire:Interface:Client");
            assert("PipeWire:Interface:ClientEndpoint"@.len() != "PipeWire:Interface:Client"@.len());
        },
        ObjectType::ClientNode => {
            reveal_strlit("PipeWire:Interface:ClientNode");
            reveal_strlit("PipeWire:Interface:Client");
            assert("PipeWire:Interface:ClientNode"@.len() != "PipeWire:Interface:Client"@.len());
            reveal_strlit("PipeWire:Interface:ClientEndpoint");
            assert("PipeWire:Interface:ClientNode"@.len() != "PipeWire:Interface:ClientEndpoint"@.len());
        },
        ObjectType::ClientSession => {
            reveal_strlit("PipeWire:Interface:ClientSession");
            reveal_strlit("PipeWire:Interface:Client");
            assert("PipeWire:Interface:ClientSession"@.len() != "PipeWire:Interface:Client"@.len());
            reveal_strlit("PipeWire:Interface:ClientEndpoint");
            assert("PipeWire:Interface:ClientSession"@.len() != "PipeWire:Interface:ClientEndpoint"@.len());
            reveal_strlit("PipeWire:Interface:ClientNode");
            assert("PipeWire:Interface:ClientSession"@.len() != "PipeWire:Interface:ClientNode"@.len());
        },
        ObjectType::Core => {
            reveal_strlit("PipeWire:Interface:Core");
            reveal_strlit("PipeWire:Interface:Client");
            assert("PipeWire:Interface:Core"@.len() != "PipeWire:Interface:Client"@.len());
            reveal_strlit("PipeWire:Interface:ClientEndpoint");
            assert("PipeWire:Interface:Core"@.len() != "PipeWire:Interface:ClientEndpoint"@.len());
            reveal_strlit("PipeWire:Interface:ClientNode");
            assert("PipeWire:Interface:Core"@.len() != "PipeWire:Interface:ClientNode"@.len());
            reveal_strlit("PipeWire:Interface:ClientSession");
            assert("PipeWire:Interface:Core"@.len() != "PipeWire:Interface:ClientSession"@.len());
        },
        ObjectType::Device => {
            reveal_strlit("PipeWire:Interface:Device");
            reveal_strlit("PipeWire:Interface:Client");
            assert("PipeWire:Interface:Device"@[19] != "PipeWire:Interface:Client"@[19]);
            reveal_strlit("PipeWire:Interface:ClientEndpoint");
            assert("PipeWire:Interface:Device"@.len() != "PipeWire:Interface:ClientEndpoint"@.len());
            reveal_strlit("PipeWire:Interface:ClientNode");
            assert("PipeWire:Interface:Device"@.len() != "PipeWire:Interface:ClientNode"@.len());
            reveal_strlit("PipeWire:Interface:ClientSession");
            assert("PipeWire:Interface:Device"@.len() != "PipeWire:Interface:ClientSession"@.len());
            reveal_strlit("PipeWire:Interface:Core");
            assert("PipeWire:Interface:Device"@.len() != "PipeWire:Interface:Core"@.len());
        },
        ObjectType::Endpoint => {
            reveal_strlit("PipeWire:Interface:Endpoint");
            reveal_strlit("PipeWire:Interface:Client");
            assert("PipeWire:Interface:Endpoint"@.len() != "PipeWire:Interface:Client"@.len());
            reveal_strlit("PipeWire:Interface:ClientEndpoint");
            assert("PipeWire:Interface:Endpoint"@.len() != "PipeWire:Interface:ClientEndpoint"@.len());
            reveal_strlit("PipeWire:Interface:ClientNode");
            assert("PipeWire:Interface:Endpoint"@.len() != "PipeWire:Interface:ClientNode"@.len());
            reveal_strlit("PipeWire:Interface:ClientSession");
            assert("PipeWire:Interface:Endpoint"@.len() != "PipeWire:Interface:ClientSession"@.len());
            reveal_strlit("PipeWire:Interface:Core");
            assert("PipeWire:Interface:Endpoint"@.len() != "PipeWire:Interface:Core"@.len());
            reveal_strlit("PipeWire:Interface:Device");
            assert("PipeWire:Interface:Endpoint"@.len() != "PipeWire:Interface:Device"@.len());
        },
        ObjectType::EndpointLink => {
            reveal_strlit("PipeWire:Interface:EndpointLink");
            reveal_strlit("PipeWire:Interface:Client");
            assert("PipeWire:Interface:EndpointLink"@.len() != "PipeWire:Interface:Client"@.len());
            reveal_strlit("PipeWire:Interface:ClientEndpoint");
            assert("PipeWire:Interface:EndpointLink"@.len() != "PipeWire:Interface:ClientEndpoint"@.len());
            reveal_strlit("PipeWire:Interface:ClientNode");
            assert("PipeWire:Interface:EndpointLink"@.len() != "PipeWire:Interface:ClientNode"@.len());
            reveal_strlit("PipeWire:Interface:ClientSession");
            assert("PipeWire:Interface:EndpointLink"@.len() != "PipeWire:Interface:ClientSession"@.len());
            reveal_strlit("PipeWire:Interface:Core");
            assert("PipeWire:Interface:EndpointLink"@.len() != "PipeWire:Interface:Core"@.len());
            reveal_strlit("PipeWire:Interface:Device");
            assert("PipeWire:Interface:EndpointLink"@.len() != "PipeWire:Interface:Device"@.len());
            reveal_strlit("PipeWire:Interface:Endpoint");
            assert("PipeWire:Interface:EndpointLink"@.len() != "PipeWire:Interface:Endpoint"@.len());
        },
        ObjectType::EndpointStream => {
            reveal_strlit("PipeWire:Interface:EndpointStream");
            reveal_strlit("PipeWire:Interface:Client");
            assert("PipeWire:Interface:EndpointStream"@.len() != "PipeWire:Interface:Client"@.len());
            reveal_strlit("PipeWire:Interface:ClientEndpoint");
            assert("PipeWire:Interface:EndpointStream"@[19] != "PipeWire:Interface:ClientEndpoint"@[19]);
            reveal_strlit("PipeWire:Interface:ClientNode");
            assert("PipeWire:Interface:EndpointStream"@.len() != "PipeWire:Interface:ClientNode"@.len());
            reveal_strlit("PipeWire:Interface:ClientSession");
            assert("PipeWire:Interface:EndpointStream"@.len() != "PipeWire:Interface:ClientSession"@.len());
            reveal_strlit("PipeWire:Interface:Core");
            assert("PipeWire:Interface:EndpointStream"@.len() != "PipeWire:Interface:Core"@.len());
            reveal_strlit("PipeWire:Interface:Device");
            assert("PipeWire:Interface:EndpointStream"@.len() != "PipeWire:Interface:Device"@.len());
            reveal_strlit("PipeWire:Interface:Endpoint");
            assert("PipeWire:Interface:EndpointStream"@.len() != "PipeWire:Interface:Endpoint"@.len());
            reveal_strlit("PipeWire:Interface:EndpointLink");
            assert("PipeWire:Interface:EndpointStream"@.len() != "PipeWire:Interface:EndpointLink"@.len());
        },
        ObjectType::Factory => {
            reveal_strlit("PipeWire:Interface:Factory");
            reveal_strlit("PipeWire:Interface:Client");
            assert("PipeWire:Interface:Factory"@.len() != "PipeWire:Interface:Client"@.len());
            reveal_strlit("PipeWire:Interface:ClientEndpoint");
            assert("PipeWire:Interface:Factory"@.len() != "PipeWire:Interface:ClientEndpoint"@.len());
            reveal_strlit("PipeWire:Interface:ClientNode");
            assert("PipeWire:Interface:Factory"@.len() != "PipeWire:Interface:ClientNode"@.len());
            reveal_strlit("PipeWire:Interface:ClientSession");
            assert("PipeWire:Interface:Factory"@.len() != "PipeWire:Interface:ClientSession"@.len());
            reveal_strlit("PipeWire:Interface:Core");
            assert("PipeWire:Interface:Factory"@.len() != "PipeWire:Interface:Core"@.len());
            reveal_strlit("PipeWire:Interface:Device");
            assert("PipeWire:Interface:Factory"@.len() != "PipeWire:Interface:Device"@.len());
            reveal_strlit("PipeWire:Interface:Endpoint");
            assert("PipeWire:Interface:Factory"@.len() != "PipeWire:Interface:Endpoint"@.len());
            reveal_strlit("PipeWire:Interface:EndpointLink");
            assert("PipeWire:Interface:Factory"@.len() != "PipeWire:Interface:EndpointLink"@.len());
            reveal_strlit("PipeWire:Interface:EndpointStream");
            assert("PipeWire:Interface:Factory"@.len() != "PipeWire:Interface:EndpointStream"@.len());
        },
        ObjectType::Link => {
            reveal_strlit("PipeWire:Interface:Link");
            reveal_strlit("PipeWire:Interface:Client");
            assert("PipeWire:Interface:Link"@.len() != "PipeWire:Interface:Client"@.len());
            reveal_strlit("PipeWire:Interface:ClientEndpoint");
            assert("PipeWire:Interface:Link"@.len() != "PipeWire:Interface:ClientEndpoint"@.len());
            reveal_strlit("PipeWire:Interface:ClientNode");
            assert("PipeWire:Interface:Link"@.len() != "PipeWire:Interface:ClientNode"@.len());
            reveal_strlit("PipeWire:Interface:ClientSession");
            assert("PipeWire:Interface:Link"@.len() != "PipeWire:Interface:ClientSession"@.len());
            reveal_strlit("PipeWire:Interface:Core");
            assert("PipeWire:Interface:Link"@[19] != "PipeWire:Interface:Core"@[19]);
            reveal_strlit("PipeWire:Interface:Device");
            assert("PipeWire:Interface:Link"@.len() != "PipeWire:Interface:Device"@.len());
            reveal_strlit("PipeWire:Interface:Endpoint");
            assert("PipeWire:Interface:Link"@.len() != "PipeWire:Interface:Endpoint"@.len());
            reveal_strlit("PipeWire:Interface:EndpointLink");
            assert("PipeWire:Interface:Link"@.len() != "PipeWire:Interface:EndpointLink"@.len());
            reveal_strlit("PipeWire:Interface:EndpointStream");
            assert("PipeWire:Interface:Link"@.len() != "PipeWire:Interface:EndpointStream"@.len());
            reveal_strlit("PipeWire:Interface:Factory");
            assert("PipeWire:Interface:Link"@.len() != "PipeWire:Interface:Factory"@.len());
        },
        ObjectType::Metadata => {
            reveal_strlit("PipeWire:Interface:Metadata");
            reveal_strlit("PipeWire:Interface:Client");
            assert("PipeWire:Interface:Metadata"@.len() != "PipeWire:Interface:Client"@.len());
            reveal_strlit("PipeWire:Interface:ClientEndpoint");
            assert("PipeWire:Interface:Metadata"@.len() != "PipeWire:Interface:ClientEndpoint"@.len());
            reveal_strlit("PipeWire:Interface:ClientNode");
            assert("PipeWire:Interface:Metadata"@.len() != "PipeWire:Interface:ClientNode"@.len());
            reveal_strlit("PipeWire:Interface:ClientSession");
            assert("PipeWire:Interface:Metadata"@.len() != "PipeWire:Interface:ClientSession"@.len());
            reveal_strlit("PipeWire:Interface:Core");
            assert("PipeWire:Interface:Metadata"@.len() != "PipeWire:Interface:Core"@.len());
            reveal_strlit("PipeWire:Interface:Device");
            assert("PipeWire:Interface:Metadata"@.len() != "PipeWire:Interface:Device"@.len());
            reveal_strlit("PipeWire:Interface:Endpoint");
            assert("PipeWire:Interface:Metadata"@[19] != "PipeWire:Interface:Endpoint"@[19]);
            reveal_strlit("PipeWire:Interface:EndpointLink");
            assert("PipeWire:Interface:Metadata"@.len() != "PipeWire:Interface:EndpointLink"@.len());
            reveal_strlit("PipeWire:Interface:EndpointStream");
            assert("PipeWire:Interface:Metadata"@.len() != "PipeWire:Interface:EndpointStream"@.len());
            reveal_strlit("PipeWire:Interface:Factory");
            assert("PipeWire:Interface:Metadata"@.len() != "PipeWire:Interface:Factory"@.len());
            reveal_strlit("PipeWire:Interface:Link");
            assert("PipeWire:Interface:Metadata"@.len() != "PipeWire:Interface:Link"@.len());
        },
        ObjectType::Module => {
            reveal_strlit("PipeWire:Interface:Module");
            reveal_strlit("PipeWire:Interface:Client");
            assert("PipeWire:Interface:Module"@[19] != "PipeWire:Interface:Client"@[19]);
            reveal_strlit("PipeWire:Interface:ClientEndpoint");
            assert("PipeWire:Interface:Module"@.len() != "PipeWire:Interface:ClientEndpoint"@.len());
            reveal_strlit("PipeWire:Interface:ClientNode");
            assert("PipeWire:Interface:Module"@.len() != "PipeWire:Interface:ClientNode"@.len());
            reveal_strlit("PipeWire:Interface:ClientSession");
            assert("PipeWire:Interface:Module"@.len() != "PipeWire:Interface:ClientSession"@.len());
            reveal_strlit("PipeWire:Interface:Core");
            assert("PipeWire:Interface:Module"@.len() != "PipeWire:Interface:Core"@.len());
            reveal_strlit("PipeWire:Interface:Device");
            assert("PipeWire:Interface:Module"@[19] != "PipeWire:Interface:Device"@[19]);
            reveal_strlit("PipeWire:Interface:Endpoint");
            assert("PipeWire:Interface:Module"@.len() != "PipeWire:Interface:Endpoint"@.len());
            reveal_strlit("PipeWire:Interface:EndpointLink");
            assert("PipeWire:Interface:Module"@.len() != "PipeWire:Interface:EndpointLink"@.len());
            reveal_strlit("PipeWire:Interface:EndpointStream");
            assert("PipeWire:Interface:Module"@.len() != "PipeWire:Interface:EndpointStream"@.len());
            reveal_strlit("PipeWire:Interface:Factory");
            assert("PipeWire:Interface:Module"@.len() != "PipeWire:Interface:Factory"@.len());
            reveal_strlit("PipeWire:Interface:Link");
            assert("PipeWire:Interface:Module"@.len() != "PipeWire:Interface:Link"@.len());
            reveal_strlit("PipeWire:Interface:Metadata");
            assert("PipeWire:Interface:Module"@.len() != "PipeWire:Interface:Metadata"@.len());
        },
        ObjectType::Node => {
            reveal_strlit("PipeWire:Interface:Node");
            reveal_strlit("PipeWire:Interface:Client");
            assert("PipeWire:Interface:Node"@.len() != "PipeWire:Interface:Client"@.len());
            reveal_strlit("PipeWire:Interface:ClientEndpoint");
            assert("PipeWire:Interface:Node"@.len() != "PipeWire:Interface:ClientEndpoint"@.len());
            reveal_strlit("PipeWire:Interface:ClientNode");
            assert("PipeWire:Interface:Node"@.len() != "PipeWire:Interface:ClientNode"@.len());
            reveal_strlit("PipeWire:Interface:ClientSession");
            assert("PipeWire:Interface:Node"@.len() != "PipeWire:Interface:ClientSession"@.len());
            reveal_strlit("PipeWire:Interface:Core");
            assert("PipeWire:Interface:Node"@[19] != "PipeWire:Interface:Core"@[19]);
            reveal_strlit("PipeWire:Interface:Device");
            assert("PipeWire:Interface:Node"@.len() != "PipeWire:Interface:Device"@.len());
            reveal_strlit("PipeWire:Interface:Endpoint");
            assert("PipeWire:Interface:Node"@.len() != "PipeWire:Interface:Endpoint"@.len());
            reveal_strlit("PipeWire:Interface:EndpointLink");
            assert("PipeWire:Interface:Node"@.len() != "PipeWire:Interface:EndpointLink"@.len());
            reveal_strlit("PipeWire:Interface:EndpointStream");
            assert("PipeWire:Interface:Node"@.len() != "PipeWire:Interface:EndpointStream"@.len());
            reveal_strlit("PipeWire:Interface:Factory");
            assert("PipeWire:Interface:Node"@.len() != "PipeWire:Interface:Factory"@.len());
            reveal_strlit("PipeWire:Interface:Link");
            assert("PipeWire:Interface:Node"@[19] != "PipeWire:Interface:Link"@[19]);
            reveal_strlit("PipeWire:Interface:Metadata");
            assert("PipeWire:Interface:Node"@.len() != "PipeWire:Interface:Metadata"@.len());
            reveal_strlit("PipeWire:Interface:Module");
            assert("PipeWire:Interface:Node"@.len() != "PipeWire:Interface:Module"@.len());
        },
        ObjectType::Port => {
            reveal_strlit("PipeWire:Interface:Port");
            reveal_strlit("PipeWire:Interface:Client");
            assert("PipeWire:Interface:Port"@.len() != "PipeWire:Interface:Client"@.len());
            reveal_strlit("PipeWire:Interface:ClientEndpoint");
            assert("PipeWire:Interface:Port"@.len() != "PipeWire:Interface:ClientEndpoint"@.len());
            reveal_strlit("PipeWire:Interface:ClientNode");
            assert("PipeWire:Interface:Port"@.len() != "PipeWire:Interface:ClientNode"@.len());
            reveal_strlit("PipeWire:Interface:ClientSession");
            assert("PipeWire:Interface:Port"@.len() != "PipeWire:Interface:ClientSession"@.len());
            reveal_strlit("PipeWire:Interface:Core");
            assert("PipeWire:Interface:Port"@[19] != "PipeWire:Interface:Core"@[19]);
            reveal_strlit("PipeWire:Interface:Device");
            assert("PipeWire:Interface:Port"@.len() != "PipeWire:Interface:Device"@.len());
            reveal_strlit("PipeWire:Interface:Endpoint");
            assert("PipeWire:Interface:Port"@.len() != "PipeWire:Interface:Endpoint"@.len());
            reveal_strlit("PipeWire:Interface:EndpointLink");
            assert("PipeWire:Interface:Port"@.len() != "PipeWire:Interface:EndpointLink"@.len());
            reveal_strlit("PipeWire:Interface:EndpointStream");
            assert("PipeWire:Interface:Port"@.len() != "PipeWire:Interface:EndpointStream"@.len());
            reveal_strlit("PipeWire:Interface:Factory");
            assert("PipeWire:Interface:Port"@.len() != "PipeWire:Interface:Factory"@.len());
            reveal_strlit("PipeWire:Interface:Link");
            assert("PipeWire:Interface:Port"@[19] != "PipeWire:Interface:Link"@[19]);
            reveal_strlit("PipeWire:Interface:Metadata");
            assert("PipeWire:Interface:Port"@.len() != "PipeWire:Interface:Metadata"@.len());
            reveal_strlit("PipeWire:Interface:Module");
            assert("PipeWire:Interface:Port"@.len() != "PipeWire:Interface:Module"@.len());
            reveal_strlit("PipeWire:Interface:Node");
            assert("PipeWire:Interface:Port"@[19] != "PipeWire:Interface:Node"@[19]);
        },
        ObjectType::Profiler => {
            reveal_strlit("PipeWire:Interface:Profiler");
            reveal_strlit("PipeWire:Interface:Client");
            assert("PipeWire:Interface:Profiler"@.len() != "PipeWire:Interface:Client"@.len());
            reveal_strlit("PipeWire:Interface:ClientEndpoint");
            assert("PipeWire:Interface:Profiler"@.len() != "PipeWire:Interface:ClientEndpoint"@.len());
            reveal_strlit("PipeWire:Interface:ClientNode");
            assert("PipeWire:Interface:Profiler"@.len() != "PipeWire:Interface:ClientNode"@.len());
            reveal_strlit("PipeWire:Interface:ClientSession");
            assert("PipeWire:Interface:Profiler"@.len() != "PipeWire:Interface:ClientSession"@.len());
            reveal_strlit("PipeWire:Interface:Core");
            assert("PipeWire:Interface:Profiler"@.len() != "PipeWire:Interface:Core"@.len());
            reveal_strlit("PipeWire:Interface:Device");
            assert("PipeWire:Interface:Profiler"@.len() != "PipeWire:Interface:Device"@.len());
            reveal_strlit("PipeWire:Interface:Endpoint");
            assert("PipeWire:Interface:Profiler"@[19] != "PipeWire:Interface:Endpoint"@[19]);
            reveal_strlit("PipeWire:Interface:EndpointLink");
            assert("PipeWire:Interface:Profiler"@.len() != "PipeWire:Interface:EndpointLink"@.len());
            reveal_strlit("PipeWire:Interface:EndpointStream");
            assert("PipeWire:Interface:Profiler"@.len() != "PipeWire:Interface:EndpointStream"@.len());
            reveal_strlit("PipeWire:Interface:Factory");
            assert("PipeWire:Interface:Profiler"@.len() != "PipeWire:Interface:Factory"@.len());
            reveal_strlit("PipeWire:Interface:Link");
            assert("PipeWire:Interface:Profiler"@.len() != "PipeWire:Interface:Link"@.len());
            reveal_strlit("PipeWire:Interface:Metadata");
            assert("PipeWire:Interface:Profiler"@[19] != "PipeWire:Interface:Metadata"@[19]);
            reveal_strlit("PipeWire:Interface:Module");
            assert("PipeWire:Interface:Profiler"@.len() != "PipeWire:Interface:Module"@.len());
            reveal_strlit("PipeWire:Interface:Node");
            assert("PipeWire:Interface:Profiler"@.len() != "PipeWire:Interface:Node"@.len());
            reveal_strlit("PipeWire:Interface:Port");
            assert("PipeWire:Interface:Profiler"@.len() != "PipeWire:Interface:Port"@.len());
        },
        ObjectType::Registry => {
            reveal_strlit("PipeWire:Interface:Registry");
            reveal_strlit("PipeWire:Interface:Client");
            assert("PipeWire:Interface:Registry"@.len() != "PipeWire:Interface:Client"@.len());
            reveal_strlit("PipeWire:Interface:ClientEndpoint");
            assert("PipeWire:Interface:Registry"@.len() != "PipeWire:Interface:ClientEndpoint"@.len());
            reveal_strlit("PipeWire:Interface:ClientNode");
            assert("PipeWire:Interface:Registry"@.len() != "PipeWire:Interface:ClientNode"@.len());
            reveal_strlit("PipeWire:Interface:ClientSession");
            assert("PipeWire:Interface:Registry"@.len() != "PipeWire:Interface:ClientSession"@.len());
            reveal_strlit("PipeWire:Interface:Core");
            assert("PipeWire:Interface:Registry"@.len() != "PipeWire:Interface:Core"@.len());
            reveal_strlit("PipeWire:Interface:Device");
            assert("PipeWire:Interface:Registry"@.len() != "PipeWire:Interface:Device"@.len());
            reveal_strlit("PipeWire:Interface:Endpoint");
            assert("PipeWire:Interface:Registry"@[19] != "PipeWire:Interface:Endpoint"@[19]);
            reveal_strlit("PipeWire:Interface:EndpointLink");
            assert("PipeWire:Interface:Registry"@.len() != "PipeWire:Interface:EndpointLink"@.len());
            reveal_strlit("PipeWire:Interface:EndpointStream");
            assert("PipeWire:Interface:Registry"@.len() != "PipeWire:Interface:EndpointStream"@.len());
            reveal_strlit("PipeWire:Interface:Factory");
            assert("PipeWire:Interface:Registry"@.len() != "PipeWire:Interface:Factory"@.len());
            reveal_strlit("PipeWire:Interface:Link");
            assert("PipeWire:Interface:Registry"@.len() != "PipeWire:Interface:Link"@.len());
            reveal_strlit("PipeWire:Interface:Metadata");
            assert("PipeWire:Interface:Registry"@[19] != "PipeWire:Interface:Metadata"@[19]);
            reveal_strlit("PipeWire:Interface:Module");
            assert("PipeWire:Interface:Registry"@.len() != "PipeWire:Interface:Module"@.len());
            reveal_strlit("PipeWire:Interface:Node");
            assert("PipeWire:Interface:Registry"@.len() != "PipeWire:Interface:Node"@.len());
            reveal_strlit("PipeWire:Interface:Port");
            assert("PipeWire:Interface:Registry"@.len() != "PipeWire:Interface:Port"@.len());
            reveal_strlit("PipeWire:Interface:Profiler");
            assert("PipeWire:Interface:Registry"@[19] != "PipeWire:Interface:Profiler"@[19]);
        },
        ObjectType::Session => {
            reveal_strlit("PipeWire:Interface:Session");
            reveal_strlit("PipeWire:Interface:Client");
            assert("PipeWire:Interface:Session"@.len() != "PipeWire:Interface:Client"@.len());
            reveal_strlit("PipeWire:Interface:ClientEndpoint");
            assert("PipeWire:Interface:Session"@.len() != "PipeWire:Interface:ClientEndpoint"@.len());
            reveal_strlit("PipeWire:Interface:ClientNode");
            assert("PipeWire:Interface:Session"@.len() != "PipeWire:Interface:ClientNode"@.len());
            reveal_strlit("PipeWire:Interface:ClientSession");
            assert("PipeWire:Interface:Session"@.len() != "PipeWire:Interface:ClientSession"@.len());
            reveal_strlit("PipeWire:Interface:Core");
            assert("PipeWire:Interface:Session"@.len() != "PipeWire:Interface:Core"@.len());
            reveal_strlit("PipeWire:Interface:Device");
            assert("PipeWire:Interface:Session"@.len() != "PipeWire:Interface:Device"@.len());
            reveal_strlit("PipeWire:Interface:Endpoint");
            assert("PipeWire:Interface:Session"@.len() != "PipeWire:Interface:Endpoint"@.len());
            reveal_strlit("PipeWire:Interface:EndpointLink");
            assert("PipeWire:Interface:Session"@.len() != "PipeWire:Interface:EndpointLink"@.len());
            reveal_strlit("PipeWire:Interface:EndpointStream");
            assert("PipeWire:Interface:Session"@.len() != "PipeWire:Interface:EndpointStream"@.len());
            reveal_strlit("PipeWire:Interface:Factory");
            assert("PipeWire:Interface:Session"@[19] != "PipeWire:Interface:Factory"@[19]);
            reveal_strlit("PipeWire:Interface:Link");
            assert("PipeWire:Interface:Session"@.len() != "PipeWire:Interface:Link"@.len());
            reveal_strlit("PipeWire:Interface:Metadata");
            assert("PipeWire:Interface:Session"@.len() != "PipeWire:Interface:Metadata"@.len());
            reveal_strlit("PipeWire:Interface:Module");
            assert("PipeWire:Interface:Session"@.len() != "PipeWire:Interface:Module"@.len());
            reveal_strlit("PipeWire:Interface:Node");
            assert("PipeWire:Interface:Session"@.len() != "PipeWire:Interface:Node"@.len());
            reveal_strlit("PipeWire:Interface:Port");
            assert("PipeWire:Interface:Session"@.len() != "PipeWire:Interface:Port"@.len());
            reveal_strlit("PipeWire:Interface:Profiler");
            assert("PipeWire:Interface:Session"@.len() != "PipeWire:Interface:Profiler"@.len());
            reveal_strlit("PipeWire:Interface:Registry");
            assert("PipeWire:Interface:Session"@.len() != "PipeWire:Interface:Registry"@.len());
        },
        ObjectType::Other(_) => {},
    }
}

/// A name outside the catalog is kept as it is: it reads as `Other` of that
/// name, and the name of that `Other` is the name itself.
pub proof fn lemma_unknown_name_kept(name: Seq<char>, r: ObjectType)
    requires
        catalog_entry(name) is None,
        names_type(name, r),
    ensures
        r is Other,
        r->Other_0@ == name,
        r.spec_name() == name,
{
}

/// No kind outside the catalog has an expected version.
pub proof fn lemma_other_has_no_version(t: ObjectType)
    requires
        t is Other,
    ensures
        t.spec_version() is None,
{
}

} // verus!
