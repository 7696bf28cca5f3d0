use pw_registry::object_type::{ObjectType, RegistryError};

#[test]
fn set_object_type() {
    assert_eq!(
        ObjectType::from_str("PipeWire:Interface:Client"),
        ObjectType::Client
    );
    assert_eq!(ObjectType::Client.to_str(), "PipeWire:Interface:Client");
    assert_eq!(ObjectType::Client.client_version(), 3);

    let o = ObjectType::Other("PipeWire:Interface:Badger".to_string());
    assert_eq!(ObjectType::from_str("PipeWire:Interface:Badger"), o);
    assert_eq!(o.to_str(), "PipeWire:Interface:Badger");
}

#[test]
fn expected_version_of_other_is_invalid_kind() {
    let o = ObjectType::Other("PipeWire:Interface:Badger".to_string());
    assert_eq!(o.expected_version(), Err(RegistryError::InvalidKind));
    let empty = ObjectType::Other(String::new());
    assert_eq!(empty.expected_version(), Err(RegistryError::InvalidKind));
}

#[test]
fn expected_versions_of_catalog_kinds() {
    assert_eq!(ObjectType::Node.expected_version(), Ok(3));
    assert_eq!(ObjectType::Session.expected_version(), Ok(0));
    assert_eq!(ObjectType::EndpointLink.expected_version(), Ok(0));
    assert_eq!(ObjectType::Metadata.client_version(), 3);
    assert_eq!(ObjectType::ClientEndpoint.client_version(), 0);
}

#[test]
fn every_catalog_kind_round_trips() {
    let kinds = vec![
        ObjectType::Client,
        ObjectType::ClientEndpoint,
        ObjectType::ClientNode,
        ObjectType::ClientSession,
        ObjectType::Core,
        ObjectType::Device,
        ObjectType::Endpoint,
        ObjectType::EndpointLink,
        ObjectType::EndpointStream,
        ObjectType::Factory,
        ObjectType::Link,
        ObjectType::Metadata,
        ObjectType::Module,
        ObjectType::Node,
        ObjectType::Port,
        ObjectType::Profiler,
        ObjectType::Registry,
        ObjectType::Session,
    ];
    for k in kinds {
        let back = ObjectType::from_str(k.to_str());
        assert!(!matches!(back, ObjectType::Other(_)));
        assert_eq!(back, k);
    }
}

#[test]
fn unknown_name_becomes_other() {
    let t = ObjectType::from_str("PipeWire:Interface:Frobnicator");
    assert_eq!(t, ObjectType::Other("PipeWire:Interface:Frobnicator".to_string()));
    assert_eq!(t.to_str(), "PipeWire:Interface:Frobnicator");
    assert!(matches!(ObjectType::from_str(""), ObjectType::Other(ref s) if s.is_empty()));
    // a near miss of a catalog name is not that kind
    assert!(matches!(ObjectType::from_str("PipeWire:Interface:Nodes"), ObjectType::Other(_)));
    assert!(matches!(ObjectType::from_str("Interface:Node"), ObjectType::Other(_)));
}

#[test]
fn other_differs_from_catalog_kind_of_same_name() {
    let o = ObjectType::Other("PipeWire:Interface:Node".to_string());
    assert_ne!(o, ObjectType::Node);
    assert_ne!(ObjectType::Node, ObjectType::Port);
}
