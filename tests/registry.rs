use pw_registry::global_object::GlobalObject;
use pw_registry::monitor::{error_ends_session, is_tracked_kind};
use pw_registry::object_type::{ObjectType, RegistryError};
use pw_registry::permission::Permission;
use pw_registry::registry::{Registry, VERSION_REGISTRY_EVENTS};

#[test]
fn node_object_end_to_end() {
    let o = GlobalObject::new(5, 0o700, "PipeWire:Interface:Node", 3, None).unwrap();
    assert_eq!(o.id, 5);
    assert!(o.permissions.contains(Permission::read()));
    assert!(o.permissions.contains(Permission::write()));
    assert!(o.permissions.contains(Permission::execute()));
    assert_eq!(o.type_, ObjectType::Node);
    assert_eq!(o.version, 3);
    assert!(o.props.is_none());
}

#[test]
fn unknown_kind_object_end_to_end() {
    let props = vec![("object.serial".to_string(), "41".to_string())];
    let o = GlobalObject::new(9, 0o400, "PipeWire:Interface:Frobnicator", 1, Some(props.clone()))
        .unwrap();
    assert_eq!(
        o.type_,
        ObjectType::Other("PipeWire:Interface:Frobnicator".to_string())
    );
    assert_eq!(o.type_.to_str(), "PipeWire:Interface:Frobnicator");
    assert_eq!(o.props, Some(props));
}

#[test]
fn invalid_permissions_refuse_the_object() {
    let r = GlobalObject::new(5, 0o001, "PipeWire:Interface:Node", 3, None);
    assert!(matches!(r, Err(RegistryError::InvalidPermissions)));
}

#[test]
fn removed_only_listener_gets_no_added_objects() {
    let mut reg = Registry::new();
    let l = reg.add_listener_local().global_remove().register(&mut reg);
    let (obj, hooks) = reg
        .dispatch_global(1, 0o400, "PipeWire:Interface:Port", 3, None)
        .unwrap();
    assert_eq!(obj.type_, ObjectType::Port);
    assert!(hooks.is_empty());
    assert_eq!(reg.dispatch_global_remove(1), vec![l.hook()]);
}

#[test]
fn added_only_listener_gets_no_removals() {
    let mut reg = Registry::new();
    let l = reg.add_listener_local().global().register(&mut reg);
    assert!(reg.dispatch_global_remove(7).is_empty());
    let (_, hooks) = reg
        .dispatch_global(7, 0o710, "PipeWire:Interface:Link", 3, None)
        .unwrap();
    assert_eq!(hooks, vec![l.hook()]);
}

#[test]
fn released_listener_gets_nothing() {
    let mut reg = Registry::new();
    let a = reg.add_listener_local().global().global_remove().register(&mut reg);
    let b = reg.add_listener_local().global().global_remove().register(&mut reg);
    let b_hook = b.hook();
    assert_ne!(a.hook(), b_hook);
    b.unregister(&mut reg);
    let (_, hooks) = reg
        .dispatch_global(2, 0o400, "PipeWire:Interface:Node", 3, None)
        .unwrap();
    assert_eq!(hooks, vec![a.hook()]);
    assert_eq!(reg.dispatch_global_remove(2), vec![a.hook()]);
    let c = reg.add_listener_local().global().register(&mut reg);
    assert_ne!(c.hook(), b_hook);
    let (_, hooks) = reg
        .dispatch_global(3, 0o400, "PipeWire:Interface:Node", 3, None)
        .unwrap();
    assert_eq!(hooks, vec![a.hook(), c.hook()]);
    a.unregister(&mut reg);
    c.unregister(&mut reg);
    assert!(reg.dispatch_global_remove(3).is_empty());
}

#[test]
fn builder_wires_only_supplied_slots() {
    let mut reg = Registry::new();
    let l = reg.add_listener_local().register(&mut reg);
    let e = l.registered_events();
    assert_eq!(e.version, VERSION_REGISTRY_EVENTS);
    assert!(!e.global);
    assert!(!e.global_remove);
    let (_, hooks) = reg
        .dispatch_global(4, 0, "PipeWire:Interface:Core", 3, None)
        .unwrap();
    assert!(hooks.is_empty());
    assert!(reg.dispatch_global_remove(4).is_empty());
}

#[test]
fn dispatch_with_bad_permissions_fails() {
    let mut reg = Registry::new();
    let _l = reg.add_listener_local().global().register(&mut reg);
    let r = reg.dispatch_global(1, 0o002, "PipeWire:Interface:Node", 3, None);
    assert!(matches!(r, Err(RegistryError::InvalidPermissions)));
}

#[test]
fn monitor_decisions() {
    assert!(is_tracked_kind(&ObjectType::Node));
    assert!(is_tracked_kind(&ObjectType::Link));
    assert!(!is_tracked_kind(&ObjectType::Metadata));
    assert!(!is_tracked_kind(&ObjectType::Other("x".to_string())));
    assert!(error_ends_session(0));
    assert!(!error_ends_session(31));
}
