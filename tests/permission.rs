use pw_registry::permission::{Permission, PERM_ALL, PERM_M, PERM_R, PERM_W, PERM_X};

#[test]
fn every_flag_combination_round_trips() {
    for r in [0, PERM_R] {
        for w in [0, PERM_W] {
            for x in [0, PERM_X] {
                for m in [0, PERM_M] {
                    let bits = r | w | x | m;
                    let p = Permission::from_bits(bits).expect("valid mask");
                    assert_eq!(p.bits(), bits);
                }
            }
        }
    }
}

#[test]
fn unknown_bits_are_refused() {
    assert!(Permission::from_bits(0o001).is_none());
    assert!(Permission::from_bits(0o711).is_none());
    assert!(Permission::from_bits(0o1000).is_none());
    assert!(Permission::from_bits(u32::MAX).is_none());
    assert!(Permission::from_bits(0o710).is_some());
    assert!(Permission::from_bits(0).is_some());
}

#[test]
fn set_operations() {
    let rwx = Permission::from_bits(0o700).unwrap();
    assert!(rwx.contains(Permission::read()));
    assert!(rwx.contains(Permission::write()));
    assert!(rwx.contains(Permission::execute()));
    assert!(!rwx.contains(Permission::metadata()));
    assert_eq!(rwx.union(Permission::metadata()).bits(), PERM_ALL);
    assert_eq!(rwx.intersection(Permission::write()).bits(), PERM_W);
    assert_eq!(rwx.difference(Permission::read()).bits(), 0o300);
    assert!(rwx.intersects(Permission::execute()));
    assert!(!rwx.intersects(Permission::metadata()));
    assert!(Permission::empty().is_empty());
    assert_eq!(Permission::all().bits(), 0o710);
}
