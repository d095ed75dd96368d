use std::any::TypeId;

use channel_broker::TypeRegistry;

#[test]
fn registry_lookup_after_insert() {
    let mut reg: TypeRegistry<u32> = TypeRegistry::new();
    assert_eq!(reg.get(&TypeId::of::<u8>()), None);
    reg.insert(TypeId::of::<u8>(), 1);
    reg.insert(TypeId::of::<u16>(), 2);
    assert_eq!(reg.get(&TypeId::of::<u8>()), Some(&1));
    assert_eq!(reg.get(&TypeId::of::<u16>()), Some(&2));
    assert_eq!(reg.get(&TypeId::of::<u32>()), None);
}

#[test]
fn registry_insert_replaces() {
    let mut reg: TypeRegistry<&'static str> = TypeRegistry::new();
    reg.insert(TypeId::of::<u8>(), "first");
    reg.insert(TypeId::of::<u16>(), "other");
    reg.insert(TypeId::of::<u8>(), "second");
    assert_eq!(reg.get(&TypeId::of::<u8>()), Some(&"second"));
    assert_eq!(reg.get(&TypeId::of::<u16>()), Some(&"other"));
}

#[test]
fn registry_get_mut_changes_one_entry() {
    let mut reg: TypeRegistry<u32> = TypeRegistry::new();
    reg.insert(TypeId::of::<u8>(), 1);
    reg.insert(TypeId::of::<u16>(), 2);
    *reg.get_mut(&TypeId::of::<u16>()).unwrap() = 20;
    assert!(reg.get_mut(&TypeId::of::<i8>()).is_none());
    assert_eq!(reg.get(&TypeId::of::<u8>()), Some(&1));
    assert_eq!(reg.get(&TypeId::of::<u16>()), Some(&20));
}
