use majit::model::{ConstValue, HostObject};

#[test]
fn weakref_referent_states() {
    let plain = HostObject::new_plain("object");
    assert!(!plain.is_weakref());
    assert!(plain.weakref_referent().is_none());
    let dead = HostObject::new_weakref("weakref.ref", None);
    assert!(dead.is_weakref());
    assert_eq!(dead.weakref_referent(), Some(None));
    let live = HostObject::new_weakref("weakref.ref", Some(HostObject::new_plain("C")));
    assert_eq!(live.weakref_referent(), Some(Some(&HostObject::new_plain("C"))));
    assert_eq!(live.duplicate(), live);
}

#[test]
fn null_address_values() {
    assert!(ConstValue::Address(None).is_null_address());
    assert!(!ConstValue::Address(Some(16)).is_null_address());
    assert!(!ConstValue::PyNone.is_null_address());
    assert_eq!(ConstValue::byte_str("ref"), ConstValue::ByteStr("ref"));
}
