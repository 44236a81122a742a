use majit::annotator::{KnownType, SomeObjectTrait, SomeValue};
use majit::llmemory::{sizeof, supported_access_type, SomeAddress, SomeTypedAddressAccess};
use majit::lltype::LowLevelType;
use majit::model::{ConstValue, Constant};

#[test]
fn access_types_by_name() {
    assert_eq!(supported_access_type("signed"), Some(LowLevelType::Signed));
    assert_eq!(supported_access_type("unsigned"), Some(LowLevelType::Unsigned));
    assert_eq!(supported_access_type("char"), Some(LowLevelType::Char));
    assert_eq!(supported_access_type("address"), Some(LowLevelType::Address));
    assert_eq!(supported_access_type("float"), Some(LowLevelType::Float));
    assert_eq!(supported_access_type("int"), None);
    assert_eq!(supported_access_type("Signed"), None);
    assert_eq!(supported_access_type(""), None);
    assert_eq!(supported_access_type("signed "), None);
}

#[test]
fn getattr_gives_typed_access() {
    let a = SomeAddress::annotation_getattr("char").unwrap();
    assert_eq!(a.access_type, LowLevelType::Char);
    assert_eq!(a.knowntype(), KnownType::Object);
    assert!(!a.immutable());
    assert!(!a.is_constant());
    assert!(!a.can_be_none());
    assert_eq!(a, SomeTypedAddressAccess::new(LowLevelType::Char));
    assert!(SomeAddress::annotation_getattr("double").is_none());
}

#[test]
fn every_access_type_has_a_size() {
    for name in ["signed", "unsigned", "char", "address", "float"] {
        let t = supported_access_type(name).unwrap();
        assert!(sizeof(&t).is_some());
    }
}

#[test]
fn sizeof_gives_item_offsets() {
    assert_eq!(
        sizeof(&LowLevelType::Char),
        Some(ConstValue::AddressOffset { kind: "ItemOffset", typename: "Char", byte_size: 1 })
    );
    assert_eq!(
        sizeof(&LowLevelType::Signed),
        Some(ConstValue::AddressOffset { kind: "ItemOffset", typename: "Signed", byte_size: 8 })
    );
    assert_eq!(
        sizeof(&LowLevelType::Float),
        Some(ConstValue::AddressOffset { kind: "ItemOffset", typename: "Float", byte_size: 8 })
    );
    assert_eq!(sizeof(&LowLevelType::Void), None);
    assert_eq!(sizeof(&LowLevelType::Bool), None);
}

#[test]
fn address_annotation_shape() {
    let a = SomeAddress::new();
    assert_eq!(a.knowntype(), KnownType::Address);
    assert!(a.immutable());
    assert!(!a.is_constant());
    assert!(!a.can_be_none());
    assert!(!a.is_null_address());
    assert_eq!(a, SomeAddress::default());
    assert!(matches!(SomeAddress::annotation_bool(), SomeValue::Bool(b) if b.base.knowntype == KnownType::Bool));
}

#[test]
fn null_address_constant() {
    let mut a = SomeAddress::new();
    a.base.const_box = Some(Constant { value: ConstValue::Address(None), concretetype: None });
    assert!(a.is_constant());
    assert!(a.is_null_address());
    a.base.const_box = Some(Constant { value: ConstValue::Address(Some(64)), concretetype: None });
    assert!(!a.is_null_address());
    a.base.immutable = false;
    a.base.const_box = Some(Constant { value: ConstValue::Address(None), concretetype: None });
    assert!(!a.is_null_address());
}
