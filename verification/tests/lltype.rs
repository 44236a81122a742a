use majit::lltype::{
    malloc, nullptr, opaqueptr, ArrayType, FieldList, GcKind, LowLevelType, MallocFlavor,
    OpaqueType, PtrObj, PtrTarget, StructType,
};

fn gc_struct() -> LowLevelType {
    LowLevelType::Struct(Box::new(StructType {
        name: "S",
        fields: FieldList::Cons("x", LowLevelType::Signed, Box::new(FieldList::Nil)),
        gckind: GcKind::Gc,
    }))
}

fn raw_struct() -> LowLevelType {
    LowLevelType::Struct(Box::new(StructType { name: "R", fields: FieldList::Nil, gckind: GcKind::Raw }))
}

#[test]
fn nullptr_needs_a_container() {
    let p = nullptr(gc_struct()).unwrap();
    assert!(!p.nonzero());
    assert!(matches!(p.ptrtype.TO, PtrTarget::Struct(_)));
    assert!(nullptr(LowLevelType::Signed).is_err());
    assert!(nullptr(LowLevelType::Void).is_err());
}

#[test]
fn opaqueptr_needs_an_opaque_type() {
    let p = opaqueptr(LowLevelType::Opaque(Box::new(OpaqueType::gc("T"))), "thing").unwrap();
    assert!(p.nonzero());
    assert_eq!(p.obj, Some(PtrObj::Named { name: "thing" }));
    assert!(opaqueptr(gc_struct(), "thing").is_err());
}

#[test]
fn malloc_rules() {
    let p = malloc(gc_struct(), None, MallocFlavor::Gc, true).unwrap();
    assert_eq!(p.obj, Some(PtrObj::Struct { immortal: true }));
    assert!(malloc(gc_struct(), Some(3), MallocFlavor::Gc, false).is_err());
    assert!(malloc(raw_struct(), None, MallocFlavor::Gc, false).is_err());
    assert!(malloc(gc_struct(), None, MallocFlavor::Raw, false).is_err());
    assert!(malloc(raw_struct(), None, MallocFlavor::Raw, false).is_ok());
    let arr = || LowLevelType::Array(Box::new(ArrayType { of: LowLevelType::Char, gckind: GcKind::Gc }));
    assert_eq!(
        malloc(arr(), Some(4), MallocFlavor::Gc, false).unwrap().obj,
        Some(PtrObj::Array { length: 4, immortal: false })
    );
    assert!(malloc(arr(), None, MallocFlavor::Gc, false).is_err());
    assert!(malloc(LowLevelType::Signed, None, MallocFlavor::Gc, false).is_err());
}

#[test]
fn duplicate_is_equal() {
    let t = gc_struct();
    assert_eq!(t.duplicate(), t);
}
