use majit::lltype::{LowLevelType, MallocFlavor, PtrObj};
use majit::model::{ConstValue, Constant, HostObject, Hlvalue, Variable};
use majit::rtyper::{
    GenopResult, HighLevelOp, RPythonTyper, Repr, ReprClassId, SetupState, TranslationConfig,
    TranslationOptions,
};
use majit::rweakref::{
    as_base_weakref_repr, is_base_weakref_repr, weakref_makerepr, weakref_ptr_type, AnyRepr,
    BaseWeakRefRepr, BaseWeakRefReprTrait, EmulatedWeakRefRepr, WeakRefRepr,
    EMULATED_CALL_NO_RESULT, EMULATED_DEREF_NO_RESULT, EMULATED_LIVE_WEAKREF,
    EMULATED_NOT_A_WEAKREF, NATIVE_CALL_NO_RESULT, NATIVE_DEREF_NO_RESULT, NATIVE_LIVE_WEAKREF,
    NATIVE_NOT_A_WEAKREF,
};
use majit::rtyper::{CANNOT_CATCH_EXCEPTION, WRONG_ARGUMENT_COUNT};

#[test]
fn weakref_convert_const_none_is_null_weakref_ptr() {
    let repr = WeakRefRepr::new();
    let c = repr.convert_const(&ConstValue::PyNone).unwrap();
    assert_eq!(c.concretetype, Some(weakref_ptr_type()));
    let ConstValue::LLPtr(ptr) = c.value else {
        panic!("None weakref constant must be a low-level null pointer");
    };
    assert!(!ptr.nonzero());
}

#[test]
fn weakref_convert_const_dead_host_weakref_is_dead_wref_ptr() {
    let repr = WeakRefRepr::new();
    let dead = HostObject::new_weakref("weakref.ref", None);
    let c = repr
        .convert_const(&ConstValue::HostObject(dead))
        .expect("dead host weakref must convert to llmemory.dead_wref shape");
    assert_eq!(c.concretetype, Some(weakref_ptr_type()));
    let ConstValue::LLPtr(ptr) = c.value else {
        panic!("dead weakref constant must be a low-level weakref pointer");
    };
    assert!(ptr.nonzero());
}

#[test]
fn emulated_weakref_convert_const_none_is_null_emulated_ptr() {
    let repr = EmulatedWeakRefRepr::new();
    let c = repr.convert_const(&ConstValue::PyNone).unwrap();
    assert_eq!(c.concretetype, Some(repr.lowleveltype().duplicate()));
    let ConstValue::LLPtr(ptr) = c.value else {
        panic!("None emulated weakref constant must be a low-level null pointer");
    };
    assert!(!ptr.nonzero());
}

#[test]
fn weakref_convert_const_dead_is_named_dead_wref() {
    let repr = WeakRefRepr::new();
    let c = repr
        .convert_const(&ConstValue::HostObject(HostObject::new_weakref("weakref.ref", None)))
        .unwrap();
    let ConstValue::LLPtr(ptr) = c.value else {
        panic!("expected a pointer");
    };
    assert_eq!(ptr.obj, Some(PtrObj::Named { name: "dead_wref" }));
}

#[test]
fn emulated_weakref_convert_const_dead_is_fresh_struct() {
    let repr = EmulatedWeakRefRepr::new();
    let c = repr
        .convert_const(&ConstValue::HostObject(HostObject::new_weakref("weakref.ref", None)))
        .unwrap();
    assert_eq!(c.concretetype, Some(repr.lowleveltype().duplicate()));
    let ConstValue::LLPtr(ptr) = c.value else {
        panic!("expected a pointer");
    };
    assert_eq!(ptr.obj, Some(PtrObj::Struct { immortal: true }));
}

#[test]
fn weakref_convert_const_live_weakref_is_refused() {
    let live = HostObject::new_weakref("weakref.ref", Some(HostObject::new_plain("C")));
    let native = WeakRefRepr::new();
    let e = native.convert_const(&ConstValue::HostObject(live.duplicate())).unwrap_err();
    assert_eq!(e.message, NATIVE_LIVE_WEAKREF);
    let emulated = EmulatedWeakRefRepr::new();
    let e = emulated.convert_const(&ConstValue::HostObject(live)).unwrap_err();
    assert_eq!(e.message, EMULATED_LIVE_WEAKREF);
}

#[test]
fn weakref_convert_const_other_values_are_refused() {
    let native = WeakRefRepr::new();
    assert!(native.convert_const(&ConstValue::Int(3)).is_err());
    assert!(native
        .convert_const(&ConstValue::HostObject(HostObject::new_plain("object")))
        .is_err());
    let e = native.convert_const(&ConstValue::Int(3)).unwrap_err();
    assert_eq!(e.message, format!("{}{:?}", NATIVE_NOT_A_WEAKREF, ConstValue::Int(3)));
    let emulated = EmulatedWeakRefRepr::new();
    assert!(emulated.convert_const(&ConstValue::Bool(true)).is_err());
    let e = emulated.convert_const(&ConstValue::Bool(true)).unwrap_err();
    assert_eq!(e.message, format!("{}{:?}", EMULATED_NOT_A_WEAKREF, ConstValue::Bool(true)));
}

#[test]
fn makerepr_follows_rweakref_option() {
    let native = RPythonTyper { config: Some(TranslationConfig { translation: TranslationOptions { rweakref: true } }) };
    assert!(matches!(weakref_makerepr(&native), Ok(AnyRepr::WeakRef(_))));
    let emulated = RPythonTyper { config: Some(TranslationConfig { translation: TranslationOptions { rweakref: false } }) };
    assert!(matches!(weakref_makerepr(&emulated), Ok(AnyRepr::EmulatedWeakRef(_))));
    let unconfigured = RPythonTyper { config: None };
    assert!(matches!(weakref_makerepr(&unconfigured), Ok(AnyRepr::WeakRef(_))));
}

#[test]
fn makerepr_gives_a_fresh_repr() {
    let native = RPythonTyper { config: None };
    match weakref_makerepr(&native) {
        Ok(AnyRepr::WeakRef(w)) => assert_eq!(w.state().setupstate, SetupState::NotInitialized),
        _ => panic!("expected the native representation"),
    }
    let emulated = RPythonTyper { config: Some(TranslationConfig { translation: TranslationOptions { rweakref: false } }) };
    match weakref_makerepr(&emulated) {
        Ok(AnyRepr::EmulatedWeakRef(e)) => assert_eq!(e.state().setupstate, SetupState::NotInitialized),
        _ => panic!("expected the emulated representation"),
    }
}

#[test]
fn base_weakref_repr_test_and_cast_agree() {
    let w = AnyRepr::WeakRef(WeakRefRepr::new());
    let e = AnyRepr::EmulatedWeakRef(EmulatedWeakRefRepr::new());
    let o = AnyRepr::Other(ReprClassId::IntegerRepr, LowLevelType::Signed);
    assert!(is_base_weakref_repr(&w));
    assert!(matches!(as_base_weakref_repr(&w), Some(BaseWeakRefRepr::Native(_))));
    assert!(is_base_weakref_repr(&e));
    assert!(matches!(as_base_weakref_repr(&e), Some(BaseWeakRefRepr::Emulated(_))));
    assert!(!is_base_weakref_repr(&o));
    assert!(as_base_weakref_repr(&o).is_none());
}

#[test]
fn repr_names_and_classes() {
    let w = WeakRefRepr::new();
    let e = EmulatedWeakRefRepr::new();
    assert_eq!(w.class_name(), "WeakRefRepr");
    assert_eq!(e.class_name(), "EmulatedWeakRefRepr");
    assert_eq!(w.repr_class_id(), ReprClassId::WeakRefRepr);
    assert_eq!(e.repr_class_id(), ReprClassId::EmulatedWeakRefRepr);
}

fn instance_arg() -> Hlvalue {
    Hlvalue::Variable(Variable { id: 100, concretetype: LowLevelType::Signed })
}

#[test]
fn native_weakref_create_emits_one_op() {
    let repr = WeakRefRepr::new();
    let mut hop = HighLevelOp::new(vec![], None);
    let r = repr.weakref_create(&mut hop, instance_arg()).unwrap();
    assert_eq!(r, Some(Hlvalue::Variable(Variable { id: 0, concretetype: weakref_ptr_type() })));
    assert_eq!(hop.llops.len(), 1);
    assert_eq!(hop.llops[0].opname, "weakref_create");
    assert_eq!(hop.llops[0].args, vec![instance_arg()]);
}

#[test]
fn emulated_weakref_create_then_deref_reads_stored_field() {
    let repr = EmulatedWeakRefRepr::new();
    let mut hop = HighLevelOp::new(vec![], Some(LowLevelType::Signed));
    let v_ptr = repr.weakref_create(&mut hop, instance_arg()).unwrap().unwrap();
    let names: Vec<&str> = hop.llops.iter().map(|op| op.opname).collect();
    assert_eq!(names, vec!["malloc", "cast_opaque_ptr", "setfield"]);
    assert_eq!(
        hop.llops[0].args[1],
        Hlvalue::Constant(Constant {
            value: ConstValue::MallocFlags { flavor: MallocFlavor::Gc },
            concretetype: Some(LowLevelType::Void),
        })
    );
    let r = repr.weakref_deref(&mut hop, v_ptr.duplicate()).unwrap();
    assert_eq!(hop.llops.len(), 5);
    assert_eq!(hop.llops[3].opname, "getfield");
    assert_eq!(hop.llops[3].args[0], hop.llops[2].args[0]);
    assert_eq!(hop.llops[3].args[1], hop.llops[2].args[1]);
    assert_eq!(hop.llops[4].opname, "cast_opaque_ptr");
    assert_eq!(r, Some(Hlvalue::Variable(Variable { id: 4, concretetype: LowLevelType::Signed })));
}

#[test]
fn emulated_deref_without_result_repr_fails_after_getfield() {
    let repr = EmulatedWeakRefRepr::new();
    let mut hop = HighLevelOp::new(vec![], None);
    let e = repr.weakref_deref(&mut hop, instance_arg()).unwrap_err();
    assert_eq!(e.message, EMULATED_DEREF_NO_RESULT);
    assert_eq!(hop.llops.len(), 1);
    assert_eq!(hop.llops[0].opname, "getfield");
}

#[test]
fn simple_call_with_void_result_is_none_constant() {
    let repr = WeakRefRepr::new();
    let mut hop = HighLevelOp::new(vec![instance_arg()], Some(LowLevelType::Void));
    let r = repr.rtype_simple_call(&mut hop).unwrap();
    assert_eq!(
        r,
        Some(Hlvalue::Constant(Constant {
            value: ConstValue::PyNone,
            concretetype: Some(LowLevelType::Void)
        }))
    );
    assert!(hop.llops.is_empty());
}

#[test]
fn simple_call_derefs_argument() {
    let repr = WeakRefRepr::new();
    let mut hop = HighLevelOp::new(vec![instance_arg()], Some(LowLevelType::Signed));
    let r = repr.rtype_simple_call(&mut hop).unwrap();
    assert_eq!(r, Some(Hlvalue::Variable(Variable { id: 0, concretetype: LowLevelType::Signed })));
    assert_eq!(hop.llops.len(), 1);
    assert_eq!(hop.llops[0].opname, "weakref_deref");
    assert_eq!(hop.llops[0].args, vec![instance_arg()]);
    let emulated = EmulatedWeakRefRepr::new();
    let mut hop = HighLevelOp::new(vec![instance_arg()], Some(LowLevelType::Signed));
    let r = emulated.rtype_simple_call(&mut hop).unwrap();
    assert_eq!(r, Some(Hlvalue::Variable(Variable { id: 1, concretetype: LowLevelType::Signed })));
    assert_eq!(hop.llops.len(), 2);
}

#[test]
fn simple_call_errors() {
    let repr = WeakRefRepr::new();
    let mut two_args = HighLevelOp::new(vec![instance_arg(), instance_arg()], Some(LowLevelType::Signed));
    assert!(repr.rtype_simple_call(&mut two_args).is_err());
    let mut no_result = HighLevelOp::new(vec![instance_arg()], None);
    assert!(repr.rtype_simple_call(&mut no_result).is_err());
    let mut raising = HighLevelOp::new(vec![instance_arg()], Some(LowLevelType::Signed));
    raising.llop_raising_exceptions = Some(majit::rtyper::RaisingOp::At(0));
    assert!(repr.rtype_simple_call(&mut raising).is_err());
    assert!(raising.llops.is_empty());
}

#[test]
fn simple_call_and_deref_error_messages() {
    let native = WeakRefRepr::new();
    let emulated = EmulatedWeakRefRepr::new();
    let mut two_args = HighLevelOp::new(vec![instance_arg(), instance_arg()], Some(LowLevelType::Signed));
    assert_eq!(native.rtype_simple_call(&mut two_args).unwrap_err().message, WRONG_ARGUMENT_COUNT);
    let mut two_args = HighLevelOp::new(vec![instance_arg(), instance_arg()], Some(LowLevelType::Signed));
    assert_eq!(emulated.rtype_simple_call(&mut two_args).unwrap_err().message, WRONG_ARGUMENT_COUNT);
    let mut raising = HighLevelOp::new(vec![instance_arg()], Some(LowLevelType::Signed));
    raising.llop_raising_exceptions = Some(majit::rtyper::RaisingOp::At(0));
    assert_eq!(native.rtype_simple_call(&mut raising).unwrap_err().message, CANNOT_CATCH_EXCEPTION);
    let mut raising = HighLevelOp::new(vec![instance_arg()], Some(LowLevelType::Signed));
    raising.llop_raising_exceptions = Some(majit::rtyper::RaisingOp::At(0));
    assert_eq!(emulated.rtype_simple_call(&mut raising).unwrap_err().message, CANNOT_CATCH_EXCEPTION);
    let mut no_result = HighLevelOp::new(vec![instance_arg()], None);
    assert_eq!(native.rtype_simple_call(&mut no_result).unwrap_err().message, NATIVE_CALL_NO_RESULT);
    let mut no_result = HighLevelOp::new(vec![instance_arg()], None);
    assert_eq!(emulated.rtype_simple_call(&mut no_result).unwrap_err().message, EMULATED_CALL_NO_RESULT);
    let mut no_result = HighLevelOp::new(vec![], None);
    assert_eq!(native.weakref_deref(&mut no_result, instance_arg()).unwrap_err().message, NATIVE_DEREF_NO_RESULT);
    assert!(no_result.llops.is_empty());
}

#[test]
fn call_gives_what_deref_gives() {
    let native = WeakRefRepr::new();
    let mut call_hop = HighLevelOp::new(vec![instance_arg()], Some(LowLevelType::Signed));
    let called = native.rtype_simple_call(&mut call_hop).unwrap();
    let mut deref_hop = HighLevelOp::new(vec![instance_arg()], Some(LowLevelType::Signed));
    let derefd = native.weakref_deref(&mut deref_hop, instance_arg()).unwrap();
    assert_eq!(called, derefd);
    assert_eq!(format!("{:?}", call_hop.llops), format!("{:?}", deref_hop.llops));
    let emulated = EmulatedWeakRefRepr::new();
    let mut call_hop = HighLevelOp::new(vec![instance_arg()], Some(LowLevelType::Signed));
    let called = emulated.rtype_simple_call(&mut call_hop).unwrap();
    let mut deref_hop = HighLevelOp::new(vec![instance_arg()], Some(LowLevelType::Signed));
    let derefd = emulated.weakref_deref(&mut deref_hop, instance_arg()).unwrap();
    assert_eq!(called, derefd);
    assert_eq!(format!("{:?}", call_hop.llops), format!("{:?}", deref_hop.llops));
}

#[test]
fn genop_void_returns_nothing_but_records_op() {
    let mut hop = HighLevelOp::new(vec![], None);
    assert!(hop.genop("keepalive", vec![], GenopResult::Void).is_none());
    assert_eq!(hop.llops.len(), 1);
    assert_eq!(hop.llops[0].result.concretetype, LowLevelType::Void);
    assert_eq!(hop.next_var_id, 1);
}
