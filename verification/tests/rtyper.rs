use majit::lltype::{LowLevelType, MallocFlavor};
use majit::model::{ConstValue, Constant, Hlvalue, Variable};
use majit::rtyper::{
    gc_flavor_const, lowlevel_type_const, ConvertedTo, HighLevelOp, RaisingOp, Repr, ReprState,
    SetupState, TyperError,
};
use majit::rweakref::WeakRefRepr;

fn arg() -> Hlvalue {
    Hlvalue::Variable(Variable { id: 3, concretetype: LowLevelType::Bool })
}

#[test]
fn inputargs_checks_arity() {
    let hop = HighLevelOp::new(vec![arg()], None);
    let t = LowLevelType::Bool;
    assert_eq!(hop.inputargs(vec![ConvertedTo::Repr(&t)]).unwrap(), vec![arg()]);
    assert!(hop.inputargs(vec![]).is_err());
    assert!(hop.inputargs(vec![ConvertedTo::Repr(&t), ConvertedTo::Repr(&t)]).is_err());
}

#[test]
fn exception_cannot_occur_removes_links() {
    let mut hop = HighLevelOp::new(vec![], None);
    hop.exceptionlinks = true;
    assert!(hop.exception_cannot_occur().is_ok());
    assert!(hop.exception_handled);
    assert_eq!(hop.llop_raising_exceptions, Some(RaisingOp::Removed));
    assert!(hop.exception_cannot_occur().is_err());
    let mut plain = HighLevelOp::new(vec![], None);
    assert!(plain.exception_cannot_occur().is_ok());
    assert_eq!(plain.llop_raising_exceptions, None);
}

#[test]
fn simple_call_marks_exceptions() {
    let repr = WeakRefRepr::new();
    let mut hop = HighLevelOp::new(vec![arg()], Some(LowLevelType::Signed));
    hop.exceptionlinks = true;
    repr.rtype_simple_call(&mut hop).unwrap();
    assert!(hop.exception_handled);
    assert_eq!(hop.llop_raising_exceptions, Some(RaisingOp::Removed));
}

#[test]
fn inputconst_checks_the_type() {
    assert_eq!(
        HighLevelOp::inputconst(&LowLevelType::Void, &ConstValue::byte_str("ref")).unwrap(),
        Constant { value: ConstValue::ByteStr("ref"), concretetype: Some(LowLevelType::Void) }
    );
    assert!(HighLevelOp::inputconst(&LowLevelType::Signed, &ConstValue::Int(5)).is_ok());
    assert!(HighLevelOp::inputconst(&LowLevelType::Signed, &ConstValue::Bool(true)).is_err());
    assert!(HighLevelOp::inputconst(&LowLevelType::Bool, &ConstValue::Bool(true)).is_ok());
    assert!(HighLevelOp::inputconst(&LowLevelType::Char, &ConstValue::Int(1)).is_err());
}

#[test]
fn void_constants() {
    assert_eq!(
        gc_flavor_const().unwrap(),
        Hlvalue::Constant(Constant {
            value: ConstValue::MallocFlags { flavor: MallocFlavor::Gc },
            concretetype: Some(LowLevelType::Void)
        })
    );
    assert_eq!(
        lowlevel_type_const(LowLevelType::Signed),
        Hlvalue::Constant(Constant {
            value: ConstValue::LowLevelType(Box::new(LowLevelType::Signed)),
            concretetype: Some(LowLevelType::Void)
        })
    );
}

#[test]
fn fresh_reprs_are_not_set_up() {
    assert_eq!(ReprState::new().setupstate, SetupState::NotInitialized);
    assert_eq!(WeakRefRepr::new().state().setupstate, SetupState::NotInitialized);
    assert_eq!(TyperError::message("boom").message, "boom");
}
