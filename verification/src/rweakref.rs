//! RTyping of weak references: the native representation, and the
//! emulation with strong references used when the backend has no weak
//! references.

use crate::lltype::{
    lemma_target_type_roundtrip, malloc, malloc_obj, malloc_ok, nullptr, opaqueptr, ptr_to, spec_gcref,
    spec_weakref, spec_weakref_ptr, target_type, FieldList, GcKind, LLPtr, LowLevelType,
    MallocFlavor, OpaqueType, Ptr, PtrObj, PtrTarget, StructType,
};
use crate::model::{spec_referent, ConstValue, Constant, HostObject, Hlvalue, OpView, Variable};
use crate::rtyper::{
    appended_ops, gc_flavor_const, raising_after_cannot_occur, lowlevel_type_const, one_arg, op_view, three_args, two_args,
    void_const, CANNOT_CATCH_EXCEPTION, WRONG_ARGUMENT_COUNT, ConvertedTo, GenopResult, HighLevelOp, RPythonTyper, RTypeResult, Repr,
    ReprClassId, ReprState, SetupState, TyperError,
};
use vstd::prelude::*;

verus! {

/// The error the native representation gives for a live prebuilt weak
/// reference.
pub const NATIVE_LIVE_WEAKREF: &'static str = "WeakRefRepr.convert_const: live prebuilt weakref conversion requires rtyper.bindingrepr(Constant(instance))";

/// The start of the error the native representation gives for a value
/// that is neither `None` nor a weak reference.
pub const NATIVE_NOT_A_WEAKREF: &'static str = "WeakRefRepr.convert_const: expected None or weakref.ref, got ";

/// The error of a native call without a result representation.
pub const NATIVE_CALL_NO_RESULT: &'static str = "WeakRefRepr.rtype_simple_call: no r_result";

/// The error of a native dereference without a result representation.
pub const NATIVE_DEREF_NO_RESULT: &'static str = "WeakRefRepr._weakref_deref: no r_result";

/// The error the emulated representation gives for a live prebuilt weak
/// reference.
pub const EMULATED_LIVE_WEAKREF: &'static str = "EmulatedWeakRefRepr.convert_const: live prebuilt weakref conversion requires rtyper.bindingrepr(Constant(instance))";

/// The start of the error the emulated representation gives for a value
/// that is neither `None` nor a weak reference.
pub const EMULATED_NOT_A_WEAKREF: &'static str = "EmulatedWeakRefRepr.convert_const: expected None or weakref.ref, got ";

/// The error of an emulated call without a result representation.
pub const EMULATED_CALL_NO_RESULT: &'static str = "EmulatedWeakRefRepr.rtype_simple_call: no r_result";

/// The error of an emulated dereference without a result representation.
pub const EMULATED_DEREF_NO_RESULT: &'static str = "EmulatedWeakRefRepr._weakref_deref: no r_result";

/// The start of the error for a representation type that is not a pointer.
pub const NOT_A_POINTER: &'static str = "weakref repr lowleveltype must be Ptr(...), got ";

/// The text that `format!("{:?}", t)` gives for a low-level type, written
/// by its derived `Debug`.
pub uninterp spec fn lltype_debug_text(t: LowLevelType) -> Seq<char>;

/// The text that `format!("{:?}", v)` gives for a constant, written by its
/// derived `Debug`.
pub uninterp spec fn const_value_debug_text(v: ConstValue) -> Seq<char>;

/// Formats a typing error about a low-level type with `format!`: the
/// prefix, then the type's `Debug` text.
#[verifier::external_body]
fn type_error(prefix: &str, t: &LowLevelType) -> (r: TyperError)
    ensures
        r.message@ == prefix@ + lltype_debug_text(*t),
{
    TyperError { message: format!("{}{:?}", prefix, t) }
}

/// Formats a typing error about a constant with `format!`: the prefix,
/// then the constant's `Debug` text.
#[verifier::external_body]
fn value_error(prefix: &str, v: &ConstValue) -> (r: TyperError)
    ensures
        r.message@ == prefix@ + const_value_debug_text(*v),
{
    TyperError { message: format!("{}{:?}", prefix, v) }
}

/// `BaseWeakRefRepr`: the interface shared by the native and the emulated
/// weak reference representations.
pub trait BaseWeakRefReprTrait: Repr {
    /// `_weakref_create(hop, v_inst)`: the operations creating a weak
    /// reference to `v_inst`.
    fn weakref_create(&self, hop: &mut HighLevelOp, v_inst: Hlvalue) -> RTypeResult
        requires
            old(hop).next_var_id < u64::MAX - 4,
    ;

    /// `_weakref_deref(hop, v_wref)`: the operations reading the referent
    /// of `v_wref`.
    fn weakref_deref(&self, hop: &mut HighLevelOp, v_wref: Hlvalue) -> RTypeResult
        requires
            old(hop).next_var_id < u64::MAX - 4,
    ;
}

/// `GcStruct('EmulatedWeakRef', ('ref', GCREF))`.
pub open spec fn spec_emulated_weakref_struct() -> StructType {
    StructType {
        name: "EmulatedWeakRef",
        fields: FieldList::Cons("ref", spec_gcref(), Box::new(FieldList::Nil)),
        gckind: GcKind::Gc,
    }
}

/// `Ptr(GcStruct('EmulatedWeakRef', ('ref', GCREF)))`: the low-level type of
/// an emulated weak reference.
pub open spec fn spec_emulated_weakref_lltype() -> LowLevelType {
    ptr_to(PtrTarget::Struct(spec_emulated_weakref_struct()))
}

/// The null pointer constant of a pointer type.
pub open spec fn spec_null_ptr_const(ptr_type: LowLevelType) -> Constant {
    match ptr_type {
        LowLevelType::Ptr(p) => Constant {
            value: ConstValue::LLPtr(Box::new(LLPtr { ptrtype: *p, obj: None })),
            concretetype: Some(ptr_type),
        },
        _ => Constant { value: ConstValue::PyNone, concretetype: Some(ptr_type) },
    }
}

/// `llmemory.dead_wref`: the native weak reference whose referent died.
pub open spec fn spec_native_dead_wref() -> Constant {
    Constant {
        value: ConstValue::LLPtr(
            Box::new(
                LLPtr {
                    ptrtype: Ptr { TO: PtrTarget::Opaque(spec_weakref()) },
                    obj: Some(PtrObj::Named { name: "dead_wref" }),
                },
            ),
        ),
        concretetype: Some(spec_weakref_ptr()),
    }
}

/// An emulated weak reference whose referent died: a fresh immortal
/// `EmulatedWeakRef` struct.
pub open spec fn spec_emulated_dead_wref() -> Constant {
    Constant {
        value: ConstValue::LLPtr(
            Box::new(
                LLPtr {
                    ptrtype: Ptr { TO: PtrTarget::Struct(spec_emulated_weakref_struct()) },
                    obj: Some(PtrObj::Struct { immortal: true }),
                },
            ),
        ),
        concretetype: Some(spec_emulated_weakref_lltype()),
    }
}

/// Whether a prebuilt value is a `weakref.ref` whose referent is alive.
pub open spec fn is_live_weakref(value: ConstValue) -> bool {
    match value {
        ConstValue::HostObject(h) => spec_referent(h) matches Some(Some(_)),
        _ => false,
    }
}

/// Whether a prebuilt value is a dead `weakref.ref`.
pub open spec fn is_dead_weakref(value: ConstValue) -> bool {
    match value {
        ConstValue::HostObject(h) => spec_referent(h) == Some(None::<HostObject>),
        _ => false,
    }
}

/// The low-level type a pointer target stands for.
fn ptr_target_as_lowleveltype(target: &PtrTarget) -> (r: LowLevelType)
    ensures
        r == target_type(*target),
{
    match target {
        PtrTarget::Func(t) => LowLevelType::Func(Box::new(t.duplicate())),
        PtrTarget::Struct(t) => LowLevelType::Struct(Box::new(t.duplicate())),
        PtrTarget::Array(t) => LowLevelType::Array(Box::new(t.duplicate())),
        PtrTarget::FixedSizeArray(t) => LowLevelType::FixedSizeArray(Box::new(t.duplicate())),
        PtrTarget::Opaque(t) => LowLevelType::Opaque(Box::new(t.duplicate())),
        PtrTarget::ForwardReference(t) => LowLevelType::ForwardReference(
            Box::new(t.duplicate()),
        ),
    }
}

/// The type a pointer type points to; fails when the type is not a
/// pointer type.
fn ptr_pointee_type(ptr_type: &LowLevelType) -> (r: Result<LowLevelType, TyperError>)
    ensures
        r is Ok <==> ptr_type is Ptr,
        ptr_type matches LowLevelType::Ptr(p) ==> r == Ok::<LowLevelType, TyperError>(
            target_type(p.TO),
        ),
        r matches Err(e) ==> e.message@ == NOT_A_POINTER@ + lltype_debug_text(*ptr_type),
{
    match ptr_type {
        LowLevelType::Ptr(p) => Ok(ptr_target_as_lowleveltype(&p.TO)),
        _ => Err(type_error(NOT_A_POINTER, ptr_type)),
    }
}

/// The null pointer constant of a pointer type; fails when the type is not
/// a pointer type.
fn null_ptr_constant(ptr_type: &LowLevelType) -> (r: Result<Constant, TyperError>)
    ensures
        r is Ok <==> ptr_type is Ptr,
        r is Ok ==> r == Ok::<Constant, TyperError>(spec_null_ptr_const(*ptr_type)),
        r matches Err(e) ==> e.message@ == NOT_A_POINTER@ + lltype_debug_text(*ptr_type),
{
    let pointee = ptr_pointee_type(ptr_type)?;
    proof {
        if let LowLevelType::Ptr(p) = ptr_type {
            lemma_target_type_roundtrip(p.TO);
        }
    }
    let ptr = match nullptr(pointee) {
        Ok(p) => p,
        Err(e) => {
            return Err(TyperError { message: e });
        },
    };
    Ok(Constant::with_concretetype(ConstValue::LLPtr(Box::new(ptr)), ptr_type.duplicate()))
}

/// `llmemory.dead_wref` as a constant of type `WeakRefPtr`.
fn native_dead_wref_constant() -> (r: Result<Constant, TyperError>)
    ensures
        r == Ok::<Constant, TyperError>(spec_native_dead_wref()),
{
    let ptr = match opaqueptr(weakref_type(), "dead_wref") {
        Ok(p) => p,
        Err(e) => {
            return Err(TyperError { message: e });
        },
    };
    Ok(Constant::with_concretetype(ConstValue::LLPtr(Box::new(ptr)), weakref_ptr_type()))
}

/// A fresh immortal GC struct of the pointed-to type, as a constant of the
/// pointer type; fails when the type is not a pointer to a GC struct or
/// opaque type.
fn emulated_dead_wref_constant(ptr_type: &LowLevelType) -> (r: Result<Constant, TyperError>)
    ensures
        r is Ok <==> (ptr_type matches LowLevelType::Ptr(p) && malloc_ok(
            target_type(p.TO),
            None,
            MallocFlavor::Gc,
        )),
        r matches Ok(c) ==> ptr_type matches LowLevelType::Ptr(p) && c == (Constant {
            value: ConstValue::LLPtr(
                Box::new(
                    LLPtr {
                        ptrtype: **p,
                        obj: Some(malloc_obj(target_type(p.TO), None, true)),
                    },
                ),
            ),
            concretetype: Some(*ptr_type),
        }),
        *ptr_type == spec_emulated_weakref_lltype() ==> r == Ok::<Constant, TyperError>(
            spec_emulated_dead_wref(),
        ),
{
    proof {
        if let LowLevelType::Ptr(p) = ptr_type {
            lemma_target_type_roundtrip(p.TO);
        }
    }
    let pointee = ptr_pointee_type(ptr_type)?;
    let ptr = match malloc(pointee, None, MallocFlavor::Gc, true) {
        Ok(p) => p,
        Err(e) => {
            return Err(TyperError { message: e });
        },
    };
    Ok(Constant::with_concretetype(ConstValue::LLPtr(Box::new(ptr)), ptr_type.duplicate()))
}

/// `llmemory.WeakRef`.
pub fn weakref_type() -> (r: LowLevelType)
    ensures
        r == LowLevelType::Opaque(Box::new(spec_weakref())),
{
    LowLevelType::Opaque(Box::new(OpaqueType::gc("WeakRef")))
}

/// `llmemory.WeakRefPtr`.
pub fn weakref_ptr_type() -> (r: LowLevelType)
    ensures
        r == spec_weakref_ptr(),
{
    LowLevelType::Ptr(Box::new(Ptr { TO: PtrTarget::Opaque(OpaqueType::gc("WeakRef")) }))
}

/// `llmemory.GCREF`.
fn gcref_type() -> (r: LowLevelType)
    ensures
        r == spec_gcref(),
{
    LowLevelType::Ptr(Box::new(Ptr { TO: PtrTarget::Opaque(OpaqueType::gc("GCREF")) }))
}

/// The field name `'ref'` as a `Void` constant.
fn ref_field_const() -> (r: Result<Constant, TyperError>)
    ensures
        r == Ok::<Constant, TyperError>(void_const(ConstValue::ByteStr("ref"))),
{
    HighLevelOp::inputconst(&LowLevelType::Void, &ConstValue::byte_str("ref"))
}

/// `Ptr(GcStruct('EmulatedWeakRef', ('ref', GCREF)))`.
fn emulated_weakref_lltype() -> (r: LowLevelType)
    ensures
        r == spec_emulated_weakref_lltype(),
{
    let gcref = gcref_type();
    let flds = FieldList::Cons("ref", gcref, Box::new(FieldList::Nil));
    LowLevelType::Ptr(
        Box::new(
            Ptr {
                TO: PtrTarget::Struct(
                    StructType { name: "EmulatedWeakRef", fields: flds, gckind: GcKind::Gc },
                ),
            },
        ),
    )
}

/// `WeakRefRepr`: the native representation, `lowleveltype = WeakRefPtr`.
#[derive(Debug)]
pub struct WeakRefRepr {
    state: ReprState,
    lltype: LowLevelType,
}

impl WeakRefRepr {
    #[verifier::type_invariant]
    spec fn inv(self) -> bool {
        self.lltype == spec_weakref_ptr()
    }

    /// How far `setup()` has gone.
    pub closed spec fn setup_state(self) -> SetupState {
        self.state.setupstate
    }

    /// A native weak reference representation, not set up yet.
    pub fn new() -> (r: Self)
        ensures
            r.setup_state() == SetupState::NotInitialized,
    {
        WeakRefRepr { state: ReprState::new(), lltype: weakref_ptr_type() }
    }
}

/// The operation reading the referent of the native weak reference
/// `v_wref` into a result of type `t` when the next fresh variable has
/// number `n`.
pub open spec fn spec_native_deref_ops(v_wref: Hlvalue, t: LowLevelType, n: u64) -> Seq<OpView> {
    seq![op_view("weakref_deref", seq![v_wref], GenopResult::Repr(t), n)]
}

/// What a native dereference gives for a result of type `t` when the next
/// fresh variable has number `n`: that variable.
pub open spec fn spec_native_deref_result(t: LowLevelType, n: u64) -> Option<Hlvalue> {
    Some(Hlvalue::Variable(Variable { id: n, concretetype: t }))
}

/// What an emulated dereference gives for a result of type `t` when the
/// next fresh variable has number `n`: the variable after the one that
/// reads the `ref` field.
pub open spec fn spec_emulated_deref_result(t: LowLevelType, n: u64) -> Option<Hlvalue> {
    Some(Hlvalue::Variable(Variable { id: (n + 1) as u64, concretetype: t }))
}

/// What a typed call of a weak reference gives for a `Void` result: the
/// `None` constant.
pub open spec fn spec_void_call_result() -> Option<Hlvalue> {
    Some(Hlvalue::Constant(void_const(ConstValue::PyNone)))
}

impl Repr for WeakRefRepr {
    fn lowleveltype(&self) -> (r: &LowLevelType)
        ensures
            *r == spec_weakref_ptr(),
    {
        proof {
            use_type_invariant(self);
        }
        &self.lltype
    }

    fn state(&self) -> (r: &ReprState)
        ensures
            r.setupstate == self.setup_state(),
    {
        &self.state
    }

    fn class_name(&self) -> (r: &'static str)
        ensures
            r == "WeakRefRepr",
    {
        "WeakRefRepr"
    }

    fn repr_class_id(&self) -> (r: ReprClassId)
        ensures
            r == ReprClassId::WeakRefRepr,
    {
        ReprClassId::WeakRefRepr
    }

    /// `None` becomes the null `WeakRefPtr`, a dead `weakref.ref` becomes
    /// `llmemory.dead_wref`; a live prebuilt weak reference, and any other
    /// value, is refused.
    fn convert_const(&self, value: &ConstValue) -> (r: Result<Constant, TyperError>)
        ensures
            r is Ok <==> (*value == ConstValue::PyNone || is_dead_weakref(*value)),
            *value == ConstValue::PyNone ==> r == Ok::<Constant, TyperError>(
                spec_null_ptr_const(spec_weakref_ptr()),
            ),
            is_dead_weakref(*value) ==> r == Ok::<Constant, TyperError>(spec_native_dead_wref()),
            is_live_weakref(*value) ==> (r matches Err(e) && e.message@ == NATIVE_LIVE_WEAKREF@),
            (*value != ConstValue::PyNone && !is_dead_weakref(*value) && !is_live_weakref(*value))
                ==> (r matches Err(e) && e.message@ == NATIVE_NOT_A_WEAKREF@ + const_value_debug_text(
                *value,
            )),
    {
        match value {
            ConstValue::PyNone => null_ptr_constant(self.lowleveltype()),
            ConstValue::HostObject(obj) => match obj.weakref_referent() {
                Some(None) => native_dead_wref_constant(),
                Some(Some(_)) => Err(TyperError::message(NATIVE_LIVE_WEAKREF)),
                None => Err(value_error(NATIVE_NOT_A_WEAKREF, value)),
            },
            _ => Err(value_error(NATIVE_NOT_A_WEAKREF, value)),
        }
    }

    /// Calling a weak reference dereferences it: with one argument, no
    /// earlier raising operation and a known result representation, the
    /// result is `None` for a `Void` result, and otherwise the result and
    /// operations of `weakref_deref` on the argument.
    fn rtype_simple_call(&self, hop: &mut HighLevelOp) -> (r: RTypeResult)
        ensures
            r is Ok <==> (old(hop).args_v@.len() == 1 && old(hop).llop_raising_exceptions is None
                && old(hop).r_result is Some),
            (r is Ok && old(hop).r_result == Some(LowLevelType::Void)) ==> r == Ok::<
                Option<Hlvalue>,
                TyperError,
            >(spec_void_call_result()),
            (r is Ok && old(hop).r_result != Some(LowLevelType::Void)) ==> r == Ok::<
                Option<Hlvalue>,
                TyperError,
            >(spec_native_deref_result(old(hop).r_result->0, old(hop).next_var_id)),
            (r is Ok && old(hop).r_result != Some(LowLevelType::Void)) ==> appended_ops(
                old(hop).llops@,
                final(hop).llops@,
                spec_native_deref_ops(old(hop).args_v@[0], old(hop).r_result->0, old(hop).next_var_id),
            ),
            (r is Ok && old(hop).r_result != Some(LowLevelType::Void)) ==> ({
                let deref = final(hop).llops@[old(hop).llops@.len() as int + 0]@;
                &&& deref.opname == "weakref_deref"
                &&& deref.args == seq![old(hop).args_v@[0]]
                &&& r->Ok_0 == Some(Hlvalue::Variable(deref.result))
            }),
            !(r is Ok && old(hop).r_result != Some(LowLevelType::Void)) ==> final(hop).llops@
                == old(hop).llops@,
            old(hop).args_v@.len() == 1 ==> final(hop).exception_handled,
            old(hop).args_v@.len() != 1 ==> (final(hop).exception_handled
                == old(hop).exception_handled && final(hop).llop_raising_exceptions
                == old(hop).llop_raising_exceptions),
            final(hop).next_var_id == old(hop).next_var_id + (if r is Ok && old(hop).r_result
                != Some(LowLevelType::Void) {
                1int
            } else {
                0int
            }),
            final(hop).args_v == old(hop).args_v,
            final(hop).r_result == old(hop).r_result,
            final(hop).exceptionlinks == old(hop).exceptionlinks,
            old(hop).args_v@.len() == 1 ==> final(hop).llop_raising_exceptions
                == raising_after_cannot_occur(
                old(hop).llop_raising_exceptions,
                old(hop).exceptionlinks,
            ),
            old(hop).args_v@.len() != 1 ==> (r matches Err(e) && e.message@
                == WRONG_ARGUMENT_COUNT@),
            (old(hop).args_v@.len() == 1 && old(hop).llop_raising_exceptions is Some) ==> (
            r matches Err(e) && e.message@ == CANNOT_CATCH_EXCEPTION@),
            (old(hop).args_v@.len() == 1 && old(hop).llop_raising_exceptions is None
                && old(hop).r_result is None) ==> (r matches Err(e) && e.message@
                == NATIVE_CALL_NO_RESULT@),
    {
        let mut converted = Vec::new();
        converted.push(ConvertedTo::Repr(self.lowleveltype()));
        let mut vlist = hop.inputargs(converted)?;
        hop.exception_cannot_occur()?;
        let is_void = match &hop.r_result {
            Some(t) => t.is_void(),
            None => {
                return Err(TyperError::message(NATIVE_CALL_NO_RESULT));
            },
        };
        if is_void {
            Ok(
                Some(
                    Hlvalue::Constant(
                        Constant::with_concretetype(ConstValue::PyNone, LowLevelType::Void),
                    ),
                ),
            )
        } else {
            let v = vlist.pop().unwrap();
            self.weakref_deref(hop, v)
        }
    }
}

impl BaseWeakRefReprTrait for WeakRefRepr {
    /// One `weakref_create` operation on `v_inst`, whose result is a
    /// `WeakRefPtr`.
    fn weakref_create(&self, hop: &mut HighLevelOp, v_inst: Hlvalue) -> (r: RTypeResult)
        ensures
            r == Ok::<Option<Hlvalue>, TyperError>(
                Some(
                    Hlvalue::Variable(
                        Variable { id: old(hop).next_var_id, concretetype: spec_weakref_ptr() },
                    ),
                ),
            ),
            appended_ops(
                old(hop).llops@,
                final(hop).llops@,
                seq![
                    op_view(
                        "weakref_create",
                        seq![v_inst],
                        GenopResult::LLType(spec_weakref_ptr()),
                        old(hop).next_var_id,
                    ),
                ],
            ),
            final(hop).next_var_id == old(hop).next_var_id + 1,
            final(hop).exception_handled == old(hop).exception_handled,
            final(hop).args_v == old(hop).args_v,
            final(hop).r_result == old(hop).r_result,
            final(hop).exceptionlinks == old(hop).exceptionlinks,
            final(hop).llop_raising_exceptions == old(hop).llop_raising_exceptions,
    {
        let args = one_arg(v_inst);
        let r = hop.genop("weakref_create", args, GenopResult::LLType(weakref_ptr_type()));
        assert(hop.llops@.subrange(0, old(hop).llops@.len() as int) =~= old(hop).llops@);
        Ok(r)
    }

    /// With a known result representation, one `weakref_deref` operation on
    /// `v_wref` whose result is in that representation.
    fn weakref_deref(&self, hop: &mut HighLevelOp, v_wref: Hlvalue) -> (r: RTypeResult)
        ensures
            r is Ok <==> old(hop).r_result is Some,
            r is Ok ==> r == Ok::<Option<Hlvalue>, TyperError>(
                spec_native_deref_result(old(hop).r_result->0, old(hop).next_var_id),
            ),
            r is Ok ==> appended_ops(
                old(hop).llops@,
                final(hop).llops@,
                spec_native_deref_ops(v_wref, old(hop).r_result->0, old(hop).next_var_id),
            ),
            r is Ok ==> ({
                let deref = final(hop).llops@[old(hop).llops@.len() as int + 0]@;
                &&& deref.opname == "weakref_deref"
                &&& deref.args == seq![v_wref]
                &&& r->Ok_0 == Some(Hlvalue::Variable(deref.result))
            }),
            r is Err ==> final(hop).llops@ == old(hop).llops@,
            final(hop).next_var_id == old(hop).next_var_id + (if r is Ok {
                1int
            } else {
                0int
            }),
            final(hop).exception_handled == old(hop).exception_handled,
            final(hop).args_v == old(hop).args_v,
            final(hop).r_result == old(hop).r_result,
            final(hop).exceptionlinks == old(hop).exceptionlinks,
            final(hop).llop_raising_exceptions == old(hop).llop_raising_exceptions,
            old(hop).r_result is None ==> (r matches Err(e) && e.message@
                == NATIVE_DEREF_NO_RESULT@),
    {
        let t = match &hop.r_result {
            Some(t) => t.duplicate(),
            None => {
                return Err(TyperError::message(NATIVE_DEREF_NO_RESULT));
            },
        };
        let args = one_arg(v_wref);
        let r = hop.genop("weakref_deref", args, GenopResult::Repr(t));
        assert(hop.llops@.subrange(0, old(hop).llops@.len() as int) =~= old(hop).llops@);
        Ok(r)
    }
}

/// `EmulatedWeakRefRepr`: weak references emulated with strong ones, for
/// backends without weak references; `lowleveltype =
/// Ptr(GcStruct('EmulatedWeakRef', ('ref', GCREF)))`.
#[derive(Debug)]
pub struct EmulatedWeakRefRepr {
    state: ReprState,
    lltype: LowLevelType,
}

impl EmulatedWeakRefRepr {
    #[verifier::type_invariant]
    spec fn inv(self) -> bool {
        self.lltype == spec_emulated_weakref_lltype()
    }

    /// How far `setup()` has gone.
    pub closed spec fn setup_state(self) -> SetupState {
        self.state.setupstate
    }

    /// An emulated weak reference representation, not set up yet.
    pub fn new() -> (r: Self)
        ensures
            r.setup_state() == SetupState::NotInitialized,
    {
        EmulatedWeakRefRepr { state: ReprState::new(), lltype: emulated_weakref_lltype() }
    }
}

impl Repr for EmulatedWeakRefRepr {
    fn lowleveltype(&self) -> (r: &LowLevelType)
        ensures
            *r == spec_emulated_weakref_lltype(),
    {
        proof {
            use_type_invariant(self);
        }
        &self.lltype
    }

    fn state(&self) -> (r: &ReprState)
        ensures
            r.setupstate == self.setup_state(),
    {
        &self.state
    }

    fn class_name(&self) -> (r: &'static str)
        ensures
            r == "EmulatedWeakRefRepr",
    {
        "EmulatedWeakRefRepr"
    }

    fn repr_class_id(&self) -> (r: ReprClassId)
        ensures
            r == ReprClassId::EmulatedWeakRefRepr,
    {
        ReprClassId::EmulatedWeakRefRepr
    }

    /// `None` becomes the null pointer, a dead `weakref.ref` a fresh
    /// immortal `EmulatedWeakRef`; a live prebuilt weak reference, and any
    /// other value, is refused.
    fn convert_const(&self, value: &ConstValue) -> (r: Result<Constant, TyperError>)
        ensures
            r is Ok <==> (*value == ConstValue::PyNone || is_dead_weakref(*value)),
            *value == ConstValue::PyNone ==> r == Ok::<Constant, TyperError>(
                spec_null_ptr_const(spec_emulated_weakref_lltype()),
            ),
            is_dead_weakref(*value) ==> r == Ok::<Constant, TyperError>(
                spec_emulated_dead_wref(),
            ),
            is_live_weakref(*value) ==> (r matches Err(e) && e.message@ == EMULATED_LIVE_WEAKREF@),
            (*value != ConstValue::PyNone && !is_dead_weakref(*value) && !is_live_weakref(*value))
                ==> (r matches Err(e) && e.message@ == EMULATED_NOT_A_WEAKREF@ + const_value_debug_text(
                *value,
            )),
    {
        proof {
            use_type_invariant(self);
        }
        match value {
            ConstValue::PyNone => null_ptr_constant(&self.lltype),
            ConstValue::HostObject(obj) => match obj.weakref_referent() {
                Some(None) => emulated_dead_wref_constant(&self.lltype),
                Some(Some(_)) => Err(TyperError::message(EMULATED_LIVE_WEAKREF)),
                None => Err(value_error(EMULATED_NOT_A_WEAKREF, value)),
            },
            _ => Err(value_error(EMULATED_NOT_A_WEAKREF, value)),
        }
    }

    /// Calling an emulated weak reference dereferences it: with one
    /// argument, no earlier raising operation and a known result
    /// representation, the result is `None` for a `Void` result, and
    /// otherwise the result and operations of `weakref_deref` on the
    /// argument: a `getfield` of its `ref` field cast to the result.
    fn rtype_simple_call(&self, hop: &mut HighLevelOp) -> (r: RTypeResult)
        ensures
            r is Ok <==> (old(hop).args_v@.len() == 1 && old(hop).llop_raising_exceptions is None
                && old(hop).r_result is Some),
            (r is Ok && old(hop).r_result == Some(LowLevelType::Void)) ==> r == Ok::<
                Option<Hlvalue>,
                TyperError,
            >(spec_void_call_result()),
            (r is Ok && old(hop).r_result != Some(LowLevelType::Void)) ==> r == Ok::<
                Option<Hlvalue>,
                TyperError,
            >(spec_emulated_deref_result(old(hop).r_result->0, old(hop).next_var_id)),
            (r is Ok && old(hop).r_result != Some(LowLevelType::Void)) ==> appended_ops(
                old(hop).llops@,
                final(hop).llops@,
                spec_emulated_deref_ops(
                    old(hop).args_v@[0],
                    old(hop).r_result->0,
                    old(hop).next_var_id,
                ),
            ),
            (r is Ok && old(hop).r_result != Some(LowLevelType::Void)) ==> ({
                let read = final(hop).llops@[old(hop).llops@.len() as int + 0]@;
                let cast = final(hop).llops@[old(hop).llops@.len() as int + 1]@;
                &&& read.opname == "getfield"
                &&& read.args == seq![
                    old(hop).args_v@[0],
                    Hlvalue::Constant(void_const(ConstValue::ByteStr("ref"))),
                ]
                &&& cast.opname == "cast_opaque_ptr"
                &&& cast.args == seq![Hlvalue::Variable(read.result)]
                &&& r->Ok_0 == Some(Hlvalue::Variable(cast.result))
            }),
            !(r is Ok && old(hop).r_result != Some(LowLevelType::Void)) ==> final(hop).llops@
                == old(hop).llops@,
            old(hop).args_v@.len() == 1 ==> final(hop).exception_handled,
            old(hop).args_v@.len() != 1 ==> (final(hop).exception_handled
                == old(hop).exception_handled && final(hop).llop_raising_exceptions
                == old(hop).llop_raising_exceptions),
            final(hop).next_var_id == old(hop).next_var_id + (if r is Ok && old(hop).r_result
                != Some(LowLevelType::Void) {
                2int
            } else {
                0int
            }),
            final(hop).args_v == old(hop).args_v,
            final(hop).r_result == old(hop).r_result,
            final(hop).exceptionlinks == old(hop).exceptionlinks,
            old(hop).args_v@.len() == 1 ==> final(hop).llop_raising_exceptions
                == raising_after_cannot_occur(
                old(hop).llop_raising_exceptions,
                old(hop).exceptionlinks,
            ),
            old(hop).args_v@.len() != 1 ==> (r matches Err(e) && e.message@
                == WRONG_ARGUMENT_COUNT@),
            (old(hop).args_v@.len() == 1 && old(hop).llop_raising_exceptions is Some) ==> (
            r matches Err(e) && e.message@ == CANNOT_CATCH_EXCEPTION@),
            (old(hop).args_v@.len() == 1 && old(hop).llop_raising_exceptions is None
                && old(hop).r_result is None) ==> (r matches Err(e) && e.message@
                == EMULATED_CALL_NO_RESULT@),
    {
        let mut converted = Vec::new();
        converted.push(ConvertedTo::Repr(self.lowleveltype()));
        let mut vlist = hop.inputargs(converted)?;
        hop.exception_cannot_occur()?;
        let is_void = match &hop.r_result {
            Some(t) => t.is_void(),
            None => {
                return Err(
                    TyperError::message(EMULATED_CALL_NO_RESULT),
                );
            },
        };
        if is_void {
            Ok(
                Some(
                    Hlvalue::Constant(
                        Constant::with_concretetype(ConstValue::PyNone, LowLevelType::Void),
                    ),
                ),
            )
        } else {
            let v = vlist.pop().unwrap();
            self.weakref_deref(hop, v)
        }
    }
}

/// The operations creating an emulated weak reference to `v_inst` when the
/// next fresh variable has number `n`: allocate the struct, cast the
/// instance to a `GCREF`, and store it in the `ref` field.
pub open spec fn spec_emulated_create_ops(v_inst: Hlvalue, n: u64) -> Seq<OpView> {
    seq![
        op_view(
            "malloc",
            seq![
                Hlvalue::Constant(void_const(ConstValue::LowLevelType(Box::new(LowLevelType::Struct(Box::new(spec_emulated_weakref_struct())))))),
                Hlvalue::Constant(void_const(ConstValue::MallocFlags { flavor: MallocFlavor::Gc })),
            ],
            GenopResult::LLType(spec_emulated_weakref_lltype()),
            n,
        ),
        op_view("cast_opaque_ptr", seq![v_inst], GenopResult::LLType(spec_gcref()), (n + 1) as u64),
        op_view(
            "setfield",
            seq![
                Hlvalue::Variable(Variable { id: n, concretetype: spec_emulated_weakref_lltype() }),
                Hlvalue::Constant(void_const(ConstValue::ByteStr("ref"))),
                Hlvalue::Variable(Variable { id: (n + 1) as u64, concretetype: spec_gcref() }),
            ],
            GenopResult::Void,
            (n + 2) as u64,
        ),
    ]
}

/// The operations reading the referent of the emulated weak reference
/// `v_wref` into a result of type `t` when the next fresh variable has
/// number `n`: read the `ref` field, then cast it to the result.
pub open spec fn spec_emulated_deref_ops(v_wref: Hlvalue, t: LowLevelType, n: u64) -> Seq<OpView> {
    seq![
        op_view(
            "getfield",
            seq![v_wref, Hlvalue::Constant(void_const(ConstValue::ByteStr("ref")))],
            GenopResult::LLType(spec_gcref()),
            n,
        ),
        op_view(
            "cast_opaque_ptr",
            seq![Hlvalue::Variable(Variable { id: n, concretetype: spec_gcref() })],
            GenopResult::Repr(t),
            (n + 1) as u64,
        ),
    ]
}

impl BaseWeakRefReprTrait for EmulatedWeakRefRepr {
    /// Allocates an `EmulatedWeakRef`, stores `v_inst` cast to a `GCREF`
    /// in its `ref` field, and returns the new pointer.
    fn weakref_create(&self, hop: &mut HighLevelOp, v_inst: Hlvalue) -> (r: RTypeResult)
        ensures
            r == Ok::<Option<Hlvalue>, TyperError>(
                Some(
                    Hlvalue::Variable(
                        Variable {
                            id: old(hop).next_var_id,
                            concretetype: spec_emulated_weakref_lltype(),
                        },
                    ),
                ),
            ),
            appended_ops(
                old(hop).llops@,
                final(hop).llops@,
                spec_emulated_create_ops(v_inst, old(hop).next_var_id),
            ),
            final(hop).llops@[old(hop).llops@.len() as int + 1]@.opname == "cast_opaque_ptr",
            final(hop).llops@[old(hop).llops@.len() as int + 1]@.args == seq![v_inst],
            final(hop).llops@[old(hop).llops@.len() as int + 2]@.opname == "setfield",
            final(hop).llops@[old(hop).llops@.len() as int + 2]@.args == seq![
                r->Ok_0->Some_0,
                Hlvalue::Constant(void_const(ConstValue::ByteStr("ref"))),
                Hlvalue::Variable(final(hop).llops@[old(hop).llops@.len() as int + 1]@.result),
            ],
            final(hop).next_var_id == old(hop).next_var_id + 3,
            final(hop).exception_handled == old(hop).exception_handled,
            final(hop).args_v == old(hop).args_v,
            final(hop).r_result == old(hop).r_result,
            final(hop).exceptionlinks == old(hop).exceptionlinks,
            final(hop).llop_raising_exceptions == old(hop).llop_raising_exceptions,
    {
        proof {
            use_type_invariant(self);
        }
        let ghost n = hop.next_var_id;
        let ghost ops0 = hop.llops@;
        let c_type = lowlevel_type_const(ptr_pointee_type(&self.lltype)?);
        let c_flags = gc_flavor_const()?;
        let v_ptr = match hop.genop(
            "malloc",
            two_args(c_type, c_flags),
            GenopResult::LLType(self.lltype.duplicate()),
        ) {
            Some(v) => v,
            None => {
                return Err(TyperError::message("EmulatedWeakRefRepr: malloc genop failed"));
            },
        };
        let v_gcref = match hop.genop(
            "cast_opaque_ptr",
            one_arg(v_inst),
            GenopResult::LLType(gcref_type()),
        ) {
            Some(v) => v,
            None => {
                return Err(
                    TyperError::message("EmulatedWeakRefRepr: cast_opaque_ptr genop failed"),
                );
            },
        };
        let c_ref = ref_field_const()?;
        let result = v_ptr.duplicate();
        hop.genop("setfield", three_args(v_ptr, Hlvalue::Constant(c_ref), v_gcref), GenopResult::Void);
        proof {
            let added = spec_emulated_create_ops(v_inst, n);
            assert(hop.llops@[ops0.len() as int + 0]@ == added[0]);
            assert(hop.llops@[ops0.len() as int + 1]@ == added[1]);
            assert(hop.llops@[ops0.len() as int + 2]@ == added[2]);
            assert(hop.llops@.subrange(0, ops0.len() as int) =~= ops0);
        }
        Ok(Some(result))
    }

    /// Reads the `ref` field of `v_wref` and, with a known result
    /// representation, casts it to that representation.
    fn weakref_deref(&self, hop: &mut HighLevelOp, v_wref: Hlvalue) -> (r: RTypeResult)
        ensures
            r is Ok <==> old(hop).r_result is Some,
            r is Ok ==> r == Ok::<Option<Hlvalue>, TyperError>(
                spec_emulated_deref_result(old(hop).r_result->0, old(hop).next_var_id),
            ),
            r is Ok ==> appended_ops(
                old(hop).llops@,
                final(hop).llops@,
                spec_emulated_deref_ops(v_wref, old(hop).r_result->0, old(hop).next_var_id),
            ),
            final(hop).llops@[old(hop).llops@.len() as int + 0]@.opname == "getfield",
            final(hop).llops@[old(hop).llops@.len() as int + 0]@.args == seq![
                v_wref,
                Hlvalue::Constant(void_const(ConstValue::ByteStr("ref"))),
            ],
            r is Ok ==> final(hop).llops@[old(hop).llops@.len() as int + 1]@.opname == "cast_opaque_ptr",
            r is Ok ==> final(hop).llops@[old(hop).llops@.len() as int + 1]@.args == seq![
                Hlvalue::Variable(final(hop).llops@[old(hop).llops@.len() as int + 0]@.result),
            ],
            r is Ok ==> r->Ok_0 == Some(
                Hlvalue::Variable(final(hop).llops@[old(hop).llops@.len() as int + 1]@.result),
            ),
            r is Err ==> appended_ops(
                old(hop).llops@,
                final(hop).llops@,
                spec_emulated_deref_ops(v_wref, LowLevelType::Void, old(hop).next_var_id).take(1),
            ),
            final(hop).next_var_id == old(hop).next_var_id + (if r is Ok {
                2int
            } else {
                1int
            }),
            final(hop).exception_handled == old(hop).exception_handled,
            final(hop).args_v == old(hop).args_v,
            final(hop).r_result == old(hop).r_result,
            final(hop).exceptionlinks == old(hop).exceptionlinks,
            final(hop).llop_raising_exceptions == old(hop).llop_raising_exceptions,
            old(hop).r_result is None ==> (r matches Err(e) && e.message@
                == EMULATED_DEREF_NO_RESULT@),
    {
        let ghost n = hop.next_var_id;
        let ghost ops0 = hop.llops@;
        let c_ref = ref_field_const()?;
        let v_gcref = match hop.genop(
            "getfield",
            two_args(v_wref, Hlvalue::Constant(c_ref)),
            GenopResult::LLType(gcref_type()),
        ) {
            Some(v) => v,
            None => {
                return Err(TyperError::message("EmulatedWeakRefRepr: getfield genop failed"));
            },
        };
        proof {
            assert(hop.llops@.subrange(0, ops0.len() as int) =~= ops0);
        }
        let t = match &hop.r_result {
            Some(t) => t.duplicate(),
            None => {
                return Err(
                    TyperError::message(EMULATED_DEREF_NO_RESULT),
                );
            },
        };
        let r = hop.genop("cast_opaque_ptr", one_arg(v_gcref), GenopResult::Repr(t));
        proof {
            let added = spec_emulated_deref_ops(v_wref, old(hop).r_result->0, n);
            assert(hop.llops@[ops0.len() as int + 0]@ == added[0]);
            assert(hop.llops@[ops0.len() as int + 1]@ == added[1]);
            assert(hop.llops@.subrange(0, ops0.len() as int) =~= ops0);
        }
        Ok(r)
    }
}

/// A representation of any kind: the two weak reference representations,
/// or another representation known by its class and low-level type.
#[derive(Debug)]
pub enum AnyRepr {
    WeakRef(WeakRefRepr),
    EmulatedWeakRef(EmulatedWeakRefRepr),
    Other(ReprClassId, LowLevelType),
}

/// A weak reference representation of either kind.
pub enum BaseWeakRefRepr<'a> {
    Native(&'a WeakRefRepr),
    Emulated(&'a EmulatedWeakRefRepr),
}

/// Whether a representation is one of the two weak reference
/// representations.
pub open spec fn spec_is_weakref_repr(r: AnyRepr) -> bool {
    r is WeakRef || r is EmulatedWeakRef
}

/// Whether `r` is a `BaseWeakRefRepr` (native or emulated).
pub fn is_base_weakref_repr(r: &AnyRepr) -> (b: bool)
    ensures
        b == spec_is_weakref_repr(*r),
{
    match r {
        AnyRepr::WeakRef(_) => true,
        AnyRepr::EmulatedWeakRef(_) => true,
        AnyRepr::Other(..) => false,
    }
}

/// `r` as a `BaseWeakRefRepr`, when it is one.
pub fn as_base_weakref_repr(r: &AnyRepr) -> (b: Option<BaseWeakRefRepr<'_>>)
    ensures
        b is Some <==> spec_is_weakref_repr(*r),
        b matches Some(BaseWeakRefRepr::Native(w)) ==> *r == AnyRepr::WeakRef(*w),
        b matches Some(BaseWeakRefRepr::Emulated(e)) ==> *r == AnyRepr::EmulatedWeakRef(*e),
{
    match r {
        AnyRepr::WeakRef(w) => Some(BaseWeakRefRepr::Native(w)),
        AnyRepr::EmulatedWeakRef(e) => Some(BaseWeakRefRepr::Emulated(e)),
        AnyRepr::Other(..) => None,
    }
}

/// Whether the configuration asks for native weak references; without a
/// configuration they are native.
pub open spec fn spec_uses_native_weakrefs(rtyper: RPythonTyper) -> bool {
    match rtyper.config {
        Some(c) => c.translation.rweakref,
        None => true,
    }
}

/// `SomeWeakRef.rtyper_makerepr`: a fresh representation, not set up yet:
/// the native one when the configuration allows weak references (or there
/// is none), the emulated one otherwise.
pub fn weakref_makerepr(rtyper: &RPythonTyper) -> (r: Result<AnyRepr, TyperError>)
    ensures
        r is Ok,
        spec_uses_native_weakrefs(*rtyper) ==> (r matches Ok(AnyRepr::WeakRef(w))
            && w.setup_state() == SetupState::NotInitialized),
        !spec_uses_native_weakrefs(*rtyper) ==> (r matches Ok(AnyRepr::EmulatedWeakRef(e))
            && e.setup_state() == SetupState::NotInitialized),
{
    let rweakref = match rtyper.getconfig() {
        Some(c) => c.translation.rweakref,
        None => true,
    };
    if rweakref {
        Ok(AnyRepr::WeakRef(WeakRefRepr::new()))
    } else {
        Ok(AnyRepr::EmulatedWeakRef(EmulatedWeakRefRepr::new()))
    }
}

/// Converting `None` with either weak reference representation gives a
/// null pointer constant typed with that representation's low-level type.
pub proof fn law_none_converts_to_null(t: LowLevelType)
    requires
        t == spec_weakref_ptr() || t == spec_emulated_weakref_lltype(),
    ensures
        spec_null_ptr_const(t).concretetype == Some(t),
        spec_null_ptr_const(t).value matches ConstValue::LLPtr(p) && p.obj is None
            && ptr_to(p.ptrtype.TO) == t,
{
}

/// Converting a dead weak reference with either representation gives a
/// non-null pointer constant typed with that representation's low-level
/// type.
pub proof fn law_dead_weakref_converts_to_nonnull()
    ensures
        spec_native_dead_wref().concretetype == Some(spec_weakref_ptr()),
        spec_native_dead_wref().value matches ConstValue::LLPtr(p) && p.obj is Some
            && ptr_to(p.ptrtype.TO) == spec_weakref_ptr(),
        spec_emulated_dead_wref().concretetype == Some(spec_emulated_weakref_lltype()),
        spec_emulated_dead_wref().value matches ConstValue::LLPtr(p) && p.obj is Some
            && ptr_to(p.ptrtype.TO) == spec_emulated_weakref_lltype(),
{
}

/// An emulated weak reference reads back what creating it stored: the
/// `getfield` of dereferencing the created pointer reads the object and
/// field the `setfield` of creation wrote, with the `GCREF` type of the
/// stored value.
pub proof fn law_emulated_deref_reads_created_field(v_inst: Hlvalue, n: u64, t: LowLevelType)
    requires
        n < u64::MAX - 8,
    ensures
        ({
            let created = spec_emulated_create_ops(v_inst, n);
            let v_ptr = Hlvalue::Variable(created[0].result);
            let read = spec_emulated_deref_ops(v_ptr, t, (n + 3) as u64);
            &&& created[2].opname == "setfield"
            &&& read[0].opname == "getfield"
            &&& read[0].args[0] == created[2].args[0]
            &&& read[0].args[1] == created[2].args[1]
            &&& created[2].args[2] == Hlvalue::Variable(created[1].result)
            &&& read[0].result.concretetype == created[1].result.concretetype
            &&& created[1].args == seq![v_inst]
            &&& read[1].args == seq![Hlvalue::Variable(read[0].result)]
        }),
{
}

/// Creating an emulated weak reference stores the instance itself: the
/// struct is allocated first, then exactly `v_inst` is cast to a `GCREF`,
/// and the `setfield` writes that cast value into the `ref` field of the
/// allocated struct.
pub proof fn law_emulated_create_stores_instance(v_inst: Hlvalue, n: u64)
    requires
        n < u64::MAX - 8,
    ensures
        ({
            let ops = spec_emulated_create_ops(v_inst, n);
            &&& ops.len() == 3
            &&& ops[0].opname == "malloc"
            &&& ops[0].result == (Variable { id: n, concretetype: spec_emulated_weakref_lltype() })
            &&& ops[1].opname == "cast_opaque_ptr"
            &&& ops[1].args == seq![v_inst]
            &&& ops[1].result.concretetype == spec_gcref()
            &&& ops[2].opname == "setfield"
            &&& ops[2].args == seq![
                Hlvalue::Variable(ops[0].result),
                Hlvalue::Constant(void_const(ConstValue::ByteStr("ref"))),
                Hlvalue::Variable(ops[1].result),
            ]
        }),
{
}

/// Dereferencing an emulated weak reference reads its `ref` field and casts
/// exactly the value read, not the weak reference, to the result type `t`.
pub proof fn law_emulated_deref_casts_field_value(v_wref: Hlvalue, t: LowLevelType, n: u64)
    requires
        n < u64::MAX - 8,
    ensures
        ({
            let ops = spec_emulated_deref_ops(v_wref, t, n);
            &&& ops.len() == 2
            &&& ops[0].opname == "getfield"
            &&& ops[0].args == seq![v_wref, Hlvalue::Constant(void_const(ConstValue::ByteStr("ref")))]
            &&& ops[0].result == (Variable { id: n, concretetype: spec_gcref() })
            &&& ops[1].opname == "cast_opaque_ptr"
            &&& ops[1].args == seq![Hlvalue::Variable(ops[0].result)]
            &&& ops[1].result == (Variable { id: (n + 1) as u64, concretetype: t })
        }),
{
}

/// The struct of an emulated weak reference is a GC struct with a single
/// field, and that field is the one emulated creation writes and emulated
/// dereference reads: it bears the name of their field constant and has
/// the type of the cast value creation stores in it.
pub proof fn law_emulated_struct_holds_stored_field(v_inst: Hlvalue, n: u64)
    requires
        n < u64::MAX - 8,
    ensures
        ({
            let st = spec_emulated_weakref_struct();
            let created = spec_emulated_create_ops(v_inst, n);
            &&& st.gckind == GcKind::Gc
            &&& st.fields matches FieldList::Cons(fname, ftype, rest) && *rest == FieldList::Nil
                && created[2].args[1] == Hlvalue::Constant(void_const(ConstValue::ByteStr(fname)))
                && ftype == created[1].result.concretetype
            &&& created[0].result.concretetype == ptr_to(PtrTarget::Struct(st))
        }),
{
}

/// `weakref_makerepr` picks the emulated representation only when a
/// configuration is given and switches weak references off; without a
/// configuration the representation is native.
pub proof fn law_makerepr_emulates_only_when_disabled(rtyper: RPythonTyper)
    ensures
        !spec_uses_native_weakrefs(rtyper) <==> (rtyper.config matches Some(c)
            && !c.translation.rweakref),
        rtyper.config is None ==> spec_uses_native_weakrefs(rtyper),
{
}

} // verus!
