//! The RTyper's view of one high-level operation: typing errors, the
//! configuration, representations, and the list of low-level operations a
//! high-level operation is turned into.

use crate::lltype::{LowLevelType, MallocFlavor};
use crate::model::{ConstValue, Constant, Hlvalue, OpView, SpaceOperation, Variable};
use vstd::prelude::*;

verus! {

/// `TyperError`: the RTyper cannot type an operation.
#[derive(Debug, PartialEq, Eq)]
pub struct TyperError {
    pub message: String,
}

impl TyperError {
    /// A typing error with the given message.
    pub fn message(s: &str) -> (r: Self)
        ensures
            r.message@ == s@,
    {
        TyperError { message: s.to_owned() }
    }
}

/// The message of the error `inputargs` gives for a wrong number of
/// arguments.
pub const WRONG_ARGUMENT_COUNT: &'static str = "inputargs: wrong number of arguments";

/// The message of the error `exception_cannot_occur` gives when an earlier
/// operation was marked as raising.
pub const CANNOT_CATCH_EXCEPTION: &'static str = "cannot catch an exception at this operation";

/// The message of the error `inputconst` gives when the type does not hold
/// the value.
pub const TYPE_DOES_NOT_HOLD_VALUE: &'static str = "inputconst: the type does not hold the value";

/// The result of typing a high-level operation: the value that stands
/// for its result, if any.
pub type RTypeResult = Result<Option<Hlvalue>, TyperError>;

/// The `translation` section of the configuration.
#[derive(Debug, Clone, Copy, PartialEq, Eq, Structural)]
pub struct TranslationOptions {
    /// `config.translation.rweakref`: whether the backend supports real
    /// weak references.
    pub rweakref: bool,
}

/// The translation configuration.
#[derive(Debug, Clone, Copy, PartialEq, Eq, Structural)]
pub struct TranslationConfig {
    pub translation: TranslationOptions,
}

/// The parts of the RTyper a representation reads.
#[derive(Debug, Clone, Copy, PartialEq, Eq, Structural)]
pub struct RPythonTyper {
    pub config: Option<TranslationConfig>,
}

impl RPythonTyper {
    /// The translation configuration, if one was given.
    pub fn getconfig(&self) -> (r: Option<TranslationConfig>)
        ensures
            r == self.config,
    {
        self.config
    }
}

/// How far `setup()` has gone for a representation.
#[derive(Debug, Clone, Copy, PartialEq, Eq, Structural)]
pub enum SetupState {
    NotInitialized,
    InProgress,
    Finished,
    Delayed,
}

/// The mutable bookkeeping every representation carries.
#[derive(Debug, PartialEq, Eq)]
pub struct ReprState {
    pub setupstate: SetupState,
}

impl ReprState {
    /// The state of a representation that has not been set up.
    pub fn new() -> (r: Self)
        ensures
            r.setupstate == SetupState::NotInitialized,
    {
        ReprState { setupstate: SetupState::NotInitialized }
    }
}

/// The class of a representation, used for pair dispatch.
#[derive(Debug, Clone, Copy, PartialEq, Eq, Structural)]
pub enum ReprClassId {
    WeakRefRepr,
    EmulatedWeakRefRepr,
    IntegerRepr,
    BoolRepr,
    InstanceRepr,
    NoneRepr,
}

/// The result type of a generated operation.
#[derive(Debug, PartialEq, Eq)]
pub enum GenopResult {
    /// A result of this low-level type.
    LLType(LowLevelType),
    /// A result in the representation whose low-level type is given.
    Repr(LowLevelType),
    /// No result (`Void`).
    Void,
}

/// The low-level type of the result variable of a generated operation.
pub open spec fn genop_result_type(result: GenopResult) -> LowLevelType {
    match result {
        GenopResult::LLType(t) => t,
        GenopResult::Repr(t) => t,
        GenopResult::Void => LowLevelType::Void,
    }
}

/// The representation an input argument is converted to.
pub enum ConvertedTo<'a> {
    /// The representation whose low-level type is given.
    Repr(&'a LowLevelType),
}

/// Whether an operation may raise: the index of the raising operation,
/// or the mark that the exception links were removed.
#[derive(Debug, Clone, Copy, PartialEq, Eq, Structural)]
pub enum RaisingOp {
    At(usize),
    Removed,
}

/// `HighLevelOp`: one high-level operation being turned into low-level
/// operations.  The argument values are taken to be already in the
/// representations they are asked for.
#[derive(Debug)]
pub struct HighLevelOp {
    /// The argument values.
    pub args_v: Vec<Hlvalue>,
    /// The low-level type of the result's representation, if known.
    pub r_result: Option<LowLevelType>,
    /// The low-level operations generated so far.
    pub llops: Vec<SpaceOperation>,
    /// The number the next fresh variable gets.
    pub next_var_id: u64,
    /// Whether the operation has exception links to catch.
    pub exceptionlinks: bool,
    /// Whether `exception_is_here` or `exception_cannot_occur` was called.
    pub exception_handled: bool,
    /// Which generated operation may raise.
    pub llop_raising_exceptions: Option<RaisingOp>,
}

/// The operation `genop(opname, args, result)` appends when the next
/// fresh variable has number `id`.
pub open spec fn genop_op(opname: &'static str, args: Vec<Hlvalue>, result: GenopResult, id: u64) -> SpaceOperation {
    SpaceOperation { opname, args, result: Variable { id, concretetype: genop_result_type(result) } }
}

/// What `exception_cannot_occur` leaves as the raising operation: the
/// removed mark when there are exception links and no raising operation
/// yet, else what was there.
pub open spec fn raising_after_cannot_occur(raising: Option<RaisingOp>, exceptionlinks: bool) -> Option<RaisingOp> {
    if raising is None && exceptionlinks {
        Some(RaisingOp::Removed)
    } else {
        raising
    }
}

/// The value of the operation `genop(opname, args, result)` appends when
/// the next fresh variable has number `id`, with the arguments as a
/// sequence.
pub open spec fn op_view(opname: &'static str, args: Seq<Hlvalue>, result: GenopResult, id: u64) -> OpView {
    OpView { opname, args, result: Variable { id, concretetype: genop_result_type(result) } }
}

/// `new_ops` is `old_ops` followed by operations whose values are `added`.
pub open spec fn appended_ops(old_ops: Seq<SpaceOperation>, new_ops: Seq<SpaceOperation>, added: Seq<OpView>) -> bool {
    &&& new_ops.len() == old_ops.len() + added.len()
    &&& new_ops.subrange(0, old_ops.len() as int) == old_ops
    &&& forall|i: int| 0 <= i < added.len() ==> #[trigger] new_ops[old_ops.len() + i]@ == added[i]
}

/// A vector holding one value.
pub fn one_arg(a: Hlvalue) -> (r: Vec<Hlvalue>)
    ensures
        r@ == seq![a],
{
    let mut v = Vec::new();
    v.push(a);
    v
}

/// A vector holding two values, in order.
pub fn two_args(a: Hlvalue, b: Hlvalue) -> (r: Vec<Hlvalue>)
    ensures
        r@ == seq![a, b],
{
    let mut v = Vec::new();
    v.push(a);
    v.push(b);
    v
}

/// A vector holding three values, in order.
pub fn three_args(a: Hlvalue, b: Hlvalue, c: Hlvalue) -> (r: Vec<Hlvalue>)
    ensures
        r@ == seq![a, b, c],
{
    let mut v = Vec::new();
    v.push(a);
    v.push(b);
    v.push(c);
    v
}

/// `Constant(value, Void)`.
pub open spec fn void_const(value: ConstValue) -> Constant {
    Constant { value, concretetype: Some(LowLevelType::Void) }
}

/// Whether a low-level type holds a constant value: `Void` holds anything;
/// the integer types hold integers (and symbolic offsets for `Signed`),
/// `Bool` holds booleans, `Address` holds addresses, and no other type
/// holds a constant.
pub open spec fn contains_value(t: LowLevelType, value: ConstValue) -> bool {
    match t {
        LowLevelType::Void => true,
        LowLevelType::Signed => value is Int || value is AddressOffset,
        LowLevelType::Unsigned => value is Int,
        LowLevelType::Bool => value is Bool,
        LowLevelType::Address => value is Address,
        _ => false,
    }
}

impl HighLevelOp {
    /// A high-level operation with the given arguments and result type,
    /// no generated operations yet, and no exception links.
    pub fn new(args_v: Vec<Hlvalue>, r_result: Option<LowLevelType>) -> (r: Self)
        ensures
            r.args_v == args_v,
            r.r_result == r_result,
            r.llops@.len() == 0,
            r.next_var_id == 0,
            !r.exceptionlinks,
            !r.exception_handled,
            r.llop_raising_exceptions is None,
    {
        HighLevelOp {
            args_v,
            r_result,
            llops: Vec::new(),
            next_var_id: 0,
            exceptionlinks: false,
            exception_handled: false,
            llop_raising_exceptions: None,
        }
    }

    /// `inputargs(*converted_to)`: the argument values, one per requested
    /// representation; fails when the numbers differ.
    pub fn inputargs(&self, converted_to: Vec<ConvertedTo>) -> (r: Result<Vec<Hlvalue>, TyperError>)
        ensures
            r is Ok <==> converted_to@.len() == self.args_v@.len(),
            r matches Ok(v) ==> v@ == self.args_v@,
            r matches Err(e) ==> e.message@ == WRONG_ARGUMENT_COUNT@,
    {
        if converted_to.len() != self.args_v.len() {
            return Err(TyperError::message(WRONG_ARGUMENT_COUNT));
        }
        let mut out: Vec<Hlvalue> = Vec::new();
        let mut i: usize = 0;
        while i < self.args_v.len()
            invariant
                i <= self.args_v@.len(),
                out@ == self.args_v@.subrange(0, i as int),
            decreases self.args_v@.len() - i,
        {
            out.push(self.args_v[i].duplicate());
            i = i + 1;
            assert(out@ =~= self.args_v@.subrange(0, i as int));
        }
        assert(out@ =~= self.args_v@);
        Ok(out)
    }

    /// `exception_cannot_occur()`: records that the operation cannot raise.
    /// Fails when an earlier operation was marked as raising; removes the
    /// exception links when there are some.
    pub fn exception_cannot_occur(&mut self) -> (r: Result<(), TyperError>)
        ensures
            r is Ok <==> old(self).llop_raising_exceptions is None,
            r matches Err(e) ==> e.message@ == CANNOT_CATCH_EXCEPTION@,
            final(self).exception_handled,
            final(self).llop_raising_exceptions == raising_after_cannot_occur(
                old(self).llop_raising_exceptions,
                old(self).exceptionlinks,
            ),
            final(self).args_v == old(self).args_v,
            final(self).r_result == old(self).r_result,
            final(self).llops@ == old(self).llops@,
            final(self).next_var_id == old(self).next_var_id,
            final(self).exceptionlinks == old(self).exceptionlinks,
    {
        self.exception_handled = true;
        if self.llop_raising_exceptions.is_some() {
            return Err(TyperError::message(CANNOT_CATCH_EXCEPTION));
        }
        if !self.exceptionlinks {
            return Ok(());
        }
        self.llop_raising_exceptions = Some(RaisingOp::Removed);
        Ok(())
    }

    /// `genop(opname, args, resulttype)`: appends the operation with a fresh
    /// result variable, and returns that variable unless the result is
    /// `Void`.
    pub fn genop(&mut self, opname: &'static str, args: Vec<Hlvalue>, result: GenopResult) -> (r:
        Option<Hlvalue>)
        requires
            old(self).next_var_id < u64::MAX,
        ensures
            final(self).llops@ == old(self).llops@.push(
                genop_op(opname, args, result, old(self).next_var_id),
            ),
            final(self).next_var_id == old(self).next_var_id + 1,
            r == (if result is Void {
                None
            } else {
                Some(
                    Hlvalue::Variable(
                        Variable {
                            id: old(self).next_var_id,
                            concretetype: genop_result_type(result),
                        },
                    ),
                )
            }),
            final(self).args_v == old(self).args_v,
            final(self).r_result == old(self).r_result,
            final(self).exceptionlinks == old(self).exceptionlinks,
            final(self).exception_handled == old(self).exception_handled,
            final(self).llop_raising_exceptions == old(self).llop_raising_exceptions,
    {
        let is_void = match &result {
            GenopResult::Void => true,
            _ => false,
        };
        let concretetype = match result {
            GenopResult::LLType(t) => t,
            GenopResult::Repr(t) => t,
            GenopResult::Void => LowLevelType::Void,
        };
        let var = Variable { id: self.next_var_id, concretetype };
        let returned = var.duplicate();
        self.llops.push(SpaceOperation { opname, args, result: var });
        self.next_var_id = self.next_var_id + 1;
        if is_void {
            None
        } else {
            Some(Hlvalue::Variable(returned))
        }
    }

    /// `inputconst(reqtype, value)`: the constant `value` of low-level type
    /// `reqtype`; fails when the type does not hold the value.
    pub fn inputconst(reqtype: &LowLevelType, value: &ConstValue) -> (r: Result<Constant, TyperError>)
        ensures
            r is Ok <==> contains_value(*reqtype, *value),
            r matches Err(e) ==> e.message@ == TYPE_DOES_NOT_HOLD_VALUE@,
            r matches Ok(c) ==> c == (Constant { value: *value, concretetype: Some(*reqtype) }),
    {
        let ok = match reqtype {
            LowLevelType::Void => true,
            LowLevelType::Signed => match value {
                ConstValue::Int(_) | ConstValue::AddressOffset { .. } => true,
                _ => false,
            },
            LowLevelType::Unsigned => match value {
                ConstValue::Int(_) => true,
                _ => false,
            },
            LowLevelType::Bool => match value {
                ConstValue::Bool(_) => true,
                _ => false,
            },
            LowLevelType::Address => match value {
                ConstValue::Address(_) => true,
                _ => false,
            },
            _ => false,
        };
        if !ok {
            return Err(TyperError::message(TYPE_DOES_NOT_HOLD_VALUE));
        }
        Ok(Constant::with_concretetype(value.duplicate(), reqtype.duplicate()))
    }
}

/// `Constant(TYPE, Void)`: a low-level type passed as an operation argument.
pub fn lowlevel_type_const(t: LowLevelType) -> (r: Hlvalue)
    ensures
        r == Hlvalue::Constant(void_const(ConstValue::LowLevelType(Box::new(t)))),
{
    Hlvalue::Constant(Constant::with_concretetype(ConstValue::LowLevelType(Box::new(t)), LowLevelType::Void))
}

/// `Constant({'flavor': 'gc'}, Void)`: the flags of a GC allocation.
pub fn gc_flavor_const() -> (r: Result<Hlvalue, TyperError>)
    ensures
        r == Ok::<Hlvalue, TyperError>(
            Hlvalue::Constant(void_const(ConstValue::MallocFlags { flavor: MallocFlavor::Gc })),
        ),
{
    let flags = ConstValue::MallocFlags { flavor: MallocFlavor::Gc };
    match HighLevelOp::inputconst(&LowLevelType::Void, &flags) {
        Ok(c) => Ok(Hlvalue::Constant(c)),
        Err(e) => Err(e),
    }
}

/// A representation: how the values of one annotation are laid out at the
/// low level, and how operations on them are typed.
pub trait Repr {
    /// The low-level type of the represented values.
    fn lowleveltype(&self) -> &LowLevelType;

    /// The setup bookkeeping.
    fn state(&self) -> &ReprState;

    /// The name of the representation class.
    fn class_name(&self) -> &'static str;

    /// The class used for pair dispatch.
    fn repr_class_id(&self) -> ReprClassId;

    /// The low-level constant standing for a prebuilt value.
    fn convert_const(&self, value: &ConstValue) -> Result<Constant, TyperError>;

    /// Types a call of a represented value.
    fn rtype_simple_call(&self, hop: &mut HighLevelOp) -> RTypeResult
        requires
            old(hop).next_var_id < u64::MAX - 4,
    ;
}

} // verus!
