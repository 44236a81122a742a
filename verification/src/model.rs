//! Flow-graph values: prebuilt constants, host objects, variables and
//! low-level operations.

use crate::lltype::{LLPtr, LowLevelType, MallocFlavor, PtrObj};
use vstd::prelude::*;

verus! {

/// What a prebuilt host-level object is.
#[derive(Debug, PartialEq, Eq)]
pub enum HostObjectKind {
    /// Any object that is not a weak reference.
    Plain,
    /// A `weakref.ref`; its referent is `None` once the referent has died.
    Weakref(Option<Box<HostObject>>),
}

/// A prebuilt host-level (Python) object seen by the annotator.
#[derive(Debug, PartialEq, Eq)]
pub struct HostObject {
    pub qualname: &'static str,
    pub kind: HostObjectKind,
}

/// A constant value of the flow graph.
#[derive(Debug, PartialEq, Eq)]
pub enum ConstValue {
    PyNone,
    Bool(bool),
    Int(i64),
    ByteStr(&'static str),
    /// `fakeaddress(ptr)`; `None` is the null address.
    Address(Option<u64>),
    /// A symbolic address offset such as `ItemOffset(TYPE)`.
    AddressOffset { kind: &'static str, typename: &'static str, byte_size: i64 },
    LLPtr(Box<LLPtr>),
    HostObject(HostObject),
    LowLevelType(Box<LowLevelType>),
    /// The `{'flavor': ...}` flags of a `malloc` operation.
    MallocFlags { flavor: MallocFlavor },
}

/// `Constant(value, concretetype)`.
#[derive(Debug, PartialEq, Eq)]
pub struct Constant {
    pub value: ConstValue,
    pub concretetype: Option<LowLevelType>,
}

/// A flow-graph variable, numbered and typed.
#[derive(Debug, PartialEq, Eq)]
pub struct Variable {
    pub id: u64,
    pub concretetype: LowLevelType,
}

/// A value of the flow graph: a variable or a constant.
#[derive(Debug, PartialEq, Eq)]
pub enum Hlvalue {
    Variable(Variable),
    Constant(Constant),
}

/// `SpaceOperation(opname, args, result)`: one low-level operation.
#[derive(Debug)]
pub struct SpaceOperation {
    pub opname: &'static str,
    pub args: Vec<Hlvalue>,
    pub result: Variable,
}

/// The mathematical value of an operation: its name, its arguments as a
/// sequence, and its result variable.
pub struct OpView {
    pub opname: &'static str,
    pub args: Seq<Hlvalue>,
    pub result: Variable,
}

impl View for SpaceOperation {
    type V = OpView;

    open spec fn view(&self) -> OpView {
        OpView { opname: self.opname, args: self.args@, result: self.result }
    }
}

/// The referent state of a host object: `None` when it is not a weak
/// reference, `Some(None)` for a dead weak reference, `Some(Some(x))` for a
/// live one.
pub open spec fn spec_referent(h: HostObject) -> Option<Option<HostObject>> {
    match h.kind {
        HostObjectKind::Plain => None,
        HostObjectKind::Weakref(None) => Some(None),
        HostObjectKind::Weakref(Some(b)) => Some(Some(*b)),
    }
}

impl HostObject {
    /// A host object that is not a weak reference.
    pub fn new_plain(qualname: &'static str) -> (r: Self)
        ensures
            r == (HostObject { qualname, kind: HostObjectKind::Plain }),
    {
        HostObject { qualname, kind: HostObjectKind::Plain }
    }

    /// A `weakref.ref` to `referent`; `None` stands for a dead reference.
    pub fn new_weakref(qualname: &'static str, referent: Option<HostObject>) -> (r: Self)
        ensures
            r.qualname == qualname,
            r.kind is Weakref,
            spec_referent(r) == Some(referent),
    {
        let kind = match referent {
            Some(h) => HostObjectKind::Weakref(Some(Box::new(h))),
            None => HostObjectKind::Weakref(None),
        };
        HostObject { qualname, kind }
    }

    /// Whether this object is a weak reference.
    pub fn is_weakref(&self) -> (r: bool)
        ensures
            r == self.kind is Weakref,
    {
        match self.kind {
            HostObjectKind::Weakref(_) => true,
            HostObjectKind::Plain => false,
        }
    }

    /// The referent of a weak reference: `None` when this is not a weak
    /// reference, `Some(None)` when the referent is dead.
    pub fn weakref_referent(&self) -> (r: Option<Option<&HostObject>>)
        ensures
            spec_referent(*self) is None <==> r is None,
            spec_referent(*self) == Some(None::<HostObject>) <==> r == Some(None::<&HostObject>),
            spec_referent(*self) matches Some(Some(x)) ==> r matches Some(Some(y)) && *y == x,
    {
        match &self.kind {
            HostObjectKind::Plain => None,
            HostObjectKind::Weakref(None) => Some(None),
            HostObjectKind::Weakref(Some(b)) => Some(Some(&**b)),
        }
    }

    /// A copy of this object, equal to it.
    pub fn duplicate(&self) -> (r: Self)
        ensures
            r == *self,
        decreases self,
    {
        let kind = match &self.kind {
            HostObjectKind::Plain => HostObjectKind::Plain,
            HostObjectKind::Weakref(None) => HostObjectKind::Weakref(None),
            HostObjectKind::Weakref(Some(b)) => HostObjectKind::Weakref(
                Some(Box::new(b.duplicate())),
            ),
        };
        HostObject { qualname: self.qualname, kind }
    }
}

impl PtrObj {
    /// A copy of this object, equal to it.
    pub fn duplicate(&self) -> (r: Self)
        ensures
            r == *self,
    {
        match self {
            PtrObj::Named { name } => PtrObj::Named { name: *name },
            PtrObj::Struct { immortal } => PtrObj::Struct { immortal: *immortal },
            PtrObj::Array { length, immortal } => PtrObj::Array {
                length: *length,
                immortal: *immortal,
            },
            PtrObj::Opaque { immortal } => PtrObj::Opaque { immortal: *immortal },
        }
    }
}

impl LLPtr {
    /// A copy of this pointer, equal to it.
    pub fn duplicate(&self) -> (r: Self)
        ensures
            r == *self,
    {
        let obj = match &self.obj {
            Some(o) => Some(o.duplicate()),
            None => None,
        };
        LLPtr { ptrtype: self.ptrtype.duplicate(), obj }
    }
}

impl ConstValue {
    /// A byte-string constant.
    pub fn byte_str(s: &'static str) -> (r: Self)
        ensures
            r == ConstValue::ByteStr(s),
    {
        ConstValue::ByteStr(s)
    }

    /// Whether this is the null address (`fakeaddress(None)`), the one
    /// falsy address value.
    pub fn is_null_address(&self) -> (r: bool)
        ensures
            r == (*self == ConstValue::Address(None)),
    {
        match self {
            ConstValue::Address(None) => true,
            _ => false,
        }
    }

    /// A copy of this value, equal to it.
    pub fn duplicate(&self) -> (r: Self)
        ensures
            r == *self,
    {
        match self {
            ConstValue::PyNone => ConstValue::PyNone,
            ConstValue::Bool(b) => ConstValue::Bool(*b),
            ConstValue::Int(i) => ConstValue::Int(*i),
            ConstValue::ByteStr(s) => ConstValue::ByteStr(*s),
            ConstValue::Address(a) => ConstValue::Address(*a),
            ConstValue::AddressOffset { kind, typename, byte_size } => ConstValue::AddressOffset {
                kind: *kind,
                typename: *typename,
                byte_size: *byte_size,
            },
            ConstValue::LLPtr(p) => ConstValue::LLPtr(Box::new(p.duplicate())),
            ConstValue::HostObject(h) => ConstValue::HostObject(h.duplicate()),
            ConstValue::LowLevelType(t) => ConstValue::LowLevelType(Box::new(t.duplicate())),
            ConstValue::MallocFlags { flavor } => ConstValue::MallocFlags { flavor: *flavor },
        }
    }
}

impl Constant {
    /// `Constant(value, concretetype)`.
    pub fn with_concretetype(value: ConstValue, concretetype: LowLevelType) -> (r: Self)
        ensures
            r == (Constant { value, concretetype: Some(concretetype) }),
    {
        Constant { value, concretetype: Some(concretetype) }
    }

    /// A copy of this constant, equal to it.
    pub fn duplicate(&self) -> (r: Self)
        ensures
            r == *self,
    {
        let concretetype = match &self.concretetype {
            Some(t) => Some(t.duplicate()),
            None => None,
        };
        Constant { value: self.value.duplicate(), concretetype }
    }
}

impl Variable {
    /// A copy of this variable, equal to it.
    pub fn duplicate(&self) -> (r: Self)
        ensures
            r == *self,
    {
        Variable { id: self.id, concretetype: self.concretetype.duplicate() }
    }
}

impl Hlvalue {
    /// A copy of this value, equal to it.
    pub fn duplicate(&self) -> (r: Self)
        ensures
            r == *self,
    {
        match self {
            Hlvalue::Variable(v) => Hlvalue::Variable(v.duplicate()),
            Hlvalue::Constant(c) => Hlvalue::Constant(c.duplicate()),
        }
    }
}

} // verus!
