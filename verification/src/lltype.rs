//! Low-level types: primitive types, containers, pointers to containers,
//! and pointer values.

use vstd::prelude::*;

verus! {

/// Who owns the memory of a container: the GC, raw malloc, or the
/// prebuilt image.
#[derive(Debug, Clone, Copy, PartialEq, Eq, Structural)]
pub enum GcKind {
    Raw,
    Gc,
    Prebuilt,
}

/// `flavor` argument of `malloc`.
#[derive(Debug, Clone, Copy, PartialEq, Eq, Structural)]
pub enum MallocFlavor {
    Gc,
    Raw,
}

/// A low-level type.  The primitive types carry no data; the container
/// types describe memory blocks a `Ptr` can point to.
#[derive(Debug, PartialEq, Eq)]
pub enum LowLevelType {
    Void,
    Signed,
    Unsigned,
    SignedLongLong,
    UnsignedLongLong,
    Bool,
    Char,
    UniChar,
    Float,
    SingleFloat,
    Address,
    Ptr(Box<Ptr>),
    Struct(Box<StructType>),
    Array(Box<ArrayType>),
    FixedSizeArray(Box<FixedSizeArrayType>),
    Func(Box<FuncType>),
    Opaque(Box<OpaqueType>),
    ForwardReference(Box<ForwardReference>),
}

/// `Ptr(TO)`: a pointer type; it can only point to a container.
#[allow(non_snake_case)]
#[derive(Debug, PartialEq, Eq)]
pub struct Ptr {
    pub TO: PtrTarget,
}

/// The container a pointer type points to.
#[derive(Debug, PartialEq, Eq)]
pub enum PtrTarget {
    Func(FuncType),
    Struct(StructType),
    Array(ArrayType),
    FixedSizeArray(FixedSizeArrayType),
    Opaque(OpaqueType),
    ForwardReference(ForwardReference),
}

/// `Struct(name, *fields)` / `GcStruct(name, *fields)`.
#[derive(Debug, PartialEq, Eq)]
pub struct StructType {
    pub name: &'static str,
    pub fields: FieldList,
    pub gckind: GcKind,
}

/// The named fields of a struct, in declaration order.
#[derive(Debug, PartialEq, Eq)]
pub enum FieldList {
    Nil,
    Cons(&'static str, LowLevelType, Box<FieldList>),
}

/// `Array(OF)` / `GcArray(OF)`: a variable-sized array.
#[derive(Debug, PartialEq, Eq)]
pub struct ArrayType {
    pub of: LowLevelType,
    pub gckind: GcKind,
}

/// `FixedSizeArray(OF, length)`: always a raw container.
#[derive(Debug, PartialEq, Eq)]
pub struct FixedSizeArrayType {
    pub of: LowLevelType,
    pub length: usize,
}

/// `FuncType(args, result)`.
#[derive(Debug, PartialEq, Eq)]
pub struct FuncType {
    pub args: TypeList,
    pub result: LowLevelType,
}

/// The argument types of a function type.
#[derive(Debug, PartialEq, Eq)]
pub enum TypeList {
    Nil,
    Cons(LowLevelType, Box<TypeList>),
}

/// `OpaqueType(tag)` / `GcOpaqueType(tag)`.
#[derive(Debug, PartialEq, Eq)]
pub struct OpaqueType {
    pub tag: &'static str,
    pub gckind: GcKind,
}

/// `ForwardReference()` / `GcForwardReference()`.
#[derive(Debug, PartialEq, Eq)]
pub struct ForwardReference {
    pub gckind: GcKind,
}

/// What a non-null pointer value points to.
#[derive(Debug, PartialEq, Eq)]
pub enum PtrObj {
    /// `opaqueptr(T, name)`: a named opaque object.
    Named { name: &'static str },
    /// A freshly allocated struct.
    Struct { immortal: bool },
    /// A freshly allocated array of `length` items.
    Array { length: usize, immortal: bool },
    /// A freshly allocated opaque object.
    Opaque { immortal: bool },
}

/// `_ptr`: a pointer value of type `ptrtype`; `obj` is `None` for the null
/// pointer.
#[derive(Debug, PartialEq, Eq)]
pub struct LLPtr {
    pub ptrtype: Ptr,
    pub obj: Option<PtrObj>,
}

/// Whether a low-level type is a container type (one a pointer can
/// point to).
pub open spec fn is_container(t: LowLevelType) -> bool {
    match t {
        LowLevelType::Struct(_) | LowLevelType::Array(_) | LowLevelType::FixedSizeArray(_)
        | LowLevelType::Func(_) | LowLevelType::Opaque(_) | LowLevelType::ForwardReference(
            _,
        ) => true,
        _ => false,
    }
}

/// The low-level type a pointer target stands for.
pub open spec fn target_type(target: PtrTarget) -> LowLevelType {
    match target {
        PtrTarget::Func(t) => LowLevelType::Func(Box::new(t)),
        PtrTarget::Struct(t) => LowLevelType::Struct(Box::new(t)),
        PtrTarget::Array(t) => LowLevelType::Array(Box::new(t)),
        PtrTarget::FixedSizeArray(t) => LowLevelType::FixedSizeArray(Box::new(t)),
        PtrTarget::Opaque(t) => LowLevelType::Opaque(Box::new(t)),
        PtrTarget::ForwardReference(t) => LowLevelType::ForwardReference(Box::new(t)),
    }
}

/// The pointer target a container type stands for; `None` for the
/// other types.
pub open spec fn type_target(t: LowLevelType) -> Option<PtrTarget> {
    match t {
        LowLevelType::Func(b) => Some(PtrTarget::Func(*b)),
        LowLevelType::Struct(b) => Some(PtrTarget::Struct(*b)),
        LowLevelType::Array(b) => Some(PtrTarget::Array(*b)),
        LowLevelType::FixedSizeArray(b) => Some(PtrTarget::FixedSizeArray(*b)),
        LowLevelType::Opaque(b) => Some(PtrTarget::Opaque(*b)),
        LowLevelType::ForwardReference(b) => Some(PtrTarget::ForwardReference(*b)),
        _ => None,
    }
}

/// `T._gckind` of a pointer target.
pub open spec fn target_gckind(target: PtrTarget) -> GcKind {
    match target {
        PtrTarget::Func(_) => GcKind::Raw,
        PtrTarget::Struct(t) => t.gckind,
        PtrTarget::Array(t) => t.gckind,
        PtrTarget::FixedSizeArray(_) => GcKind::Raw,
        PtrTarget::Opaque(t) => t.gckind,
        PtrTarget::ForwardReference(t) => t.gckind,
    }
}

/// `Ptr(T)` as a low-level type.
pub open spec fn ptr_to(target: PtrTarget) -> LowLevelType {
    LowLevelType::Ptr(Box::new(Ptr { TO: target }))
}

/// `llmemory.WeakRef`: the GC-managed opaque weak reference container.
pub open spec fn spec_weakref() -> OpaqueType {
    OpaqueType { tag: "WeakRef", gckind: GcKind::Gc }
}

/// `llmemory.WeakRefPtr = Ptr(WeakRef)`.
pub open spec fn spec_weakref_ptr() -> LowLevelType {
    ptr_to(PtrTarget::Opaque(spec_weakref()))
}

/// `llmemory.GCREF = Ptr(GcOpaqueType('GCREF'))`.
pub open spec fn spec_gcref() -> LowLevelType {
    ptr_to(PtrTarget::Opaque(OpaqueType { tag: "GCREF", gckind: GcKind::Gc }))
}

/// Every pointer target is a container type, and going from target to
/// type and back is the identity.
pub proof fn lemma_target_type_roundtrip(target: PtrTarget)
    ensures
        is_container(target_type(target)),
        type_target(target_type(target)) == Some(target),
{
}

/// A type is a container exactly when it stands for a pointer target,
/// and then it is that target's type.
pub proof fn lemma_type_target_container(t: LowLevelType)
    ensures
        is_container(t) <==> type_target(t) is Some,
        type_target(t) matches Some(target) ==> target_type(target) == t,
{
}

/// The pointer target a container type stands for; `None` for the other
/// types.  Consumes the type.
pub fn into_ptr_target(t: LowLevelType) -> (r: Option<PtrTarget>)
    ensures
        r == type_target(t),
{
    match t {
        LowLevelType::Func(b) => Some(PtrTarget::Func(*b)),
        LowLevelType::Struct(b) => Some(PtrTarget::Struct(*b)),
        LowLevelType::Array(b) => Some(PtrTarget::Array(*b)),
        LowLevelType::FixedSizeArray(b) => Some(PtrTarget::FixedSizeArray(*b)),
        LowLevelType::Opaque(b) => Some(PtrTarget::Opaque(*b)),
        LowLevelType::ForwardReference(b) => Some(PtrTarget::ForwardReference(*b)),
        _ => None,
    }
}

fn error_text(s: &str) -> (r: String)
    ensures
        r@ == s@,
{
    s.to_owned()
}

/// `nullptr(T)`: the null pointer of type `Ptr(T)`.  Fails when `T` is not
/// a container type.
pub fn nullptr(t: LowLevelType) -> (r: Result<LLPtr, String>)
    ensures
        r is Ok <==> is_container(t),
        r matches Ok(p) ==> type_target(t) == Some(p.ptrtype.TO) && p.obj is None,
{
    match into_ptr_target(t) {
        Some(target) => Ok(LLPtr { ptrtype: Ptr { TO: target }, obj: None }),
        None => Err(error_text("nullptr: can only point to a container type")),
    }
}

/// `opaqueptr(T, name)`: a non-null pointer to a named opaque object of
/// type `T`.  Fails when `T` is not an opaque type.
pub fn opaqueptr(t: LowLevelType, name: &'static str) -> (r: Result<LLPtr, String>)
    ensures
        r is Ok <==> t is Opaque,
        r matches Ok(p) ==> type_target(t) == Some(p.ptrtype.TO) && p.obj == Some(
            PtrObj::Named { name },
        ),
{
    match t {
        LowLevelType::Opaque(b) => Ok(
            LLPtr { ptrtype: Ptr { TO: PtrTarget::Opaque(*b) }, obj: Some(PtrObj::Named { name }) },
        ),
        _ => Err(error_text("opaqueptr: expected an opaque type")),
    }
}

/// The GC kind of a mallocable type.
pub open spec fn type_gckind(t: LowLevelType) -> GcKind {
    match type_target(t) {
        Some(target) => target_gckind(target),
        None => GcKind::Raw,
    }
}

/// When `malloc(T, n, flavor)` succeeds: `T` is a struct (without a
/// length), an array (with a length) or an opaque type (without a length),
/// and a GC-flavored allocation is of a GC type while a raw one is not.
pub open spec fn malloc_ok(t: LowLevelType, n: Option<usize>, flavor: MallocFlavor) -> bool {
    let shape_ok = match t {
        LowLevelType::Struct(_) => n is None,
        LowLevelType::Array(_) => n is Some,
        LowLevelType::Opaque(_) => n is None,
        _ => false,
    };
    &&& shape_ok
    &&& match flavor {
        MallocFlavor::Gc => type_gckind(t) == GcKind::Gc,
        MallocFlavor::Raw => type_gckind(t) != GcKind::Gc,
    }
}

/// The object a successful `malloc(T, n, flavor, immortal)` points to.
pub open spec fn malloc_obj(t: LowLevelType, n: Option<usize>, immortal: bool) -> PtrObj {
    match t {
        LowLevelType::Array(_) => PtrObj::Array { length: n.unwrap(), immortal },
        LowLevelType::Opaque(_) => PtrObj::Opaque { immortal },
        _ => PtrObj::Struct { immortal },
    }
}

/// `malloc(T, n, flavor, immortal)`: a fresh non-null pointer of type
/// `Ptr(T)`.
pub fn malloc(t: LowLevelType, n: Option<usize>, flavor: MallocFlavor, immortal: bool) -> (r:
    Result<LLPtr, String>)
    ensures
        r is Ok <==> malloc_ok(t, n, flavor),
        r matches Ok(p) ==> type_target(t) == Some(p.ptrtype.TO) && p.obj == Some(
            malloc_obj(t, n, immortal),
        ),
{
    let (target, obj) = match t {
        LowLevelType::Struct(b) => {
            if n.is_some() {
                return Err(error_text("malloc: a fixed-size struct takes no length"));
            }
            (PtrTarget::Struct(*b), PtrObj::Struct { immortal })
        },
        LowLevelType::Array(b) => match n {
            Some(length) => (PtrTarget::Array(*b), PtrObj::Array { length, immortal }),
            None => {
                return Err(error_text("malloc: an array needs a length"));
            },
        },
        LowLevelType::Opaque(b) => {
            if n.is_some() {
                return Err(error_text("malloc: an opaque type takes no length"));
            }
            (PtrTarget::Opaque(*b), PtrObj::Opaque { immortal })
        },
        _ => {
            return Err(error_text("malloc: unmallocable type"));
        },
    };
    let kind = match &target {
        PtrTarget::Struct(s) => s.gckind,
        PtrTarget::Array(a) => a.gckind,
        PtrTarget::Opaque(o) => o.gckind,
        _ => GcKind::Raw,
    };
    let is_gc = match kind {
        GcKind::Gc => true,
        _ => false,
    };
    match flavor {
        MallocFlavor::Gc => {
            if !is_gc {
                return Err(error_text("malloc: gc flavor malloc of a non-GC type"));
            }
        },
        MallocFlavor::Raw => {
            if is_gc {
                return Err(error_text("malloc: raw flavor malloc of a GC type"));
            }
        },
    }
    Ok(LLPtr { ptrtype: Ptr { TO: target }, obj: Some(obj) })
}

impl LowLevelType {
    /// A copy of this type, equal to it.
    pub fn duplicate(&self) -> (r: Self)
        ensures
            r == *self,
        decreases self,
    {
        match self {
            LowLevelType::Void => LowLevelType::Void,
            LowLevelType::Signed => LowLevelType::Signed,
            LowLevelType::Unsigned => LowLevelType::Unsigned,
            LowLevelType::SignedLongLong => LowLevelType::SignedLongLong,
            LowLevelType::UnsignedLongLong => LowLevelType::UnsignedLongLong,
            LowLevelType::Bool => LowLevelType::Bool,
            LowLevelType::Char => LowLevelType::Char,
            LowLevelType::UniChar => LowLevelType::UniChar,
            LowLevelType::Float => LowLevelType::Float,
            LowLevelType::SingleFloat => LowLevelType::SingleFloat,
            LowLevelType::Address => LowLevelType::Address,
            LowLevelType::Ptr(p) => LowLevelType::Ptr(Box::new(p.duplicate())),
            LowLevelType::Struct(t) => LowLevelType::Struct(Box::new(t.duplicate())),
            LowLevelType::Array(t) => LowLevelType::Array(Box::new(t.duplicate())),
            LowLevelType::FixedSizeArray(t) => LowLevelType::FixedSizeArray(
                Box::new(t.duplicate()),
            ),
            LowLevelType::Func(t) => LowLevelType::Func(Box::new(t.duplicate())),
            LowLevelType::Opaque(t) => LowLevelType::Opaque(Box::new(t.duplicate())),
            LowLevelType::ForwardReference(t) => LowLevelType::ForwardReference(
                Box::new(t.duplicate()),
            ),
        }
    }

    /// Whether this is `Void`.
    pub fn is_void(&self) -> (r: bool)
        ensures
            r == (*self == LowLevelType::Void),
    {
        match self {
            LowLevelType::Void => true,
            _ => false,
        }
    }
}

impl Ptr {
    /// A copy of this pointer type, equal to it.
    pub fn duplicate(&self) -> (r: Self)
        ensures
            r == *self,
        decreases self,
    {
        Ptr { TO: self.TO.duplicate() }
    }
}

impl PtrTarget {
    /// A copy of this pointer target, equal to it.
    pub fn duplicate(&self) -> (r: Self)
        ensures
            r == *self,
        decreases self,
    {
        match self {
            PtrTarget::Func(t) => PtrTarget::Func(t.duplicate()),
            PtrTarget::Struct(t) => PtrTarget::Struct(t.duplicate()),
            PtrTarget::Array(t) => PtrTarget::Array(t.duplicate()),
            PtrTarget::FixedSizeArray(t) => PtrTarget::FixedSizeArray(t.duplicate()),
            PtrTarget::Opaque(t) => PtrTarget::Opaque(t.duplicate()),
            PtrTarget::ForwardReference(t) => PtrTarget::ForwardReference(t.duplicate()),
        }
    }
}

impl StructType {
    /// A copy of this struct type, equal to it.
    pub fn duplicate(&self) -> (r: Self)
        ensures
            r == *self,
        decreases self,
    {
        StructType { name: self.name, fields: self.fields.duplicate(), gckind: self.gckind }
    }
}

impl FieldList {
    /// A copy of this field list, equal to it.
    pub fn duplicate(&self) -> (r: Self)
        ensures
            r == *self,
        decreases self,
    {
        match self {
            FieldList::Nil => FieldList::Nil,
            FieldList::Cons(name, t, rest) => FieldList::Cons(
                *name,
                t.duplicate(),
                Box::new(rest.duplicate()),
            ),
        }
    }
}

impl ArrayType {
    /// A copy of this array type, equal to it.
    pub fn duplicate(&self) -> (r: Self)
        ensures
            r == *self,
        decreases self,
    {
        ArrayType { of: self.of.duplicate(), gckind: self.gckind }
    }
}

impl FixedSizeArrayType {
    /// A copy of this array type, equal to it.
    pub fn duplicate(&self) -> (r: Self)
        ensures
            r == *self,
        decreases self,
    {
        FixedSizeArrayType { of: self.of.duplicate(), length: self.length }
    }
}

impl FuncType {
    /// A copy of this function type, equal to it.
    pub fn duplicate(&self) -> (r: Self)
        ensures
            r == *self,
        decreases self,
    {
        FuncType { args: self.args.duplicate(), result: self.result.duplicate() }
    }
}

impl TypeList {
    /// A copy of this type list, equal to it.
    pub fn duplicate(&self) -> (r: Self)
        ensures
            r == *self,
        decreases self,
    {
        match self {
            TypeList::Nil => TypeList::Nil,
            TypeList::Cons(t, rest) => TypeList::Cons(t.duplicate(), Box::new(rest.duplicate())),
        }
    }
}

impl OpaqueType {
    /// `GcOpaqueType(tag)`.
    pub fn gc(tag: &'static str) -> (r: Self)
        ensures
            r == (OpaqueType { tag, gckind: GcKind::Gc }),
    {
        OpaqueType { tag, gckind: GcKind::Gc }
    }

    /// A copy of this opaque type, equal to it.
    pub fn duplicate(&self) -> (r: Self)
        ensures
            r == *self,
    {
        OpaqueType { tag: self.tag, gckind: self.gckind }
    }
}

impl ForwardReference {
    /// A copy of this forward reference, equal to it.
    pub fn duplicate(&self) -> (r: Self)
        ensures
            r == *self,
    {
        ForwardReference { gckind: self.gckind }
    }
}

impl LLPtr {
    /// `bool(ptr)`: whether the pointer is non-null.
    pub fn nonzero(&self) -> (r: bool)
        ensures
            r == self.obj is Some,
    {
        self.obj.is_some()
    }
}

} // verus!
