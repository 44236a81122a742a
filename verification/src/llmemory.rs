//! Annotations of low-level memory addresses.

use crate::annotator::{KnownType, SomeBool, SomeObjectBase, SomeObjectTrait, SomeValue};
use crate::lltype::LowLevelType;
use crate::model::ConstValue;
use crate::text::str_eq;
use vstd::prelude::*;

verus! {

/// `SomeAddress`: the annotation of a low-level address;
/// addresses are immutable.
#[derive(Debug, PartialEq, Eq)]
pub struct SomeAddress {
    pub base: SomeObjectBase,
}

/// The access types `addr.<name>[offset]` supports, by name.
pub open spec fn spec_supported_access_type(name: Seq<char>) -> Option<LowLevelType> {
    if name == "signed"@ {
        Some(LowLevelType::Signed)
    } else if name == "unsigned"@ {
        Some(LowLevelType::Unsigned)
    } else if name == "char"@ {
        Some(LowLevelType::Char)
    } else if name == "address"@ {
        Some(LowLevelType::Address)
    } else if name == "float"@ {
        Some(LowLevelType::Float)
    } else {
        None
    }
}

/// The annotation `SomeTypedAddressAccess(access_type)` stands for.
pub open spec fn spec_typed_access(access_type: LowLevelType) -> SomeTypedAddressAccess {
    SomeTypedAddressAccess {
        access_type,
        base: SomeObjectBase { knowntype: KnownType::Object, immutable: false, const_box: None },
    }
}

impl SomeAddress {
    /// `SomeAddress()`: an address of unknown value.
    pub fn new() -> (r: Self)
        ensures
            r == (SomeAddress { base: SomeObjectBase { knowntype: KnownType::Address, immutable: true, const_box: None } }),
    {
        SomeAddress { base: SomeObjectBase::new(KnownType::Address, true) }
    }

    /// `is_immutable_constant()`: the annotation is immutable and a known
    /// constant.
    pub fn is_immutable_constant(&self) -> (r: bool)
        ensures
            r == (self.base.immutable && self.base.const_box is Some),
    {
        self.base.immutable && self.base.const_box.is_some()
    }

    /// `is_null_address()`: the annotation is an immutable constant whose
    /// value is the null address.
    pub fn is_null_address(&self) -> (r: bool)
        ensures
            r == (self.base.immutable && match self.base.const_box {
                Some(c) => c.value == ConstValue::Address(None),
                None => false,
            }),
    {
        if !self.is_immutable_constant() {
            return false;
        }
        match &self.base.const_box {
            Some(c) => c.value.is_null_address(),
            None => false,
        }
    }

    /// `getattr(s_attr)`: the annotation of `addr.<attr>`, the intermediate
    /// value of `addr.signed[offset]`; `None` for an unsupported access
    /// type.
    pub fn annotation_getattr(attr: &str) -> (r: Option<SomeTypedAddressAccess>)
        ensures
            r == (match spec_supported_access_type(attr@) {
                Some(t) => Some(spec_typed_access(t)),
                None => None,
            }),
    {
        match supported_access_type(attr) {
            Some(t) => Some(SomeTypedAddressAccess::new(t)),
            None => None,
        }
    }

    /// `bool(addr)` is a boolean of unknown value.
    pub fn annotation_bool() -> (r: SomeValue)
        ensures
            r == SomeValue::Bool(SomeBool { base: SomeObjectBase { knowntype: KnownType::Bool, immutable: true, const_box: None } }),
    {
        SomeValue::Bool(SomeBool::new())
    }
}

impl Default for SomeAddress {
    fn default() -> (r: Self)
        ensures
            r == (SomeAddress { base: SomeObjectBase { knowntype: KnownType::Address, immutable: true, const_box: None } }),
    {
        SomeAddress::new()
    }
}

impl SomeObjectTrait for SomeAddress {
    fn knowntype(&self) -> (r: KnownType)
        ensures
            r == KnownType::Address,
    {
        KnownType::Address
    }

    fn immutable(&self) -> (r: bool)
        ensures
            r,
    {
        true
    }

    fn is_constant(&self) -> (r: bool)
        ensures
            r == self.base.const_box is Some,
    {
        self.base.const_box.is_some()
    }

    fn can_be_none(&self) -> (r: bool)
        ensures
            !r,
    {
        false
    }
}

/// The low-level type of an access `addr.<name>`, for the supported names
/// `signed`, `unsigned`, `char`, `address` and `float`.
pub fn supported_access_type(name: &str) -> (r: Option<LowLevelType>)
    ensures
        r == spec_supported_access_type(name@),
{
    if str_eq(name, "signed") {
        Some(LowLevelType::Signed)
    } else if str_eq(name, "unsigned") {
        Some(LowLevelType::Unsigned)
    } else if str_eq(name, "char") {
        Some(LowLevelType::Char)
    } else if str_eq(name, "address") {
        Some(LowLevelType::Address)
    } else if str_eq(name, "float") {
        Some(LowLevelType::Float)
    } else {
        None
    }
}

/// `SomeTypedAddressAccess`: the annotation of the
/// intermediate value in `addr.signed[offset]`.
#[derive(Debug, PartialEq, Eq)]
pub struct SomeTypedAddressAccess {
    pub access_type: LowLevelType,
    pub base: SomeObjectBase,
}

impl SomeTypedAddressAccess {
    /// The mutable, non-constant annotation of an access of `access_type`.
    pub fn new(access_type: LowLevelType) -> (r: Self)
        ensures
            r == spec_typed_access(access_type),
    {
        SomeTypedAddressAccess { access_type, base: SomeObjectBase::new(KnownType::Object, false) }
    }
}

impl SomeObjectTrait for SomeTypedAddressAccess {
    fn knowntype(&self) -> (r: KnownType)
        ensures
            r == KnownType::Object,
    {
        KnownType::Object
    }

    fn immutable(&self) -> (r: bool)
        ensures
            !r,
    {
        false
    }

    fn is_constant(&self) -> (r: bool)
        ensures
            !r,
    {
        false
    }

    fn can_be_none(&self) -> (r: bool)
        ensures
            !r,
    {
        false
    }
}

/// The size in bytes of a primitive type `sizeof` knows, with the name
/// the type prints as; `None` for the other types.
pub open spec fn spec_item_size(ty: LowLevelType) -> Option<(&'static str, i64)> {
    match ty {
        LowLevelType::Signed => Some(("Signed", 8)),
        LowLevelType::Unsigned => Some(("Unsigned", 8)),
        LowLevelType::Char => Some(("Char", 1)),
        LowLevelType::Address => Some(("Address", 8)),
        LowLevelType::Float => Some(("Float", 8)),
        _ => None,
    }
}

/// `llmemory.sizeof(TYPE)`: the symbolic offset `ItemOffset(TYPE)` of one
/// item of a primitive type; `None` for the types it does not size.
pub fn sizeof(ty: &LowLevelType) -> (r: Option<ConstValue>)
    ensures
        r == (match spec_item_size(*ty) {
            Some((name, size)) => Some(
                ConstValue::AddressOffset { kind: "ItemOffset", typename: name, byte_size: size },
            ),
            None => None,
        }),
{
    let (typename, byte_size): (&'static str, i64) = match ty {
        LowLevelType::Signed => ("Signed", 8),
        LowLevelType::Unsigned => ("Unsigned", 8),
        LowLevelType::Char => ("Char", 1),
        LowLevelType::Address => ("Address", 8),
        LowLevelType::Float => ("Float", 8),
        _ => {
            return None;
        },
    };
    Some(ConstValue::AddressOffset { kind: "ItemOffset", typename, byte_size })
}

/// `supported_access_type` accepts exactly the five names `signed`,
/// `unsigned`, `char`, `address` and `float`.
pub proof fn law_supported_access_type_names(name: Seq<char>)
    ensures
        spec_supported_access_type(name) is Some <==> (name == "signed"@ || name == "unsigned"@
            || name == "char"@ || name == "address"@ || name == "float"@),
{
}

/// Every type an address can be accessed as has a size: `sizeof` gives
/// an `ItemOffset` for each type `supported_access_type` returns.
pub proof fn law_access_types_have_size(name: Seq<char>)
    ensures
        spec_supported_access_type(name) matches Some(t) ==> spec_item_size(t) is Some,
{
}

/// `getattr` succeeds exactly for the supported access types, and the
/// access annotation it gives is mutable, not constant, and of the
/// accessed type.
pub proof fn law_getattr_follows_access_type(name: Seq<char>, t: LowLevelType)
    requires
        spec_supported_access_type(name) == Some(t),
    ensures
        spec_typed_access(t).access_type == t,
        !spec_typed_access(t).base.immutable,
        spec_typed_access(t).base.const_box is None,
{
}

/// `sizeof` gives the size of one item: a `Char` takes one byte and every
/// other type it sizes takes a whole 8-byte word; the offset is named after
/// the type.
pub proof fn law_sizeof_item_sizes(ty: LowLevelType)
    ensures
        spec_item_size(ty) matches Some((name, size)) ==> ((size == 1 <==> ty == LowLevelType::Char)
            && (size == 1 || size == 8) && (ty == LowLevelType::Char ==> name == "Char")),
{
}

} // verus!
