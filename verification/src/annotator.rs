//! Annotations: the static knowledge the annotator has about a value.

use crate::llmemory::{SomeAddress, SomeTypedAddressAccess};
use crate::model::Constant;
use vstd::prelude::*;

verus! {

/// The Python-level type an annotation stands for.
#[derive(Debug, Clone, Copy, PartialEq, Eq, Structural)]
pub enum KnownType {
    Object,
    Bool,
    Int,
    Str,
    Address,
}

/// The fields every `SomeObject` carries: its known type, whether its
/// values are immutable, and the constant it is known to be, if any.
#[derive(Debug, PartialEq, Eq)]
pub struct SomeObjectBase {
    pub knowntype: KnownType,
    pub immutable: bool,
    pub const_box: Option<Constant>,
}

impl SomeObjectBase {
    /// An annotation base with no known constant.
    pub fn new(knowntype: KnownType, immutable: bool) -> (r: Self)
        ensures
            r == (SomeObjectBase { knowntype, immutable, const_box: None }),
    {
        SomeObjectBase { knowntype, immutable, const_box: None }
    }
}

/// The questions every annotation answers.
pub trait SomeObjectTrait {
    /// The Python-level type of the annotated values.
    fn knowntype(&self) -> KnownType;

    /// Whether the annotated values are immutable.
    fn immutable(&self) -> bool;

    /// Whether the annotation is a known constant.
    fn is_constant(&self) -> bool;

    /// Whether the annotated value may be `None`.
    fn can_be_none(&self) -> bool;
}

/// The annotation of a boolean.
#[derive(Debug, PartialEq, Eq)]
pub struct SomeBool {
    pub base: SomeObjectBase,
}

impl SomeBool {
    /// `SomeBool()`: a boolean of unknown value.
    pub fn new() -> (r: Self)
        ensures
            r == (SomeBool { base: SomeObjectBase { knowntype: KnownType::Bool, immutable: true, const_box: None } }),
    {
        SomeBool { base: SomeObjectBase::new(KnownType::Bool, true) }
    }
}

impl SomeObjectTrait for SomeBool {
    fn knowntype(&self) -> (r: KnownType)
        ensures
            r == KnownType::Bool,
    {
        KnownType::Bool
    }

    fn immutable(&self) -> (r: bool)
        ensures
            r,
    {
        true
    }

    fn is_constant(&self) -> (r: bool)
        ensures
            r == self.base.const_box is Some,
    {
        self.base.const_box.is_some()
    }

    fn can_be_none(&self) -> (r: bool)
        ensures
            !r,
    {
        false
    }
}

/// An annotation of any of the kinds this library knows.
#[derive(Debug, PartialEq, Eq)]
pub enum SomeValue {
    Bool(SomeBool),
    Address(SomeAddress),
    TypedAddressAccess(SomeTypedAddressAccess),
}

} // verus!
