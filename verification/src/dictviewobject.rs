//! Dict views (`dict_keys`, `dict_values`, `dict_items`): one object shape
//! carrying a kind tag and a back-reference to the live source dict, with
//! the three Python-visible types told apart by the tag.

use crate::getsetproperty::spec_getset_descriptor_type;
use crate::pyobject::{
    header, law_instantiate_first_match, law_instantiate_none, object_at, same_type, spec_instantiate, valid_ref, HeapObject, ObjectSpace, PyObject,
    PyObjectRef, PyType,
};
use vstd::prelude::*;

verus! {

/// The three view kinds.
#[derive(Debug, Clone, Copy, PartialEq, Eq, Structural)]
pub enum DictViewKind {
    Keys,
    Values,
    Items,
}

/// `[ob_header | kind | w_dict]`: a view of the live dict `w_dict`.
#[allow(non_camel_case_types)]
#[derive(Debug, Clone, Copy, PartialEq, Eq)]
pub struct W_DictView {
    pub ob_header: PyObject,
    pub kind: DictViewKind,
    pub w_dict: PyObjectRef,
}

/// The GC type id of dict views.
pub const W_DICT_VIEW_GC_TYPE_ID: u32 = 39;

/// The type of `d.keys()`.
pub open spec fn spec_dict_keys_type() -> PyType {
    PyType { name: "dict_keys" }
}

/// The type of `d.values()`.
pub open spec fn spec_dict_values_type() -> PyType {
    PyType { name: "dict_values" }
}

/// The type of `d.items()`.
pub open spec fn spec_dict_items_type() -> PyType {
    PyType { name: "dict_items" }
}

/// The Python-visible type of a view kind.
pub open spec fn spec_view_type(kind: DictViewKind) -> PyType {
    match kind {
        DictViewKind::Keys => spec_dict_keys_type(),
        DictViewKind::Values => spec_dict_values_type(),
        DictViewKind::Items => spec_dict_items_type(),
    }
}

/// Whether a type is one of the three view types.
pub open spec fn is_view_type(tp: PyType) -> bool {
    same_type(tp, spec_dict_keys_type()) || same_type(tp, spec_dict_values_type())
        || same_type(tp, spec_dict_items_type())
}

/// The view `w_dict_view_new(w_dict, kind)` stores when the registry is
/// `reg`.
pub open spec fn spec_new_view(
    reg: Seq<(PyType, PyObjectRef)>,
    w_dict: PyObjectRef,
    kind: DictViewKind,
) -> W_DictView {
    W_DictView {
        ob_header: PyObject {
            ob_type: spec_view_type(kind),
            w_class: spec_instantiate(reg, spec_view_type(kind)),
        },
        kind,
        w_dict,
    }
}

/// The type of `d.keys()`.
pub fn dict_keys_type() -> (r: PyType)
    ensures
        r == spec_dict_keys_type(),
{
    PyType { name: "dict_keys" }
}

/// The type of `d.values()`.
pub fn dict_values_type() -> (r: PyType)
    ensures
        r == spec_dict_values_type(),
{
    PyType { name: "dict_values" }
}

/// The type of `d.items()`.
pub fn dict_items_type() -> (r: PyType)
    ensures
        r == spec_dict_items_type(),
{
    PyType { name: "dict_items" }
}

/// The Python-visible type for a view kind, so that `type(d.keys()) is
/// dict_keys`, `type(d.values()) is dict_values` and `type(d.items()) is
/// dict_items`.
pub fn dict_view_type_for_kind(kind: DictViewKind) -> (r: PyType)
    ensures
        r == spec_view_type(kind),
{
    match kind {
        DictViewKind::Keys => dict_keys_type(),
        DictViewKind::Values => dict_values_type(),
        DictViewKind::Items => dict_items_type(),
    }
}

/// Allocates a view of kind `kind` bound to `w_dict`.
pub fn w_dict_view_new(space: &mut ObjectSpace, w_dict: PyObjectRef, kind: DictViewKind) -> (r:
    PyObjectRef)
    requires
        old(space).objects@.len() < usize::MAX,
    ensures
        final(space).objects@ == old(space).objects@.push(
            HeapObject::DictView(spec_new_view(old(space).instantiate@, w_dict, kind)),
        ),
        final(space).instantiate@ == old(space).instantiate@,
        r == PyObjectRef((old(space).objects@.len() + 1) as usize),
        is_view_at(final(space).objects@, r),
        header(object_at(final(space).objects@, r)).ob_type == spec_view_type(kind),
        header(object_at(final(space).objects@, r)).w_class == spec_instantiate(
            old(space).instantiate@,
            spec_view_type(kind),
        ),
        view_at(final(space).objects@, r).kind == kind,
        view_at(final(space).objects@, r).w_dict == w_dict,
        is_view_type(header(object_at(final(space).objects@, r)).ob_type),
        !same_type(
            header(object_at(final(space).objects@, r)).ob_type,
            spec_getset_descriptor_type(),
        ),
{
    let tp = dict_view_type_for_kind(kind);
    let w_class = space.get_instantiate(&tp);
    let r = space.malloc_typed(
        HeapObject::DictView(W_DictView { ob_header: PyObject { ob_type: tp, w_class }, kind, w_dict }),
    );
    proof {
        law_view_not_getset(kind);
    }
    r
}

/// Whether `obj` is any of the three view types.
pub fn is_dict_view(space: &ObjectSpace, obj: PyObjectRef) -> (r: bool)
    requires
        valid_ref(space.objects@, obj),
    ensures
        r == is_view_type(header(object_at(space.objects@, obj)).ob_type),
{
    space.py_type_check(obj, &dict_keys_type()) || space.py_type_check(obj, &dict_values_type())
        || space.py_type_check(obj, &dict_items_type())
}

/// Whether `obj` is the address of a stored view.
pub open spec fn is_view_at(objects: Seq<HeapObject>, obj: PyObjectRef) -> bool {
    valid_ref(objects, obj) && object_at(objects, obj) is DictView
}

/// The view stored at `obj`.
pub open spec fn view_at(objects: Seq<HeapObject>, obj: PyObjectRef) -> W_DictView {
    object_at(objects, obj)->DictView_0
}

/// The kind of the view at `obj`.
pub fn w_dict_view_get_kind(space: &ObjectSpace, obj: PyObjectRef) -> (r: DictViewKind)
    requires
        is_view_at(space.objects@, obj),
    ensures
        r == view_at(space.objects@, obj).kind,
{
    match &space.objects[obj.0 - 1] {
        HeapObject::DictView(v) => v.kind,
        _ => vstd::pervasive::unreached(),
    }
}

/// The source dict of the view at `obj`.
pub fn w_dict_view_get_dict(space: &ObjectSpace, obj: PyObjectRef) -> (r: PyObjectRef)
    requires
        is_view_at(space.objects@, obj),
    ensures
        r == view_at(space.objects@, obj).w_dict,
{
    match &space.objects[obj.0 - 1] {
        HeapObject::DictView(v) => v.w_dict,
        _ => vstd::pervasive::unreached(),
    }
}

/// A new view reads back as made: after `w_dict_view_new(w_dict, kind)`
/// stores its view, the new address holds a view of one of the three view
/// types, `w_dict_view_get_kind` gives `kind` and `w_dict_view_get_dict`
/// gives `w_dict`, and every older object is unchanged.
pub proof fn law_new_view_reads_back(
    objects: Seq<HeapObject>,
    reg: Seq<(PyType, PyObjectRef)>,
    w_dict: PyObjectRef,
    kind: DictViewKind,
)
    requires
        objects.len() < usize::MAX,
    ensures
        ({
            let after = objects.push(HeapObject::DictView(spec_new_view(reg, w_dict, kind)));
            let obj = PyObjectRef((objects.len() + 1) as usize);
            &&& is_view_at(after, obj)
            &&& view_at(after, obj).kind == kind
            &&& view_at(after, obj).w_dict == w_dict
            &&& is_view_type(header(object_at(after, obj)).ob_type)
            &&& forall|o: PyObjectRef| #[trigger]
                valid_ref(objects, o) ==> object_at(after, o) == object_at(objects, o)
        }),
{
}

/// The three view kinds have three different types.
pub proof fn law_view_types_distinct(k1: DictViewKind, k2: DictViewKind)
    ensures
        same_type(spec_view_type(k1), spec_view_type(k2)) <==> k1 == k2,
{
    reveal_strlit("dict_keys");
    reveal_strlit("dict_values");
    reveal_strlit("dict_items");
    assert("dict_keys"@.len() == 9);
    assert("dict_values"@.len() == 11);
    assert("dict_items"@.len() == 10);
}

/// No view type is the descriptor type `getset_descriptor`.
pub proof fn law_view_not_getset(kind: DictViewKind)
    ensures
        !same_type(spec_view_type(kind), spec_getset_descriptor_type()),
{
    reveal_strlit("getset_descriptor");
    reveal_strlit("dict_keys");
    reveal_strlit("dict_values");
    reveal_strlit("dict_items");
    assert("getset_descriptor"@.len() == 17);
    assert("dict_keys"@.len() == 9);
    assert("dict_values"@.len() == 11);
    assert("dict_items"@.len() == 10);
}

/// A new view is of the type named after its own kind (`dict_keys`,
/// `dict_values` or `dict_items`), and its class is the type object
/// registered under that name: the one of the first registry entry with
/// that name, or `PY_NULL` when none has.
pub proof fn law_new_view_class_of_own_kind(
    reg: Seq<(PyType, PyObjectRef)>,
    w_dict: PyObjectRef,
    kind: DictViewKind,
)
    ensures
        ({
            let v = spec_new_view(reg, w_dict, kind);
            let tp = v.ob_header.ob_type;
            &&& v.kind == kind
            &&& v.w_dict == w_dict
            &&& kind == DictViewKind::Keys ==> tp.name@ == "dict_keys"@
            &&& kind == DictViewKind::Values ==> tp.name@ == "dict_values"@
            &&& kind == DictViewKind::Items ==> tp.name@ == "dict_items"@
            &&& forall|i: int|
                0 <= i < reg.len() && same_type(#[trigger] reg[i].0, tp) && (forall|j: int|
                    0 <= j < i ==> !same_type(reg[j].0, tp)) ==> v.ob_header.w_class == reg[i].1
            &&& (forall|j: int| 0 <= j < reg.len() ==> !same_type(reg[j].0, tp))
                ==> v.ob_header.w_class == PyObjectRef(0)
        }),
{
    let tp = spec_view_type(kind);
    assert forall|i: int|
        0 <= i < reg.len() && same_type(#[trigger] reg[i].0, tp) && (forall|j: int|
            0 <= j < i ==> !same_type(reg[j].0, tp)) implies spec_instantiate(reg, tp) == reg[i].1 by {
        law_instantiate_first_match(reg, tp, i);
    }
    law_instantiate_none(reg, tp);
}

} // verus!
