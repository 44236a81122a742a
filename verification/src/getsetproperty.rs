//! `GetSetProperty` descriptors: the getter, setter, deleter, docstring,
//! required receiver class, name, owning class and qualified-name cache of a
//! descriptor, stored on the object itself.

use crate::dictviewobject::{law_view_not_getset, spec_new_view, DictViewKind};
use crate::pyobject::{
    header, law_instantiate_first_match, law_instantiate_none, object_at, same_type, spec_instantiate, valid_ref, HeapObject, ObjectSpace, PyObject,
    PyObjectRef, PyType,
};
use vstd::prelude::*;

verus! {

/// A `GetSetProperty` descriptor.  Object slots hold `PY_NULL` when absent.
#[allow(non_camel_case_types)]
#[derive(Debug, Clone, Copy, PartialEq, Eq)]
pub struct W_GetSetProperty {
    pub ob_header: PyObject,
    pub fget: PyObjectRef,
    pub fset: PyObjectRef,
    pub fdel: PyObjectRef,
    pub doc: PyObjectRef,
    pub reqcls: PyObjectRef,
    pub name: PyObjectRef,
    pub w_objclass: PyObjectRef,
    pub w_qualname: PyObjectRef,
    pub use_closure: bool,
}

/// The GC type id of descriptors.
pub const W_GETSET_PROPERTY_GC_TYPE_ID: u32 = 40;

/// The type of descriptors, `getset_descriptor`.
pub open spec fn spec_getset_descriptor_type() -> PyType {
    PyType { name: "getset_descriptor" }
}

/// The type of descriptors, `getset_descriptor`.
pub fn getset_descriptor_type() -> (r: PyType)
    ensures
        r == spec_getset_descriptor_type(),
{
    PyType { name: "getset_descriptor" }
}

/// Whether `obj` is the address of a stored descriptor.
pub open spec fn is_getset_at(objects: Seq<HeapObject>, obj: PyObjectRef) -> bool {
    valid_ref(objects, obj) && object_at(objects, obj) is GetSetProperty
}

/// The descriptor stored at `obj`.
pub open spec fn getset_at(objects: Seq<HeapObject>, obj: PyObjectRef) -> W_GetSetProperty {
    object_at(objects, obj)->GetSetProperty_0
}

/// The objects after the descriptor at `obj` is replaced by `g`.
pub open spec fn with_getset(objects: Seq<HeapObject>, obj: PyObjectRef, g: W_GetSetProperty) -> Seq<HeapObject> {
    objects.update(obj.0 - 1, HeapObject::GetSetProperty(g))
}

/// The descriptor `w_getset_property_new` stores when the registry is
/// `reg`: every slot as given, no owning class, an empty qualified-name
/// cache.
pub open spec fn spec_new_getset(
    reg: Seq<(PyType, PyObjectRef)>,
    fget: PyObjectRef,
    fset: PyObjectRef,
    fdel: PyObjectRef,
    doc: PyObjectRef,
    reqcls: PyObjectRef,
    use_closure: bool,
    name: PyObjectRef,
) -> W_GetSetProperty {
    W_GetSetProperty {
        ob_header: PyObject {
            ob_type: spec_getset_descriptor_type(),
            w_class: spec_instantiate(reg, spec_getset_descriptor_type()),
        },
        fget,
        fset,
        fdel,
        doc,
        reqcls,
        name,
        w_objclass: PyObjectRef(0),
        w_qualname: PyObjectRef(0),
        use_closure,
    }
}

/// Allocates a descriptor of type `getset_descriptor` with every slot set
/// at once; the owning class and the qualified-name cache start null.  A
/// null `name` is stored as given: callers pass a resolved name.
pub fn w_getset_property_new(
    space: &mut ObjectSpace,
    fget: PyObjectRef,
    fset: PyObjectRef,
    fdel: PyObjectRef,
    doc: PyObjectRef,
    reqcls: PyObjectRef,
    use_closure: bool,
    name: PyObjectRef,
) -> (r: PyObjectRef)
    requires
        old(space).objects@.len() < usize::MAX,
    ensures
        final(space).objects@ == old(space).objects@.push(
            HeapObject::GetSetProperty(
                spec_new_getset(
                    old(space).instantiate@,
                    fget,
                    fset,
                    fdel,
                    doc,
                    reqcls,
                    use_closure,
                    name,
                ),
            ),
        ),
        final(space).instantiate@ == old(space).instantiate@,
        r == PyObjectRef((old(space).objects@.len() + 1) as usize),
        is_getset_at(final(space).objects@, r),
        getset_at(final(space).objects@, r).fget == fget,
        getset_at(final(space).objects@, r).fset == fset,
        getset_at(final(space).objects@, r).fdel == fdel,
        getset_at(final(space).objects@, r).doc == doc,
        getset_at(final(space).objects@, r).reqcls == reqcls,
        getset_at(final(space).objects@, r).name == name,
        getset_at(final(space).objects@, r).use_closure == use_closure,
        getset_at(final(space).objects@, r).ob_header.w_class == spec_instantiate(
            old(space).instantiate@,
            spec_getset_descriptor_type(),
        ),
        getset_at(final(space).objects@, r).w_qualname == PyObjectRef(0),
        getset_at(final(space).objects@, r).w_objclass == PyObjectRef(0),
        same_type(
            header(object_at(final(space).objects@, r)).ob_type,
            spec_getset_descriptor_type(),
        ),
{
    let tp = getset_descriptor_type();
    let w_class = space.get_instantiate(&tp);
    space.malloc_typed(
        HeapObject::GetSetProperty(
            W_GetSetProperty {
                ob_header: PyObject { ob_type: tp, w_class },
                fget,
                fset,
                fdel,
                doc,
                reqcls,
                name,
                w_objclass: PyObjectRef(0),
                w_qualname: PyObjectRef(0),
                use_closure,
            },
        ),
    )
}

/// Whether `obj` is a descriptor.
pub fn is_getset_property(space: &ObjectSpace, obj: PyObjectRef) -> (r: bool)
    requires
        valid_ref(space.objects@, obj),
    ensures
        r == same_type(header(object_at(space.objects@, obj)).ob_type, spec_getset_descriptor_type()),
{
    space.py_type_check(obj, &getset_descriptor_type())
}

/// The descriptor at `obj`.
fn getset_ref(space: &ObjectSpace, obj: PyObjectRef) -> (r: &W_GetSetProperty)
    requires
        is_getset_at(space.objects@, obj),
    ensures
        *r == getset_at(space.objects@, obj),
{
    match &space.objects[obj.0 - 1] {
        HeapObject::GetSetProperty(g) => g,
        _ => vstd::pervasive::unreached(),
    }
}

/// Replaces the descriptor at `obj` by `g`.
fn store_getset(space: &mut ObjectSpace, obj: PyObjectRef, g: W_GetSetProperty)
    requires
        is_getset_at(old(space).objects@, obj),
    ensures
        final(space).objects@ == with_getset(old(space).objects@, obj, g),
        final(space).instantiate@ == old(space).instantiate@,
{
    space.objects.set(obj.0 - 1, HeapObject::GetSetProperty(g));
}

/// The getter.
pub fn w_getset_get_fget(space: &ObjectSpace, obj: PyObjectRef) -> (r: PyObjectRef)
    requires
        is_getset_at(space.objects@, obj),
    ensures
        r == getset_at(space.objects@, obj).fget,
{
    getset_ref(space, obj).fget
}

/// The setter.
pub fn w_getset_get_fset(space: &ObjectSpace, obj: PyObjectRef) -> (r: PyObjectRef)
    requires
        is_getset_at(space.objects@, obj),
    ensures
        r == getset_at(space.objects@, obj).fset,
{
    getset_ref(space, obj).fset
}

/// The deleter.
pub fn w_getset_get_fdel(space: &ObjectSpace, obj: PyObjectRef) -> (r: PyObjectRef)
    requires
        is_getset_at(space.objects@, obj),
    ensures
        r == getset_at(space.objects@, obj).fdel,
{
    getset_ref(space, obj).fdel
}

/// The required receiver class.
pub fn w_getset_get_reqcls(space: &ObjectSpace, obj: PyObjectRef) -> (r: PyObjectRef)
    requires
        is_getset_at(space.objects@, obj),
    ensures
        r == getset_at(space.objects@, obj).reqcls,
{
    getset_ref(space, obj).reqcls
}

/// The descriptor's name.
pub fn w_getset_get_name(space: &ObjectSpace, obj: PyObjectRef) -> (r: PyObjectRef)
    requires
        is_getset_at(space.objects@, obj),
    ensures
        r == getset_at(space.objects@, obj).name,
{
    getset_ref(space, obj).name
}

/// Overwrites the name with the key the descriptor was registered under.
pub fn w_getset_set_name(space: &mut ObjectSpace, obj: PyObjectRef, value: PyObjectRef)
    requires
        is_getset_at(old(space).objects@, obj),
    ensures
        final(space).objects@ == with_getset(
            old(space).objects@,
            obj,
            W_GetSetProperty { name: value, ..getset_at(old(space).objects@, obj) },
        ),
        final(space).instantiate@ == old(space).instantiate@,
        is_getset_at(final(space).objects@, obj),
        getset_at(final(space).objects@, obj).name == value,
{
    let g = W_GetSetProperty { name: value, ..*getset_ref(space, obj) };
    store_getset(space, obj, g);
}

/// Writes the required receiver class.
pub fn w_getset_set_reqcls(space: &mut ObjectSpace, obj: PyObjectRef, value: PyObjectRef)
    requires
        is_getset_at(old(space).objects@, obj),
    ensures
        final(space).objects@ == with_getset(
            old(space).objects@,
            obj,
            W_GetSetProperty { reqcls: value, ..getset_at(old(space).objects@, obj) },
        ),
        final(space).instantiate@ == old(space).instantiate@,
        is_getset_at(final(space).objects@, obj),
        getset_at(final(space).objects@, obj).reqcls == value,
{
    let g = W_GetSetProperty { reqcls: value, ..*getset_ref(space, obj) };
    store_getset(space, obj, g);
}

/// The wrapped docstring.
pub fn w_getset_get_doc(space: &ObjectSpace, obj: PyObjectRef) -> (r: PyObjectRef)
    requires
        is_getset_at(space.objects@, obj),
    ensures
        r == getset_at(space.objects@, obj).doc,
{
    getset_ref(space, obj).doc
}

/// The owning class stamped by `copy_for_type`.
pub fn w_getset_get_objclass(space: &ObjectSpace, obj: PyObjectRef) -> (r: PyObjectRef)
    requires
        is_getset_at(space.objects@, obj),
    ensures
        r == getset_at(space.objects@, obj).w_objclass,
{
    getset_ref(space, obj).w_objclass
}

/// Writes the owning class.
pub fn w_getset_set_objclass(space: &mut ObjectSpace, obj: PyObjectRef, value: PyObjectRef)
    requires
        is_getset_at(old(space).objects@, obj),
    ensures
        final(space).objects@ == with_getset(
            old(space).objects@,
            obj,
            W_GetSetProperty { w_objclass: value, ..getset_at(old(space).objects@, obj) },
        ),
        final(space).instantiate@ == old(space).instantiate@,
        is_getset_at(final(space).objects@, obj),
        getset_at(final(space).objects@, obj).w_objclass == value,
{
    let g = W_GetSetProperty { w_objclass: value, ..*getset_ref(space, obj) };
    store_getset(space, obj, g);
}

/// The cached qualified name.
pub fn w_getset_get_qualname(space: &ObjectSpace, obj: PyObjectRef) -> (r: PyObjectRef)
    requires
        is_getset_at(space.objects@, obj),
    ensures
        r == getset_at(space.objects@, obj).w_qualname,
{
    getset_ref(space, obj).w_qualname
}

/// Writes the cached qualified name.
pub fn w_getset_set_qualname(space: &mut ObjectSpace, obj: PyObjectRef, value: PyObjectRef)
    requires
        is_getset_at(old(space).objects@, obj),
    ensures
        final(space).objects@ == with_getset(
            old(space).objects@,
            obj,
            W_GetSetProperty { w_qualname: value, ..getset_at(old(space).objects@, obj) },
        ),
        final(space).instantiate@ == old(space).instantiate@,
        is_getset_at(final(space).objects@, obj),
        getset_at(final(space).objects@, obj).w_qualname == value,
{
    let g = W_GetSetProperty { w_qualname: value, ..*getset_ref(space, obj) };
    store_getset(space, obj, g);
}

/// Whether the callbacks receive the descriptor itself.
pub fn w_getset_get_use_closure(space: &ObjectSpace, obj: PyObjectRef) -> (r: bool)
    requires
        is_getset_at(space.objects@, obj),
    ensures
        r == getset_at(space.objects@, obj).use_closure,
{
    getset_ref(space, obj).use_closure
}

/// Writing a descriptor slot and reading it back gives the written value;
/// the other slots of the descriptor and every other object are unchanged.
pub proof fn law_getset_write_then_read(objects: Seq<HeapObject>, obj: PyObjectRef, g: W_GetSetProperty)
    requires
        is_getset_at(objects, obj),
    ensures
        is_getset_at(with_getset(objects, obj, g), obj),
        getset_at(with_getset(objects, obj, g), obj) == g,
        with_getset(objects, obj, g).len() == objects.len(),
        forall|o: PyObjectRef| #[trigger]
            valid_ref(objects, o) && o != obj ==> object_at(with_getset(objects, obj, g), o)
                == object_at(objects, o),
{
}

/// A new descriptor is a `getset_descriptor` whose slots read back as
/// given, with no owning class and no cached qualified name.
pub proof fn law_new_getset_reads_back(objects: Seq<HeapObject>, g: W_GetSetProperty)
    requires
        objects.len() < usize::MAX,
        g.ob_header.ob_type == spec_getset_descriptor_type(),
    ensures
        ({
            let after = objects.push(HeapObject::GetSetProperty(g));
            let obj = PyObjectRef((objects.len() + 1) as usize);
            &&& is_getset_at(after, obj)
            &&& getset_at(after, obj) == g
            &&& same_type(header(object_at(after, obj)).ob_type, spec_getset_descriptor_type())
        }),
{
}

/// The qualified-name cache of a new descriptor starts empty (null), as
/// does its owning class; once written, the cache reads back the written
/// value.
pub proof fn law_new_getset_caches_empty(
    objects: Seq<HeapObject>,
    reg: Seq<(PyType, PyObjectRef)>,
    fget: PyObjectRef,
    fset: PyObjectRef,
    fdel: PyObjectRef,
    doc: PyObjectRef,
    reqcls: PyObjectRef,
    use_closure: bool,
    name: PyObjectRef,
    qualname: PyObjectRef,
)
    requires
        objects.len() < usize::MAX,
    ensures
        ({
            let after = objects.push(
                HeapObject::GetSetProperty(
                    spec_new_getset(reg, fget, fset, fdel, doc, reqcls, use_closure, name),
                ),
            );
            let obj = PyObjectRef((objects.len() + 1) as usize);
            let written = with_getset(
                after,
                obj,
                W_GetSetProperty { w_qualname: qualname, ..getset_at(after, obj) },
            );
            &&& is_getset_at(after, obj)
            &&& getset_at(after, obj).w_qualname == PyObjectRef(0)
            &&& getset_at(after, obj).w_objclass == PyObjectRef(0)
            &&& is_getset_at(written, obj)
            &&& getset_at(written, obj).w_qualname == qualname
        }),
{
}

/// `is_getset_property` holds of every new descriptor and of no new dict
/// view, whatever their arguments.
pub proof fn law_is_getset_property_by_constructor(
    objects: Seq<HeapObject>,
    reg: Seq<(PyType, PyObjectRef)>,
    fget: PyObjectRef,
    fset: PyObjectRef,
    fdel: PyObjectRef,
    doc: PyObjectRef,
    reqcls: PyObjectRef,
    use_closure: bool,
    name: PyObjectRef,
    w_dict: PyObjectRef,
    kind: DictViewKind,
)
    requires
        objects.len() < usize::MAX,
    ensures
        ({
            let obj = PyObjectRef((objects.len() + 1) as usize);
            let with_getset_obj = objects.push(
                HeapObject::GetSetProperty(
                    spec_new_getset(reg, fget, fset, fdel, doc, reqcls, use_closure, name),
                ),
            );
            let with_view_obj = objects.push(
                HeapObject::DictView(spec_new_view(reg, w_dict, kind)),
            );
            &&& valid_ref(with_getset_obj, obj)
            &&& same_type(
                header(object_at(with_getset_obj, obj)).ob_type,
                spec_getset_descriptor_type(),
            )
            &&& valid_ref(with_view_obj, obj)
            &&& !same_type(
                header(object_at(with_view_obj, obj)).ob_type,
                spec_getset_descriptor_type(),
            )
        }),
{
    law_view_not_getset(kind);
}

/// Each slot of a new descriptor holds the argument given for it, and its
/// class is the type object registered under `getset_descriptor`: the one
/// of the first registry entry with that name, or `PY_NULL` when none has.
pub proof fn law_new_getset_slots_are_arguments(
    reg: Seq<(PyType, PyObjectRef)>,
    fget: PyObjectRef,
    fset: PyObjectRef,
    fdel: PyObjectRef,
    doc: PyObjectRef,
    reqcls: PyObjectRef,
    use_closure: bool,
    name: PyObjectRef,
)
    ensures
        ({
            let g = spec_new_getset(reg, fget, fset, fdel, doc, reqcls, use_closure, name);
            &&& g.fget == fget
            &&& g.fset == fset
            &&& g.fdel == fdel
            &&& g.doc == doc
            &&& g.reqcls == reqcls
            &&& g.name == name
            &&& g.use_closure == use_closure
            &&& g.w_objclass == PyObjectRef(0)
            &&& g.w_qualname == PyObjectRef(0)
            &&& g.ob_header.ob_type.name@ == "getset_descriptor"@
            &&& forall|i: int|
                0 <= i < reg.len() && same_type(#[trigger] reg[i].0, spec_getset_descriptor_type())
                    && (forall|j: int| 0 <= j < i ==> !same_type(reg[j].0, spec_getset_descriptor_type()))
                    ==> g.ob_header.w_class == reg[i].1
            &&& (forall|j: int| 0 <= j < reg.len() ==> !same_type(reg[j].0, spec_getset_descriptor_type()))
                ==> g.ob_header.w_class == PyObjectRef(0)
        }),
{
    assert forall|i: int|
        0 <= i < reg.len() && same_type(#[trigger] reg[i].0, spec_getset_descriptor_type())
            && (forall|j: int| 0 <= j < i ==> !same_type(reg[j].0, spec_getset_descriptor_type()))
            implies spec_instantiate(reg, spec_getset_descriptor_type()) == reg[i].1 by {
        law_instantiate_first_match(reg, spec_getset_descriptor_type(), i);
    }
    law_instantiate_none(reg, spec_getset_descriptor_type());
}

} // verus!
