//! Python objects of pyre's object space: references, type objects, object
//! headers, and the space that allocates objects and answers type checks.

use crate::dictviewobject::W_DictView;
use crate::getsetproperty::W_GetSetProperty;
use crate::text::str_eq;
use vstd::prelude::*;

verus! {

/// A reference to a Python object: its address, `0` for null.
#[derive(Debug, Clone, Copy, PartialEq, Eq, Structural)]
pub struct PyObjectRef(pub usize);

/// `PY_NULL`: the null object reference.
pub fn py_null() -> (r: PyObjectRef)
    ensures
        r == PyObjectRef(0),
{
    PyObjectRef(0)
}

/// A built-in Python type, known by its name.
#[derive(Debug, Clone, Copy, PartialEq, Eq)]
pub struct PyType {
    pub name: &'static str,
}

/// `new_pytype(name)`.
pub fn new_pytype(name: &'static str) -> (r: PyType)
    ensures
        r == (PyType { name }),
{
    PyType { name }
}

/// Two types are the same type when their names are.
pub open spec fn same_type(a: PyType, b: PyType) -> bool {
    a.name@ == b.name@
}

/// The header every object starts with: its type and the type object it
/// is an instance of.
#[derive(Debug, Clone, Copy, PartialEq, Eq)]
pub struct PyObject {
    pub ob_type: PyType,
    pub w_class: PyObjectRef,
}

/// An object stored in the space.
#[derive(Debug, Clone, Copy, PartialEq, Eq)]
pub enum HeapObject {
    DictView(W_DictView),
    GetSetProperty(W_GetSetProperty),
    /// Any other object, seen through its header.
    Other(PyObject),
}

/// The header of a stored object.
pub open spec fn header(o: HeapObject) -> PyObject {
    match o {
        HeapObject::DictView(v) => v.ob_header,
        HeapObject::GetSetProperty(g) => g.ob_header,
        HeapObject::Other(h) => h,
    }
}

/// pyre's object space: the allocated objects (object `i` has address
/// `i + 1`), and the type object each built-in type instantiates.
pub struct ObjectSpace {
    pub objects: Vec<HeapObject>,
    pub instantiate: Vec<(PyType, PyObjectRef)>,
}

/// Whether `obj` is the address of an allocated object.
pub open spec fn valid_ref(objects: Seq<HeapObject>, obj: PyObjectRef) -> bool {
    1 <= obj.0 <= objects.len()
}

/// The object at a valid address.
pub open spec fn object_at(objects: Seq<HeapObject>, obj: PyObjectRef) -> HeapObject {
    objects[obj.0 - 1]
}

/// The type object registered for `tp` in `reg` (the first one, by name),
/// or `PY_NULL` when none is registered.
pub open spec fn spec_instantiate(reg: Seq<(PyType, PyObjectRef)>, tp: PyType) -> PyObjectRef
    decreases reg.len(),
{
    if reg.len() == 0 {
        PyObjectRef(0)
    } else if same_type(reg[0].0, tp) {
        reg[0].1
    } else {
        spec_instantiate(reg.drop_first(), tp)
    }
}

proof fn lemma_instantiate_step(reg: Seq<(PyType, PyObjectRef)>, tp: PyType, i: int)
    requires
        0 <= i < reg.len(),
        !same_type(reg[i].0, tp),
    ensures
        spec_instantiate(reg.subrange(i, reg.len() as int), tp) == spec_instantiate(
            reg.subrange(i + 1, reg.len() as int),
            tp,
        ),
{
    assert(reg.subrange(i, reg.len() as int).drop_first() =~= reg.subrange(
        i + 1,
        reg.len() as int,
    ));
}

impl ObjectSpace {
    /// An empty space with the given type-object registry.
    pub fn new(instantiate: Vec<(PyType, PyObjectRef)>) -> (r: Self)
        ensures
            r.objects@.len() == 0,
            r.instantiate@ == instantiate@,
    {
        ObjectSpace { objects: Vec::new(), instantiate }
    }

    /// `get_instantiate(tp)`: the type object registered for `tp`, or
    /// `PY_NULL`.
    pub fn get_instantiate(&self, tp: &PyType) -> (r: PyObjectRef)
        ensures
            r == spec_instantiate(self.instantiate@, *tp),
    {
        let n = self.instantiate.len();
        let mut i: usize = 0;
        proof {
            assert(self.instantiate@.subrange(0, n as int) =~= self.instantiate@);
        }
        while i < n
            invariant
                n == self.instantiate@.len(),
                i <= n,
                spec_instantiate(self.instantiate@, *tp) == spec_instantiate(
                    self.instantiate@.subrange(i as int, n as int),
                    *tp,
                ),
            decreases n - i,
        {
            let entry = &self.instantiate[i];
            if str_eq(entry.0.name, tp.name) {
                return entry.1;
            }
            proof {
                lemma_instantiate_step(self.instantiate@, *tp, i as int);
            }
            i = i + 1;
        }
        PyObjectRef(0)
    }

    /// `malloc_typed(obj)`: stores `obj` and returns its address.
    pub fn malloc_typed(&mut self, obj: HeapObject) -> (r: PyObjectRef)
        requires
            old(self).objects@.len() < usize::MAX,
        ensures
            final(self).objects@ == old(self).objects@.push(obj),
            final(self).instantiate@ == old(self).instantiate@,
            r == PyObjectRef((old(self).objects@.len() + 1) as usize),
    {
        self.objects.push(obj);
        PyObjectRef(self.objects.len())
    }

    /// The header of the object at a valid address.
    pub fn header_of(&self, obj: PyObjectRef) -> (r: PyObject)
        requires
            valid_ref(self.objects@, obj),
        ensures
            r == header(object_at(self.objects@, obj)),
    {
        match &self.objects[obj.0 - 1] {
            HeapObject::DictView(v) => v.ob_header,
            HeapObject::GetSetProperty(g) => g.ob_header,
            HeapObject::Other(h) => *h,
        }
    }

    /// `py_type_check(obj, tp)`: whether the object's type is `tp`.
    pub fn py_type_check(&self, obj: PyObjectRef, tp: &PyType) -> (r: bool)
        requires
            valid_ref(self.objects@, obj),
        ensures
            r == same_type(header(object_at(self.objects@, obj)).ob_type, *tp),
    {
        let h = self.header_of(obj);
        str_eq(h.ob_type.name, tp.name)
    }
}

/// `get_instantiate(tp)` gives the type object of the first registry entry
/// whose type has the name of `tp`.
pub proof fn law_instantiate_first_match(reg: Seq<(PyType, PyObjectRef)>, tp: PyType, i: int)
    requires
        0 <= i < reg.len(),
        same_type(reg[i].0, tp),
        forall|j: int| 0 <= j < i ==> !same_type(#[trigger] reg[j].0, tp),
    ensures
        spec_instantiate(reg, tp) == reg[i].1,
    decreases i,
{
    if i > 0 {
        assert(!same_type(reg[0].0, tp));
        let rest = reg.drop_first();
        assert forall|j: int| 0 <= j < i - 1 implies !same_type(#[trigger] rest[j].0, tp) by {
            assert(rest[j] == reg[j + 1]);
        }
        law_instantiate_first_match(rest, tp, i - 1);
    }
}

/// `get_instantiate(tp)` gives `PY_NULL` when no registry entry has the
/// name of `tp`.
pub proof fn law_instantiate_none(reg: Seq<(PyType, PyObjectRef)>, tp: PyType)
    ensures
        (forall|j: int| 0 <= j < reg.len() ==> !same_type(#[trigger] reg[j].0, tp))
            ==> spec_instantiate(reg, tp) == PyObjectRef(0),
    decreases reg.len(),
{
    if reg.len() > 0 && (forall|j: int| 0 <= j < reg.len() ==> !same_type(#[trigger] reg[j].0, tp)) {
        let rest = reg.drop_first();
        assert(!same_type(reg[0].0, tp));
        assert forall|j: int| 0 <= j < rest.len() implies !same_type(#[trigger] rest[j].0, tp) by {
            assert(rest[j] == reg[j + 1]);
        }
        law_instantiate_none(rest, tp);
    }
}

} // verus!
