use majit::dictviewobject::{
    dict_items_type, dict_keys_type, dict_values_type, dict_view_type_for_kind, is_dict_view,
    w_dict_view_get_dict, w_dict_view_get_kind, w_dict_view_new, DictViewKind,
};
use majit::getsetproperty::{
    getset_descriptor_type, is_getset_property, w_getset_get_doc, w_getset_get_fdel,
    w_getset_get_fget, w_getset_get_fset, w_getset_get_name, w_getset_get_objclass,
    w_getset_get_qualname, w_getset_get_reqcls, w_getset_get_use_closure, w_getset_property_new,
    w_getset_set_name, w_getset_set_objclass, w_getset_set_qualname, w_getset_set_reqcls,
};
use majit::pyobject::{py_null, HeapObject, ObjectSpace, PyObject, PyObjectRef};

#[test]
fn view_types_by_kind() {
    assert_eq!(dict_view_type_for_kind(DictViewKind::Keys), dict_keys_type());
    assert_eq!(dict_view_type_for_kind(DictViewKind::Values), dict_values_type());
    assert_eq!(dict_view_type_for_kind(DictViewKind::Items), dict_items_type());
    assert_eq!(dict_keys_type().name, "dict_keys");
    assert_ne!(dict_keys_type(), dict_items_type());
}

#[test]
fn new_view_reads_back() {
    let mut space = ObjectSpace::new(vec![(dict_keys_type(), PyObjectRef(77))]);
    let other = space.malloc_typed(HeapObject::Other(PyObject { ob_type: getset_descriptor_type(), w_class: py_null() }));
    assert_eq!(other, PyObjectRef(1));
    let keys = w_dict_view_new(&mut space, PyObjectRef(3), DictViewKind::Keys);
    let items = w_dict_view_new(&mut space, PyObjectRef(4), DictViewKind::Items);
    assert_eq!(keys, PyObjectRef(2));
    assert_eq!(items, PyObjectRef(3));
    assert_eq!(w_dict_view_get_kind(&space, keys), DictViewKind::Keys);
    assert_eq!(w_dict_view_get_dict(&space, keys), PyObjectRef(3));
    assert_eq!(w_dict_view_get_kind(&space, items), DictViewKind::Items);
    assert_eq!(w_dict_view_get_dict(&space, items), PyObjectRef(4));
    assert!(is_dict_view(&space, keys));
    assert!(is_dict_view(&space, items));
    assert!(!is_dict_view(&space, other));
    assert_eq!(space.header_of(keys).w_class, PyObjectRef(77));
    assert_eq!(space.header_of(items).w_class, py_null());
    assert_eq!(space.header_of(items).ob_type, dict_items_type());
}

#[test]
fn getset_slots_read_back() {
    let mut space = ObjectSpace::new(vec![(getset_descriptor_type(), PyObjectRef(50))]);
    let d = w_getset_property_new(
        &mut space,
        PyObjectRef(11),
        PyObjectRef(12),
        PyObjectRef(13),
        PyObjectRef(14),
        PyObjectRef(15),
        true,
        PyObjectRef(16),
    );
    assert!(is_getset_property(&space, d));
    assert_eq!(w_getset_get_fget(&space, d), PyObjectRef(11));
    assert_eq!(w_getset_get_fset(&space, d), PyObjectRef(12));
    assert_eq!(w_getset_get_fdel(&space, d), PyObjectRef(13));
    assert_eq!(w_getset_get_doc(&space, d), PyObjectRef(14));
    assert_eq!(w_getset_get_reqcls(&space, d), PyObjectRef(15));
    assert!(w_getset_get_use_closure(&space, d));
    assert_eq!(w_getset_get_name(&space, d), PyObjectRef(16));
    assert_eq!(w_getset_get_objclass(&space, d), py_null());
    assert_eq!(w_getset_get_qualname(&space, d), py_null());
    assert_eq!(space.header_of(d).w_class, PyObjectRef(50));
}

#[test]
fn getset_writes_read_back_and_leave_other_slots() {
    let mut space = ObjectSpace::new(vec![]);
    let d = w_getset_property_new(&mut space, PyObjectRef(1), py_null(), py_null(), py_null(), py_null(), false, py_null());
    let v = w_dict_view_new(&mut space, PyObjectRef(9), DictViewKind::Values);
    w_getset_set_name(&mut space, d, PyObjectRef(21));
    w_getset_set_reqcls(&mut space, d, PyObjectRef(22));
    w_getset_set_objclass(&mut space, d, PyObjectRef(23));
    w_getset_set_qualname(&mut space, d, PyObjectRef(24));
    assert_eq!(w_getset_get_name(&space, d), PyObjectRef(21));
    assert_eq!(w_getset_get_reqcls(&space, d), PyObjectRef(22));
    assert_eq!(w_getset_get_objclass(&space, d), PyObjectRef(23));
    assert_eq!(w_getset_get_qualname(&space, d), PyObjectRef(24));
    assert_eq!(w_getset_get_fget(&space, d), PyObjectRef(1));
    assert!(!w_getset_get_use_closure(&space, d));
    assert_eq!(w_dict_view_get_dict(&space, v), PyObjectRef(9));
    assert!(!is_getset_property(&space, v));
}

#[test]
fn new_getset_starts_with_empty_caches() {
    let mut space = ObjectSpace::new(vec![]);
    let d = w_getset_property_new(&mut space, PyObjectRef(5), PyObjectRef(6), py_null(), py_null(), py_null(), true, PyObjectRef(7));
    assert_eq!(w_getset_get_qualname(&space, d), py_null());
    assert_eq!(w_getset_get_objclass(&space, d), py_null());
    w_getset_set_qualname(&mut space, d, PyObjectRef(30));
    assert_eq!(w_getset_get_qualname(&space, d), PyObjectRef(30));
}

#[test]
fn getset_test_tells_descriptors_from_views() {
    let mut space = ObjectSpace::new(vec![]);
    let d = w_getset_property_new(&mut space, py_null(), py_null(), py_null(), py_null(), py_null(), false, py_null());
    let k = w_dict_view_new(&mut space, PyObjectRef(1), DictViewKind::Keys);
    let i = w_dict_view_new(&mut space, PyObjectRef(1), DictViewKind::Items);
    assert!(is_getset_property(&space, d));
    assert!(!is_getset_property(&space, k));
    assert!(!is_getset_property(&space, i));
    assert!(!is_dict_view(&space, d));
}
