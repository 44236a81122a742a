use majit::cpu::{cpu_from_cls_of_box_fn, default_cpu, GcRef, Memory, SimpleFieldDescr, Type, Value};
use majit::pyre_cpu::{PyreCpu, StrObjectLayout, W_StrObject};
use majit::cpu::{ArrayDescr, FieldDescr};

fn field(offset: usize, size: usize, signed: bool) -> SimpleFieldDescr {
    SimpleFieldDescr { offset, field_size: size, field_type: Type::Int, is_field_signed: signed, field_name: "f" }
}

fn memory() -> Memory {
    // object at address 8: first word is the class pointer 0x1234,
    // then the bytes ff ff ff ff ff ff ff ff.
    let mut bytes = vec![0u8; 8];
    bytes.extend_from_slice(&0x1234u64.to_le_bytes());
    bytes.extend_from_slice(&[0xff; 8]);
    bytes.extend_from_slice(&[0x80, 0x00, 0x00, 0x00]);
    Memory { bytes }
}

#[test]
fn getfield_widths_and_signs() {
    let cpu = default_cpu();
    let mem = memory();
    assert_eq!(cpu.bh_getfield_gc_i(&mem, 8, &field(8, 1, true)), -1);
    assert_eq!(cpu.bh_getfield_gc_i(&mem, 8, &field(8, 1, false)), 255);
    assert_eq!(cpu.bh_getfield_gc_i(&mem, 8, &field(8, 2, true)), -1);
    assert_eq!(cpu.bh_getfield_gc_i(&mem, 8, &field(8, 2, false)), 65535);
    assert_eq!(cpu.bh_getfield_gc_i(&mem, 8, &field(8, 4, false)), 4294967295);
    assert_eq!(cpu.bh_getfield_gc_i(&mem, 8, &field(8, 8, false)), -1);
    assert_eq!(cpu.bh_getfield_gc_i(&mem, 8, &field(8, 8, true)), -1);
    assert_eq!(cpu.bh_getfield_gc_i(&mem, 8, &field(0, 8, true)), 0x1234);
    assert_eq!(cpu.bh_getfield_gc_i(&mem, 8, &field(16, 1, true)), -128);
    assert_eq!(cpu.bh_getfield_gc_i(&mem, 8, &field(16, 4, true)), 128);
    assert_eq!(cpu.bh_getfield_gc_r(&mem, 8, &field(0, 8, false)), GcRef(0x1234));
    assert_eq!(cpu.bh_getfield_gc_f_bits(&mem, 8, &field(8, 8, false)), u64::MAX);
}

#[test]
fn class_of_box() {
    let cpu = default_cpu();
    let mem = memory();
    assert_eq!(cpu.cls_of_box(&mem, Some(Value::Ref(GcRef(8)))), 0x1234);
    assert_eq!(cpu.cls_of_box(&mem, Some(Value::Ref(GcRef(0)))), 0);
    assert_eq!(cpu.cls_of_box(&mem, Some(Value::Int(8))), 0);
    assert_eq!(cpu.cls_of_box(&mem, None), 0);
    assert_eq!(cpu.cls_of_gcref(&mem, GcRef(8)), 0x1234);
}

#[test]
fn closure_cpu_gets_raw_reference() {
    let cpu = cpu_from_cls_of_box_fn(|raw: i64| raw * 10);
    assert_eq!(cpu.cls_of_box(Some(Value::Ref(GcRef(5)))), 50);
    assert_eq!(cpu.cls_of_box(Some(Value::Ref(GcRef(0)))), 0);
    assert_eq!(cpu.cls_of_box(Some(Value::Int(7))), 0);
    assert_eq!(cpu.bh_getfield_gc_i(&memory(), 8, &field(8, 1, false)), 255);
}

#[test]
fn closure_cpu_gives_zero_without_a_nonnull_reference() {
    let cpu = cpu_from_cls_of_box_fn(|raw: i64| raw + 1);
    assert_eq!(cpu.cls_of_box(None), 0);
    assert_eq!(cpu.cls_of_box(Some(Value::Int(7))), 0);
    assert_eq!(cpu.cls_of_box(Some(Value::Ref(GcRef(0)))), 0);
    assert_eq!(cpu.cls_of_box(Some(Value::Ref(GcRef(4)))), 5);
}

fn pyre() -> PyreCpu {
    PyreCpu::new(StrObjectLayout { len_offset: 24, value_offset: 16, object_size: 32, gc_type_id: 7 })
}

#[test]
fn strlen_counts_utf8_bytes() {
    let cpu = pyre();
    let s = W_StrObject { value: Some("é".to_string()) };
    assert_eq!(cpu.bh_strlen(Some(&s)), Some(2));
    let ascii = W_StrObject { value: Some("abc".to_string()) };
    assert_eq!(cpu.bh_strlen(Some(&ascii)), Some(3));
    assert_eq!(cpu.bh_strlen(None), None);
    assert_eq!(cpu.bh_strlen(Some(&W_StrObject { value: None })), None);
}

#[test]
fn strgetitem_reads_bytes() {
    let cpu = pyre();
    let s = W_StrObject { value: Some("é".to_string()) };
    assert_eq!(cpu.bh_strgetitem(Some(&s), 0), Some(195));
    assert_eq!(cpu.bh_strgetitem(Some(&s), 1), Some(169));
    assert_eq!(cpu.bh_strgetitem(Some(&s), 2), None);
    assert_eq!(cpu.bh_strgetitem(Some(&s), -1), None);
    assert_eq!(cpu.bh_strgetitem(Some(&s), i64::MIN), None);
    assert_eq!(cpu.bh_strgetitem(Some(&s), -(1i64 << 32)), None);
    assert_eq!(cpu.bh_strgetitem(None, 0), None);
    assert_eq!(cpu.bh_strgetitem(Some(&W_StrObject { value: None }), 0), None);
}

#[test]
fn unicodegetitem_reads_code_points() {
    let cpu = pyre();
    let s = W_StrObject { value: Some("aé€".to_string()) };
    assert_eq!(cpu.bh_unicodegetitem(Some(&s), 0), Some(97));
    assert_eq!(cpu.bh_unicodegetitem(Some(&s), 1), Some(0xe9));
    assert_eq!(cpu.bh_unicodegetitem(Some(&s), 2), Some(0x20ac));
    assert_eq!(cpu.bh_unicodegetitem(Some(&s), 3), None);
    assert_eq!(cpu.bh_unicodegetitem(Some(&s), -1), None);
    assert_eq!(cpu.bh_unicodegetitem(None, 0), None);
}

#[test]
fn str_and_unicode_share_one_descr() {
    let cpu = pyre();
    let d = cpu.str_descr().unwrap();
    assert_eq!(cpu.unicode_descr(), Some(d));
    assert_eq!(d.base_size(), 32);
    assert_eq!(d.item_size(), 1);
    assert_eq!(d.type_id(), 7);
    assert!(!d.is_item_signed());
    let len = d.len_descr().unwrap();
    assert_eq!(len.offset(), 24);
    assert_eq!(len.field_size(), 8);
    assert!(len.is_field_signed());
    assert_eq!(len.field_name(), "W_StrObject.len");
}

#[test]
fn pyre_cpu_reads_fields_like_default() {
    let cpu = pyre();
    let mem = memory();
    assert_eq!(cpu.cls_of_box(&mem, Some(Value::Ref(GcRef(8)))), 0x1234);
    assert_eq!(cpu.cls_of_gcref(&mem, GcRef(0)), 0);
    assert_eq!(cpu.bh_getfield_gc_i(&mem, 8, &field(8, 2, false)), 65535);
}
