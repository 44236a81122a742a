//! The CPU of pyre's runtime: the default CPU plus the descriptions of
//! pyre's string objects and the string reads that follow their
//! indirection to the character data.  Python 3 `str` and `unicode` are
//! the same `W_StrObject` (UTF-8), so both string descriptions are one.

use crate::cpu::{
    field_in_memory, field_int_value, spec_getfield_f_bits, spec_getfield_i, spec_getfield_r, spec_typeptr, supported_field_size, ArrayDescr,
    DefaultCpu, FieldDescr, GcRef, Memory, Type, Value,
};
use vstd::prelude::*;
use vstd::string::StrSliceExecFns;

verus! {

/// Where the fields of a `W_StrObject` lie, and its GC identity.
#[derive(Debug, Clone, Copy, PartialEq, Eq, Structural)]
pub struct StrObjectLayout {
    /// Offset of the cached length field (`usize`).
    pub len_offset: usize,
    /// Offset of the pointer to the character data.  The string reads take
    /// a `W_StrObject` whose pointer the caller has already followed, so
    /// they do not read this offset.
    pub value_offset: usize,
    /// Size of the whole object.
    pub object_size: usize,
    /// The GC type id of string objects.
    pub gc_type_id: u32,
}

/// The description of `W_StrObject.len`: an 8-byte signed integer field.
#[derive(Debug, Clone, Copy, PartialEq, Eq, Structural)]
pub struct PyreStrLenFieldDescr {
    pub layout: StrObjectLayout,
}

impl FieldDescr for PyreStrLenFieldDescr {
    open spec fn spec_offset(&self) -> usize {
        self.layout.len_offset
    }

    open spec fn spec_field_size(&self) -> usize {
        8
    }

    open spec fn spec_is_field_signed(&self) -> bool {
        true
    }

    fn offset(&self) -> (r: usize) {
        self.layout.len_offset
    }

    fn field_size(&self) -> (r: usize) {
        8
    }

    fn field_type(&self) -> (r: Type)
        ensures
            r == Type::Int,
    {
        Type::Int
    }

    fn is_field_signed(&self) -> (r: bool) {
        true
    }

    fn field_name(&self) -> (r: &'static str)
        ensures
            r == "W_StrObject.len",
    {
        "W_StrObject.len"
    }
}

/// The array description of `W_StrObject`: one-byte unsigned items after
/// the object header, with the string GC type id.
#[derive(Debug, Clone, Copy, PartialEq, Eq, Structural)]
pub struct PyreStrDescr {
    pub layout: StrObjectLayout,
}

impl ArrayDescr for PyreStrDescr {
    fn base_size(&self) -> (r: usize)
        ensures
            r == self.layout.object_size,
    {
        self.layout.object_size
    }

    fn item_size(&self) -> (r: usize)
        ensures
            r == 1,
    {
        1
    }

    fn type_id(&self) -> (r: u32)
        ensures
            r == self.layout.gc_type_id,
    {
        self.layout.gc_type_id
    }

    fn item_type(&self) -> (r: Type)
        ensures
            r == Type::Int,
    {
        Type::Int
    }

    fn is_item_signed(&self) -> (r: bool)
        ensures
            !r,
    {
        false
    }
}

impl PyreStrDescr {
    /// The description of the length field.
    pub fn len_descr(&self) -> (r: Option<PyreStrLenFieldDescr>)
        ensures
            r == Some(PyreStrLenFieldDescr { layout: self.layout }),
    {
        Some(PyreStrLenFieldDescr { layout: self.layout })
    }
}

/// A `W_StrObject` as the string reads see it: the character data its
/// value pointer points to, `None` for a null pointer.
#[derive(Debug)]
#[allow(non_camel_case_types)]
pub struct W_StrObject {
    pub value: Option<String>,
}

/// The UTF-8 bytes of a string object's data, when it has data.
pub open spec fn str_data(string: Option<&W_StrObject>) -> Option<Seq<char>> {
    match string {
        Some(s) => match &s.value {
            Some(v) => Some(v@),
            None => None,
        },
        None => None,
    }
}

/// `bh_strlen`: the byte length of the data.
pub open spec fn spec_strlen(string: Option<&W_StrObject>) -> Option<i64> {
    match str_data(string) {
        Some(chars) => Some(vstd::utf8::encode_utf8(chars).len() as i64),
        None => None,
    }
}

/// `index as usize`: the index taken modulo `usize::MAX + 1`, as Rust's
/// integer cast wraps it (a negative index becomes a large one).
pub open spec fn wrapped_index(index: i64) -> int {
    index as int % (usize::MAX as int + 1)
}

/// `index as usize`, computed without a cast that could wrap.
fn wrap_index(index: i64) -> (r: usize)
    ensures
        r as int == wrapped_index(index),
{
    let m: u128 = usize::MAX as u128 + 1;
    let w: u128 = if index >= 0 {
        (index as u128) % m
    } else {
        let a: u128 = (0i128 - index as i128) as u128;
        let ra: u128 = a % m;
        proof {
            let q = a as int / m as int;
            vstd::arithmetic::div_mod::lemma_fundamental_div_mod(a as int, m as int);
            if ra == 0 {
                assert(index as int == (-q) * m as int + 0) by (nonlinear_arith)
                    requires
                        a as int == m as int * q + ra as int,
                        ra == 0,
                        index as int == -(a as int),
                ;
                vstd::arithmetic::div_mod::lemma_fundamental_div_mod_converse(
                    index as int,
                    m as int,
                    -q,
                    0,
                );
            } else {
                assert(index as int == (-q - 1) * m as int + (m - ra) as int) by (nonlinear_arith)
                    requires
                        a as int == m as int * q + ra as int,
                        index as int == -(a as int),
                ;
                vstd::arithmetic::div_mod::lemma_fundamental_div_mod_converse(
                    index as int,
                    m as int,
                    -q - 1,
                    (m - ra) as int,
                );
            }
        }
        if ra == 0 {
            0
        } else {
            m - ra
        }
    };
    w as usize
}

/// `bh_strgetitem`: the byte at `index` of the data.
pub open spec fn spec_strgetitem(string: Option<&W_StrObject>, index: i64) -> Option<i64> {
    match str_data(string) {
        Some(chars) => {
            let bytes = vstd::utf8::encode_utf8(chars);
            let i = wrapped_index(index);
            if i < bytes.len() {
                Some(bytes[i] as i64)
            } else {
                None
            }
        },
        None => None,
    }
}

/// `bh_unicodegetitem`: the code point of the character at `index`.
pub open spec fn spec_unicodegetitem(unicode: Option<&W_StrObject>, index: i64) -> Option<i64> {
    match str_data(unicode) {
        Some(chars) => {
            let i = wrapped_index(index);
            if i < chars.len() {
                Some(chars[i] as u32 as i64)
            } else {
                None
            }
        },
        None => None,
    }
}

/// The CPU of pyre's runtime.
#[derive(Debug, Clone, Copy)]
pub struct PyreCpu {
    pub default: DefaultCpu,
    pub layout: StrObjectLayout,
}

impl PyreCpu {
    /// The CPU for strings laid out as `layout`.
    pub fn new(layout: StrObjectLayout) -> (r: Self)
        ensures
            r.layout == layout,
    {
        PyreCpu { default: DefaultCpu, layout }
    }

    /// As `DefaultCpu::cls_of_box`.
    pub fn cls_of_box(&self, mem: &Memory, const_value: Option<Value>) -> (r: i64)
        requires
            const_value matches Some(Value::Ref(g)) ==> (g.0 == 0 || g.0 + 8 <= mem.bytes@.len()),
        ensures
            r == (match const_value {
                Some(Value::Ref(g)) => if g.0 == 0 {
                    0
                } else {
                    spec_typeptr(mem.bytes@, g.0)
                },
                _ => 0,
            }),
            const_value matches Some(Value::Ref(g)) ==> (g.0 == 0 || r == field_int_value(
                mem.bytes@.subrange(g.0 as int, g.0 + 8),
                true,
            )),
    {
        self.default.cls_of_box(mem, const_value)
    }

    /// As `DefaultCpu::cls_of_gcref`.
    pub fn cls_of_gcref(&self, mem: &Memory, gcref: GcRef) -> (r: i64)
        requires
            gcref.0 == 0 || gcref.0 + 8 <= mem.bytes@.len(),
        ensures
            r == (if gcref.0 == 0 {
                0
            } else {
                spec_typeptr(mem.bytes@, gcref.0)
            }),
            gcref.0 != 0 ==> r == field_int_value(
                mem.bytes@.subrange(gcref.0 as int, gcref.0 + 8),
                true,
            ),
    {
        self.default.cls_of_gcref(mem, gcref)
    }

    /// As `DefaultCpu::bh_getfield_gc_i`.
    pub fn bh_getfield_gc_i<D: FieldDescr>(&self, mem: &Memory, struct_ptr: usize, fd: &D) -> (r:
        i64)
        requires
            field_in_memory(mem.bytes@, struct_ptr, *fd),
            supported_field_size(fd.spec_field_size()),
        ensures
            r == spec_getfield_i(mem.bytes@, struct_ptr, *fd),
    {
        self.default.bh_getfield_gc_i(mem, struct_ptr, fd)
    }

    /// As `DefaultCpu::bh_getfield_gc_r`.
    pub fn bh_getfield_gc_r<D: FieldDescr>(&self, mem: &Memory, struct_ptr: usize, fd: &D) -> (r:
        GcRef)
        requires
            struct_ptr + fd.spec_offset() + 8 <= mem.bytes@.len(),
        ensures
            r.0 == spec_getfield_r(mem.bytes@, struct_ptr, *fd),
    {
        self.default.bh_getfield_gc_r(mem, struct_ptr, fd)
    }

    /// As `DefaultCpu::bh_getfield_gc_f_bits`.
    pub fn bh_getfield_gc_f_bits<D: FieldDescr>(&self, mem: &Memory, struct_ptr: usize, fd: &D) -> (r:
        u64)
        requires
            struct_ptr + fd.spec_offset() + 8 <= mem.bytes@.len(),
        ensures
            r == spec_getfield_f_bits(mem.bytes@, struct_ptr, *fd),
    {
        self.default.bh_getfield_gc_f_bits(mem, struct_ptr, fd)
    }

    /// The description of `str` objects.
    pub fn str_descr(&self) -> (r: Option<PyreStrDescr>)
        ensures
            r == Some(PyreStrDescr { layout: self.layout }),
    {
        Some(PyreStrDescr { layout: self.layout })
    }

    /// The description of `unicode` objects: the same as for `str`.
    pub fn unicode_descr(&self) -> (r: Option<PyreStrDescr>)
        ensures
            r == Some(PyreStrDescr { layout: self.layout }),
    {
        Some(PyreStrDescr { layout: self.layout })
    }

    /// `bh_strlen`: the length of the string in UTF-8 bytes (not in
    /// characters); `None` for a null string or null data.
    pub fn bh_strlen(&self, string: Option<&W_StrObject>) -> (r: Option<i64>)
        ensures
            r == spec_strlen(string),
    {
        let s = match string {
            Some(obj) => match &obj.value {
                Some(v) => v,
                None => {
                    return None;
                },
            },
            None => {
                return None;
            },
        };
        let n = s.as_str().as_bytes().len();
        Some(#[verifier::truncate] (n as i64))
    }

    /// `bh_strgetitem`: the UTF-8 byte at `index`; `None` for a null string,
    /// null data, or an index past the end.  The index is cast to `usize`
    /// first, so a negative one wraps.
    pub fn bh_strgetitem(&self, string: Option<&W_StrObject>, index: i64) -> (r: Option<i64>)
        ensures
            r == spec_strgetitem(string, index),
    {
        let s = match string {
            Some(obj) => match &obj.value {
                Some(v) => v,
                None => {
                    return None;
                },
            },
            None => {
                return None;
            },
        };
        let bytes = s.as_str().as_bytes();
        let i = wrap_index(index);
        if i >= bytes.len() {
            return None;
        }
        Some(bytes[i] as i64)
    }

    /// `bh_unicodegetitem`: the code point of the character at `index`;
    /// `None` for a null string, null data, or an index past the end.  The
    /// index is cast to `usize` first, so a negative one wraps.
    pub fn bh_unicodegetitem(&self, unicode: Option<&W_StrObject>, index: i64) -> (r: Option<i64>)
        ensures
            r == spec_unicodegetitem(unicode, index),
    {
        let s = match unicode {
            Some(obj) => match &obj.value {
                Some(v) => v,
                None => {
                    return None;
                },
            },
            None => {
                return None;
            },
        };
        let text = s.as_str();
        let i = wrap_index(index);
        if i >= text.unicode_len() {
            return None;
        }
        let c = text.get_char(i);
        Some(c as u32 as i64)
    }
}

/// `bh_strgetitem` reads a byte: its result is in `[0, 256)`.
pub proof fn law_strgetitem_is_byte(string: Option<&W_StrObject>, index: i64)
    ensures
        spec_strgetitem(string, index) matches Some(b) ==> 0 <= b < 256,
{
}

proof fn lemma_wrapped_index(index: i64)
    ensures
        0 <= index <= usize::MAX ==> wrapped_index(index) == index,
        (index < 0 && -(usize::MAX as int + 1) <= index) ==> wrapped_index(index) == index
            + usize::MAX + 1,
{
    if 0 <= index <= usize::MAX {
        vstd::arithmetic::div_mod::lemma_fundamental_div_mod_converse(
            index as int,
            usize::MAX as int + 1,
            0,
            index as int,
        );
    } else if index < 0 && -(usize::MAX as int + 1) <= index {
        vstd::arithmetic::div_mod::lemma_fundamental_div_mod_converse(
            index as int,
            usize::MAX as int + 1,
            -1,
            index + usize::MAX + 1,
        );
    }
}

/// Where a negative index can wrap to: past `isize::MAX`, the most bytes a
/// string can hold, for an index from `i32::MIN` up on every target and
/// for every negative index on a 64-bit target.
proof fn lemma_negative_index_wraps_far(index: i64)
    requires
        index < 0,
        i32::MIN <= index || usize::MAX == u64::MAX,
    ensures
        wrapped_index(index) > isize::MAX,
{
    assert(usize::MAX == 0xffff_ffff || usize::MAX == 0xffff_ffff_ffff_ffff);
    assert(usize::MAX == 0xffff_ffff ==> isize::MAX == 0x7fff_ffff);
    assert(usize::MAX == 0xffff_ffff_ffff_ffff ==> isize::MAX == 0x7fff_ffff_ffff_ffff);
    lemma_wrapped_index(index);
}

/// `bh_strgetitem` gives a byte exactly when the index lies in
/// `[0, bh_strlen)`, for every index on a 64-bit target and for every
/// index from `i32::MIN` to `usize::MAX` on any target (on a 32-bit one a
/// cast can wrap other indexes into the string).
pub proof fn law_strgetitem_within_strlen(string: Option<&W_StrObject>, index: i64)
    requires
        (i32::MIN <= index <= usize::MAX) || usize::MAX == u64::MAX,
        str_data(string) matches Some(chars) ==> vstd::utf8::encode_utf8(chars).len()
            <= isize::MAX,
    ensures
        spec_strgetitem(string, index) is Some <==> (spec_strlen(string) matches Some(n) && 0
            <= index < n),
{
    lemma_wrapped_index(index);
    if index < 0 {
        lemma_negative_index_wraps_far(index);
    }
}

/// `bh_unicodegetitem` reads a Unicode scalar value: a code point up to
/// `0x10FFFF` that is not a surrogate.
pub proof fn law_unicodegetitem_is_scalar(unicode: Option<&W_StrObject>, index: i64)
    ensures
        spec_unicodegetitem(unicode, index) matches Some(c) ==> (0 <= c <= 0x10FFFF && !(
        0xD800 <= c <= 0xDFFF)),
{
    if let Some(chars) = str_data(unicode) {
        let i = wrapped_index(index);
        if 0 <= i < chars.len() {
            vstd::utf8::char_is_scalar(chars[i]);
        }
    }
}

/// `bh_unicodegetitem` gives a code point exactly when the index lies in
/// `[0, n)` for the number `n` of characters, which is at most
/// `bh_strlen`; for the same indexes as `bh_strgetitem`.
pub proof fn law_unicode_index_within_chars(unicode: Option<&W_StrObject>, index: i64)
    requires
        (i32::MIN <= index <= usize::MAX) || usize::MAX == u64::MAX,
        str_data(unicode) matches Some(chars) ==> vstd::utf8::encode_utf8(chars).len()
            <= isize::MAX,
    ensures
        spec_unicodegetitem(unicode, index) is Some <==> (str_data(unicode) matches Some(chars)
            && 0 <= index < chars.len()),
        str_data(unicode) matches Some(chars) ==> chars.len() <= vstd::utf8::encode_utf8(
            chars,
        ).len(),
{
    lemma_wrapped_index(index);
    if index < 0 {
        lemma_negative_index_wraps_far(index);
    }
    if let Some(chars) = str_data(unicode) {
        lemma_chars_at_most_bytes(chars);
    }
}

proof fn lemma_chars_at_most_bytes(chars: Seq<char>)
    ensures
        chars.len() <= vstd::utf8::encode_utf8(chars).len(),
        (forall|i: int| 0 <= i < chars.len() ==> (#[trigger] chars[i]) as u32 <= 0x7F)
            ==> vstd::utf8::encode_utf8(chars).len() == chars.len(),
        (exists|i: int| 0 <= i < chars.len() && (#[trigger] chars[i]) as u32 > 0x7F)
            ==> chars.len() < vstd::utf8::encode_utf8(chars).len(),
    decreases chars.len(),
{
    if chars.len() > 0 {
        let rest = chars.drop_first();
        lemma_chars_at_most_bytes(rest);
        assert(vstd::utf8::encode_scalar(chars[0] as u32).len() >= 1) by {
            vstd::utf8::char_is_scalar(chars[0]);
        }
        assert(chars[0] as u32 > 0x7F ==> vstd::utf8::encode_scalar(chars[0] as u32).len() >= 2);
        assert(chars[0] as u32 <= 0x7F ==> vstd::utf8::encode_scalar(chars[0] as u32).len() == 1);
        if forall|i: int| 0 <= i < chars.len() ==> (#[trigger] chars[i]) as u32 <= 0x7F {
            assert forall|i: int| 0 <= i < rest.len() implies (#[trigger] rest[i]) as u32 <= 0x7F by {
                assert(rest[i] == chars[i + 1]);
            }
        }
        if exists|i: int| 0 <= i < chars.len() && (#[trigger] chars[i]) as u32 > 0x7F {
            let i = choose|i: int| 0 <= i < chars.len() && (#[trigger] chars[i]) as u32 > 0x7F;
            if i > 0 {
                assert(rest[i - 1] == chars[i]);
            }
        }
    }
}

/// `bh_strlen` counts bytes, not characters: it equals the number of
/// characters when every character is ASCII, and exceeds it as soon as one
/// is not.
pub proof fn law_strlen_counts_utf8_bytes(string: Option<&W_StrObject>)
    requires
        str_data(string) matches Some(chars) ==> vstd::utf8::encode_utf8(chars).len()
            <= i64::MAX,
    ensures
        spec_strlen(string) is Some <==> str_data(string) is Some,
        str_data(string) matches Some(chars) ==> ({
            let n = spec_strlen(string)->0;
            &&& chars.len() <= n
            &&& (forall|i: int| 0 <= i < chars.len() ==> (#[trigger] chars[i]) as u32 <= 0x7F)
                ==> n == chars.len()
            &&& (exists|i: int| 0 <= i < chars.len() && (#[trigger] chars[i]) as u32 > 0x7F)
                ==> chars.len() < n
        }),
{
    if let Some(chars) = str_data(string) {
        lemma_chars_at_most_bytes(chars);
    }
}

} // verus!
