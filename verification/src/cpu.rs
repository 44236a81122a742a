//! The backend CPU services the optimizer reaches: the class of a boxed
//! object and field reads, over a byte-addressed little-endian model of
//! memory.

use vstd::prelude::*;

verus! {

/// A reference to a GC object: its address, `0` for null.
#[derive(Debug, Clone, Copy, PartialEq, Eq, Structural)]
pub struct GcRef(pub usize);

impl GcRef {
    /// Whether this is the null reference.
    pub fn is_null(&self) -> (r: bool)
        ensures
            r == (self.0 == 0),
    {
        self.0 == 0
    }
}

/// A constant a box may hold.  Floats are held by their bit pattern.
#[derive(Debug, Clone, Copy, PartialEq, Eq, Structural)]
pub enum Value {
    Int(i64),
    FloatBits(u64),
    Ref(GcRef),
    Void,
}

/// The kind of a field or array item.
#[derive(Debug, Clone, Copy, PartialEq, Eq, Structural)]
pub enum Type {
    Int,
    Ref,
    Float,
    Void,
}

/// Memory as bytes; an address is an index into `bytes`.
pub struct Memory {
    pub bytes: Vec<u8>,
}

/// The description of a field of a GC struct: where it is and how to read
/// it.
pub trait FieldDescr {
    spec fn spec_offset(&self) -> usize;

    spec fn spec_field_size(&self) -> usize;

    spec fn spec_is_field_signed(&self) -> bool;

    /// Offset of the field from the start of the struct.
    fn offset(&self) -> (r: usize)
        ensures
            r == self.spec_offset(),
    ;

    /// Size of the field in bytes.
    fn field_size(&self) -> (r: usize)
        ensures
            r == self.spec_field_size(),
    ;

    /// The kind of value the field holds.
    fn field_type(&self) -> Type;

    /// Whether an integer field is signed.
    fn is_field_signed(&self) -> (r: bool)
        ensures
            r == self.spec_is_field_signed(),
    ;

    /// The name of the field, for diagnostics.
    fn field_name(&self) -> &'static str;
}

/// The description of an array-like GC object.
pub trait ArrayDescr {
    /// Size of the object header before the items.
    fn base_size(&self) -> usize;

    /// Size of one item in bytes.
    fn item_size(&self) -> usize;

    /// The GC type id of the objects.
    fn type_id(&self) -> u32;

    /// The kind of the items.
    fn item_type(&self) -> Type;

    /// Whether integer items are signed.
    fn is_item_signed(&self) -> bool;
}

/// A field description given by plain values.
#[derive(Debug, Clone, Copy, PartialEq, Eq)]
pub struct SimpleFieldDescr {
    pub offset: usize,
    pub field_size: usize,
    pub field_type: Type,
    pub is_field_signed: bool,
    pub field_name: &'static str,
}

impl FieldDescr for SimpleFieldDescr {
    open spec fn spec_offset(&self) -> usize {
        self.offset
    }

    open spec fn spec_field_size(&self) -> usize {
        self.field_size
    }

    open spec fn spec_is_field_signed(&self) -> bool {
        self.is_field_signed
    }

    fn offset(&self) -> (r: usize) {
        self.offset
    }

    fn field_size(&self) -> (r: usize) {
        self.field_size
    }

    fn field_type(&self) -> (r: Type)
        ensures
            r == self.field_type,
    {
        self.field_type
    }

    fn is_field_signed(&self) -> (r: bool) {
        self.is_field_signed
    }

    fn field_name(&self) -> (r: &'static str)
        ensures
            r == self.field_name,
    {
        self.field_name
    }
}

/// `256^n`.
pub open spec fn pow256(n: nat) -> nat
    decreases n,
{
    if n == 0 {
        1
    } else {
        256 * pow256((n - 1) as nat)
    }
}

/// The unsigned value of bytes read in little-endian order.
pub open spec fn le_value(s: Seq<u8>) -> nat
    decreases s.len(),
{
    if s.len() == 0 {
        0
    } else {
        s[0] as nat + 256 * le_value(s.drop_first())
    }
}

/// The integer a field of `bytes.len()` bytes holds, as `read_int_at_mem`
/// gives it: signed fields in two's complement; unsigned fields as they
/// are, except that an 8-byte unsigned value is reinterpreted as an `i64`.
pub open spec fn field_int_value(bytes: Seq<u8>, signed: bool) -> int {
    let u = le_value(bytes);
    let m = pow256(bytes.len());
    if (signed || bytes.len() == 8) && u >= m / 2 {
        u - m
    } else {
        u as int
    }
}

/// The field sizes `read_int_at_mem` supports.
pub open spec fn supported_field_size(size: usize) -> bool {
    size == 1 || size == 2 || size == 4 || size == 8
}

/// The bytes of the field of `fd` in the struct at `struct_ptr`.
pub open spec fn field_bytes<D: FieldDescr>(mem: Seq<u8>, struct_ptr: usize, fd: D) -> Seq<u8> {
    mem.subrange(
        struct_ptr + fd.spec_offset(),
        struct_ptr + fd.spec_offset() + fd.spec_field_size(),
    )
}

/// The integer `bh_getfield_gc_i` reads from the field of `fd` in the
/// struct at `struct_ptr`, with the field's width and signedness.
pub open spec fn spec_getfield_i<D: FieldDescr>(mem: Seq<u8>, struct_ptr: usize, fd: D) -> int {
    field_int_value(field_bytes(mem, struct_ptr, fd), fd.spec_is_field_signed())
}

/// The reference `bh_getfield_gc_r` reads from the pointer-sized field of
/// `fd` in the struct at `struct_ptr`.
pub open spec fn spec_getfield_r<D: FieldDescr>(mem: Seq<u8>, struct_ptr: usize, fd: D) -> usize {
    le_value(mem.subrange(struct_ptr + fd.spec_offset(), struct_ptr + fd.spec_offset() + 8)) as usize
}

/// The 64 bits `bh_getfield_gc_f_bits` reads from the float field of `fd`
/// in the struct at `struct_ptr`.
pub open spec fn spec_getfield_f_bits<D: FieldDescr>(mem: Seq<u8>, struct_ptr: usize, fd: D) -> nat {
    le_value(mem.subrange(struct_ptr + fd.spec_offset(), struct_ptr + fd.spec_offset() + 8))
}

/// Whether the field of `fd` in the struct at `struct_ptr` lies in memory.
pub open spec fn field_in_memory<D: FieldDescr>(mem: Seq<u8>, struct_ptr: usize, fd: D) -> bool {
    struct_ptr + fd.spec_offset() + fd.spec_field_size() <= mem.len()
}

proof fn lemma_pow256_values()
    ensures
        pow256(1) == 256,
        pow256(2) == 65536,
        pow256(4) == 4294967296,
        pow256(8) == 18446744073709551616,
{
    reveal_with_fuel(pow256, 9);
}

proof fn lemma_pow256_monotone(a: nat, b: nat)
    requires
        a <= b,
    ensures
        pow256(a) <= pow256(b),
    decreases b,
{
    if a < b {
        lemma_pow256_monotone(a, (b - 1) as nat);
    }
}

proof fn lemma_le_value_step(s: Seq<u8>, k: int, n: int)
    requires
        1 <= k <= n <= s.len(),
    ensures
        le_value(s.subrange(k - 1, n)) == s[k - 1] as nat + 256 * le_value(s.subrange(k, n)),
{
    assert(s.subrange(k - 1, n).drop_first() =~= s.subrange(k, n));
}

/// The unsigned little-endian value of the `size` bytes at `addr`.
fn read_le(mem: &Vec<u8>, addr: usize, size: usize) -> (r: u64)
    requires
        addr + size <= mem@.len(),
        size <= 8,
    ensures
        r == le_value(mem@.subrange(addr as int, addr + size)),
        r < pow256(size as nat),
{
    let len = mem.len();
    let mut v: u64 = 0;
    let mut i: usize = size;
    proof {
        assert(mem@.subrange(addr + size, addr + size).len() == 0);
    }
    while i > 0
        invariant
            i <= size <= 8,
            addr + size <= mem@.len(),
            mem@.len() == len,
            v == le_value(mem@.subrange(addr + i, addr + size)),
            v < pow256((size - i) as nat),
        decreases i,
    {
        let b = mem[addr + i - 1];
        proof {
            lemma_le_value_step(mem@, addr + i, addr + size);
            let m = pow256((size - i) as nat);
            assert(pow256((size - i + 1) as nat) == 256 * m);
            lemma_pow256_monotone((size - i + 1) as nat, 8);
            lemma_pow256_values();
            assert(v * 256 + b < 256 * m) by (nonlinear_arith)
                requires
                    v < m,
                    b < 256,
            ;
        }
        v = v * 256 + b as u64;
        i = i - 1;
    }
    v
}

/// `read_int_at_mem`: the integer held by the `size` bytes at `addr`.
fn read_int(mem: &Vec<u8>, addr: usize, size: usize, signed: bool) -> (r: i64)
    requires
        addr + size <= mem@.len(),
        supported_field_size(size),
    ensures
        r == field_int_value(mem@.subrange(addr as int, addr + size), signed),
{
    let u = read_le(mem, addr, size);
    proof {
        lemma_pow256_values();
    }
    let m: i128 = if size == 1 {
        256
    } else if size == 2 {
        65536
    } else if size == 4 {
        4294967296
    } else {
        18446744073709551616
    };
    let ui = u as i128;
    if (signed || size == 8) && ui >= m / 2 {
        (ui - m) as i64
    } else {
        ui as i64
    }
}

/// The reference a box's constant holds, when it is a non-null reference.
pub open spec fn nonnull_ref(v: Option<Value>) -> Option<GcRef> {
    match v {
        Some(Value::Ref(g)) => if g.0 != 0 {
            Some(g)
        } else {
            None
        },
        _ => None,
    }
}

/// The class pointer stored in the first word of the object at `addr`.
pub open spec fn spec_typeptr(mem: Seq<u8>, addr: usize) -> int {
    field_int_value(mem.subrange(addr as int, addr + 8), true)
}

/// The default CPU: the class of an object is the word at offset 0 of the
/// object, and fields are read with the width and signedness of their
/// description.
#[derive(Debug, Clone, Copy)]
pub struct DefaultCpu;

impl DefaultCpu {
    /// `cls_of_box(box)`: the class pointer of the object a box holds, read
    /// from the object's first word; `0` when the box holds no constant
    /// reference or a null one.  `const_value` is the constant of the box
    /// after following its replacements.
    pub fn cls_of_box(&self, mem: &Memory, const_value: Option<Value>) -> (r: i64)
        requires
            const_value matches Some(Value::Ref(g)) ==> (g.0 == 0 || g.0 + 8 <= mem.bytes@.len()),
        ensures
            r == (match const_value {
                Some(Value::Ref(g)) => if g.0 == 0 {
                    0
                } else {
                    spec_typeptr(mem.bytes@, g.0)
                },
                _ => 0,
            }),
            const_value matches Some(Value::Ref(g)) ==> (g.0 == 0 || r == field_int_value(
                mem.bytes@.subrange(g.0 as int, g.0 + 8),
                true,
            )),
    {
        match const_value {
            Some(Value::Ref(gcref)) => self.cls_of_gcref(mem, gcref),
            _ => 0,
        }
    }

    /// `cls_of_gcref(gcref)`: the class pointer in the first word of the
    /// object; `0` for the null reference.
    pub fn cls_of_gcref(&self, mem: &Memory, gcref: GcRef) -> (r: i64)
        requires
            gcref.0 == 0 || gcref.0 + 8 <= mem.bytes@.len(),
        ensures
            r == (if gcref.0 == 0 {
                0
            } else {
                spec_typeptr(mem.bytes@, gcref.0)
            }),
            gcref.0 != 0 ==> r == field_int_value(
                mem.bytes@.subrange(gcref.0 as int, gcref.0 + 8),
                true,
            ),
    {
        if gcref.is_null() {
            return 0;
        }
        read_int(&mem.bytes, gcref.0, 8, true)
    }

    /// `bh_getfield_gc_i`: the integer field of `fd` in the struct at
    /// `struct_ptr`, read with the field's width and signedness.  Field
    /// sizes other than 1, 2, 4 and 8 are not supported.
    pub fn bh_getfield_gc_i<D: FieldDescr>(&self, mem: &Memory, struct_ptr: usize, fd: &D) -> (r:
        i64)
        requires
            field_in_memory(mem.bytes@, struct_ptr, *fd),
            supported_field_size(fd.spec_field_size()),
        ensures
            r == spec_getfield_i(mem.bytes@, struct_ptr, *fd),
    {
        proof {
            assert(mem.bytes@.len() <= usize::MAX) by {
                assert(mem.bytes.len() == mem.bytes@.len());
            }
        }
        let addr = struct_ptr + fd.offset();
        read_int(&mem.bytes, addr, fd.field_size(), fd.is_field_signed())
    }

    /// `bh_getfield_gc_r`: the reference stored in the pointer-sized field
    /// of `fd` in the struct at `struct_ptr`.
    pub fn bh_getfield_gc_r<D: FieldDescr>(&self, mem: &Memory, struct_ptr: usize, fd: &D) -> (r:
        GcRef)
        requires
            struct_ptr + fd.spec_offset() + 8 <= mem.bytes@.len(),
        ensures
            r.0 == spec_getfield_r(mem.bytes@, struct_ptr, *fd),
    {
        proof {
            assert(mem.bytes@.len() <= usize::MAX) by {
                assert(mem.bytes.len() == mem.bytes@.len());
            }
        }
        let addr = struct_ptr + fd.offset();
        let v = read_le(&mem.bytes, addr, 8);
        proof {
            lemma_pow256_values();
        }
        GcRef(#[verifier::truncate] (v as usize))
    }

    /// The 64 bits of the float field of `fd` in the struct at
    /// `struct_ptr` (`bh_getfield_gc_f` before `f64::from_bits`).
    pub fn bh_getfield_gc_f_bits<D: FieldDescr>(&self, mem: &Memory, struct_ptr: usize, fd: &D) -> (r:
        u64)
        requires
            struct_ptr + fd.spec_offset() + 8 <= mem.bytes@.len(),
        ensures
            r == spec_getfield_f_bits(mem.bytes@, struct_ptr, *fd),
    {
        proof {
            assert(mem.bytes@.len() <= usize::MAX) by {
                assert(mem.bytes.len() == mem.bytes@.len());
            }
        }
        let addr = struct_ptr + fd.offset();
        read_le(&mem.bytes, addr, 8)
    }
}

/// A CPU whose `cls_of_box` hands the raw address of the box's non-null
/// reference to a function; fields are read as by `DefaultCpu`.
pub struct ClosureCpu<F: Fn(i64) -> i64> {
    pub cls_of_raw: F,
}

/// A CPU for callers that supply `cls_of_box` as a function of the raw
/// reference value.
pub fn cpu_from_cls_of_box_fn<F: Fn(i64) -> i64>(f: F) -> (r: ClosureCpu<F>)
    ensures
        r.cls_of_raw == f,
{
    ClosureCpu { cls_of_raw: f }
}

impl<F: Fn(i64) -> i64> ClosureCpu<F> {
    /// `cls_of_box`: the function's result on the address of the box's
    /// reference when the box holds a non-null reference.  A box without a
    /// concrete reference, or with a null one, has class `0`: the function
    /// is not called for it.
    pub fn cls_of_box(&self, const_value: Option<Value>) -> (r: i64)
        requires
            nonnull_ref(const_value) matches Some(g) ==> call_requires(
                self.cls_of_raw,
                (g.0 as i64,),
            ),
        ensures
            nonnull_ref(const_value) matches Some(g) ==> call_ensures(
                self.cls_of_raw,
                (g.0 as i64,),
                r,
            ),
            nonnull_ref(const_value) is None ==> r == 0,
    {
        match const_value {
            Some(Value::Ref(gcref)) => {
                if gcref.is_null() {
                    0
                } else {
                    (self.cls_of_raw)(gcref.0 as i64)
                }
            },
            _ => 0,
        }
    }

    /// `bh_getfield_gc_i`: the value `DefaultCpu::bh_getfield_gc_i` reads, under the same
    /// requirements; the class function is not called.
    pub fn bh_getfield_gc_i<D: FieldDescr>(&self, mem: &Memory, struct_ptr: usize, fd: &D) -> (r:
        i64)
        requires
            field_in_memory(mem.bytes@, struct_ptr, *fd),
            supported_field_size(fd.spec_field_size()),
        ensures
            r == spec_getfield_i(mem.bytes@, struct_ptr, *fd),
    {
        DefaultCpu.bh_getfield_gc_i(mem, struct_ptr, fd)
    }

    /// `bh_getfield_gc_r`: the value `DefaultCpu::bh_getfield_gc_r` reads, under the same
    /// requirements; the class function is not called.
    pub fn bh_getfield_gc_r<D: FieldDescr>(&self, mem: &Memory, struct_ptr: usize, fd: &D) -> (r:
        GcRef)
        requires
            struct_ptr + fd.spec_offset() + 8 <= mem.bytes@.len(),
        ensures
            r.0 == spec_getfield_r(mem.bytes@, struct_ptr, *fd),
    {
        DefaultCpu.bh_getfield_gc_r(mem, struct_ptr, fd)
    }

    /// `bh_getfield_gc_f_bits`: the value `DefaultCpu::bh_getfield_gc_f_bits` reads, under the same
    /// requirements; the class function is not called.
    pub fn bh_getfield_gc_f_bits<D: FieldDescr>(&self, mem: &Memory, struct_ptr: usize, fd: &D) -> (r:
        u64)
        requires
            struct_ptr + fd.spec_offset() + 8 <= mem.bytes@.len(),
        ensures
            r == spec_getfield_f_bits(mem.bytes@, struct_ptr, *fd),
    {
        DefaultCpu.bh_getfield_gc_f_bits(mem, struct_ptr, fd)
    }
}

/// The default CPU.
pub fn default_cpu() -> (r: DefaultCpu) {
    DefaultCpu
}

/// A field read is in the range of its width and signedness: an unsigned
/// field narrower than 8 bytes reads in `[0, 256^n)`, any other field in
/// `[-256^n/2, 256^n/2)`.
pub proof fn law_field_value_range(bytes: Seq<u8>, signed: bool)
    requires
        supported_field_size(bytes.len() as usize),
        bytes.len() <= 8,
    ensures
        ({
            let v = field_int_value(bytes, signed);
            let m = pow256(bytes.len());
            if signed || bytes.len() == 8 {
                -(m / 2) <= v < m / 2
            } else {
                0 <= v < m
            }
        }),
{
    lemma_le_value_bound(bytes);
    lemma_pow256_values();
    let u = le_value(bytes);
    let m = pow256(bytes.len());
    assert(bytes.len() == 1 || bytes.len() == 2 || bytes.len() == 4 || bytes.len() == 8);
    assert(m == 256 || m == 65536 || m == 4294967296 || m == 18446744073709551616);
    assert(m / 2 + m / 2 == m);
    assert(u < m);
}

/// Signed and unsigned reads of the same bytes agree when the top bit is
/// clear.
pub proof fn law_signed_unsigned_agree(bytes: Seq<u8>)
    requires
        le_value(bytes) < pow256(bytes.len()) / 2,
    ensures
        field_int_value(bytes, true) == field_int_value(bytes, false),
{
}

proof fn lemma_le_value_bound(s: Seq<u8>)
    ensures
        le_value(s) < pow256(s.len()),
    decreases s.len(),
{
    if s.len() > 0 {
        lemma_le_value_bound(s.drop_first());
        let r = le_value(s.drop_first());
        let m = pow256((s.len() - 1) as nat);
        assert(s[0] as nat + 256 * r < 256 * m) by (nonlinear_arith)
            requires
                r < m,
                s[0] < 256,
        ;
    }
}

/// The class of an object is the whole 8-byte word at its address, read
/// little-endian as an `i64`: the unsigned value of the word when it is
/// below `2^63`, that value minus `2^64` otherwise.
pub proof fn law_typeptr_reads_full_word(mem: Seq<u8>, addr: usize)
    requires
        addr + 8 <= mem.len(),
    ensures
        ({
            let u = le_value(mem.subrange(addr as int, addr + 8));
            &&& u < 0x1_0000_0000_0000_0000
            &&& spec_typeptr(mem, addr) == if u < 0x8000_0000_0000_0000 {
                u as int
            } else {
                u - 0x1_0000_0000_0000_0000
            }
        }),
{
    lemma_pow256_values();
    lemma_le_value_bound(mem.subrange(addr as int, addr + 8));
}

/// An integer field is read from its own bytes, little-endian: the value
/// is the unsigned value of the field's bytes, less `256^size` when it is
/// read as negative; an unsigned field narrower than 8 bytes is never read
/// as negative; and the value's lowest byte is the byte at the field's
/// offset.
pub proof fn law_getfield_i_little_endian<D: FieldDescr>(mem: Seq<u8>, struct_ptr: usize, fd: D)
    requires
        field_in_memory(mem, struct_ptr, fd),
        supported_field_size(fd.spec_field_size()),
    ensures
        ({
            let start = struct_ptr + fd.spec_offset();
            let u = le_value(mem.subrange(start, start + fd.spec_field_size()));
            let v = spec_getfield_i(mem, struct_ptr, fd);
            &&& v == u || v == u - pow256(fd.spec_field_size() as nat)
            &&& (!fd.spec_is_field_signed() && fd.spec_field_size() < 8) ==> v == u
            &&& v % 256 == mem[start]
        }),
{
    let start = struct_ptr + fd.spec_offset();
    let b = mem.subrange(start, start + fd.spec_field_size());
    let u = le_value(b);
    let m = pow256(fd.spec_field_size() as nat);
    let v = spec_getfield_i(mem, struct_ptr, fd);
    lemma_pow256_values();
    assert(b[0] == mem[start]);
    let rest = le_value(b.drop_first());
    assert(u == b[0] as int + 256 * rest);
    assert(m % 256 == 0);
    assert(v % 256 == mem[start]) by (nonlinear_arith)
        requires
            u == b[0] as int + 256 * rest,
            0 <= b[0] < 256,
            v == u || v == u - m,
            m % 256 == 0,
            b[0] == mem[start],
    ;
}

/// An integer field read depends on the field's bytes alone: two memories
/// that agree on those bytes read the same value, whatever lies around
/// them.
pub proof fn law_getfield_i_reads_only_field<D: FieldDescr>(
    mem1: Seq<u8>,
    mem2: Seq<u8>,
    struct_ptr: usize,
    fd: D,
)
    requires
        field_in_memory(mem1, struct_ptr, fd),
        field_in_memory(mem2, struct_ptr, fd),
        forall|i: int|
            struct_ptr + fd.spec_offset() <= i < struct_ptr + fd.spec_offset() + fd.spec_field_size()
                ==> mem1[i] == mem2[i],
    ensures
        spec_getfield_i(mem1, struct_ptr, fd) == spec_getfield_i(mem2, struct_ptr, fd),
{
    assert(field_bytes(mem1, struct_ptr, fd) =~= field_bytes(mem2, struct_ptr, fd));
}

} // verus!
