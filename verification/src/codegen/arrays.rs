//! LLVM IR text of MIR array instructions: array initialisation, and loads
//! and stores of elements by index.
//!
//! Arrays live on the stack; an array of structs holds the structs' fields
//! inline, eight bytes each, and copies whole structs in and out.

use vstd::prelude::*;

use crate::codegen::calls::{bump_counter, counter_value};
use crate::codegen::instructions::{
    append_def, append_store, concat, concat3, def_line, is_local, operand_read, percent, store_line, FunctionInfo,
};
use crate::codegen::llvm_text::{constant_text, llvm_type, operand_llvm_type, place_llvm_type, TextCodeGen};
use crate::codegen::names::{contains_name, count_map, NameMap};
use crate::mir::{Constant, MirFunction, MirType, Operand, Place};
use crate::text::{append_u128, append_u64, dec_nat, push_str, str_eq};

verus! {

/// The array pointer of a place: a local's slot loaded into `%<l>`, else
/// the place itself.
pub open spec fn array_read(info: FunctionInfo, array: Seq<char>, l: Seq<char>) -> (Seq<char>, Seq<char>) {
    if is_local(info, array) {
        (def_line(l, "load ptr, ptr %"@ + array + ".addr"@), "%"@ + l)
    } else {
        (Seq::empty(), "%"@ + array)
    }
}

/// An index as a 64-bit value: a local's slot loaded into `%<l>`, and an
/// index of another type sign-extended into `%<sx>`.
pub open spec fn index_read(
    info: FunctionInfo,
    func: MirFunction,
    index: Operand,
    l: Seq<char>,
    sx: Seq<char>,
) -> (Seq<char>, Seq<char>) {
    match index {
        Operand::Place(p) => {
            let it = place_llvm_type(func, p.name@);
            if is_local(info, p.name@) {
                let load = def_line(l, "load "@ + it + ", ptr %"@ + p.name@ + ".addr"@);
                if it != "i64"@ {
                    (load + def_line(sx, "sext "@ + it + " %"@ + l + " to i64"@), "%"@ + sx)
                } else {
                    (load, "%"@ + l)
                }
            } else if it != "i64"@ {
                (def_line(sx, "sext "@ + it + " %"@ + p.name@ + " to i64"@), "%"@ + sx)
            } else {
                (Seq::empty(), "%"@ + p.name@)
            }
        },
        Operand::Constant(c) => (Seq::empty(), constant_text(c)),
    }
}

/// A pointer to a struct element of an array, into `dest`.
pub open spec fn struct_index_load(
    dest: Seq<char>,
    array: Seq<char>,
    arr: Seq<char>,
    idx: Seq<char>,
    sname: Seq<char>,
    info: FunctionInfo,
) -> Seq<char> {
    "  ; struct array index load %"@ + array + "["@ + idx + "]\n"@ + def_line(
        dest + "_gep"@,
        "getelementptr %struct."@ + sname + ", ptr "@ + arr + ", i64 "@ + idx,
    ) + if is_local(info, dest) {
        store_line("ptr"@, "%"@ + dest + "_gep"@, dest)
    } else {
        def_line(dest, "select i1 true, ptr %"@ + dest + "_gep"@ + ", ptr null"@)
    }
}

/// An element of type `ety` of an array, loaded into `dest`.
pub open spec fn scalar_index_load(
    dest: Seq<char>,
    array: Seq<char>,
    arr: Seq<char>,
    idx: Seq<char>,
    ety: Seq<char>,
    info: FunctionInfo,
) -> Seq<char> {
    "  ; index load %"@ + array + "["@ + idx + "]\n"@ + def_line(
        dest + "_ptr"@,
        "getelementptr "@ + ety + ", ptr "@ + arr + ", i64 "@ + idx,
    ) + def_line(dest, "load "@ + ety + ", ptr %"@ + dest + "_ptr"@) + if is_local(info, dest) {
        store_line(ety, "%"@ + dest, dest)
    } else {
        Seq::empty()
    }
}

/// The access of an array element after the array pointer `arr` and the
/// index `idx` are read: for an array of structs, a pointer to the
/// element.
pub open spec fn index_load_access(
    dest: Seq<char>,
    array: Seq<char>,
    arr: Seq<char>,
    idx: Seq<char>,
    elem: MirType,
    info: FunctionInfo,
) -> Seq<char> {
    match elem {
        MirType::Struct { name, .. } => struct_index_load(dest, array, arr, idx, name@, info),
        _ => scalar_index_load(dest, array, arr, idx, llvm_type(elem), info),
    }
}

/// A load of an array element into `dest`.
pub open spec fn index_load_text(
    dest: Seq<char>,
    array: Seq<char>,
    index: Operand,
    elem: MirType,
    info: FunctionInfo,
    func: MirFunction,
) -> Seq<char> {
    let (al, arr) = array_read(info, array, dest + "_arr_ptr"@);
    let (il, idx) = index_read(info, func, index, dest + "_idx_load"@, dest + "_idx_sext"@);
    al + il + index_load_access(dest, array, arr, idx, elem, info)
}

/// The size in bytes of a struct of `n` fields, eight bytes each.
pub open spec fn struct_bytes(n: nat) -> Seq<char> {
    dec_nat(n * 8)
}

/// A `memcpy` of `size` bytes from `src` to `%<dst>`.
pub open spec fn memcpy_line(dst: Seq<char>, src: Seq<char>, size: Seq<char>) -> Seq<char> {
    "  call void @llvm.memcpy.p0.p0.i64(ptr %"@ + dst + ", ptr "@ + src + ", i64 "@ + size + ", i1 false)\n"@
}

/// A struct copied into an array element at `%<array>_idx_ptr<sfx>`.
pub open spec fn struct_store(
    array: Seq<char>,
    sfx: Seq<char>,
    arr: Seq<char>,
    idx: Seq<char>,
    value: Operand,
    name: Seq<char>,
    nfields: nat,
    info: FunctionInfo,
) -> Seq<char> {
    let ptr = array + "_idx_ptr"@ + sfx;
    let (sl, src) = operand_read(info, value, "ptr"@, array + "_store_src"@ + sfx);
    sl + "  ; struct array index store %"@ + array + "["@ + idx + "]\n"@ + def_line(
        ptr,
        "getelementptr %struct."@ + name + ", ptr "@ + arr + ", i64 "@ + idx,
    ) + memcpy_line(ptr, src, struct_bytes(nfields))
}

/// The value of a store into an array element of type `ety`: a local's
/// slot loaded, and a 32-bit value widened to a 64-bit element. Gives the
/// instructions and the value's text.
pub open spec fn stored_value(
    array: Seq<char>,
    sfx: Seq<char>,
    value: Operand,
    ety: Seq<char>,
    info: FunctionInfo,
    func: MirFunction,
) -> (Seq<char>, Seq<char>) {
    let vt = operand_llvm_type(func, value);
    let (vl, v) = operand_read(info, value, vt, array + "_store_val"@ + sfx);
    let sxn = array + "_store_val_sext"@ + sfx;
    if vt == "i32"@ && ety == "i64"@ {
        (vl + def_line(sxn, "sext "@ + vt + " "@ + v + " to "@ + ety), "%"@ + sxn)
    } else {
        (vl, v)
    }
}

/// The store of the value `fv` into an array element of type `ety` at
/// `%<array>_idx_ptr<sfx>`.
pub open spec fn scalar_store_tail(
    array: Seq<char>,
    sfx: Seq<char>,
    arr: Seq<char>,
    idx: Seq<char>,
    fv: Seq<char>,
    ety: Seq<char>,
) -> Seq<char> {
    let ptr = array + "_idx_ptr"@ + sfx;
    "  ; index store %"@ + array + "["@ + idx + "] = "@ + fv + "\n"@ + def_line(
        ptr,
        "getelementptr "@ + ety + ", ptr "@ + arr + ", i64 "@ + idx,
    ) + "  store "@ + ety + " "@ + fv + ", ptr %"@ + ptr + "\n"@
}

/// A value stored into an array element of type `ety`.
pub open spec fn scalar_store(
    array: Seq<char>,
    sfx: Seq<char>,
    arr: Seq<char>,
    idx: Seq<char>,
    value: Operand,
    ety: Seq<char>,
    info: FunctionInfo,
    func: MirFunction,
) -> Seq<char> {
    let (vl, fv) = stored_value(array, sfx, value, ety, info, func);
    vl + scalar_store_tail(array, sfx, arr, idx, fv, ety)
}

/// The store into an array element after the array pointer `arr` and the
/// index `idx` are read, its temporaries suffixed with `sfx`.
pub open spec fn index_store_access(
    array: Seq<char>,
    sfx: Seq<char>,
    arr: Seq<char>,
    idx: Seq<char>,
    value: Operand,
    elem: MirType,
    info: FunctionInfo,
    func: MirFunction,
) -> Seq<char> {
    match elem {
        MirType::Struct { name, fields } => struct_store(array, sfx, arr, idx, value, name@, fields@.len(), info),
        _ => scalar_store(array, sfx, arr, idx, value, llvm_type(elem), info, func),
    }
}

/// A store of `value` into an array element, its temporaries numbered by
/// the counter `<array>_idx_store` (its value before this store).
pub open spec fn index_store_text(
    array: Seq<char>,
    index: Operand,
    value: Operand,
    elem: MirType,
    info: FunctionInfo,
    func: MirFunction,
    counts: Map<Seq<char>, u32>,
) -> (Seq<char>, Map<Seq<char>, u32>) {
    let key = array + "_idx_store"@;
    let k = counter_value(counts, key);
    let c1 = counts.insert(key, ((k as int + 1) % 0x1_0000_0000) as u32);
    let sfx = "."@ + dec_nat(k as nat);
    let (al, arr) = array_read(info, array, array + "_arr_ptr"@ + sfx);
    let (il, idx) = index_read(info, func, index, array + "_store_idx"@ + sfx, array + "_store_idx_sext"@ + sfx);
    (al + il + index_store_access(array, sfx, arr, idx, value, elem, info, func), c1)
}

/// Whether an array element is a zero constant (an integer zero, or a
/// float equal to zero, of either sign).
pub open spec fn is_zero_element(op: Operand) -> bool {
    match op {
        Operand::Constant(Constant::Int(v)) => v == 0,
        Operand::Constant(Constant::Float(f)) => f.bits == 0 || f.bits == 0x8000_0000_0000_0000,
        _ => false,
    }
}

/// The size in bytes of an element of a zero-filled array.
pub open spec fn zero_fill_size(elem: MirType) -> nat {
    match elem {
        MirType::I64 | MirType::F64 | MirType::U64 => 8,
        MirType::I32 | MirType::U32 => 4,
        MirType::Bool => 1,
        _ => 8,
    }
}

/// The copy of the struct `op` into element `i` of the array `dest` of
/// type `st`, of `size` bytes.
pub open spec fn struct_elem_text(
    dest: Seq<char>,
    op: Operand,
    i: nat,
    st: Seq<char>,
    size: Seq<char>,
    info: FunctionInfo,
) -> Seq<char> {
    let k = dec_nat(i);
    let (sl, src) = operand_read(info, op, "ptr"@, dest + "_src"@ + k);
    sl + def_line(dest + "_e"@ + k, "getelementptr "@ + st + ", ptr %"@ + dest + ", i32 "@ + k) + memcpy_line(
        dest + "_e"@ + k,
        src,
        size,
    )
}

/// The copies of the first `n` structs of an array of structs.
pub open spec fn struct_elems_text(
    dest: Seq<char>,
    elements: Seq<Operand>,
    n: int,
    st: Seq<char>,
    size: Seq<char>,
    info: FunctionInfo,
) -> Seq<char>
    decreases n,
{
    if n <= 0 {
        Seq::empty()
    } else {
        struct_elems_text(dest, elements, n - 1, st, size, info) + struct_elem_text(
            dest,
            elements[n - 1],
            (n - 1) as nat,
            st,
            size,
            info,
        )
    }
}

/// The store of `op` into element `i` of the array `dest` of elements of
/// type `ety`.
pub open spec fn elem_text(dest: Seq<char>, op: Operand, i: nat, ety: Seq<char>, info: FunctionInfo) -> Seq<char> {
    let k = dec_nat(i);
    let (vl, v) = operand_read(info, op, ety, dest + "_arr_elem"@ + k);
    vl + def_line(dest + "_e"@ + k, "getelementptr "@ + ety + ", ptr %"@ + dest + ", i32 "@ + k) + "  store "@ + ety
        + " "@ + v + ", ptr %"@ + dest + "_e"@ + k + "\n"@
}

/// The stores of the first `n` elements of an array.
pub open spec fn elems_text(
    dest: Seq<char>,
    elements: Seq<Operand>,
    n: int,
    ety: Seq<char>,
    info: FunctionInfo,
) -> Seq<char>
    decreases n,
{
    if n <= 0 {
        Seq::empty()
    } else {
        elems_text(dest, elements, n - 1, ety, info) + elem_text(dest, elements[n - 1], (n - 1) as nat, ety, info)
    }
}

/// The comment and stack allocation opening an array of `n` elements of
/// type `ty` (`kind` names what kind of array it is).
pub open spec fn array_head(dest: Seq<char>, kind: Seq<char>, ty: Seq<char>, n: nat) -> Seq<char> {
    "  ; "@ + kind + " init with "@ + dec_nat(n) + " elements of type "@ + ty + "\n"@ + def_line(
        dest,
        "alloca "@ + ty + ", i32 "@ + dec_nat(if n == 0 { 1 } else { n }),
    )
}

/// Whether an array is filled by `memset`: at least 64 elements, each a
/// zero.
pub open spec fn zero_filled(elements: Seq<Operand>) -> bool {
    elements.len() >= 64 && forall|i: int| 0 <= i < elements.len() ==> #[trigger] is_zero_element(elements[i])
}

/// The `memset` filling `n` elements of `size` bytes with zeros.
pub open spec fn zero_fill_text(dest: Seq<char>, n: nat, size: nat) -> Seq<char> {
    let total = dec_nat(n * size);
    "  ; optimized: memset for "@ + dec_nat(n) + " zero elements ("@ + total + " bytes)\n"@
        + "  call void @llvm.memset.p0.i64(ptr %"@ + dest + ", i8 0, i64 "@ + total + ", i1 false)\n"@
}

/// An array of the given elements allocated on the stack as `dest`; one
/// of at least 64 zeros is filled by `memset`.
pub open spec fn array_init_text(dest: Seq<char>, elem: MirType, elements: Seq<Operand>, info: FunctionInfo) -> Seq<char> {
    let n = elements.len();
    match elem {
        MirType::Struct { name, fields } => {
            let st = "%struct."@ + name@;
            array_head(dest, "struct array"@, st, n) + struct_elems_text(
                dest,
                elements,
                n as int,
                st,
                struct_bytes(fields@.len()),
                info,
            )
        },
        _ => {
            let ety = llvm_type(elem);
            array_head(dest, "array"@, ety, n) + if zero_filled(elements) {
                zero_fill_text(dest, n, zero_fill_size(elem))
            } else {
                elems_text(dest, elements, n as int, ety, info)
            }
        },
    }
}

/// Appends the opening of an array.
#[verifier::spinoff_prover]
fn emit_array_head(out: &mut String, dest: &str, kind: &str, ty: &str, n: usize)
    ensures
        final(out)@ == old(out)@ + array_head(dest@, kind@, ty@, n as nat),
{
    push_str(out, "  ; ");
    push_str(out, kind);
    push_str(out, " init with ");
    append_u64(out, n as u64);
    push_str(out, " elements of type ");
    push_str(out, ty);
    push_str(out, "\n");
    let mut rest = concat3("alloca ", ty, ", i32 ");
    append_u64(&mut rest, if n == 0 { 1 } else { n as u64 });
    append_def(out, dest, rest.as_str());
    assert(final(out)@ =~= old(out)@ + array_head(dest@, kind@, ty@, n as nat));
}

/// Appends the `memset` of a zero-filled array.
#[verifier::spinoff_prover]
fn emit_zero_fill(out: &mut String, dest: &str, n: usize, size: u64)
    ensures
        final(out)@ == old(out)@ + zero_fill_text(dest@, n as nat, size as nat),
{
    let mut total = String::new();
    assert((n as u128) * (size as u128) <= u128::MAX) by (nonlinear_arith)
        requires
            n <= u64::MAX,
            size <= u64::MAX,
    ;
    append_u128(&mut total, (n as u128) * (size as u128));
    push_str(out, "  ; optimized: memset for ");
    append_u64(out, n as u64);
    push_str(out, " zero elements (");
    push_str(out, total.as_str());
    push_str(out, " bytes)\n");
    push_str(out, "  call void @llvm.memset.p0.i64(ptr %");
    push_str(out, dest);
    push_str(out, ", i8 0, i64 ");
    push_str(out, total.as_str());
    push_str(out, ", i1 false)\n");
    assert(final(out)@ =~= old(out)@ + zero_fill_text(dest@, n as nat, size as nat));
}

/// Whether an array element is a zero constant.
#[verifier::spinoff_prover]
fn zero_element(op: &Operand) -> (r: bool)
    ensures
        r == is_zero_element(*op),
{
    match op {
        Operand::Constant(Constant::Int(v)) => *v == 0,
        Operand::Constant(Constant::Float(f)) => f.bits == 0 || f.bits == 0x8000_0000_0000_0000u64,
        _ => false,
    }
}

/// The size in bytes of an element of a zero-filled array.
#[verifier::spinoff_prover]
fn zero_fill_bytes(elem: &MirType) -> (r: u64)
    ensures
        r == zero_fill_size(*elem),
{
    match elem {
        MirType::I64 | MirType::F64 | MirType::U64 => 8,
        MirType::I32 | MirType::U32 => 4,
        MirType::Bool => 1,
        _ => 8,
    }
}

/// Whether an array is filled by `memset`.
#[verifier::spinoff_prover]
fn is_zero_filled(elements: &Vec<Operand>) -> (r: bool)
    ensures
        r == zero_filled(elements@),
{
    if elements.len() < 64 {
        return false;
    }
    let mut i: usize = 0;
    while i < elements.len()
        invariant
            i <= elements.len(),
            forall|j: int| 0 <= j < i ==> #[trigger] is_zero_element(elements@[j]),
        decreases elements.len() - i,
    {
        if !zero_element(&elements[i]) {
            return false;
        }
        i = i + 1;
    }
    true
}

/// Appends the array pointer of a place; gives its text.
#[verifier::spinoff_prover]
fn emit_array_read(out: &mut String, array: &str, l: &str, info: &FunctionInfo) -> (v: String)
    ensures
        final(out)@ == old(out)@ + array_read(*info, array@, l@).0,
        v@ == array_read(*info, array@, l@).1,
{
    if contains_name(&info.local_names, array) {
        let mut rest = concat("load ptr, ptr %", array);
        push_str(&mut rest, ".addr");
        append_def(out, l, rest.as_str());
        percent(l)
    } else {
        assert(final(out)@ =~= old(out)@);
        percent(array)
    }
}

/// The decimal text of a number, as a new string.
fn dec_string(n: usize) -> (r: String)
    ensures
        r@ == dec_nat(n as nat),
{
    let mut r = String::new();
    append_u64(&mut r, n as u64);
    r
}

/// Appends the `memcpy` of a struct of `n` fields.
#[verifier::spinoff_prover]
fn emit_memcpy(out: &mut String, dst: &str, src: &str, n: usize)
    ensures
        final(out)@ == old(out)@ + memcpy_line(dst@, src@, struct_bytes(n as nat)),
{
    push_str(out, "  call void @llvm.memcpy.p0.p0.i64(ptr %");
    push_str(out, dst);
    push_str(out, ", ptr ");
    push_str(out, src);
    push_str(out, ", i64 ");
    append_u128(out, (n as u128) * 8);
    push_str(out, ", i1 false)\n");
    assert(final(out)@ =~= old(out)@ + memcpy_line(dst@, src@, struct_bytes(n as nat)));
}

/// Appends the store of a value into an array element.
#[verifier::spinoff_prover]
fn emit_scalar_store_tail(out: &mut String, an: &str, sfx: &str, arr: &str, idx: &str, fv: &str, ety: &str)
    ensures
        final(out)@ == old(out)@ + scalar_store_tail(an@, sfx@, arr@, idx@, fv@, ety@),
{
    let ptr = concat3(an, "_idx_ptr", sfx);
    push_str(out, "  ; index store %");
    push_str(out, an);
    push_str(out, "[");
    push_str(out, idx);
    push_str(out, "] = ");
    push_str(out, fv);
    push_str(out, "\n");
    let ghost o1 = out@;
    let mut rest = concat3("getelementptr ", ety, ", ptr ");
    push_str(&mut rest, arr);
    push_str(&mut rest, ", i64 ");
    push_str(&mut rest, idx);
    append_def(out, ptr.as_str(), rest.as_str());
    let ghost o2 = out@;
    push_str(out, "  store ");
    push_str(out, ety);
    push_str(out, " ");
    push_str(out, fv);
    push_str(out, ", ptr %");
    push_str(out, ptr.as_str());
    push_str(out, "\n");
    assert(final(out)@ =~= old(out)@ + scalar_store_tail(an@, sfx@, arr@, idx@, fv@, ety@));
}

/// Appends a pointer to a struct element of an array.
#[verifier::spinoff_prover]
fn emit_struct_index_load(out: &mut String, dn: &str, an: &str, arr: &str, idx: &str, sname: &str, info: &FunctionInfo)
    ensures
        final(out)@ == old(out)@ + struct_index_load(dn@, an@, arr@, idx@, sname@, *info),
{
    push_str(out, "  ; struct array index load %");
    push_str(out, an);
    push_str(out, "[");
    push_str(out, idx);
    push_str(out, "]\n");
    let g = concat(dn, "_gep");
    let mut rest = concat3("getelementptr %struct.", sname, ", ptr ");
    push_str(&mut rest, arr);
    push_str(&mut rest, ", i64 ");
    push_str(&mut rest, idx);
    append_def(out, g.as_str(), rest.as_str());
    if contains_name(&info.local_names, dn) {
        let pg = percent(g.as_str());
        append_store(out, "ptr", pg.as_str(), dn);
    } else {
        let r2 = concat3("select i1 true, ptr %", g.as_str(), ", ptr null");
        append_def(out, dn, r2.as_str());
    }
    assert(final(out)@ =~= old(out)@ + struct_index_load(dn@, an@, arr@, idx@, sname@, *info));
}

/// Appends the load of an element of an array.
#[verifier::spinoff_prover]
fn emit_scalar_index_load(out: &mut String, dn: &str, an: &str, arr: &str, idx: &str, ety: &str, info: &FunctionInfo)
    ensures
        final(out)@ == old(out)@ + scalar_index_load(dn@, an@, arr@, idx@, ety@, *info),
{
    push_str(out, "  ; index load %");
    push_str(out, an);
    push_str(out, "[");
    push_str(out, idx);
    push_str(out, "]\n");
    let p = concat(dn, "_ptr");
    let mut rest = concat3("getelementptr ", ety, ", ptr ");
    push_str(&mut rest, arr);
    push_str(&mut rest, ", i64 ");
    push_str(&mut rest, idx);
    append_def(out, p.as_str(), rest.as_str());
    let mut r2 = concat3("load ", ety, ", ptr %");
    push_str(&mut r2, p.as_str());
    append_def(out, dn, r2.as_str());
    if contains_name(&info.local_names, dn) {
        let pd = percent(dn);
        append_store(out, ety, pd.as_str(), dn);
    }
    assert(final(out)@ =~= old(out)@ + scalar_index_load(dn@, an@, arr@, idx@, ety@, *info));
}

impl TextCodeGen {
    /// Appends the read of an index as a 64-bit value; gives its text.
    #[verifier::spinoff_prover]
    fn emit_index_read(
        &self,
        out: &mut String,
        index: &Operand,
        l: &str,
        sx: &str,
        info: &FunctionInfo,
        func: &MirFunction,
    ) -> (v: String)
        ensures
            final(out)@ == old(out)@ + index_read(*info, *func, *index, l@, sx@).0,
            v@ == index_read(*info, *func, *index, l@, sx@).1,
    {
        match index {
            Operand::Place(p) => {
                let it = self.infer_place_type(p, func);
                let pn = p.name.as_str();
                if contains_name(&info.local_names, pn) {
                    let rest = concat3("load ", it, ", ptr %");
                    let mut rest = rest;
                    push_str(&mut rest, pn);
                    push_str(&mut rest, ".addr");
                    append_def(out, l, rest.as_str());
                    if !str_eq(it, "i64") {
                        let mut r2 = concat3("sext ", it, " %");
                        push_str(&mut r2, l);
                        push_str(&mut r2, " to i64");
                        append_def(out, sx, r2.as_str());
                        percent(sx)
                    } else {
                        percent(l)
                    }
                } else if !str_eq(it, "i64") {
                    let mut r2 = concat3("sext ", it, " %");
                    push_str(&mut r2, pn);
                    push_str(&mut r2, " to i64");
                    append_def(out, sx, r2.as_str());
                    percent(sx)
                } else {
                    assert(final(out)@ =~= old(out)@);
                    percent(pn)
                }
            },
            Operand::Constant(c) => {
                assert(final(out)@ =~= old(out)@);
                self.format_constant(c)
            },
        }
    }

    /// Appends the access of an array element once its pointer and index
    /// are read.
    #[verifier::spinoff_prover]
    fn emit_index_load_access(
        &self,
        out: &mut String,
        dn: &str,
        an: &str,
        arr: &str,
        idx: &str,
        elem: &MirType,
        info: &FunctionInfo,
    )
        ensures
            final(out)@ == old(out)@ + index_load_access(dn@, an@, arr@, idx@, *elem, *info),
    {
        match elem {
            MirType::Struct { name, .. } => emit_struct_index_load(out, dn, an, arr, idx, name.as_str(), info),
            _ => emit_scalar_index_load(out, dn, an, arr, idx, self.mir_type_to_llvm(elem), info),
        }
    }

    /// Appends the load of an array element.
    #[verifier::spinoff_prover]
    pub fn emit_index_load(
        &self,
        out: &mut String,
        dest: &Place,
        array: &Place,
        index: &Operand,
        elem: &MirType,
        info: &FunctionInfo,
        func: &MirFunction,
    )
        ensures
            final(out)@ == old(out)@ + index_load_text(dest.name@, array.name@, *index, *elem, *info, *func),
    {
        let dn = dest.name.as_str();
        let an = array.name.as_str();
        let l = concat(dn, "_arr_ptr");
        let arr = emit_array_read(out, an, l.as_str(), info);
        let l2 = concat(dn, "_idx_load");
        let sx = concat(dn, "_idx_sext");
        let idx = self.emit_index_read(out, index, l2.as_str(), sx.as_str(), info, func);
        self.emit_index_load_access(out, dn, an, arr.as_str(), idx.as_str(), elem, info);
        assert(final(out)@ =~= old(out)@ + index_load_text(dest.name@, array.name@, *index, *elem, *info, *func));
    }

    /// Appends a struct copied into an array element.
    #[verifier::spinoff_prover]
    fn emit_struct_store(
        &self,
        out: &mut String,
        an: &str,
        sfx: &str,
        arr: &str,
        idx: &str,
        value: &Operand,
        name: &str,
        nfields: usize,
        info: &FunctionInfo,
    )
        ensures
            final(out)@ == old(out)@ + struct_store(an@, sfx@, arr@, idx@, *value, name@, nfields as nat, *info),
    {
        let ptr = concat3(an, "_idx_ptr", sfx);
        let l = concat3(an, "_store_src", sfx);
        let src = self.emit_operand_read(out, value, "ptr", l.as_str(), info);
        push_str(out, "  ; struct array index store %");
        push_str(out, an);
        push_str(out, "[");
        push_str(out, idx);
        push_str(out, "]\n");
        let mut rest = concat3("getelementptr %struct.", name, ", ptr ");
        push_str(&mut rest, arr);
        push_str(&mut rest, ", i64 ");
        push_str(&mut rest, idx);
        append_def(out, ptr.as_str(), rest.as_str());
        emit_memcpy(out, ptr.as_str(), src.as_str(), nfields);
        assert(final(out)@ =~= old(out)@ + struct_store(an@, sfx@, arr@, idx@, *value, name@, nfields as nat, *info));
    }

    /// Appends the reading of the value of a store into an array element;
    /// gives its text.
    #[verifier::spinoff_prover]
    fn emit_stored_value(
        &self,
        out: &mut String,
        an: &str,
        sfx: &str,
        value: &Operand,
        ety: &str,
        info: &FunctionInfo,
        func: &MirFunction,
    ) -> (fv: String)
        ensures
            final(out)@ == old(out)@ + stored_value(an@, sfx@, *value, ety@, *info, *func).0,
            fv@ == stored_value(an@, sfx@, *value, ety@, *info, *func).1,
    {
        let vt = self.infer_operand_type(value, func);
        let l = concat3(an, "_store_val", sfx);
        let v = self.emit_operand_read(out, value, vt, l.as_str(), info);
        if str_eq(vt, "i32") && str_eq(ety, "i64") {
            let sxn = concat3(an, "_store_val_sext", sfx);
            let mut rest = concat3("sext ", vt, " ");
            push_str(&mut rest, v.as_str());
            push_str(&mut rest, " to ");
            push_str(&mut rest, ety);
            append_def(out, sxn.as_str(), rest.as_str());
            percent(sxn.as_str())
        } else {
            v
        }
    }

    /// Appends a value stored into an array element.
    #[verifier::spinoff_prover]
    fn emit_scalar_store(
        &self,
        out: &mut String,
        an: &str,
        sfx: &str,
        arr: &str,
        idx: &str,
        value: &Operand,
        ety: &str,
        info: &FunctionInfo,
        func: &MirFunction,
    )
        ensures
            final(out)@ == old(out)@ + scalar_store(an@, sfx@, arr@, idx@, *value, ety@, *info, *func),
    {
        let fv = self.emit_stored_value(out, an, sfx, value, ety, info, func);
        emit_scalar_store_tail(out, an, sfx, arr, idx, fv.as_str(), ety);
    }

    /// Appends the store into an array element once its pointer and
    /// index are read.
    #[verifier::spinoff_prover]
    fn emit_index_store_access(
        &self,
        out: &mut String,
        an: &str,
        sfx: &str,
        arr: &str,
        idx: &str,
        value: &Operand,
        elem: &MirType,
        info: &FunctionInfo,
        func: &MirFunction,
    )
        ensures
            final(out)@ == old(out)@ + index_store_access(an@, sfx@, arr@, idx@, *value, *elem, *info, *func),
    {
        match elem {
            MirType::Struct { name, fields } => {
                self.emit_struct_store(out, an, sfx, arr, idx, value, name.as_str(), fields.len(), info)
            },
            _ => self.emit_scalar_store(out, an, sfx, arr, idx, value, self.mir_type_to_llvm(elem), info, func),
        }
    }

    /// Appends the store into an array element.
    #[verifier::spinoff_prover]
    pub fn emit_index_store(
        &self,
        out: &mut String,
        array: &Place,
        index: &Operand,
        value: &Operand,
        elem: &MirType,
        info: &FunctionInfo,
        func: &MirFunction,
        name_counts: &mut NameMap<u32>,
    )
        ensures
            final(out)@ == old(out)@ + index_store_text(array.name@, *index, *value, *elem, *info, *func, count_map(*old(name_counts))).0,
            count_map(*final(name_counts)) == index_store_text(array.name@, *index, *value, *elem, *info, *func, count_map(*old(name_counts))).1,
    {
        let an = array.name.as_str();
        let key = concat(an, "_idx_store");
        let k = bump_counter(name_counts, key.as_str());
        let mut sfx = String::new();
        push_str(&mut sfx, ".");
        append_u64(&mut sfx, k as u64);
        let l = concat3(an, "_arr_ptr", sfx.as_str());
        let arr = emit_array_read(out, an, l.as_str(), info);
        let l2 = concat3(an, "_store_idx", sfx.as_str());
        let sx = concat3(an, "_store_idx_sext", sfx.as_str());
        let idx = self.emit_index_read(out, index, l2.as_str(), sx.as_str(), info, func);
        self.emit_index_store_access(out, an, sfx.as_str(), arr.as_str(), idx.as_str(), value, elem, info, func);
        assert(final(out)@ =~= old(out)@ + index_store_text(array.name@, *index, *value, *elem, *info, *func, count_map(*old(name_counts))).0);
    }

    /// Appends the copy of a struct into an array element.
    #[verifier::spinoff_prover]
    fn emit_struct_elem(
        &self,
        out: &mut String,
        dest: &str,
        op: &Operand,
        i: usize,
        st: &str,
        nfields: usize,
        info: &FunctionInfo,
    )
        ensures
            final(out)@ == old(out)@ + struct_elem_text(dest@, *op, i as nat, st@, struct_bytes(nfields as nat), *info),
    {
        let k = dec_string(i);
        let l = concat3(dest, "_src", k.as_str());
        let src = self.emit_operand_read(out, op, "ptr", l.as_str(), info);
        let e = concat3(dest, "_e", k.as_str());
        let mut rest = concat3("getelementptr ", st, ", ptr %");
        push_str(&mut rest, dest);
        push_str(&mut rest, ", i32 ");
        push_str(&mut rest, k.as_str());
        append_def(out, e.as_str(), rest.as_str());
        emit_memcpy(out, e.as_str(), src.as_str(), nfields);
        assert(final(out)@ =~= old(out)@ + struct_elem_text(dest@, *op, i as nat, st@, struct_bytes(nfields as nat), *info));
    }

    /// Appends the store of a value into an array element.
    #[verifier::spinoff_prover]
    fn emit_elem(&self, out: &mut String, dest: &str, op: &Operand, i: usize, ety: &str, info: &FunctionInfo)
        ensures
            final(out)@ == old(out)@ + elem_text(dest@, *op, i as nat, ety@, *info),
    {
        let k = dec_string(i);
        let l = concat3(dest, "_arr_elem", k.as_str());
        let v = self.emit_operand_read(out, op, ety, l.as_str(), info);
        let ghost o1 = out@;
        let e = concat3(dest, "_e", k.as_str());
        let mut rest = concat3("getelementptr ", ety, ", ptr %");
        push_str(&mut rest, dest);
        push_str(&mut rest, ", i32 ");
        push_str(&mut rest, k.as_str());
        append_def(out, e.as_str(), rest.as_str());
        push_str(out, "  store ");
        push_str(out, ety);
        push_str(out, " ");
        push_str(out, v.as_str());
        push_str(out, ", ptr %");
        push_str(out, e.as_str());
        push_str(out, "\n");
        assert(final(out)@ =~= old(out)@ + elem_text(dest@, *op, i as nat, ety@, *info));
    }

    /// Appends an array initialisation.
    #[verifier::spinoff_prover]
    pub fn emit_array_init(
        &self,
        out: &mut String,
        dest: &Place,
        elem: &MirType,
        elements: &Vec<Operand>,
        info: &FunctionInfo,
    )
        ensures
            final(out)@ == old(out)@ + array_init_text(dest.name@, *elem, elements@, *info),
    {
        let dn = dest.name.as_str();
        let n = elements.len();
        match elem {
            MirType::Struct { name, fields } => {
                let st = concat("%struct.", name.as_str());
                emit_array_head(out, dn, "struct array", st.as_str(), n);
                let ghost o1 = out@;
                let mut i: usize = 0;
                while i < n
                    invariant
                        i <= n,
                        n == elements@.len(),
                        out@ == o1 + struct_elems_text(dn@, elements@, i as int, st@, struct_bytes(fields@.len()), *info),
                    decreases n - i,
                {
                    self.emit_struct_elem(out, dn, &elements[i], i, st.as_str(), fields.len(), info);
                    i = i + 1;
                }
            },
            _ => {
                let ety = self.mir_type_to_llvm(elem);
                emit_array_head(out, dn, "array", ety, n);
                if is_zero_filled(elements) {
                    emit_zero_fill(out, dn, n, zero_fill_bytes(elem));
                } else {
                    let ghost o1 = out@;
                    let mut i: usize = 0;
                    while i < n
                        invariant
                            i <= n,
                            n == elements@.len(),
                            out@ == o1 + elems_text(dn@, elements@, i as int, ety@, *info),
                        decreases n - i,
                    {
                        self.emit_elem(out, dn, &elements[i], i, ety, info);
                        i = i + 1;
                    }
                }
            },
        }
    }
}

} // verus!
