//! LLVM IR text of MIR instructions on aggregates: tuples, struct fields
//! and enum variants.
//!
//! A tuple is an LLVM aggregate value; a struct lives behind a pointer, its
//! fields at their indices in `%struct.<name>`; an enum value is an array of
//! 64-bit words, its discriminant first.

use vstd::prelude::*;

use crate::codegen::calls::{bump_counter, counter_value};
use crate::codegen::instructions::{
    append_def, append_store, concat, concat3, def_line, fresh, fresh_load, is_local, operand_read, percent, store_if_local,
    store_line, FunctionInfo, ProgramInfo,
};
use crate::codegen::llvm_text::{
    constant_llvm_type, constant_text, find_type, llvm_type, operand_llvm_type, operand_text, type_named, TextCodeGen,
};
use crate::codegen::memory::slot_read;
use crate::codegen::analysis::struct_escapes;
use crate::codegen::returned::struct_returned;
use crate::codegen::terminator::{place_type_or, struct_field_count, type_or};
use crate::codegen::names::{contains_name, count_map, NameMap};
use crate::mir::{MirFunction, MirType, Operand, Place};
use crate::text::{append_i64, append_u128, append_u64, chars_of, dec_int, dec_nat, push_str, str_eq};

verus! {

/// The LLVM type of a tuple place: the one worked out for it, else a pair
/// of 64-bit integers.
pub open spec fn tuple_type_of(info: FunctionInfo, tuple: Seq<char>) -> Seq<char> {
    match info.tuple_var_types.lookup(tuple) {
        Some(t) => t@,
        None => "{ i64, i64 }"@,
    }
}

/// Element `index` of the tuple `tuple`, into `dest`.
pub open spec fn tuple_extract_text(
    dest: Seq<char>,
    tuple: Seq<char>,
    index: usize,
    elem: MirType,
    info: FunctionInfo,
    counts: Map<Seq<char>, u32>,
) -> (Seq<char>, Map<Seq<char>, u32>) {
    let (d, c1) = fresh(counts, dest);
    let tt = tuple_type_of(info, tuple);
    let (load, tv, c2) = if is_local(info, tuple) {
        fresh_load(c1, dest + "_tuple_load"@, tt, tuple)
    } else {
        (Seq::empty(), "%"@ + tuple, c1)
    };
    (
        load + def_line(d, "extractvalue "@ + tt + " "@ + tv + ", "@ + dec_nat(index as nat)) + store_if_local(
            info,
            dest,
            llvm_type(elem),
            d,
        ),
        c2,
    )
}

/// The LLVM type of field `idx` of the struct `sname`, or `default` when
/// the struct or the field is unknown.
pub open spec fn field_type_or(prog: ProgramInfo, sname: Seq<char>, idx: int, default: Seq<char>) -> Seq<char> {
    match prog.struct_field_types.lookup(sname) {
        Some(v) => if 0 <= idx < v@.len() {
            v@[idx]@
        } else {
            default
        },
        None => default,
    }
}

/// Whether a name is a parameter of the function.
pub open spec fn is_param(func: MirFunction, name: Seq<char>) -> bool {
    type_named(func.params@, name) is Some
}

/// A pointer to field `idx` of the struct `%struct.<sname>` at `base`, as
/// `%<p>`: a parameter or temporary is the struct pointer itself; a
/// local's slot holds it, loaded first into `%<b>`.
pub open spec fn field_ptr_text(
    base: Seq<char>,
    sname: Seq<char>,
    idx: usize,
    p: Seq<char>,
    b: Seq<char>,
    info: FunctionInfo,
    func: MirFunction,
) -> Seq<char> {
    let gep = "getelementptr %struct."@ + sname + ", ptr %"@;
    let tail = ", i32 0, i32 "@ + dec_nat(idx as nat);
    if is_param(func, base) || !is_local(info, base) {
        def_line(p, gep + base + tail)
    } else {
        def_line(b, "load ptr, ptr %"@ + base + ".addr"@) + def_line(p, gep + b + tail)
    }
}

/// Field `idx` (named `field`) of the struct `sname` at `base`, into
/// `dest`.
pub open spec fn field_access_text(
    dest: Seq<char>,
    base: Seq<char>,
    field: Seq<char>,
    idx: usize,
    sname: Seq<char>,
    info: FunctionInfo,
    func: MirFunction,
    prog: ProgramInfo,
) -> Seq<char> {
    let fty = field_type_or(prog, sname, idx as int, "i64"@);
    let p = dest + "_ptr"@;
    "  ; field access ."@ + field + "["@ + dec_nat(idx as nat) + "] from %"@ + base + " ("@ + sname + ")\n"@
        + field_ptr_text(base, sname, idx, p, dest + "_base_ptr"@, info, func) + if is_local(info, dest) {
        def_line(dest + "_val"@, "load "@ + fty + ", ptr %"@ + p) + store_line(fty, "%"@ + dest + "_val"@, dest)
    } else {
        def_line(dest, "load "@ + fty + ", ptr %"@ + p)
    }
}

/// The suffix of the temporaries of a field store: none the first time
/// the field of that place is stored, then `.1`, `.2`, and so on.
pub open spec fn store_suffix(k: u32) -> Seq<char> {
    if k == 0 {
        Seq::empty()
    } else {
        "."@ + dec_nat(k as nat)
    }
}

/// The value stored into a field of type `fty`, read as `ty`: a 32-bit
/// value widened for a 64-bit field. Gives the instructions, the stored
/// type and the value.
pub open spec fn field_value(
    value: Operand,
    ty: Seq<char>,
    fty: Seq<char>,
    pre: Seq<char>,
    sfx: Seq<char>,
    info: FunctionInfo,
) -> (Seq<char>, Seq<char>, Seq<char>) {
    let (vl, v) = operand_read(info, value, ty, pre + "_val"@ + sfx);
    if ty == "i32"@ && fty == "i64"@ {
        let x = pre + "_sext"@ + sfx;
        (vl + def_line(x, "sext i32 "@ + v + " to i64"@), "i64"@, "%"@ + x)
    } else {
        (vl, ty, v)
    }
}

/// A store of `value` into field `idx` (named `field`) of the struct
/// `sname` at `base`, its temporaries numbered by the counter
/// `<base>_f<idx>`.
pub open spec fn field_store_text(
    base: Seq<char>,
    field: Seq<char>,
    idx: usize,
    sname: Seq<char>,
    value: Operand,
    info: FunctionInfo,
    func: MirFunction,
    prog: ProgramInfo,
    counts: Map<Seq<char>, u32>,
) -> (Seq<char>, Map<Seq<char>, u32>) {
    let ty = operand_llvm_type(func, value);
    let fty = field_type_or(prog, sname, idx as int, ty);
    let pre = base + "_f"@ + dec_nat(idx as nat);
    let k = counter_value(counts, pre);
    let c1 = counts.insert(pre, ((k as int + 1) % 0x1_0000_0000) as u32);
    let sfx = store_suffix(k);
    let (vl, sty, sv) = field_value(value, ty, fty, pre, sfx, info);
    (vl + field_store_tail(base, field, idx, sname, sty, sv, pre, sfx, info, func), c1)
}

/// The store of the value `sv` of type `sty` into a struct field, once it
/// is read.
pub open spec fn field_store_tail(
    base: Seq<char>,
    field: Seq<char>,
    idx: usize,
    sname: Seq<char>,
    sty: Seq<char>,
    sv: Seq<char>,
    pre: Seq<char>,
    sfx: Seq<char>,
    info: FunctionInfo,
    func: MirFunction,
) -> Seq<char> {
    let p = pre + "_ptr"@ + sfx;
    "  ; field store ."@ + field + "["@ + dec_nat(idx as nat) + "] ("@ + sname + ") = "@ + sv + "\n"@
        + field_ptr_text(base, sname, idx, p, pre + "_base"@ + sfx, info, func) + "  store "@ + sty + " "@ + sv
        + ", ptr %"@ + p + "\n"@
}

/// The discriminant of an enum variant, from the first `n` characters of
/// its name: the sum of each character's code times its one-based
/// position, wrapping around in 64 bits.
pub open spec fn variant_discriminant(name: Seq<char>, n: int) -> i64
    decreases n,
{
    if n <= 0 {
        0
    } else {
        variant_discriminant(name, n - 1).wrapping_add(((name[n - 1] as u32) as i64).wrapping_mul(n as i64))
    }
}

/// The stores of the first `n` arguments of an enum variant into the words
/// after its discriminant.
pub open spec fn variant_args_text(dest: Seq<char>, args: Seq<Operand>, n: int, func: MirFunction) -> Seq<char>
    decreases n,
{
    if n <= 0 {
        Seq::empty()
    } else {
        let a = dest + "_a"@ + dec_nat((n - 1) as nat);
        variant_args_text(dest, args, n - 1, func) + def_line(
            a,
            "getelementptr i64, ptr %"@ + dest + ", i32 "@ + dec_nat(n as nat),
        ) + "  store "@ + operand_llvm_type(func, args[n - 1]) + " "@ + operand_text(args[n - 1]) + ", ptr %"@ + a
            + "\n"@
    }
}

/// The comment, allocation and discriminant of an enum value of `n`
/// arguments, built on the stack as `dest`.
pub open spec fn enum_head(dest: Seq<char>, ename: Seq<char>, variant: Seq<char>, n: nat) -> Seq<char> {
    "  ; enum "@ + ename + "::"@ + variant + " with "@ + dec_nat(n) + " args\n"@ + def_line(
        dest,
        "alloca i64, i32 "@ + dec_nat(1 + if n == 0 { 1 } else { n }),
    ) + def_line(dest + "_disc"@, "getelementptr i64, ptr %"@ + dest + ", i32 0"@) + "  store i64 "@ + dec_int(
        variant_discriminant(variant, variant.len() as int) as int,
    ) + ", ptr %"@ + dest + "_disc\n"@
}

/// The enum value `ename::variant` with the given arguments, built on the
/// stack as `dest`: its discriminant, then one word per argument.
pub open spec fn enum_variant_text(
    dest: Seq<char>,
    ename: Seq<char>,
    variant: Seq<char>,
    args: Seq<Operand>,
    func: MirFunction,
) -> Seq<char> {
    enum_head(dest, ename, variant, args.len()) + variant_args_text(dest, args, args.len() as int, func)
}

/// The LLVM types of the first `n` tuple elements, separated by `, `.
pub open spec fn elem_types_joined(elements: Seq<(MirType, Operand)>, n: int) -> Seq<char>
    decreases n,
{
    if n <= 0 {
        Seq::empty()
    } else if n == 1 {
        llvm_type(elements[0].0)
    } else {
        elem_types_joined(elements, n - 1) + ", "@ + llvm_type(elements[n - 1].0)
    }
}

/// The LLVM aggregate type of a tuple built from the given elements.
pub open spec fn tuple_init_type(elements: Seq<(MirType, Operand)>) -> Seq<char> {
    "{ "@ + elem_types_joined(elements, elements.len() as int) + " }"@
}

/// The type an element of a tuple under construction has: the type
/// recorded for its place (else the element type), or its constant's.
pub open spec fn actual_type(info: FunctionInfo, op: Operand, ety: Seq<char>) -> Seq<char> {
    match op {
        Operand::Place(p) => type_or(info.place_types, p.name@, ety),
        Operand::Constant(c) => constant_llvm_type(c),
    }
}

/// Element `i` of a tuple `dest` (with SSA name `d`) read for insertion
/// as an element of type `ety`: a local's slot loaded, and a 32-bit value
/// widened to a 64-bit element. Gives the instructions, the value, its
/// type and the counters after it.
pub open spec fn tuple_elem(
    dest: Seq<char>,
    d: Seq<char>,
    op: Operand,
    ety: Seq<char>,
    i: nat,
    info: FunctionInfo,
    counts: Map<Seq<char>, u32>,
) -> (Seq<char>, Seq<char>, Seq<char>, Map<Seq<char>, u32>) {
    let actual = actual_type(info, op, ety);
    let (load, v, c1) = slot_read(info, op, dest + "_tuple_elem"@ + dec_nat(i), actual, counts);
    if actual == "i32"@ && ety == "i64"@ {
        let key = d + "_tuple_sext"@ + dec_nat(i);
        let k = counter_value(c1, key);
        let x = key + store_suffix(k);
        (
            load + def_line(x, "sext i32 "@ + v + " to i64"@),
            "%"@ + x,
            "i64"@,
            c1.insert(key, ((k as int + 1) % 0x1_0000_0000) as u32),
        )
    } else {
        (load, v, actual, c1)
    }
}

/// The SSA name element `i` of a tuple of `total` elements is inserted
/// into: `<d>_<i>`, the last one (past the first) into `d` itself.
pub open spec fn insert_target(d: Seq<char>, i: nat, total: nat) -> Seq<char> {
    if i > 0 && i + 1 == total {
        d
    } else {
        d + "_"@ + dec_nat(i)
    }
}

/// The aggregate element `i` is inserted into: `undef` for the first.
pub open spec fn insert_source(d: Seq<char>, i: nat) -> Seq<char> {
    if i == 0 {
        "undef"@
    } else {
        "%"@ + d + "_"@ + dec_nat((i - 1) as nat)
    }
}

/// The insertions of the first `n` elements of a tuple of type `st`, and
/// the counters after them.
pub open spec fn tuple_inserts_text(
    dest: Seq<char>,
    d: Seq<char>,
    elements: Seq<(MirType, Operand)>,
    n: int,
    st: Seq<char>,
    info: FunctionInfo,
    counts: Map<Seq<char>, u32>,
) -> (Seq<char>, Map<Seq<char>, u32>)
    decreases n,
{
    if n <= 0 {
        (Seq::empty(), counts)
    } else {
        let i = (n - 1) as nat;
        let (t, c) = tuple_inserts_text(dest, d, elements, n - 1, st, info, counts);
        let (el, v, ty, c2) = tuple_elem(dest, d, elements[n - 1].1, llvm_type(elements[n - 1].0), i, info, c);
        (
            t + el + def_line(
                insert_target(d, i, elements.len()),
                "insertvalue "@ + st + " "@ + insert_source(d, i) + ", "@ + ty + " "@ + v + ", "@ + dec_nat(i),
            ),
            c2,
        )
    }
}

/// A tuple built from the given elements, into `dest`.
pub open spec fn tuple_init_text(
    dest: Seq<char>,
    elements: Seq<(MirType, Operand)>,
    info: FunctionInfo,
    counts: Map<Seq<char>, u32>,
) -> (Seq<char>, Map<Seq<char>, u32>) {
    let st = tuple_init_type(elements);
    let (d, c1) = fresh(counts, dest);
    if elements.len() == 0 {
        (def_line(d, "insertvalue "@ + st + " undef, i64 0, 0"@), c1)
    } else {
        let (t, c2) = tuple_inserts_text(dest, d, elements, elements.len() as int, st, info, c1);
        (
            t + if elements.len() == 1 {
                def_line(d, "insertvalue "@ + st + " %"@ + d + "_0, i64 0, 0 ; alias"@)
            } else {
                Seq::empty()
            },
            c2,
        )
    }
}

/// How a struct built in a function is allocated, with the comment
/// saying so: in the caller's return slot when the function returns a
/// struct of three or more fields and this one is returned; else on the
/// stack when it is returned in registers; else on the heap when it
/// escapes; else on the stack.
pub open spec fn struct_alloc_text(dest: Seq<char>, sname: Seq<char>, n: nat, func: MirFunction) -> Seq<char> {
    let rfc = struct_field_count(func.ret_ty);
    let returned = struct_returned(func, dest);
    let escapes = struct_escapes(func, dest);
    let st = "%struct."@ + sname;
    let head = "  ; struct "@ + sname + " init with "@ + dec_nat(n) + " fields ("@;
    if rfc > 2 && returned {
        head + "sret - caller allocated)\n"@ + def_line(dest, "bitcast ptr %_sret to ptr"@)
    } else if escapes && rfc <= 2 && returned {
        head + "stack - small struct return)\n"@ + def_line(dest, "alloca "@ + st + ", align 8"@)
    } else if escapes {
        head + "heap - escapes)\n"@ + def_line(
            dest,
            "call ptr @malloc(i64 "@ + dec_nat((if n == 0 { 1 } else { n }) * 8) + ")"@,
        )
    } else {
        head + "stack - local only)\n"@ + def_line(dest, "alloca "@ + st + ", align 8"@)
    }
}

/// The value stored into field `i` of a struct being built: a local
/// (not a parameter) loaded from its slot, else the operand's text.
pub open spec fn struct_field_value(
    dest: Seq<char>,
    i: nat,
    value: Operand,
    ty: Seq<char>,
    info: FunctionInfo,
    func: MirFunction,
) -> (Seq<char>, Seq<char>) {
    match value {
        Operand::Place(p) => if !is_param(func, p.name@) && is_local(info, p.name@) {
            let l = dest + "_f"@ + dec_nat(i) + "_val"@;
            (def_line(l, "load "@ + ty + ", ptr %"@ + p.name@ + ".addr"@), "%"@ + l)
        } else {
            (Seq::empty(), "%"@ + p.name@)
        },
        Operand::Constant(c) => (Seq::empty(), constant_text(c)),
    }
}

/// The store of field `i` (named `fname`) of a struct of type `st` being
/// built at `dest`.
pub open spec fn struct_field_text(
    dest: Seq<char>,
    st: Seq<char>,
    i: nat,
    fname: Seq<char>,
    value: Operand,
    info: FunctionInfo,
    func: MirFunction,
) -> Seq<char> {
    let ty = operand_llvm_type(func, value);
    let (load, v) = struct_field_value(dest, i, value, ty, info, func);
    load + struct_field_tail(dest, st, i, fname, ty, v)
}

/// The store of the value `v` of type `ty` into field `i` (named `fname`)
/// of a struct being built, once it is read.
pub open spec fn struct_field_tail(
    dest: Seq<char>,
    st: Seq<char>,
    i: nat,
    fname: Seq<char>,
    ty: Seq<char>,
    v: Seq<char>,
) -> Seq<char> {
    let f = dest + "_f"@ + dec_nat(i);
    "  ; field "@ + fname + " = "@ + v + "\n"@ + def_line(
        f,
        "getelementptr "@ + st + ", ptr %"@ + dest + ", i32 0, i32 "@ + dec_nat(i),
    ) + "  store "@ + ty + " "@ + v + ", ptr %"@ + f + "\n"@
}

/// The stores of the first `n` fields of a struct being built.
pub open spec fn struct_fields_text(
    dest: Seq<char>,
    st: Seq<char>,
    fields: Seq<(String, Operand)>,
    n: int,
    info: FunctionInfo,
    func: MirFunction,
) -> Seq<char>
    decreases n,
{
    if n <= 0 {
        Seq::empty()
    } else {
        struct_fields_text(dest, st, fields, n - 1, info, func) + struct_field_text(
            dest,
            st,
            (n - 1) as nat,
            fields[n - 1].0@,
            fields[n - 1].1,
            info,
            func,
        )
    }
}

/// A struct `sname` built from its fields into `dest`.
pub open spec fn struct_init_text(
    dest: Seq<char>,
    sname: Seq<char>,
    fields: Seq<(String, Operand)>,
    info: FunctionInfo,
    func: MirFunction,
) -> Seq<char> {
    struct_alloc_text(dest, sname, fields.len(), func) + struct_fields_text(
        dest,
        "%struct."@ + sname,
        fields,
        fields.len() as int,
        info,
        func,
    )
}

/// The LLVM type of a struct field, or `default`.
#[verifier::spinoff_prover]
pub(crate) fn field_type_str(prog: &ProgramInfo, sname: &str, idx: usize, default: &'static str) -> (r: &'static str)
    ensures
        r@ == field_type_or(*prog, sname@, idx as int, default@),
{
    match prog.struct_field_types.get(sname) {
        Some(v) => if idx < v.len() {
            v[idx]
        } else {
            default
        },
        None => default,
    }
}

/// Appends the pointer to a struct field.
#[verifier::spinoff_prover]
fn emit_field_ptr(
    out: &mut String,
    base: &str,
    sname: &str,
    idx: usize,
    p: &str,
    b: &str,
    info: &FunctionInfo,
    func: &MirFunction,
)
    ensures
        final(out)@ == old(out)@ + field_ptr_text(base@, sname@, idx, p@, b@, *info, *func),
{
    let mut tail = String::new();
    push_str(&mut tail, ", i32 0, i32 ");
    append_u64(&mut tail, idx as u64);
    let gep = concat3("getelementptr %struct.", sname, ", ptr %");
    if find_type(&func.params, base).is_some() || !contains_name(&info.local_names, base) {
        let r = concat3(gep.as_str(), base, tail.as_str());
        append_def(out, p, r.as_str());
    } else {
        let r1 = concat3("load ptr, ptr %", base, ".addr");
        append_def(out, b, r1.as_str());
        let r2 = concat3(gep.as_str(), b, tail.as_str());
        append_def(out, p, r2.as_str());
    }
}

/// Appends the store of a value into a struct field, once it is read.
#[verifier::spinoff_prover]
fn emit_field_store_tail(
    out: &mut String,
    base: &str,
    field: &str,
    idx: usize,
    sname: &str,
    sty: &str,
    sv: &str,
    pre: &str,
    sfx: &str,
    info: &FunctionInfo,
    func: &MirFunction,
)
    ensures
        final(out)@ == old(out)@ + field_store_tail(base@, field@, idx, sname@, sty@, sv@, pre@, sfx@, *info, *func),
{
    push_str(out, "  ; field store .");
    push_str(out, field);
    push_str(out, "[");
    append_u64(out, idx as u64);
    push_str(out, "] (");
    push_str(out, sname);
    push_str(out, ") = ");
    push_str(out, sv);
    push_str(out, "\n");
    let p = concat3(pre, "_ptr", sfx);
    let b = concat3(pre, "_base", sfx);
    emit_field_ptr(out, base, sname, idx, p.as_str(), b.as_str(), info, func);
    push_str(out, "  store ");
    push_str(out, sty);
    push_str(out, " ");
    push_str(out, sv);
    push_str(out, ", ptr %");
    push_str(out, p.as_str());
    push_str(out, "\n");
    assert(final(out)@ =~= old(out)@ + field_store_tail(base@, field@, idx, sname@, sty@, sv@, pre@, sfx@, *info, *func));
}

/// The discriminant of an enum variant.
#[verifier::spinoff_prover]
fn discriminant(variant: &str) -> (d: i64)
    ensures
        d == variant_discriminant(variant@, variant@.len() as int),
{
    let cs = chars_of(variant);
    let mut d: i64 = 0;
    let mut i: usize = 0;
    while i < cs.len()
        invariant
            i <= cs@.len(),
            cs@ == variant@,
            d == variant_discriminant(variant@, i as int),
        decreases cs.len() - i,
    {
        let c = cs[i];
        d = d.wrapping_add(((c as u32) as i64).wrapping_mul((i + 1) as i64));
        i = i + 1;
    }
    d
}

/// Appends the opening of an enum value built on the stack.
#[verifier::spinoff_prover]
fn emit_enum_head(out: &mut String, dn: &str, ename: &str, variant: &str, n: usize)
    ensures
        final(out)@ == old(out)@ + enum_head(dn@, ename@, variant@, n as nat),
{
    push_str(out, "  ; enum ");
    push_str(out, ename);
    push_str(out, "::");
    push_str(out, variant);
    push_str(out, " with ");
    append_u64(out, n as u64);
    push_str(out, " args\n");
    let mut rest = String::new();
    push_str(&mut rest, "alloca i64, i32 ");
    append_u128(&mut rest, 1 + if n == 0 { 1 } else { n as u128 });
    append_def(out, dn, rest.as_str());
    let dd = concat(dn, "_disc");
    let r2 = concat3("getelementptr i64, ptr %", dn, ", i32 0");
    append_def(out, dd.as_str(), r2.as_str());
    push_str(out, "  store i64 ");
    append_i64(out, discriminant(variant));
    push_str(out, ", ptr %");
    push_str(out, dn);
    push_str(out, "_disc\n");
    assert(final(out)@ =~= old(out)@ + enum_head(dn@, ename@, variant@, n as nat));
}

/// Appends the store of a value into a field of a struct being built.
#[verifier::spinoff_prover]
fn emit_struct_field_tail(out: &mut String, dest: &str, st: &str, i: usize, fname: &str, ty: &str, v: &str)
    ensures
        final(out)@ == old(out)@ + struct_field_tail(dest@, st@, i as nat, fname@, ty@, v@),
{
    let mut f = concat(dest, "_f");
    append_u64(&mut f, i as u64);
    push_str(out, "  ; field ");
    push_str(out, fname);
    push_str(out, " = ");
    push_str(out, v);
    push_str(out, "\n");
    let mut r = concat3("getelementptr ", st, ", ptr %");
    push_str(&mut r, dest);
    push_str(&mut r, ", i32 0, i32 ");
    append_u64(&mut r, i as u64);
    append_def(out, f.as_str(), r.as_str());
    push_str(out, "  store ");
    push_str(out, ty);
    push_str(out, " ");
    push_str(out, v);
    push_str(out, ", ptr %");
    push_str(out, f.as_str());
    push_str(out, "\n");
    assert(final(out)@ =~= old(out)@ + struct_field_tail(dest@, st@, i as nat, fname@, ty@, v@));
}

impl TextCodeGen {
    /// Appends the extraction of a tuple element.
    #[verifier::spinoff_prover]
    pub fn emit_tuple_extract(
        &self,
        out: &mut String,
        dest: &Place,
        tuple: &Place,
        index: usize,
        elem: &MirType,
        info: &FunctionInfo,
        name_counts: &mut NameMap<u32>,
    )
        ensures
            final(out)@ == old(out)@ + tuple_extract_text(dest.name@, tuple.name@, index, *elem, *info, count_map(*old(name_counts))).0,
            count_map(*final(name_counts)) == tuple_extract_text(dest.name@, tuple.name@, index, *elem, *info, count_map(*old(name_counts))).1,
    {
        let dn = dest.name.as_str();
        let tn = tuple.name.as_str();
        let d = self.unique_name(dn, name_counts);
        let tt: String = match info.tuple_var_types.get(tn) {
            Some(t) => t.as_str().to_owned(),
            None => "{ i64, i64 }".to_owned(),
        };
        let tv = if contains_name(&info.local_names, tn) {
            let base = concat(dn, "_tuple_load");
            self.emit_fresh_load(out, base.as_str(), tt.as_str(), tn, name_counts)
        } else {
            assert(out@ =~= old(out)@);
            concat("%", tn)
        };
        let mut rest = concat("extractvalue ", tt.as_str());
        push_str(&mut rest, " ");
        push_str(&mut rest, tv.as_str());
        push_str(&mut rest, ", ");
        append_u64(&mut rest, index as u64);
        append_def(out, d.as_str(), rest.as_str());
        self.emit_store_if_local(out, dn, self.mir_type_to_llvm(elem), d.as_str(), info);
        assert(final(out)@ =~= old(out)@ + tuple_extract_text(dest.name@, tuple.name@, index, *elem, *info, count_map(*old(name_counts))).0);
    }

    /// Appends the load of a struct field.
    #[verifier::rlimit(40)]
    #[verifier::spinoff_prover]
    pub fn emit_field_access(
        &self,
        out: &mut String,
        dest: &Place,
        base: &Place,
        field: &str,
        idx: usize,
        sname: &str,
        info: &FunctionInfo,
        func: &MirFunction,
        prog: &ProgramInfo,
    )
        ensures
            final(out)@ == old(out)@ + field_access_text(dest.name@, base.name@, field@, idx, sname@, *info, *func, *prog),
    {
        let dn = dest.name.as_str();
        let bn = base.name.as_str();
        let fty = field_type_str(prog, sname, idx, "i64");
        push_str(out, "  ; field access .");
        push_str(out, field);
        push_str(out, "[");
        append_u64(out, idx as u64);
        push_str(out, "] from %");
        push_str(out, bn);
        push_str(out, " (");
        push_str(out, sname);
        push_str(out, ")\n");
        let p = concat(dn, "_ptr");
        let b = concat(dn, "_base_ptr");
        emit_field_ptr(out, bn, sname, idx, p.as_str(), b.as_str(), info, func);
        let mut r = concat3("load ", fty, ", ptr %");
        push_str(&mut r, p.as_str());
        if contains_name(&info.local_names, dn) {
            let v = concat(dn, "_val");
            append_def(out, v.as_str(), r.as_str());
            let pv = percent(v.as_str());
            append_store(out, fty, pv.as_str(), dn);
        } else {
            append_def(out, dn, r.as_str());
        }
        assert(final(out)@ =~= old(out)@ + field_access_text(dest.name@, base.name@, field@, idx, sname@, *info, *func, *prog));
    }

    /// Appends the reading of a value stored into a struct field; gives the
    /// stored type and value.
    #[verifier::spinoff_prover]
    fn emit_field_value(
        &self,
        out: &mut String,
        value: &Operand,
        ty: &str,
        fty: &str,
        pre: &str,
        sfx: &str,
        info: &FunctionInfo,
    ) -> (r: (String, String))
        ensures
            final(out)@ == old(out)@ + field_value(*value, ty@, fty@, pre@, sfx@, *info).0,
            r.0@ == field_value(*value, ty@, fty@, pre@, sfx@, *info).1,
            r.1@ == field_value(*value, ty@, fty@, pre@, sfx@, *info).2,
    {
        let l = concat3(pre, "_val", sfx);
        let v = self.emit_operand_read(out, value, ty, l.as_str(), info);
        if str_eq(ty, "i32") && str_eq(fty, "i64") {
            let x = concat3(pre, "_sext", sfx);
            let r = concat3("sext i32 ", v.as_str(), " to i64");
            append_def(out, x.as_str(), r.as_str());
            ("i64".to_owned(), percent(x.as_str()))
        } else {
            (ty.to_owned(), v)
        }
    }

    /// Appends the store of a value into a struct field.
    #[verifier::spinoff_prover]
    pub fn emit_field_store(
        &self,
        out: &mut String,
        base: &Place,
        field: &str,
        idx: usize,
        sname: &str,
        value: &Operand,
        info: &FunctionInfo,
        func: &MirFunction,
        prog: &ProgramInfo,
        name_counts: &mut NameMap<u32>,
    )
        ensures
            final(out)@ == old(out)@ + field_store_text(base.name@, field@, idx, sname@, *value, *info, *func, *prog, count_map(*old(name_counts))).0,
            count_map(*final(name_counts)) == field_store_text(base.name@, field@, idx, sname@, *value, *info, *func, *prog, count_map(*old(name_counts))).1,
    {
        let bn = base.name.as_str();
        let ty = self.infer_operand_type(value, func);
        let fty = field_type_str(prog, sname, idx, ty);
        let mut pre = concat(bn, "_f");
        append_u64(&mut pre, idx as u64);
        let k = bump_counter(name_counts, pre.as_str());
        let mut sfx = String::new();
        if k != 0 {
            push_str(&mut sfx, ".");
            append_u64(&mut sfx, k as u64);
        }
        assert(sfx@ =~= store_suffix(k));
        let (sty, sv) = self.emit_field_value(out, value, ty, fty, pre.as_str(), sfx.as_str(), info);
        emit_field_store_tail(out, bn, field, idx, sname, sty.as_str(), sv.as_str(), pre.as_str(), sfx.as_str(), info, func);
    }

    /// Appends the stores of the arguments of an enum variant.
    #[verifier::spinoff_prover]
    fn emit_variant_args(&self, out: &mut String, dest: &str, args: &Vec<Operand>, func: &MirFunction)
        ensures
            final(out)@ == old(out)@ + variant_args_text(dest@, args@, args@.len() as int, *func),
    {
        let ghost o0 = out@;
        let mut i: usize = 0;
        while i < args.len()
            invariant
                i <= args@.len(),
                out@ == o0 + variant_args_text(dest@, args@, i as int, *func),
            decreases args.len() - i,
        {
            let ghost before = out@;
            let mut a = concat(dest, "_a");
            append_u64(&mut a, i as u64);
            let mut rest = concat3("getelementptr i64, ptr %", dest, ", i32 ");
            append_u64(&mut rest, (i + 1) as u64);
            append_def(out, a.as_str(), rest.as_str());
            push_str(out, "  store ");
            push_str(out, self.infer_operand_type(&args[i], func));
            push_str(out, " ");
            let v = self.format_operand(&args[i]);
            push_str(out, v.as_str());
            push_str(out, ", ptr %");
            push_str(out, a.as_str());
            push_str(out, "\n");
            i = i + 1;
            assert(out@ =~= o0 + variant_args_text(dest@, args@, i as int, *func));
        }
    }

    /// Appends an enum value built on the stack.
    #[verifier::spinoff_prover]
    pub fn emit_enum_variant(
        &self,
        out: &mut String,
        dest: &Place,
        ename: &str,
        variant: &str,
        args: &Vec<Operand>,
        func: &MirFunction,
    )
        ensures
            final(out)@ == old(out)@ + enum_variant_text(dest.name@, ename@, variant@, args@, *func),
    {
        emit_enum_head(out, dest.name.as_str(), ename, variant, args.len());
        self.emit_variant_args(out, dest.name.as_str(), args, func);
    }

    /// The LLVM aggregate type of a tuple built from the given elements.
    #[verifier::spinoff_prover]
    pub(crate) fn tuple_init_type_str(&self, elements: &Vec<(MirType, Operand)>) -> (r: String)
        ensures
            r@ == tuple_init_type(elements@),
    {
        let mut j = String::new();
        let mut i: usize = 0;
        while i < elements.len()
            invariant
                i <= elements@.len(),
                j@ == elem_types_joined(elements@, i as int),
            decreases elements.len() - i,
        {
            if i > 0 {
                push_str(&mut j, ", ");
            }
            push_str(&mut j, self.mir_type_to_llvm(&elements[i].0));
            i = i + 1;
            assert(j@ =~= elem_types_joined(elements@, i as int));
        }
        concat3("{ ", j.as_str(), " }")
    }

    /// Appends the reading of a tuple element for insertion; gives its
    /// value and type.
    #[verifier::spinoff_prover]
    fn emit_tuple_elem(
        &self,
        out: &mut String,
        dest: &str,
        d: &str,
        op: &Operand,
        ety: &'static str,
        i: usize,
        info: &FunctionInfo,
        name_counts: &mut NameMap<u32>,
    ) -> (r: (String, String))
        ensures
            final(out)@ == old(out)@ + tuple_elem(dest@, d@, *op, ety@, i as nat, *info, count_map(*old(name_counts))).0,
            r.0@ == tuple_elem(dest@, d@, *op, ety@, i as nat, *info, count_map(*old(name_counts))).1,
            r.1@ == tuple_elem(dest@, d@, *op, ety@, i as nat, *info, count_map(*old(name_counts))).2,
            count_map(*final(name_counts)) == tuple_elem(dest@, d@, *op, ety@, i as nat, *info, count_map(*old(name_counts))).3,
    {
        let actual = match op {
            Operand::Place(p) => place_type_or(&info.place_types, p.name.as_str(), ety),
            Operand::Constant(c) => self.constant_type(c),
        };
        let mut base = concat(dest, "_tuple_elem");
        append_u64(&mut base, i as u64);
        let v = self.emit_slot_read(out, op, base.as_str(), actual, info, name_counts);
        if str_eq(actual, "i32") && str_eq(ety, "i64") {
            let mut key = concat(d, "_tuple_sext");
            append_u64(&mut key, i as u64);
            let k = bump_counter(name_counts, key.as_str());
            let mut x = key;
            if k != 0 {
                push_str(&mut x, ".");
                append_u64(&mut x, k as u64);
            }
            let r = concat3("sext i32 ", v.as_str(), " to i64");
            append_def(out, x.as_str(), r.as_str());
            (percent(x.as_str()), "i64".to_owned())
        } else {
            (v, actual.to_owned())
        }
    }

    /// Appends the insertion of element `i` into a tuple under
    /// construction.
    #[verifier::spinoff_prover]
    fn emit_tuple_insert(
        &self,
        out: &mut String,
        dest: &str,
        d: &str,
        elements: &Vec<(MirType, Operand)>,
        i: usize,
        st: &str,
        info: &FunctionInfo,
        name_counts: &mut NameMap<u32>,
    )
        requires
            i < elements@.len(),
        ensures
            ({
                let (el, v, ty, c2) = tuple_elem(
                    dest@,
                    d@,
                    elements@[i as int].1,
                    llvm_type(elements@[i as int].0),
                    i as nat,
                    *info,
                    count_map(*old(name_counts)),
                );
                &&& final(out)@ == old(out)@ + el + def_line(
                    insert_target(d@, i as nat, elements@.len()),
                    "insertvalue "@ + st@ + " "@ + insert_source(d@, i as nat) + ", "@ + ty + " "@ + v + ", "@ + dec_nat(
                        i as nat,
                    ),
                )
                &&& count_map(*final(name_counts)) == c2
            }),
    {
        let n = elements.len();
        let (v, ty) = self.emit_tuple_elem(out, dest, d, &elements[i].1, self.mir_type_to_llvm(&elements[i].0), i, info, name_counts);
        let target = if i > 0 && i + 1 == n {
            d.to_owned()
        } else {
            let mut t = concat(d, "_");
            append_u64(&mut t, i as u64);
            t
        };
        let source = if i == 0 {
            "undef".to_owned()
        } else {
            let mut t = concat("%", d);
            push_str(&mut t, "_");
            append_u64(&mut t, (i - 1) as u64);
            t
        };
        let mut rest = concat3("insertvalue ", st, " ");
        push_str(&mut rest, source.as_str());
        push_str(&mut rest, ", ");
        push_str(&mut rest, ty.as_str());
        push_str(&mut rest, " ");
        push_str(&mut rest, v.as_str());
        push_str(&mut rest, ", ");
        append_u64(&mut rest, i as u64);
        append_def(out, target.as_str(), rest.as_str());
    }

    /// Appends a tuple built from its elements.
    #[verifier::spinoff_prover]
    pub fn emit_tuple_init(
        &self,
        out: &mut String,
        dest: &Place,
        elements: &Vec<(MirType, Operand)>,
        info: &FunctionInfo,
        name_counts: &mut NameMap<u32>,
    )
        ensures
            final(out)@ == old(out)@ + tuple_init_text(dest.name@, elements@, *info, count_map(*old(name_counts))).0,
            count_map(*final(name_counts)) == tuple_init_text(dest.name@, elements@, *info, count_map(*old(name_counts))).1,
    {
        let st = self.tuple_init_type_str(elements);
        let dn = dest.name.as_str();
        let d = self.unique_name(dn, name_counts);
        let n = elements.len();
        if n == 0 {
            let r = concat3("insertvalue ", st.as_str(), " undef, i64 0, 0");
            append_def(out, d.as_str(), r.as_str());
            return;
        }
        let ghost o1 = out@;
        let ghost c1 = count_map(*name_counts);
        let mut i: usize = 0;
        while i < n
            invariant
                i <= n,
                n == elements@.len(),
                out@ == o1 + tuple_inserts_text(dn@, d@, elements@, i as int, st@, *info, c1).0,
                count_map(*name_counts) == tuple_inserts_text(dn@, d@, elements@, i as int, st@, *info, c1).1,
            decreases n - i,
        {
            self.emit_tuple_insert(out, dn, d.as_str(), elements, i, st.as_str(), info, name_counts);
            i = i + 1;
            assert(out@ =~= o1 + tuple_inserts_text(dn@, d@, elements@, i as int, st@, *info, c1).0);
        }
        if n == 1 {
            let mut r = concat3("insertvalue ", st.as_str(), " %");
            push_str(&mut r, d.as_str());
            push_str(&mut r, "_0, i64 0, 0 ; alias");
            append_def(out, d.as_str(), r.as_str());
        }
        assert(final(out)@ =~= old(out)@ + tuple_init_text(dest.name@, elements@, *info, count_map(*old(name_counts))).0);
    }

    /// Appends the allocation of a struct being built.
    #[verifier::spinoff_prover]
    fn emit_struct_alloc(&self, out: &mut String, dest: &str, sname: &str, n: usize, func: &MirFunction)
        ensures
            final(out)@ == old(out)@ + struct_alloc_text(dest@, sname@, n as nat, *func),
    {
        let rfc: usize = match &func.ret_ty {
            MirType::Struct { fields, .. } => fields.len(),
            _ => 0,
        };
        let returned = self.is_struct_returned(func, dest);
        let escapes = self.check_struct_escapes(func, dest);
        let st = concat("%struct.", sname);
        push_str(out, "  ; struct ");
        push_str(out, sname);
        push_str(out, " init with ");
        append_u64(out, n as u64);
        push_str(out, " fields (");
        if rfc > 2 && returned {
            push_str(out, "sret - caller allocated)\n");
            append_def(out, dest, "bitcast ptr %_sret to ptr");
        } else if escapes && rfc <= 2 && returned {
            push_str(out, "stack - small struct return)\n");
            let r = concat3("alloca ", st.as_str(), ", align 8");
            append_def(out, dest, r.as_str());
        } else if escapes {
            push_str(out, "heap - escapes)\n");
            let mut r = String::new();
            push_str(&mut r, "call ptr @malloc(i64 ");
            append_u128(&mut r, (if n == 0 { 1 } else { n as u128 }) * 8);
            push_str(&mut r, ")");
            append_def(out, dest, r.as_str());
        } else {
            push_str(out, "stack - local only)\n");
            let r = concat3("alloca ", st.as_str(), ", align 8");
            append_def(out, dest, r.as_str());
        }
        assert(final(out)@ =~= old(out)@ + struct_alloc_text(dest@, sname@, n as nat, *func));
    }

    /// Appends the reading of the value of one field of a struct being
    /// built; gives its text.
    #[verifier::spinoff_prover]
    fn emit_struct_field_value(
        &self,
        out: &mut String,
        dest: &str,
        i: usize,
        value: &Operand,
        ty: &str,
        info: &FunctionInfo,
        func: &MirFunction,
    ) -> (v: String)
        ensures
            final(out)@ == old(out)@ + struct_field_value(dest@, i as nat, *value, ty@, *info, *func).0,
            v@ == struct_field_value(dest@, i as nat, *value, ty@, *info, *func).1,
    {
        match value {
            Operand::Place(p) => {
                let pn = p.name.as_str();
                if find_type(&func.params, pn).is_none() && contains_name(&info.local_names, pn) {
                    let mut l = concat(dest, "_f");
                    append_u64(&mut l, i as u64);
                    push_str(&mut l, "_val");
                    let mut r = concat3("load ", ty, ", ptr %");
                    push_str(&mut r, pn);
                    push_str(&mut r, ".addr");
                    append_def(out, l.as_str(), r.as_str());
                    percent(l.as_str())
                } else {
                    assert(final(out)@ =~= old(out)@);
                    percent(pn)
                }
            },
            Operand::Constant(c) => {
                assert(final(out)@ =~= old(out)@);
                self.format_constant(c)
            },
        }
    }

    /// Appends the store of one field of a struct being built.
    #[verifier::spinoff_prover]
    fn emit_struct_field(
        &self,
        out: &mut String,
        dest: &str,
        st: &str,
        i: usize,
        fname: &str,
        value: &Operand,
        info: &FunctionInfo,
        func: &MirFunction,
    )
        ensures
            final(out)@ == old(out)@ + struct_field_text(dest@, st@, i as nat, fname@, *value, *info, *func),
    {
        let ty = self.infer_operand_type(value, func);
        let v = self.emit_struct_field_value(out, dest, i, value, ty, info, func);
        emit_struct_field_tail(out, dest, st, i, fname, ty, v.as_str());
    }

    /// Appends a struct built from its fields.
    #[verifier::spinoff_prover]
    pub fn emit_struct_init(
        &self,
        out: &mut String,
        dest: &Place,
        sname: &str,
        fields: &Vec<(String, Operand)>,
        info: &FunctionInfo,
        func: &MirFunction,
    )
        ensures
            final(out)@ == old(out)@ + struct_init_text(dest.name@, sname@, fields@, *info, *func),
    {
        let dn = dest.name.as_str();
        self.emit_struct_alloc(out, dn, sname, fields.len(), func);
        let st = concat("%struct.", sname);
        let ghost o1 = out@;
        let mut i: usize = 0;
        while i < fields.len()
            invariant
                i <= fields@.len(),
                out@ == o1 + struct_fields_text(dn@, st@, fields@, i as int, *info, *func),
            decreases fields.len() - i,
        {
            self.emit_struct_field(out, dn, st.as_str(), i, fields[i].0.as_str(), &fields[i].1, info, func);
            i = i + 1;
        }
    }
}

} // verus!
