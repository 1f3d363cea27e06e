//! LLVM IR text of the runtime builtins that are expanded inline rather
//! than called: numeric conversions, heap cells, raw memory access,
//! vectors and string access.
//!
//! Each expansion names its temporaries after the builtin and, where one
//! function may expand it several times, after a counter of its own kept
//! beside the SSA name counters.

use vstd::prelude::*;

use crate::codegen::instructions::{
    append_def, append_store, concat, concat3, def_line, fresh, is_local, known_operand_type, percent, store_line,
    FunctionInfo,
};
use crate::codegen::bytes::{char_at_text, load_u8_text, ord_text, store_u8_text, str_data_text, str_len_text};
use crate::codegen::calls::{bump_counter, counter_value};
use crate::codegen::vectors::{
    vec_free_text, vec_get_text, vec_new_text, vec_pop_text, vec_push_text, vec_set_text, vec_with_capacity_text,
    vec_word_text,
};
use crate::codegen::llvm_text::{llvm_type, operand_text_with_strings, TextCodeGen};
use crate::codegen::memory::{named_after, named_after_str};
use crate::codegen::names::{contains_name, count_map, NameMap};
use crate::codegen::terminator::{place_type_or, type_or};
use crate::mir::{Constant, MirFunction, Operand, Place};
use crate::text::{append_u64, dec_nat, push_str, str_eq};

verus! {

/// An argument of a builtin: a local's slot loaded as `ty` into `%<l>`,
/// else the operand's text (a string constant as its global).
pub open spec fn arg_load(
    info: FunctionInfo,
    op: Operand,
    l: Seq<char>,
    ty: Seq<char>,
    table: crate::codegen::names::NameMap<String>,
) -> (Seq<char>, Seq<char>) {
    match op {
        Operand::Place(p) => if is_local(info, p.name@) {
            (def_line(l, "load "@ + ty + ", ptr %"@ + p.name@ + ".addr"@), "%"@ + l)
        } else {
            (Seq::empty(), operand_text_with_strings(op, table))
        },
        _ => (Seq::empty(), operand_text_with_strings(op, table)),
    }
}

/// The result `op` of type `ty` given to the destination of a builtin:
/// into `%<l>` and stored into the slot of a local destination; else into
/// the destination itself, made unique first when `unique` is set.
pub open spec fn dest_result(
    info: FunctionInfo,
    dest: Option<Place>,
    l: Seq<char>,
    unique: bool,
    op: Seq<char>,
    ty: Seq<char>,
    counts: Map<Seq<char>, u32>,
) -> (Seq<char>, Map<Seq<char>, u32>) {
    match dest {
        None => (Seq::empty(), counts),
        Some(d) => if is_local(info, d.name@) {
            (def_line(l, op) + store_line(ty, "%"@ + l, d.name@), counts)
        } else if unique {
            let (n, c) = fresh(counts, d.name@);
            (def_line(n, op), c)
        } else {
            (def_line(d.name@, op), counts)
        },
    }
}

/// The name of a destination, or `tmp` without one.
pub open spec fn dest_or_tmp(dest: Option<Place>) -> Seq<char> {
    match dest {
        Some(d) => d.name@,
        None => "tmp"@,
    }
}

/// `name` with every leading `%` taken off.
pub open spec fn trim_percent(s: Seq<char>) -> Seq<char>
    decreases s.len(),
{
    if s.len() > 0 && s[0] == '%' {
        trim_percent(s.drop_first())
    } else {
        s
    }
}

/// The load name of the argument of a conversion builtin `name`.
pub open spec fn conv_arg_name(arg: Operand, name: Seq<char>) -> Seq<char> {
    match arg {
        Operand::Place(p) => p.name@ + "."@ + name + ".arg"@,
        _ => Seq::empty(),
    }
}

/// The instruction a one-argument conversion builtin computes from the
/// argument `v` of type `t`, and the type of its result; the square root
/// first widens a 64-bit integer to a double into `%<dest>.sqrt.conv`, and
/// `i64_to_f64` first sign-extends a 32-bit argument.
pub open spec fn conv_steps(name: Seq<char>, t: Seq<char>, v: Seq<char>, dest: Option<Place>) -> (Seq<char>, Seq<char>, Seq<char>) {
    if name == "sqrt"@ {
        let c = dest_or_tmp(dest) + ".sqrt.conv"@;
        let (pre, x) = if t == "i64"@ {
            (def_line(c, "sitofp i64 "@ + v + " to double"@), "%"@ + c)
        } else {
            (Seq::empty(), v)
        };
        (pre, "call double @llvm.sqrt.f64(double "@ + x + ")"@, "double"@)
    } else if name == "i64_to_f64"@ {
        let s = trim_percent(v) + "_sext"@;
        if t == "i32"@ {
            (def_line(s, "sext i32 "@ + v + " to i64"@), "sitofp i64 %"@ + s + " to double"@, "double"@)
        } else {
            (Seq::empty(), "sitofp "@ + t + " "@ + v + " to double"@, "double"@)
        }
    } else if name == "f64_to_i64"@ {
        (Seq::empty(), "fptosi double "@ + v + " to i64"@, "i64"@)
    } else if name == "i32_to_f64"@ {
        (Seq::empty(), "sitofp i32 "@ + v + " to double"@, "double"@)
    } else if name == "i32_to_i64"@ {
        (Seq::empty(), "sext i32 "@ + v + " to i64"@, "i64"@)
    } else {
        (Seq::empty(), "trunc i64 "@ + v + " to i32"@, "i32"@)
    }
}

/// Whether a builtin is a one-argument numeric conversion.
pub open spec fn is_conversion(name: Seq<char>) -> bool {
    name == "sqrt"@ || name == "i64_to_f64"@ || name == "f64_to_i64"@ || name == "i32_to_f64"@ || name
        == "i32_to_i64"@ || name == "i64_to_i32"@
}

/// A one-argument numeric conversion builtin, its result going to `dest`
/// (into `%<dest>.sqrt` or `%<dest>.conv` for a local destination).
pub open spec fn conversion_text(
    dest: Option<Place>,
    name: Seq<char>,
    arg: Operand,
    info: FunctionInfo,
    func: MirFunction,
    table: crate::codegen::names::NameMap<String>,
    counts: Map<Seq<char>, u32>,
) -> (Seq<char>, Map<Seq<char>, u32>) {
    let t = known_operand_type(info, func, arg);
    let (al, v) = arg_load(info, arg, conv_arg_name(arg, name), t, table);
    let (pre, op, rt) = conv_steps(name, t, v, dest);
    let suffix = if name == "sqrt"@ { ".sqrt"@ } else { ".conv"@ };
    let (r, c) = dest_result(info, dest, dest_or_tmp(dest) + suffix, true, op, rt, counts);
    (al + pre + r, c)
}

/// A counter of a builtin's expansions: its value before this one, and the
/// counters after it.
pub open spec fn bump(counts: Map<Seq<char>, u32>, key: Seq<char>) -> (u32, Map<Seq<char>, u32>) {
    let k = counter_value(counts, key);
    (k, counts.insert(key, ((k as int + 1) % 0x1_0000_0000) as u32))
}

/// Whether a name is a parameter of 32-bit integer type.
pub open spec fn is_narrowed_param(func: MirFunction, name: Seq<char>) -> bool {
    exists|i: int| 0 <= i < func.params@.len() && #[trigger] func.params@[i].0@ == name && llvm_type(func.params@[i].1) == "i32"@
}

/// A 64-bit argument of a builtin: a local's slot loaded into `%<l>`, a
/// 32-bit parameter sign-extended into `%<sx>`, else the operand's text.
pub open spec fn arg_load_wide(
    info: FunctionInfo,
    func: MirFunction,
    op: Operand,
    l: Seq<char>,
    sx: Seq<char>,
    table: NameMap<String>,
) -> (Seq<char>, Seq<char>) {
    match op {
        Operand::Place(p) => if is_local(info, p.name@) {
            (def_line(l, "load i64, ptr %"@ + p.name@ + ".addr"@), "%"@ + l)
        } else if is_narrowed_param(func, p.name@) {
            (def_line(sx, "sext i32 %"@ + p.name@ + " to i64"@), "%"@ + sx)
        } else {
            (Seq::empty(), operand_text_with_strings(op, table))
        },
        _ => (Seq::empty(), operand_text_with_strings(op, table)),
    }
}

/// `box_new_i64(v)`: a fresh eight-byte cell holding `v`, as an integer.
pub open spec fn box_new_text(
    dest: Option<Place>,
    arg: Operand,
    info: FunctionInfo,
    table: NameMap<String>,
    counts: Map<Seq<char>, u32>,
) -> (Seq<char>, Map<Seq<char>, u32>) {
    let (vl, v) = arg_load(info, arg, named_after(arg, ".box.val"@), "i64"@, table);
    let (k, c1) = bump(counts, "box_new"@);
    let m = "box.ptr."@ + dec_nat(k as nat);
    let (r, c2) = dest_result(info, dest, dest_or_tmp(dest) + ".box.conv"@, true, "ptrtoint ptr %"@ + m + " to i64"@, "i64"@, c1);
    (vl + def_line(m, "call ptr @malloc(i64 8)"@) + "  store i64 "@ + v + ", ptr %"@ + m + "\n"@ + r, c2)
}

/// `malloc(n)`: a fresh block of `n` bytes, as an integer.
pub open spec fn malloc_text(
    dest: Option<Place>,
    arg: Operand,
    info: FunctionInfo,
    func: MirFunction,
    table: NameMap<String>,
    counts: Map<Seq<char>, u32>,
) -> (Seq<char>, Map<Seq<char>, u32>) {
    let (sl, sz) = arg_load_wide(info, func, arg, named_after(arg, ".malloc.size"@), named_after(arg, ".malloc.sext"@), table);
    let (k, c1) = bump(counts, "malloc_op"@);
    let p = "malloc.ptr."@ + dec_nat(k as nat);
    let (r, c2) = dest_result(info, dest, "malloc.conv."@ + dec_nat(k as nat), true, "ptrtoint ptr %"@ + p + " to i64"@, "i64"@, c1);
    (sl + def_line(p, "call ptr @malloc(i64 "@ + sz + ")"@) + r, c2)
}

/// Whether a builtin's argument is a place of pointer type.
pub open spec fn is_ptr_arg(info: FunctionInfo, op: Operand) -> bool {
    match op {
        Operand::Place(p) => type_or(info.place_types, p.name@, "i64"@) == "ptr"@,
        _ => false,
    }
}

/// `free(p)` and `box_free_i64(p)`: the block at `p` freed, an integer
/// turned into a pointer first.
pub open spec fn free_text(
    arg: Operand,
    info: FunctionInfo,
    table: NameMap<String>,
    counts: Map<Seq<char>, u32>,
) -> (Seq<char>, Map<Seq<char>, u32>) {
    let l = named_after(arg, ".free.ptr"@);
    if is_ptr_arg(info, arg) {
        let (pl, v) = arg_load(info, arg, l, "ptr"@, table);
        (pl + "  call void @free(ptr "@ + v + ")\n"@, counts)
    } else {
        let (pl, v) = arg_load(info, arg, l, "i64"@, table);
        let (k, c1) = bump(counts, "free_ptr"@);
        let conv = "free_ptr."@ + dec_nat(k as nat);
        (pl + def_line(conv, "inttoptr i64 "@ + v + " to ptr"@) + "  call void @free(ptr %"@ + conv + ")\n"@, c1)
    }
}

/// The value of `store_i64`, numbered `k`: a 32-bit value sign-extended.
pub open spec fn stored_i64_value(
    op: Operand,
    k: Seq<char>,
    info: FunctionInfo,
    func: MirFunction,
    table: NameMap<String>,
) -> (Seq<char>, Seq<char>) {
    let vt = known_operand_type(info, func, op);
    match op {
        Operand::Place(p) => {
            let ext = p.name@ + ".store.ext."@ + k;
            let (load, v) = if is_local(info, p.name@) {
                let l = p.name@ + ".store.val."@ + k;
                (def_line(l, "load "@ + vt + ", ptr %"@ + p.name@ + ".addr"@), "%"@ + l)
            } else {
                (Seq::empty(), "%"@ + p.name@)
            };
            if vt == "i32"@ {
                (load + def_line(ext, "sext i32 "@ + v + " to i64"@), "%"@ + ext)
            } else {
                (load, v)
            }
        },
        _ => (Seq::empty(), operand_text_with_strings(op, table)),
    }
}

/// `store_i64(p, v)` and `box_set_i64(p, v)`: `v` written at the address
/// `p`.
pub open spec fn store_i64_text(
    ptr: Operand,
    val: Operand,
    info: FunctionInfo,
    func: MirFunction,
    table: NameMap<String>,
    counts: Map<Seq<char>, u32>,
) -> (Seq<char>, Map<Seq<char>, u32>) {
    let (k, c1) = bump(counts, "store_op"@);
    let ks = dec_nat(k as nat);
    let (pl, pv) = arg_load_wide(info, func, ptr, named_after(ptr, ".store.ptr."@ + ks), named_after(ptr, ".store.ptr.sext."@ + ks), table);
    let (vl, vv) = stored_i64_value(val, ks, info, func, table);
    let conv = "store_ptr."@ + ks;
    (pl + vl + def_line(conv, "inttoptr i64 "@ + pv + " to ptr"@) + "  store i64 "@ + vv + ", ptr %"@ + conv + "\n"@, c1)
}

/// `load_i64(p)` and `box_get_i64(p)`: the 64-bit value at the address
/// `p`.
pub open spec fn load_i64_text(
    dest: Option<Place>,
    ptr: Operand,
    info: FunctionInfo,
    func: MirFunction,
    table: NameMap<String>,
    counts: Map<Seq<char>, u32>,
) -> (Seq<char>, Map<Seq<char>, u32>) {
    let (k, c1) = bump(counts, "load_op"@);
    let ks = dec_nat(k as nat);
    let (pl, pv) = arg_load_wide(info, func, ptr, named_after(ptr, ".load.ptr."@ + ks), named_after(ptr, ".load.ptr.sext."@ + ks), table);
    let conv = "load_ptr."@ + ks;
    let (r, c2) = dest_result(info, dest, dest_or_tmp(dest) + ".load."@ + ks, true, "load i64, ptr %"@ + conv, "i64"@, c1);
    (pl + def_line(conv, "inttoptr i64 "@ + pv + " to ptr"@) + r, c2)
}

/// `load_f64(p)`: the double at the address `p`.
pub open spec fn load_f64_text(
    dest: Option<Place>,
    ptr: Operand,
    info: FunctionInfo,
    table: NameMap<String>,
    counts: Map<Seq<char>, u32>,
) -> (Seq<char>, Map<Seq<char>, u32>) {
    let (k, c1) = bump(counts, "load_f64_op"@);
    let ks = dec_nat(k as nat);
    let (pl, pv) = arg_load(info, ptr, named_after(ptr, ".load_f64.ptr."@ + ks), "i64"@, table);
    let conv = "load_f64_ptr."@ + ks;
    let (r, c2) = dest_result(info, dest, dest_or_tmp(dest) + ".load_f64."@ + ks, true, "load double, ptr %"@ + conv, "double"@, c1);
    (pl + def_line(conv, "inttoptr i64 "@ + pv + " to ptr"@) + r, c2)
}

/// `store_f64(p, v)`: the double `v` written at the address `p` (a float
/// constant in its shortest form).
pub open spec fn store_f64_text(
    ptr: Operand,
    val: Operand,
    info: FunctionInfo,
    table: NameMap<String>,
    counts: Map<Seq<char>, u32>,
) -> (Seq<char>, Map<Seq<char>, u32>) {
    let (k, c1) = bump(counts, "store_f64_op"@);
    let ks = dec_nat(k as nat);
    let (pl, pv) = arg_load(info, ptr, named_after(ptr, ".store_f64.ptr."@ + ks), "i64"@, table);
    let (vl, vv) = match val {
        Operand::Constant(Constant::Float(f)) => (Seq::empty(), f.short@),
        _ => arg_load(info, val, named_after(val, ".store_f64.val."@ + ks), "double"@, table),
    };
    let conv = "store_f64_ptr."@ + ks;
    (pl + vl + def_line(conv, "inttoptr i64 "@ + pv + " to ptr"@) + "  store double "@ + vv + ", ptr %"@ + conv + "\n"@, c1)
}

/// The expansion of a builtin call, its result going to `dest`.
pub open spec fn builtin_text(
    dest: Option<Place>,
    name: Seq<char>,
    args: Seq<Operand>,
    info: FunctionInfo,
    func: MirFunction,
    table: NameMap<String>,
    counts: Map<Seq<char>, u32>,
) -> (Seq<char>, Map<Seq<char>, u32>) {
    if args.len() == 1 && is_conversion(name) {
        conversion_text(dest, name, args[0], info, func, table, counts)
    } else if args.len() == 1 && name == "box_new_i64"@ {
        box_new_text(dest, args[0], info, table, counts)
    } else if args.len() == 1 && name == "malloc"@ {
        malloc_text(dest, args[0], info, func, table, counts)
    } else if args.len() == 1 && (name == "box_free_i64"@ || name == "free"@) {
        free_text(args[0], info, table, counts)
    } else if args.len() == 2 && (name == "store_i64"@ || name == "box_set_i64"@) {
        store_i64_text(args[0], args[1], info, func, table, counts)
    } else if args.len() == 1 && (name == "load_i64"@ || name == "box_get_i64"@) {
        load_i64_text(dest, args[0], info, func, table, counts)
    } else if args.len() == 2 && name == "store_f64"@ {
        store_f64_text(args[0], args[1], info, table, counts)
    } else if args.len() == 1 && name == "load_f64"@ {
        load_f64_text(dest, args[0], info, table, counts)
    } else if args.len() == 1 && name == "load_u8"@ {
        load_u8_text(dest, args[0], info, func, table, counts)
    } else if args.len() == 2 && name == "store_u8"@ {
        store_u8_text(args[0], args[1], info, func, table, counts)
    } else if args.len() == 1 && name == "str_data"@ {
        str_data_text(dest, args[0], info, table, counts)
    } else if args.len() == 0 && name == "vec_new"@ {
        vec_new_text(dest, info, counts)
    } else if args.len() == 1 && name == "vec_with_capacity"@ {
        vec_with_capacity_text(dest, args[0], info, table, counts)
    } else if args.len() == 1 && name == "vec_len"@ {
        vec_word_text(dest, args[0], "vec_len"@, "len"@, "1"@, info, table, counts)
    } else if args.len() == 1 && name == "vec_cap"@ {
        vec_word_text(dest, args[0], "vec_cap_read"@, "cap"@, "0"@, info, table, counts)
    } else if args.len() == 2 && name == "vec_get"@ {
        vec_get_text(dest, args[0], args[1], info, func, table, counts)
    } else if args.len() == 3 && name == "vec_set"@ {
        vec_set_text(args[0], args[1], args[2], info, func, table, counts)
    } else if args.len() == 2 && name == "vec_push"@ {
        vec_push_text(args[0], args[1], info, table, counts)
    } else if args.len() == 1 && name == "vec_pop"@ {
        vec_pop_text(dest, args[0], info, table, counts)
    } else if args.len() == 1 && name == "vec_free"@ {
        vec_free_text(args[0], info, table, counts)
    } else if args.len() == 1 && (name == "len"@ || name == "bmb_string_len"@) {
        str_len_text(dest, args[0], info, table, counts)
    } else if args.len() == 2 && (name == "char_at"@ || name == "byte_at"@ || name == "bmb_string_char_at"@) {
        char_at_text(dest, args[0], args[1], info, table, counts)
    } else if args.len() == 1 && (name == "ord"@ || name == "bmb_ord"@) {
        ord_text(dest, args[0], info, func, table, counts)
    } else {
        (Seq::empty(), counts)
    }
}

/// The text with its leading `%` signs taken off, as a new string.
fn trim_percent_str(s: &str) -> (r: String)
    ensures
        r@ == trim_percent(s@),
{
    let cs = crate::text::chars_of(s);
    let mut i: usize = 0;
    assert(s@.subrange(0, s@.len() as int) =~= s@);
    while i < cs.len() && cs[i] == '%'
        invariant
            i <= cs@.len(),
            cs@ == s@,
            trim_percent(s@) == trim_percent(s@.subrange(i as int, s@.len() as int)),
        decreases cs.len() - i,
    {
        assert(s@.subrange(i as int, s@.len() as int).drop_first() =~= s@.subrange(i + 1, s@.len() as int));
        i = i + 1;
    }
    let mut r = String::new();
    let mut k: usize = i;
    while k < cs.len()
        invariant
            i <= k <= cs@.len(),
            cs@ == s@,
            r@ == s@.subrange(i as int, k as int),
        decreases cs.len() - k,
    {
        crate::text::push_char(&mut r, cs[k]);
        k = k + 1;
        assert(r@ =~= s@.subrange(i as int, k as int));
    }
    assert(r@ =~= s@.subrange(i as int, s@.len() as int));
    assert(trim_percent(s@.subrange(i as int, s@.len() as int)) == s@.subrange(i as int, s@.len() as int));
    r
}

/// Whether a name is a parameter of 32-bit integer type.
pub(crate) fn narrowed_param(func: &MirFunction, name: &str, cg: &TextCodeGen) -> (r: bool)
    ensures
        r == is_narrowed_param(*func, name@),
{
    let mut i: usize = 0;
    while i < func.params.len()
        invariant
            i <= func.params@.len(),
            forall|j: int| 0 <= j < i ==> !(#[trigger] func.params@[j].0@ == name@ && llvm_type(func.params@[j].1) == "i32"@),
        decreases func.params.len() - i,
    {
        if crate::text::str_eq(func.params[i].0.as_str(), name) && crate::text::str_eq(
            cg.mir_type_to_llvm(&func.params[i].1),
            "i32",
        ) {
            return true;
        }
        i = i + 1;
    }
    false
}

/// Bumps a counter of a builtin's expansions; gives its value before, and
/// that value's decimal text.
pub(crate) fn bump_str(name_counts: &mut NameMap<u32>, key: &str) -> (r: (u32, String))
    ensures
        (r.0, count_map(*final(name_counts))) == bump(count_map(*old(name_counts)), key@),
        r.1@ == dec_nat(r.0 as nat),
{
    let k = bump_counter(name_counts, key);
    let mut s = String::new();
    append_u64(&mut s, k as u64);
    (k, s)
}

/// The name of a destination, or `tmp` without one.
pub(crate) fn dest_or_tmp_str(dest: &Option<Place>) -> (r: &str)
    ensures
        r@ == dest_or_tmp(*dest),
{
    match dest {
        Some(d) => d.name.as_str(),
        None => "tmp",
    }
}

impl TextCodeGen {
    /// Appends the reading of an argument of a builtin; gives its text.
    #[verifier::spinoff_prover]
    pub(crate) fn emit_arg_load(
        &self,
        out: &mut String,
        op: &Operand,
        l: &str,
        ty: &str,
        info: &FunctionInfo,
        table: &NameMap<String>,
    ) -> (v: String)
        ensures
            final(out)@ == old(out)@ + arg_load(*info, *op, l@, ty@, *table).0,
            v@ == arg_load(*info, *op, l@, ty@, *table).1,
    {
        match op {
            Operand::Place(p) => {
                if contains_name(&info.local_names, p.name.as_str()) {
                    let mut r = concat3("load ", ty, ", ptr %");
                    push_str(&mut r, p.name.as_str());
                    push_str(&mut r, ".addr");
                    append_def(out, l, r.as_str());
                    return percent(l);
                }
            },
            _ => {},
        }
        assert(final(out)@ =~= old(out)@);
        self.format_operand_with_strings(op, table)
    }

    /// Appends the giving of a builtin's result to its destination.
    #[verifier::spinoff_prover]
    pub(crate) fn emit_dest_result(
        &self,
        out: &mut String,
        dest: &Option<Place>,
        l: &str,
        unique: bool,
        op: &str,
        ty: &str,
        info: &FunctionInfo,
        name_counts: &mut NameMap<u32>,
    )
        ensures
            final(out)@ == old(out)@ + dest_result(*info, *dest, l@, unique, op@, ty@, count_map(*old(name_counts))).0,
            count_map(*final(name_counts)) == dest_result(*info, *dest, l@, unique, op@, ty@, count_map(*old(name_counts))).1,
    {
        match dest {
            None => {
                assert(final(out)@ =~= old(out)@);
            },
            Some(d) => {
                let dn = d.name.as_str();
                if contains_name(&info.local_names, dn) {
                    append_def(out, l, op);
                    let pl = percent(l);
                    append_store(out, ty, pl.as_str(), dn);
                } else if unique {
                    let n = self.unique_name(dn, name_counts);
                    append_def(out, n.as_str(), op);
                } else {
                    append_def(out, dn, op);
                }
            },
        }
    }

    /// Appends a one-argument numeric conversion builtin.
    #[verifier::spinoff_prover]
    pub fn emit_conversion(
        &self,
        out: &mut String,
        dest: &Option<Place>,
        name: &str,
        arg: &Operand,
        info: &FunctionInfo,
        func: &MirFunction,
        table: &NameMap<String>,
        name_counts: &mut NameMap<u32>,
    )
        requires
            is_conversion(name@),
        ensures
            final(out)@ == old(out)@ + conversion_text(*dest, name@, *arg, *info, *func, *table, count_map(*old(name_counts))).0,
            count_map(*final(name_counts)) == conversion_text(*dest, name@, *arg, *info, *func, *table, count_map(*old(name_counts))).1,
    {
        let t = info.operand_type(arg, func, self);
        let l = match arg {
            Operand::Place(p) => {
                let mut l = concat3(p.name.as_str(), ".", name);
                push_str(&mut l, ".arg");
                l
            },
            _ => String::new(),
        };
        assert(l@ == conv_arg_name(*arg, name@));
        let v = self.emit_arg_load(out, arg, l.as_str(), t, info, table);
        let dt = match dest {
            Some(d) => d.name.as_str(),
            None => "tmp",
        };
        let (op, rt): (String, &'static str) = if crate::text::str_eq(name, "sqrt") {
            let x = if crate::text::str_eq(t, "i64") {
                let c = concat(dt, ".sqrt.conv");
                let r = concat3("sitofp i64 ", v.as_str(), " to double");
                append_def(out, c.as_str(), r.as_str());
                percent(c.as_str())
            } else {
                v
            };
            (concat3("call double @llvm.sqrt.f64(double ", x.as_str(), ")"), "double")
        } else if crate::text::str_eq(name, "i64_to_f64") {
            if crate::text::str_eq(t, "i32") {
                let s = concat(trim_percent_str(v.as_str()).as_str(), "_sext");
                let r = concat3("sext i32 ", v.as_str(), " to i64");
                append_def(out, s.as_str(), r.as_str());
                (concat3("sitofp i64 %", s.as_str(), " to double"), "double")
            } else {
                let mut r = concat3("sitofp ", t, " ");
                push_str(&mut r, v.as_str());
                push_str(&mut r, " to double");
                (r, "double")
            }
        } else if crate::text::str_eq(name, "f64_to_i64") {
            (concat3("fptosi double ", v.as_str(), " to i64"), "i64")
        } else if crate::text::str_eq(name, "i32_to_f64") {
            (concat3("sitofp i32 ", v.as_str(), " to double"), "double")
        } else if crate::text::str_eq(name, "i32_to_i64") {
            (concat3("sext i32 ", v.as_str(), " to i64"), "i64")
        } else {
            (concat3("trunc i64 ", v.as_str(), " to i32"), "i32")
        };
        let l2 = concat(dt, if crate::text::str_eq(name, "sqrt") { ".sqrt" } else { ".conv" });
        self.emit_dest_result(out, dest, l2.as_str(), true, op.as_str(), rt, info, name_counts);
    }

    /// Appends the reading of a 64-bit argument of a builtin; gives its
    /// text.
    #[verifier::spinoff_prover]
    pub(crate) fn emit_arg_load_wide(
        &self,
        out: &mut String,
        op: &Operand,
        l: &str,
        sx: &str,
        info: &FunctionInfo,
        func: &MirFunction,
        table: &NameMap<String>,
    ) -> (v: String)
        ensures
            final(out)@ == old(out)@ + arg_load_wide(*info, *func, *op, l@, sx@, *table).0,
            v@ == arg_load_wide(*info, *func, *op, l@, sx@, *table).1,
    {
        match op {
            Operand::Place(p) => {
                let pn = p.name.as_str();
                if contains_name(&info.local_names, pn) {
                    let r = concat3("load i64, ptr %", pn, ".addr");
                    append_def(out, l, r.as_str());
                    return percent(l);
                } else if narrowed_param(func, pn, self) {
                    let r = concat3("sext i32 %", pn, " to i64");
                    append_def(out, sx, r.as_str());
                    return percent(sx);
                }
            },
            _ => {},
        }
        assert(final(out)@ =~= old(out)@);
        self.format_operand_with_strings(op, table)
    }

    /// Appends `box_new_i64`.
    #[verifier::spinoff_prover]
    pub fn emit_box_new(
        &self,
        out: &mut String,
        dest: &Option<Place>,
        arg: &Operand,
        info: &FunctionInfo,
        table: &NameMap<String>,
        name_counts: &mut NameMap<u32>,
    )
        ensures
            final(out)@ == old(out)@ + box_new_text(*dest, *arg, *info, *table, count_map(*old(name_counts))).0,
            count_map(*final(name_counts)) == box_new_text(*dest, *arg, *info, *table, count_map(*old(name_counts))).1,
    {
        let l = named_after_str(arg, ".box.val");
        let v = self.emit_arg_load(out, arg, l.as_str(), "i64", info, table);
        let (_k, ks) = bump_str(name_counts, "box_new");
        let m = concat("box.ptr.", ks.as_str());
        append_def(out, m.as_str(), "call ptr @malloc(i64 8)");
        push_str(out, "  store i64 ");
        push_str(out, v.as_str());
        push_str(out, ", ptr %");
        push_str(out, m.as_str());
        push_str(out, "\n");
        let l2 = concat(dest_or_tmp_str(dest), ".box.conv");
        let op = concat3("ptrtoint ptr %", m.as_str(), " to i64");
        self.emit_dest_result(out, dest, l2.as_str(), true, op.as_str(), "i64", info, name_counts);
    }

    /// Appends `malloc`.
    #[verifier::spinoff_prover]
    pub fn emit_malloc(
        &self,
        out: &mut String,
        dest: &Option<Place>,
        arg: &Operand,
        info: &FunctionInfo,
        func: &MirFunction,
        table: &NameMap<String>,
        name_counts: &mut NameMap<u32>,
    )
        ensures
            final(out)@ == old(out)@ + malloc_text(*dest, *arg, *info, *func, *table, count_map(*old(name_counts))).0,
            count_map(*final(name_counts)) == malloc_text(*dest, *arg, *info, *func, *table, count_map(*old(name_counts))).1,
    {
        let l = named_after_str(arg, ".malloc.size");
        let sx = named_after_str(arg, ".malloc.sext");
        let sz = self.emit_arg_load_wide(out, arg, l.as_str(), sx.as_str(), info, func, table);
        let (_k, ks) = bump_str(name_counts, "malloc_op");
        let p = concat("malloc.ptr.", ks.as_str());
        let r = concat3("call ptr @malloc(i64 ", sz.as_str(), ")");
        append_def(out, p.as_str(), r.as_str());
        let l2 = concat("malloc.conv.", ks.as_str());
        let op = concat3("ptrtoint ptr %", p.as_str(), " to i64");
        self.emit_dest_result(out, dest, l2.as_str(), true, op.as_str(), "i64", info, name_counts);
    }

    /// Appends `free` or `box_free_i64`.
    #[verifier::spinoff_prover]
    pub fn emit_free(
        &self,
        out: &mut String,
        arg: &Operand,
        info: &FunctionInfo,
        table: &NameMap<String>,
        name_counts: &mut NameMap<u32>,
    )
        ensures
            final(out)@ == old(out)@ + free_text(*arg, *info, *table, count_map(*old(name_counts))).0,
            count_map(*final(name_counts)) == free_text(*arg, *info, *table, count_map(*old(name_counts))).1,
    {
        let l = named_after_str(arg, ".free.ptr");
        let is_ptr = match arg {
            Operand::Place(p) => crate::text::str_eq(place_type_or(&info.place_types, p.name.as_str(), "i64"), "ptr"),
            _ => false,
        };
        if is_ptr {
            let v = self.emit_arg_load(out, arg, l.as_str(), "ptr", info, table);
            push_str(out, "  call void @free(ptr ");
            push_str(out, v.as_str());
            push_str(out, ")\n");
        } else {
            let v = self.emit_arg_load(out, arg, l.as_str(), "i64", info, table);
            let (_k, ks) = bump_str(name_counts, "free_ptr");
            let conv = concat("free_ptr.", ks.as_str());
            let r = concat3("inttoptr i64 ", v.as_str(), " to ptr");
            append_def(out, conv.as_str(), r.as_str());
            push_str(out, "  call void @free(ptr %");
            push_str(out, conv.as_str());
            push_str(out, ")\n");
        }
        assert(final(out)@ =~= old(out)@ + free_text(*arg, *info, *table, count_map(*old(name_counts))).0);
    }

    /// Appends the reading of the value of `store_i64`; gives its text.
    #[verifier::spinoff_prover]
    fn emit_stored_i64_value(
        &self,
        out: &mut String,
        op: &Operand,
        k: &str,
        info: &FunctionInfo,
        func: &MirFunction,
        table: &NameMap<String>,
    ) -> (v: String)
        ensures
            final(out)@ == old(out)@ + stored_i64_value(*op, k@, *info, *func, *table).0,
            v@ == stored_i64_value(*op, k@, *info, *func, *table).1,
    {
        let vt = info.operand_type(op, func, self);
        match op {
            Operand::Place(p) => {
                let pn = p.name.as_str();
                let v = if contains_name(&info.local_names, pn) {
                    let l = concat3(pn, ".store.val.", k);
                    let mut r = concat3("load ", vt, ", ptr %");
                    push_str(&mut r, pn);
                    push_str(&mut r, ".addr");
                    append_def(out, l.as_str(), r.as_str());
                    percent(l.as_str())
                } else {
                    percent(pn)
                };
                if crate::text::str_eq(vt, "i32") {
                    let ext = concat3(pn, ".store.ext.", k);
                    let r = concat3("sext i32 ", v.as_str(), " to i64");
                    append_def(out, ext.as_str(), r.as_str());
                    percent(ext.as_str())
                } else {
                    v
                }
            },
            _ => {
                assert(final(out)@ =~= old(out)@);
                self.format_operand_with_strings(op, table)
            },
        }
    }

    /// Appends `store_i64` or `box_set_i64`.
    #[verifier::spinoff_prover]
    pub fn emit_store_i64(
        &self,
        out: &mut String,
        ptr: &Operand,
        val: &Operand,
        info: &FunctionInfo,
        func: &MirFunction,
        table: &NameMap<String>,
        name_counts: &mut NameMap<u32>,
    )
        ensures
            final(out)@ == old(out)@ + store_i64_text(*ptr, *val, *info, *func, *table, count_map(*old(name_counts))).0,
            count_map(*final(name_counts)) == store_i64_text(*ptr, *val, *info, *func, *table, count_map(*old(name_counts))).1,
    {
        let (_k, ks) = bump_str(name_counts, "store_op");
        let l = named_after_str(ptr, concat(".store.ptr.", ks.as_str()).as_str());
        let sx = named_after_str(ptr, concat(".store.ptr.sext.", ks.as_str()).as_str());
        let pv = self.emit_arg_load_wide(out, ptr, l.as_str(), sx.as_str(), info, func, table);
        let vv = self.emit_stored_i64_value(out, val, ks.as_str(), info, func, table);
        let conv = concat("store_ptr.", ks.as_str());
        let r = concat3("inttoptr i64 ", pv.as_str(), " to ptr");
        append_def(out, conv.as_str(), r.as_str());
        push_str(out, "  store i64 ");
        push_str(out, vv.as_str());
        push_str(out, ", ptr %");
        push_str(out, conv.as_str());
        push_str(out, "\n");
        assert(final(out)@ =~= old(out)@ + store_i64_text(*ptr, *val, *info, *func, *table, count_map(*old(name_counts))).0);
    }

    /// Appends `load_i64` or `box_get_i64`.
    #[verifier::spinoff_prover]
    pub fn emit_load_i64(
        &self,
        out: &mut String,
        dest: &Option<Place>,
        ptr: &Operand,
        info: &FunctionInfo,
        func: &MirFunction,
        table: &NameMap<String>,
        name_counts: &mut NameMap<u32>,
    )
        ensures
            final(out)@ == old(out)@ + load_i64_text(*dest, *ptr, *info, *func, *table, count_map(*old(name_counts))).0,
            count_map(*final(name_counts)) == load_i64_text(*dest, *ptr, *info, *func, *table, count_map(*old(name_counts))).1,
    {
        let (_k, ks) = bump_str(name_counts, "load_op");
        let l = named_after_str(ptr, concat(".load.ptr.", ks.as_str()).as_str());
        let sx = named_after_str(ptr, concat(".load.ptr.sext.", ks.as_str()).as_str());
        let pv = self.emit_arg_load_wide(out, ptr, l.as_str(), sx.as_str(), info, func, table);
        let conv = concat("load_ptr.", ks.as_str());
        let r = concat3("inttoptr i64 ", pv.as_str(), " to ptr");
        append_def(out, conv.as_str(), r.as_str());
        let l2 = concat3(dest_or_tmp_str(dest), ".load.", ks.as_str());
        let op = concat("load i64, ptr %", conv.as_str());
        self.emit_dest_result(out, dest, l2.as_str(), true, op.as_str(), "i64", info, name_counts);
    }

    /// Appends `load_f64`.
    #[verifier::spinoff_prover]
    pub fn emit_load_f64(
        &self,
        out: &mut String,
        dest: &Option<Place>,
        ptr: &Operand,
        info: &FunctionInfo,
        table: &NameMap<String>,
        name_counts: &mut NameMap<u32>,
    )
        ensures
            final(out)@ == old(out)@ + load_f64_text(*dest, *ptr, *info, *table, count_map(*old(name_counts))).0,
            count_map(*final(name_counts)) == load_f64_text(*dest, *ptr, *info, *table, count_map(*old(name_counts))).1,
    {
        let (_k, ks) = bump_str(name_counts, "load_f64_op");
        let l = named_after_str(ptr, concat(".load_f64.ptr.", ks.as_str()).as_str());
        let pv = self.emit_arg_load(out, ptr, l.as_str(), "i64", info, table);
        let conv = concat("load_f64_ptr.", ks.as_str());
        let r = concat3("inttoptr i64 ", pv.as_str(), " to ptr");
        append_def(out, conv.as_str(), r.as_str());
        let l2 = concat3(dest_or_tmp_str(dest), ".load_f64.", ks.as_str());
        let op = concat("load double, ptr %", conv.as_str());
        self.emit_dest_result(out, dest, l2.as_str(), true, op.as_str(), "double", info, name_counts);
    }

    /// Appends `store_f64`.
    #[verifier::spinoff_prover]
    pub fn emit_store_f64(
        &self,
        out: &mut String,
        ptr: &Operand,
        val: &Operand,
        info: &FunctionInfo,
        table: &NameMap<String>,
        name_counts: &mut NameMap<u32>,
    )
        ensures
            final(out)@ == old(out)@ + store_f64_text(*ptr, *val, *info, *table, count_map(*old(name_counts))).0,
            count_map(*final(name_counts)) == store_f64_text(*ptr, *val, *info, *table, count_map(*old(name_counts))).1,
    {
        let (_k, ks) = bump_str(name_counts, "store_f64_op");
        let l = named_after_str(ptr, concat(".store_f64.ptr.", ks.as_str()).as_str());
        let pv = self.emit_arg_load(out, ptr, l.as_str(), "i64", info, table);
        let vv = match val {
            Operand::Constant(Constant::Float(f)) => f.short.as_str().to_owned(),
            _ => {
                let l2 = named_after_str(val, concat(".store_f64.val.", ks.as_str()).as_str());
                self.emit_arg_load(out, val, l2.as_str(), "double", info, table)
            },
        };
        let conv = concat("store_f64_ptr.", ks.as_str());
        let r = concat3("inttoptr i64 ", pv.as_str(), " to ptr");
        append_def(out, conv.as_str(), r.as_str());
        push_str(out, "  store double ");
        push_str(out, vv.as_str());
        push_str(out, ", ptr %");
        push_str(out, conv.as_str());
        push_str(out, "\n");
        assert(final(out)@ =~= old(out)@ + store_f64_text(*ptr, *val, *info, *table, count_map(*old(name_counts))).0);
    }

    /// Appends the expansion of a builtin call.
    #[verifier::spinoff_prover]
    pub fn emit_builtin(
        &self,
        out: &mut String,
        dest: &Option<Place>,
        name: &str,
        args: &Vec<Operand>,
        info: &FunctionInfo,
        func: &MirFunction,
        table: &NameMap<String>,
        name_counts: &mut NameMap<u32>,
    )
        ensures
            final(out)@ == old(out)@ + builtin_text(*dest, name@, args@, *info, *func, *table, count_map(*old(name_counts))).0,
            count_map(*final(name_counts)) == builtin_text(*dest, name@, args@, *info, *func, *table, count_map(*old(name_counts))).1,
    {
        let n = args.len();
        let is_conv = str_eq(name, "sqrt") || str_eq(name, "i64_to_f64") || str_eq(name, "f64_to_i64") || str_eq(
            name,
            "i32_to_f64",
        ) || str_eq(name, "i32_to_i64") || str_eq(name, "i64_to_i32");
        if n == 1 && is_conv {
            self.emit_conversion(out, dest, name, &args[0], info, func, table, name_counts);
        } else if n == 1 && str_eq(name, "box_new_i64") {
            self.emit_box_new(out, dest, &args[0], info, table, name_counts);
        } else if n == 1 && str_eq(name, "malloc") {
            self.emit_malloc(out, dest, &args[0], info, func, table, name_counts);
        } else if n == 1 && (str_eq(name, "box_free_i64") || str_eq(name, "free")) {
            self.emit_free(out, &args[0], info, table, name_counts);
        } else if n == 2 && (str_eq(name, "store_i64") || str_eq(name, "box_set_i64")) {
            self.emit_store_i64(out, &args[0], &args[1], info, func, table, name_counts);
        } else if n == 1 && (str_eq(name, "load_i64") || str_eq(name, "box_get_i64")) {
            self.emit_load_i64(out, dest, &args[0], info, func, table, name_counts);
        } else if n == 2 && str_eq(name, "store_f64") {
            self.emit_store_f64(out, &args[0], &args[1], info, table, name_counts);
        } else if n == 1 && str_eq(name, "load_f64") {
            self.emit_load_f64(out, dest, &args[0], info, table, name_counts);
        } else if n == 1 && str_eq(name, "load_u8") {
            self.emit_load_u8(out, dest, &args[0], info, func, table, name_counts);
        } else if n == 2 && str_eq(name, "store_u8") {
            self.emit_store_u8(out, &args[0], &args[1], info, func, table, name_counts);
        } else if n == 1 && str_eq(name, "str_data") {
            self.emit_str_data(out, dest, &args[0], info, table, name_counts);
        } else if n == 0 && str_eq(name, "vec_new") {
            self.emit_vec_new(out, dest, info, name_counts);
        } else if n == 1 && str_eq(name, "vec_with_capacity") {
            self.emit_vec_with_capacity(out, dest, &args[0], info, table, name_counts);
        } else if n == 1 && str_eq(name, "vec_len") {
            self.emit_vec_word(out, dest, &args[0], "vec_len", "len", "1", info, table, name_counts);
        } else if n == 1 && str_eq(name, "vec_cap") {
            self.emit_vec_word(out, dest, &args[0], "vec_cap_read", "cap", "0", info, table, name_counts);
        } else if n == 2 && str_eq(name, "vec_get") {
            self.emit_vec_get(out, dest, &args[0], &args[1], info, func, table, name_counts);
        } else if n == 3 && str_eq(name, "vec_set") {
            self.emit_vec_set(out, &args[0], &args[1], &args[2], info, func, table, name_counts);
        } else if n == 2 && str_eq(name, "vec_push") {
            self.emit_vec_push(out, &args[0], &args[1], info, table, name_counts);
        } else if n == 1 && str_eq(name, "vec_pop") {
            self.emit_vec_pop(out, dest, &args[0], info, table, name_counts);
        } else if n == 1 && str_eq(name, "vec_free") {
            self.emit_vec_free(out, &args[0], info, table, name_counts);
        } else if n == 1 && (str_eq(name, "len") || str_eq(name, "bmb_string_len")) {
            self.emit_str_len(out, dest, &args[0], info, table, name_counts);
        } else if n == 2 && (str_eq(name, "char_at") || str_eq(name, "byte_at") || str_eq(name, "bmb_string_char_at")) {
            self.emit_char_at(out, dest, &args[0], &args[1], info, table, name_counts);
        } else if n == 1 && (str_eq(name, "ord") || str_eq(name, "bmb_ord")) {
            self.emit_ord(out, dest, &args[0], info, func, table, name_counts);
        } else {
            assert(final(out)@ =~= old(out)@);
        }
    }
}

} // verus!
