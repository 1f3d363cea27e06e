//! LLVM IR text of MIR instructions: constants, copies, unary and binary
//! operations, casts, phi nodes and calls.
//!
//! Locals live in stack slots (`%<name>.addr`); every other place is an
//! SSA value. A name defined more than once gets a numbered suffix, counted
//! per function.

use vstd::prelude::*;

use crate::codegen::llvm_text::{
    binop_llvm, cast_instruction, constant_llvm_type, float_text, is_string_operand_spec, llvm_type, operand_text,
    operand_text_with_strings, place_llvm_type, unique_name_spec, TextCodeGen,
};
use crate::codegen::names::{bumped, contains_name, count_map, names_contain, NameMap};
use crate::codegen::terminator::{place_type_or, type_or};
use crate::mir::{Constant, MirBinOp, MirFunction, MirType, MirUnaryOp, Operand, Place};
use crate::text::{append_i64, append_u64, dec_int, dec_nat, push_str, str_eq};

verus! {

/// A name made unique for one more definition, and the counters after it.
pub open spec fn fresh(counts: Map<Seq<char>, u32>, name: Seq<char>) -> (Seq<char>, Map<Seq<char>, u32>) {
    let c = bumped(counts, name);
    (unique_name_spec(name, c), counts.insert(name, c))
}

/// A value of a phi node, keyed by the block holding the phi, the value's
/// name (or string) and the predecessor block it comes from.
pub struct PhiEntry<V> {
    pub block: String,
    pub value: String,
    pub pred: String,
    pub data: V,
}

/// The data stored for a phi value key, if any (the first entry with that
/// key).
pub open spec fn phi_find<V>(entries: Seq<PhiEntry<V>>, b: Seq<char>, v: Seq<char>, p: Seq<char>) -> Option<V>
    decreases entries.len(),
{
    if entries.len() == 0 {
        None
    } else if entries[0].block@ == b && entries[0].value@ == v && entries[0].pred@ == p {
        Some(entries[0].data)
    } else {
        phi_find(entries.drop_first(), b, v, p)
    }
}

/// How the phi value of a local or a coerced value is named, and its
/// types.
pub struct Coercion {
    pub temp: String,
    pub from_ty: &'static str,
    pub to_ty: &'static str,
}

/// What the code generator knows of the function being emitted.
pub struct FunctionInfo {
    /// The LLVM type of each place that has one recorded
    pub place_types: NameMap<&'static str>,
    /// The locals that live in stack slots
    pub local_names: Vec<String>,
    /// The LLVM aggregate type of each place that holds a tuple
    pub tuple_var_types: NameMap<String>,
    /// Loads of locals before the terminators of phi predecessors
    pub phi_loads: Vec<PhiEntry<String>>,
    /// String constants used as phi values, by their temporaries
    pub phi_strings: Vec<PhiEntry<String>>,
    /// Phi values widened before the terminators of their predecessors
    pub phi_coercions: Vec<PhiEntry<Coercion>>,
}

/// What the code generator knows of the whole program.
pub struct ProgramInfo {
    /// The global of each string constant
    pub string_table: NameMap<String>,
    /// The LLVM return type of each function
    pub fn_return_types: NameMap<&'static str>,
    /// The LLVM parameter types of each function
    pub fn_param_types: NameMap<Vec<&'static str>>,
    /// The field count of each function returning a struct of 3+ fields
    pub sret_functions: NameMap<usize>,
    /// The field count of each function returning a struct of 1-2 fields
    pub small_struct_functions: NameMap<usize>,
    /// The LLVM aggregate type of each function returning a tuple
    pub tuple_functions: NameMap<String>,
    /// The LLVM types of the fields of each struct, in order
    pub struct_field_types: NameMap<Vec<&'static str>>,
}

/// Whether a name is a local with a stack slot.
pub open spec fn is_local(info: FunctionInfo, name: Seq<char>) -> bool {
    names_contain(info.local_names@, name)
}

/// The LLVM type of a place: the one recorded, else its declared type.
pub open spec fn known_place_type(info: FunctionInfo, func: MirFunction, name: Seq<char>) -> Seq<char> {
    type_or(info.place_types, name, place_llvm_type(func, name))
}

/// The LLVM type of an operand: a constant's type, or its place's.
pub open spec fn known_operand_type(info: FunctionInfo, func: MirFunction, op: Operand) -> Seq<char> {
    match op {
        Operand::Constant(c) => constant_llvm_type(c),
        Operand::Place(p) => known_place_type(info, func, p.name@),
    }
}

/// `  store <ty> <val>, ptr %<name>.addr`
pub open spec fn store_line(ty: Seq<char>, val: Seq<char>, name: Seq<char>) -> Seq<char> {
    "  store "@ + ty + " "@ + val + ", ptr %"@ + name + ".addr\n"@
}

/// `  %<d> = <rest>`
pub open spec fn def_line(d: Seq<char>, rest: Seq<char>) -> Seq<char> {
    "  %"@ + d + " = "@ + rest + "\n"@
}

/// The value of a constant as stored into a slot.
pub open spec fn const_value_text(c: Constant) -> Seq<char> {
    match c {
        Constant::Int(n) => dec_int(n as int),
        Constant::Bool(b) => if b { "1"@ } else { "0"@ },
        Constant::Float(f) => float_text(f),
        Constant::Char(ch) => dec_nat(ch as nat),
        _ => Seq::empty(),
    }
}

/// A constant assigned to `dest`.
pub open spec fn const_text(
    dest: Seq<char>,
    value: Constant,
    info: FunctionInfo,
    table: NameMap<String>,
    counts: Map<Seq<char>, u32>,
) -> (Seq<char>, Map<Seq<char>, u32>) {
    let ct = constant_llvm_type(value);
    if is_local(info, dest) {
        let dt = type_or(info.place_types, dest, ct);
        match value {
            Constant::Unit => ("  store i8 0, ptr %"@ + dest + ".addr\n"@, counts),
            Constant::String(s) => match table.lookup(s@) {
                Some(g) => {
                    let (t, c1) = fresh(counts, dest + ".tmp"@);
                    (
                        def_line(t, "getelementptr %BmbString, ptr @"@ + g@ + ".bmb, i32 0"@)
                            + store_line("ptr"@, "%"@ + t, dest),
                        c1,
                    )
                },
                None => (
                    "  ; string constant not in table: "@ + s@ + "\n"@ + "  store ptr null, ptr %"@
                        + dest + ".addr\n"@,
                    counts,
                ),
            },
            _ => (store_line(dt, const_value_text(value), dest), counts),
        }
    } else {
        let (d, c1) = fresh(counts, dest);
        let text = match value {
            Constant::Float(f) => def_line(d, "fadd fast "@ + ct + " 0.0, "@ + float_text(f)),
            Constant::Unit => def_line(d, "add i8 0, 0"@),
            Constant::String(s) => match table.lookup(s@) {
                Some(g) => def_line(d, "getelementptr %BmbString, ptr @"@ + g@ + ".bmb, i32 0"@),
                None => "  ; string constant not in table: "@ + s@ + "\n"@,
            },
            _ => def_line(d, "add "@ + ct + " 0, "@ + const_value_text(value)),
        };
        (text, c1)
    }
}

/// A load of the slot of `name` into a fresh temporary named after `base`:
/// the load, the temporary's text and the counters after it.
pub open spec fn fresh_load(
    counts: Map<Seq<char>, u32>,
    base: Seq<char>,
    ty: Seq<char>,
    name: Seq<char>,
) -> (Seq<char>, Seq<char>, Map<Seq<char>, u32>) {
    let (l, c) = fresh(counts, base);
    (def_line(l, "load "@ + ty + ", ptr %"@ + name + ".addr"@), "%"@ + l, c)
}

/// The store of `%<d>` of type `ty` into the slot of `dest`, if it has
/// one.
pub open spec fn store_if_local(info: FunctionInfo, dest: Seq<char>, ty: Seq<char>, d: Seq<char>) -> Seq<char> {
    if is_local(info, dest) {
        store_line(ty, "%"@ + d, dest)
    } else {
        Seq::empty()
    }
}

/// The type a copy moves: the source's tuple type, else its place type.
pub open spec fn copy_type(info: FunctionInfo, func: MirFunction, src: Seq<char>) -> Seq<char> {
    match info.tuple_var_types.lookup(src) {
        Some(t) => t@,
        None => known_place_type(info, func, src),
    }
}

/// The value `v` of type `ty` copied into `dest`.
pub open spec fn copy_into(
    info: FunctionInfo,
    dest: Seq<char>,
    ty: Seq<char>,
    v: Seq<char>,
    counts: Map<Seq<char>, u32>,
) -> (Seq<char>, Map<Seq<char>, u32>) {
    if is_local(info, dest) {
        let dt = type_or(info.place_types, dest, ty);
        if ty == "i64"@ && dt == "i32"@ {
            let (t, c) = fresh(counts, dest + ".trunc"@);
            (def_line(t, "trunc i64 "@ + v + " to i32"@) + store_line("i32"@, "%"@ + t, dest), c)
        } else if ty == "i32"@ && dt == "i64"@ {
            let (t, c) = fresh(counts, dest + ".sext"@);
            (def_line(t, "sext i32 "@ + v + " to i64"@) + store_line("i64"@, "%"@ + t, dest), c)
        } else {
            (store_line(ty, v, dest), counts)
        }
    } else {
        let (d, c) = fresh(counts, dest);
        let rest = if ty == "ptr"@ {
            "select i1 true, ptr "@ + v + ", ptr null"@
        } else if ty == "f64"@ {
            "fadd fast "@ + ty + " "@ + v + ", 0.0"@
        } else {
            "add "@ + ty + " "@ + v + ", 0"@
        };
        (def_line(d, rest), c)
    }
}

/// A copy of `src` into `dest`.
pub open spec fn copy_text(
    dest: Seq<char>,
    src: Seq<char>,
    info: FunctionInfo,
    func: MirFunction,
    counts: Map<Seq<char>, u32>,
) -> (Seq<char>, Map<Seq<char>, u32>) {
    let ty = copy_type(info, func, src);
    if ty == "void"@ {
        (Seq::empty(), counts)
    } else {
        let (load, v, c1) = if is_local(info, src) {
            fresh_load(counts, src + ".load"@, ty, src)
        } else {
            (Seq::empty(), "%"@ + src, counts)
        };
        let (t, c2) = copy_into(info, dest, ty, v, c1);
        (load + t, c2)
    }
}

/// An operand read for an instruction: a load of its slot into `%<l>` for
/// a local, else the operand's text.
pub open spec fn operand_read(info: FunctionInfo, op: Operand, ty: Seq<char>, l: Seq<char>) -> (Seq<char>, Seq<char>) {
    match op {
        Operand::Place(p) => if is_local(info, p.name@) {
            (def_line(l, "load "@ + ty + ", ptr %"@ + p.name@ + ".addr"@), "%"@ + l)
        } else {
            (Seq::empty(), operand_text(op))
        },
        _ => (Seq::empty(), operand_text(op)),
    }
}

/// The operation part of a unary instruction on `s` of type `ty`.
pub open spec fn unary_rest(op: MirUnaryOp, ty: Seq<char>, s: Seq<char>) -> Seq<char> {
    match op {
        MirUnaryOp::Neg => "sub "@ + ty + " 0, "@ + s,
        MirUnaryOp::FNeg => "fsub fast "@ + ty + " 0.0, "@ + s,
        MirUnaryOp::Not => "xor i1 "@ + s + ", 1"@,
        MirUnaryOp::Bnot => "xor "@ + ty + " "@ + s + ", -1"@,
    }
}


/// An LLVM binary instruction, `<opcode> <ty> <lhs>, <rhs>`: it computes
/// `lhs <opcode> rhs` on values of type `ty`.
pub open spec fn llvm_binary(opcode: Seq<char>, ty: Seq<char>, lhs: Seq<char>, rhs: Seq<char>) -> Seq<char> {
    opcode + " "@ + ty + " "@ + lhs + ", "@ + rhs
}

/// Unary operations are binary instructions with a constant: negation
/// subtracts the operand from zero (`0 - x`, `0.0 - x`), so its value is
/// `-x`; logical not flips the one bit of an `i1` by `xor` with 1; bitwise
/// not flips every bit by `xor` with -1 (all ones).
pub proof fn lemma_unary_ops_lowered(ty: Seq<char>, s: Seq<char>)
    ensures
        unary_rest(MirUnaryOp::Neg, ty, s) == llvm_binary("sub"@, ty, "0"@, s),
        unary_rest(MirUnaryOp::FNeg, ty, s) == llvm_binary("fsub fast"@, ty, "0.0"@, s),
        unary_rest(MirUnaryOp::Not, ty, s) == llvm_binary("xor"@, "i1"@, s, "1"@),
        unary_rest(MirUnaryOp::Bnot, ty, s) == llvm_binary("xor"@, ty, s, "-1"@),
{
    reveal_strlit(" ");
    reveal_strlit(", ");
    reveal_strlit("sub ");
    reveal_strlit("sub");
    reveal_strlit(" 0, ");
    reveal_strlit("0");
    reveal_strlit("fsub fast ");
    reveal_strlit("fsub fast");
    reveal_strlit(" 0.0, ");
    reveal_strlit("0.0");
    reveal_strlit("xor i1 ");
    reveal_strlit("xor");
    reveal_strlit("i1");
    reveal_strlit(", 1");
    reveal_strlit("1");
    reveal_strlit("xor ");
    reveal_strlit(", -1");
    reveal_strlit("-1");
    assert(unary_rest(MirUnaryOp::Neg, ty, s) =~= llvm_binary("sub"@, ty, "0"@, s));
    assert(unary_rest(MirUnaryOp::FNeg, ty, s) =~= llvm_binary("fsub fast"@, ty, "0.0"@, s));
    assert(unary_rest(MirUnaryOp::Not, ty, s) =~= llvm_binary("xor"@, "i1"@, s, "1"@));
    assert(unary_rest(MirUnaryOp::Bnot, ty, s) =~= llvm_binary("xor"@, ty, s, "-1"@));
}

/// The name of the load of a unary instruction's local operand.
pub open spec fn unary_load_name(d: Seq<char>, src: Operand) -> Seq<char> {
    match src {
        Operand::Place(p) => d + "."@ + p.name@ + ".unary"@,
        _ => Seq::empty(),
    }
}

/// A unary operation on `src` into `dest`.
pub open spec fn unary_text(
    dest: Seq<char>,
    op: MirUnaryOp,
    src: Operand,
    info: FunctionInfo,
    func: MirFunction,
    counts: Map<Seq<char>, u32>,
) -> (Seq<char>, Map<Seq<char>, u32>) {
    let (d, c1) = fresh(counts, dest);
    let ty = match src {
        Operand::Constant(c) => constant_llvm_type(c),
        Operand::Place(p) => place_llvm_type(func, p.name@),
    };
    let (load, s) = operand_read(info, src, ty, unary_load_name(d, src));
    let rt = if op is Not { "i1"@ } else { ty };
    (load + def_line(d, unary_rest(op, ty, s)) + store_if_local(info, dest, rt, d), c1)
}

/// The source of a cast: a fresh load of a local's slot, else the
/// operand's text.
pub open spec fn cast_source(
    dest: Seq<char>,
    src: Operand,
    from: Seq<char>,
    info: FunctionInfo,
    counts: Map<Seq<char>, u32>,
) -> (Seq<char>, Seq<char>, Map<Seq<char>, u32>) {
    match src {
        Operand::Place(p) => if is_local(info, p.name@) {
            fresh_load(counts, dest + "_cast_load"@, from, p.name@)
        } else {
            (Seq::empty(), operand_text(src), counts)
        },
        _ => (Seq::empty(), operand_text(src), counts),
    }
}

/// A cast of `src` from `from` to `to` into `dest`.
pub open spec fn cast_text(
    dest: Seq<char>,
    src: Operand,
    from: MirType,
    to: MirType,
    info: FunctionInfo,
    counts: Map<Seq<char>, u32>,
) -> (Seq<char>, Map<Seq<char>, u32>) {
    let (load, s, c1) = cast_source(dest, src, llvm_type(from), info, counts);
    let (d, c2) = fresh(c1, dest);
    let rest = cast_instruction(from, to) + " "@ + llvm_type(from) + " "@ + s + " to "@ + llvm_type(to);
    let (t, c3) = if is_local(info, dest) {
        fresh(c2, dest + "_cast"@)
    } else {
        (d, c2)
    };
    (load + def_line(t, rest) + store_if_local(info, dest, llvm_type(to), t), c3)
}

/// An operand read for a binary operation: a load of a local's slot into
/// `%<l>`, else the operand's text with strings referring to globals.
pub open spec fn operand_read_str(
    info: FunctionInfo,
    op: Operand,
    ty: Seq<char>,
    l: Seq<char>,
    table: NameMap<String>,
) -> (Seq<char>, Seq<char>) {
    match op {
        Operand::Place(p) => if is_local(info, p.name@) {
            (def_line(l, "load "@ + ty + ", ptr %"@ + p.name@ + ".addr"@), "%"@ + l)
        } else {
            (Seq::empty(), operand_text_with_strings(op, table))
        },
        _ => (Seq::empty(), operand_text_with_strings(op, table)),
    }
}

/// The name of the load of a binary operand (`side` is `lhs` or `rhs`).
pub open spec fn side_load_name(d: Seq<char>, op: Operand, side: Seq<char>) -> Seq<char> {
    match op {
        Operand::Place(p) => d + "."@ + p.name@ + "."@ + side,
        _ => Seq::empty(),
    }
}

/// A string operand of a string operation: a string constant in the table
/// as its `BmbString` global, anything else as read.
pub open spec fn string_arg(op: Operand, table: NameMap<String>, read: Seq<char>) -> Seq<char> {
    match op {
        Operand::Constant(Constant::String(s)) => match table.lookup(s@) {
            Some(g) => "@"@ + g@ + ".bmb"@,
            None => read,
        },
        _ => read,
    }
}

/// A pointer operand of a pointer comparison: the integer zero as `null`.
pub open spec fn null_arg(op: Operand, read: Seq<char>) -> Seq<char> {
    match op {
        Operand::Constant(Constant::Int(0)) => "null"@,
        _ => read,
    }
}

/// The instruction for a binary operator on doubles.
pub open spec fn float_op_text(op: MirBinOp) -> Seq<char> {
    match op {
        MirBinOp::Add | MirBinOp::FAdd => "fadd fast"@,
        MirBinOp::Sub | MirBinOp::FSub => "fsub fast"@,
        MirBinOp::Mul | MirBinOp::FMul => "fmul fast"@,
        MirBinOp::Div | MirBinOp::FDiv => "fdiv fast"@,
        MirBinOp::Mod => "frem"@,
        MirBinOp::Eq | MirBinOp::FEq => "fcmp oeq"@,
        MirBinOp::Ne | MirBinOp::FNe => "fcmp one"@,
        MirBinOp::Lt | MirBinOp::FLt => "fcmp olt"@,
        MirBinOp::Gt | MirBinOp::FGt => "fcmp ogt"@,
        MirBinOp::Le | MirBinOp::FLe => "fcmp ole"@,
        MirBinOp::Ge | MirBinOp::FGe => "fcmp oge"@,
        _ => binop_llvm(op).0,
    }
}

/// Whether an operand is an integer constant that fits in 32 bits.
pub open spec fn is_i32_constant(op: Operand) -> bool {
    match op {
        Operand::Constant(Constant::Int(v)) => -0x8000_0000 <= v <= 0x7fff_ffff,
        _ => false,
    }
}

/// Operands of mixed 32- and 64-bit integer types brought to one type:
/// kept in 32 bits when the 64-bit one is a constant that fits, else the
/// 32-bit one sign-extended. Gives the extension, the two operands and
/// the type.
pub open spec fn widen_operands(
    lt: Seq<char>,
    rt: Seq<char>,
    lhs: Operand,
    rhs: Operand,
    ls: Seq<char>,
    rs: Seq<char>,
    d: Seq<char>,
) -> (Seq<char>, Seq<char>, Seq<char>, Seq<char>) {
    if lt == "i32"@ && rt == "i64"@ {
        if is_i32_constant(rhs) {
            (Seq::empty(), ls, rs, "i32"@)
        } else {
            (def_line(d + ".lhs.sext"@, "sext i32 "@ + ls + " to i64"@), "%"@ + d + ".lhs.sext"@, rs, "i64"@)
        }
    } else if lt == "i64"@ && rt == "i32"@ {
        if is_i32_constant(lhs) {
            (Seq::empty(), ls, rs, "i32"@)
        } else {
            (def_line(d + ".rhs.sext"@, "sext i32 "@ + rs + " to i64"@), ls, "%"@ + d + ".rhs.sext"@, "i64"@)
        }
    } else {
        (Seq::empty(), ls, rs, lt)
    }
}

/// The instructions of a binary operation after its operands are read
/// (`ls`, `rs`, of types `lt`, `rt`), into the SSA name `d`.
pub open spec fn binop_body(
    dest: Seq<char>,
    d: Seq<char>,
    op: MirBinOp,
    lhs: Operand,
    rhs: Operand,
    lt: Seq<char>,
    rt: Seq<char>,
    ls: Seq<char>,
    rs: Seq<char>,
    info: FunctionInfo,
    func: MirFunction,
    table: NameMap<String>,
) -> Seq<char> {
    let ptr = lt == "ptr"@ || rt == "ptr"@;
    if ptr && op is Add {
        def_line(d, "call ptr @bmb_string_concat(ptr "@ + string_arg(lhs, table, ls) + ", ptr "@
            + string_arg(rhs, table, rs) + ")"@) + store_if_local(info, dest, "ptr"@, d)
    } else if ptr && (op is Eq || op is Ne) {
        let cmp = if is_string_operand_spec(func, lhs) || is_string_operand_spec(func, rhs) {
            def_line(d + ".i64"@, "call i64 @bmb_string_eq(ptr "@ + string_arg(lhs, table, ls)
                + ", ptr "@ + string_arg(rhs, table, rs) + ")"@) + def_line(
                d,
                (if op is Eq { "icmp ne"@ } else { "icmp eq"@ }) + " i64 %"@ + d + ".i64, 0"@,
            )
        } else {
            def_line(d, (if op is Eq { "icmp eq"@ } else { "icmp ne"@ }) + " ptr "@ + null_arg(lhs, ls)
                + ", "@ + null_arg(rhs, rs))
        };
        cmp + store_if_local(info, dest, "i1"@, d)
    } else if op is Implies {
        def_line(d + ".not"@, "xor i1 "@ + ls + ", true"@) + def_line(d, "or i1 %"@ + d + ".not, "@ + rs)
            + store_if_local(info, dest, "i1"@, d)
    } else {
        let ops = if lt == "double"@ || lt == "f64"@ {
            float_op_text(op)
        } else {
            binop_llvm(op).0
        };
        let (pre, fl, fr, ft) = widen_operands(lt, rt, lhs, rhs, ls, rs, d);
        pre + def_line(d, ops + " "@ + ft + " "@ + fl + ", "@ + fr) + store_if_local(
            info,
            dest,
            type_or(info.place_types, dest, ft),
            d,
        )
    }
}

/// A binary operation into `dest`.
pub open spec fn binop_text(
    dest: Seq<char>,
    op: MirBinOp,
    lhs: Operand,
    rhs: Operand,
    info: FunctionInfo,
    func: MirFunction,
    table: NameMap<String>,
    counts: Map<Seq<char>, u32>,
) -> (Seq<char>, Map<Seq<char>, u32>) {
    let (d, c1) = fresh(counts, dest);
    let lt = known_operand_type(info, func, lhs);
    let rt = known_operand_type(info, func, rhs);
    let (ll, ls) = operand_read_str(info, lhs, lt, side_load_name(d, lhs, "lhs"@), table);
    let (rl, rs) = operand_read_str(info, rhs, rt, side_load_name(d, rhs, "rhs"@), table);
    (ll + rl + binop_body(dest, d, op, lhs, rhs, lt, rt, ls, rs, info, func, table), c1)
}

/// The aggregate type of the first phi value that is a tuple place.
pub open spec fn first_tuple_type(values: Seq<(Operand, String)>, info: FunctionInfo) -> Option<Seq<char>>
    decreases values.len(),
{
    if values.len() == 0 {
        None
    } else {
        match values[0].0 {
            Operand::Place(p) => match info.tuple_var_types.lookup(p.name@) {
                Some(t) => Some(t@),
                None => first_tuple_type(values.drop_first(), info),
            },
            _ => first_tuple_type(values.drop_first(), info),
        }
    }
}

/// The type of a phi node: a tuple type among its values, else the type
/// recorded for its destination, else its first value's type (`i64`
/// without values).
pub open spec fn phi_type(
    dest: Seq<char>,
    values: Seq<(Operand, String)>,
    info: FunctionInfo,
    func: MirFunction,
) -> Seq<char> {
    match first_tuple_type(values, info) {
        Some(t) => t,
        None => match info.place_types.lookup(dest) {
            Some(t) => t@,
            None => if values.len() > 0 {
                known_operand_type(info, func, values[0].0)
            } else {
                "i64"@
            },
        },
    }
}

/// How a phi value coming from `label` into the block `block` is written.
pub open spec fn phi_value_text(
    val: Operand,
    label: Seq<char>,
    info: FunctionInfo,
    table: NameMap<String>,
    block: Seq<char>,
) -> Seq<char> {
    match val {
        Operand::Place(p) => match phi_find(info.phi_coercions@, block, p.name@, label) {
            Some(c) => "%"@ + c.temp@,
            None => if is_local(info, p.name@) {
                "%"@ + p.name@ + ".phi."@ + label
            } else {
                operand_text_with_strings(val, table)
            },
        },
        Operand::Constant(Constant::String(s)) => match phi_find(info.phi_strings@, block, s@, label) {
            Some(t) => "%"@ + t@,
            None => operand_text_with_strings(val, table),
        },
        _ => operand_text_with_strings(val, table),
    }
}

/// The incoming values of a phi node, separated by `, `.
pub open spec fn phi_args_text(
    values: Seq<(Operand, String)>,
    info: FunctionInfo,
    table: NameMap<String>,
    block: Seq<char>,
) -> Seq<char>
    decreases values.len(),
{
    if values.len() == 0 {
        Seq::empty()
    } else {
        let v = values.last();
        let arg = "[ "@ + phi_value_text(v.0, v.1@, info, table, block) + ", %bb_"@ + v.1@ + " ]"@;
        if values.len() == 1 {
            arg
        } else {
            phi_args_text(values.drop_last(), info, table, block) + ", "@ + arg
        }
    }
}

/// A phi node in the block `block` into `dest`.
pub open spec fn phi_text(
    dest: Seq<char>,
    values: Seq<(Operand, String)>,
    info: FunctionInfo,
    func: MirFunction,
    table: NameMap<String>,
    block: Seq<char>,
    counts: Map<Seq<char>, u32>,
) -> (Seq<char>, Map<Seq<char>, u32>) {
    let (d, c1) = fresh(counts, dest);
    (
        def_line(d, "phi "@ + phi_type(dest, values, info, func) + " "@ + phi_args_text(values, info, table, block)),
        c1,
    )
}

/// If no entry before position `i` has the key, looking the key up in
/// the whole list is looking it up from position `i` on.
proof fn lemma_phi_find_skip<V>(entries: Seq<PhiEntry<V>>, b: Seq<char>, v: Seq<char>, p: Seq<char>, i: int)
    requires
        0 <= i <= entries.len(),
        forall|k: int|
            0 <= k < i ==> !(entries[k].block@ == b && entries[k].value@ == v && entries[k].pred@ == p),
    ensures
        phi_find(entries, b, v, p) == phi_find(entries.subrange(i, entries.len() as int), b, v, p),
    decreases i,
{
    if i == 0 {
        assert(entries.subrange(0, entries.len() as int) =~= entries);
    } else {
        lemma_phi_find_skip(entries.drop_first(), b, v, p, i - 1);
        assert(entries.drop_first().subrange(i - 1, entries.drop_first().len() as int)
            =~= entries.subrange(i, entries.len() as int));
    }
}

/// The data stored for a phi value key.
pub fn find_phi<'a, V>(entries: &'a Vec<PhiEntry<V>>, b: &str, v: &str, p: &str) -> (r: Option<&'a V>)
    ensures
        match r {
            Some(x) => phi_find(entries@, b@, v@, p@) == Some(*x),
            None => phi_find(entries@, b@, v@, p@) is None,
        },
{
    let mut i: usize = 0;
    while i < entries.len()
        invariant
            i <= entries.len(),
            forall|k: int|
                0 <= k < i ==> !(entries@[k].block@ == b@ && entries@[k].value@ == v@
                    && entries@[k].pred@ == p@),
        decreases entries.len() - i,
    {
        let e = &entries[i];
        if str_eq(e.block.as_str(), b) && str_eq(e.value.as_str(), v) && str_eq(e.pred.as_str(), p) {
            proof {
                lemma_phi_find_skip(entries@, b@, v@, p@, i as int);
            }
            return Some(&e.data);
        }
        i = i + 1;
    }
    proof {
        lemma_phi_find_skip(entries@, b@, v@, p@, i as int);
    }
    None
}

/// Appends `  %<d> = ` (the start of a definition line).
pub(crate) fn append_def_start(out: &mut String, d: &str)
    ensures
        final(out)@ == old(out)@ + "  %"@ + d@ + " = "@,
{
    push_str(out, "  %");
    push_str(out, d);
    push_str(out, " = ");
}

/// Appends a store line.
pub(crate) fn append_store(out: &mut String, ty: &str, val: &str, name: &str)
    ensures
        final(out)@ == old(out)@ + store_line(ty@, val@, name@),
{
    push_str(out, "  store ");
    push_str(out, ty);
    push_str(out, " ");
    push_str(out, val);
    push_str(out, ", ptr %");
    push_str(out, name);
    push_str(out, ".addr\n");
    assert(final(out)@ =~= old(out)@ + store_line(ty@, val@, name@));
}

/// Appends a load definition `  %<v> = load <ty>, ptr %<name>.addr`.
pub(crate) fn append_load(out: &mut String, v: &str, ty: &str, name: &str)
    ensures
        final(out)@ == old(out)@ + def_line(v@, "load "@ + ty@ + ", ptr %"@ + name@ + ".addr"@),
{
    append_def_start(out, v);
    push_str(out, "load ");
    push_str(out, ty);
    push_str(out, ", ptr %");
    push_str(out, name);
    push_str(out, ".addr");
    push_str(out, "\n");
    assert(final(out)@ =~= old(out)@ + def_line(v@, "load "@ + ty@ + ", ptr %"@ + name@ + ".addr"@));
}

/// The type recorded for a place, or `default`, as a new string.
pub(crate) fn place_type_or_str(place_types: &NameMap<&'static str>, name: &str, default: &str) -> (t: String)
    ensures
        t@ == type_or(*place_types, name@, default@),
{
    match place_types.get(name) {
        Some(t) => (*t).to_owned(),
        None => default.to_owned(),
    }
}

/// `a` followed by `b`, as a new string.
pub(crate) fn concat(a: &str, b: &str) -> (r: String)
    ensures
        r@ == a@ + b@,
{
    let mut r = String::new();
    push_str(&mut r, a);
    push_str(&mut r, b);
    assert(r@ =~= a@ + b@);
    r
}

/// `<a><b><c>`, as a new string.
pub(crate) fn concat3(a: &str, b: &str, c: &str) -> (r: String)
    ensures
        r@ == a@ + b@ + c@,
{
    let mut r = concat(a, b);
    push_str(&mut r, c);
    r
}

/// `%` followed by a name.
pub(crate) fn percent(name: &str) -> (r: String)
    ensures
        r@ == "%"@ + name@,
{
    concat("%", name)
}

/// A string operand of a string operation, as written.
fn string_arg_text(op: &Operand, table: &NameMap<String>, read: &str) -> (r: String)
    ensures
        r@ == string_arg(*op, *table, read@),
{
    match op {
        Operand::Constant(Constant::String(s)) => match table.get(s.as_str()) {
            Some(g) => {
                let mut r = concat("@", g.as_str());
                push_str(&mut r, ".bmb");
                r
            },
            None => read.to_owned(),
        },
        _ => read.to_owned(),
    }
}

/// A pointer operand of a pointer comparison, as written.
fn null_arg_text(op: &Operand, read: &str) -> (r: String)
    ensures
        r@ == null_arg(*op, read@),
{
    match op {
        Operand::Constant(Constant::Int(v)) => if *v == 0 {
            "null".to_owned()
        } else {
            read.to_owned()
        },
        _ => read.to_owned(),
    }
}

/// The instruction for a binary operator on doubles.
fn float_op_str(op: MirBinOp, cg: &TextCodeGen) -> (r: &'static str)
    ensures
        r@ == float_op_text(op),
{
    match op {
        MirBinOp::Add | MirBinOp::FAdd => "fadd fast",
        MirBinOp::Sub | MirBinOp::FSub => "fsub fast",
        MirBinOp::Mul | MirBinOp::FMul => "fmul fast",
        MirBinOp::Div | MirBinOp::FDiv => "fdiv fast",
        MirBinOp::Mod => "frem",
        MirBinOp::Eq | MirBinOp::FEq => "fcmp oeq",
        MirBinOp::Ne | MirBinOp::FNe => "fcmp one",
        MirBinOp::Lt | MirBinOp::FLt => "fcmp olt",
        MirBinOp::Gt | MirBinOp::FGt => "fcmp ogt",
        MirBinOp::Le | MirBinOp::FLe => "fcmp ole",
        MirBinOp::Ge | MirBinOp::FGe => "fcmp oge",
        _ => cg.binop_to_llvm(op).0,
    }
}

/// The name of the load of a binary operand.
fn side_name(d: &str, op: &Operand, side: &str) -> (r: String)
    ensures
        r@ == side_load_name(d@, *op, side@),
{
    match op {
        Operand::Place(p) => {
            let mut l = concat(d, ".");
            push_str(&mut l, p.name.as_str());
            push_str(&mut l, ".");
            push_str(&mut l, side);
            assert(l@ =~= side_load_name(d@, *op, side@));
            l
        },
        _ => String::new(),
    }
}

/// Appends a definition line `  %<d> = <rest>`.
pub(crate) fn append_def(out: &mut String, d: &str, rest: &str)
    ensures
        final(out)@ == old(out)@ + def_line(d@, rest@),
{
    append_def_start(out, d);
    push_str(out, rest);
    push_str(out, "\n");
    assert(final(out)@ =~= old(out)@ + def_line(d@, rest@));
}

/// Appends the widening of mixed 32- and 64-bit operands, and gives the
/// operands and type to use.
fn emit_widen(
    out: &mut String,
    lt: &str,
    rt: &str,
    lhs: &Operand,
    rhs: &Operand,
    ls: &str,
    rs: &str,
    d: &str,
) -> (r: (String, String, String))
    ensures
        final(out)@ == old(out)@ + widen_operands(lt@, rt@, *lhs, *rhs, ls@, rs@, d@).0,
        r.0@ == widen_operands(lt@, rt@, *lhs, *rhs, ls@, rs@, d@).1,
        r.1@ == widen_operands(lt@, rt@, *lhs, *rhs, ls@, rs@, d@).2,
        r.2@ == widen_operands(lt@, rt@, *lhs, *rhs, ls@, rs@, d@).3,
{
    let lhs_fits = match lhs {
        Operand::Constant(Constant::Int(v)) => -0x8000_0000 <= *v && *v <= 0x7fff_ffff,
        _ => false,
    };
    let rhs_fits = match rhs {
        Operand::Constant(Constant::Int(v)) => -0x8000_0000 <= *v && *v <= 0x7fff_ffff,
        _ => false,
    };
    if str_eq(lt, "i32") && str_eq(rt, "i64") {
        if rhs_fits {
            (ls.to_owned(), rs.to_owned(), "i32".to_owned())
        } else {
            let v = concat(d, ".lhs.sext");
            let mut rest = concat("sext i32 ", ls);
            push_str(&mut rest, " to i64");
            append_def(out, v.as_str(), rest.as_str());
            (percent(v.as_str()), rs.to_owned(), "i64".to_owned())
        }
    } else if str_eq(lt, "i64") && str_eq(rt, "i32") {
        if lhs_fits {
            (ls.to_owned(), rs.to_owned(), "i32".to_owned())
        } else {
            let v = concat(d, ".rhs.sext");
            let mut rest = concat("sext i32 ", rs);
            push_str(&mut rest, " to i64");
            append_def(out, v.as_str(), rest.as_str());
            (ls.to_owned(), percent(v.as_str()), "i64".to_owned())
        }
    } else {
        (ls.to_owned(), rs.to_owned(), lt.to_owned())
    }
}

impl FunctionInfo {
    /// The LLVM type of a place: the one recorded, else its declared type.
    pub fn place_type(&self, name: &str, func: &MirFunction, cg: &TextCodeGen) -> (t: &'static str)
        ensures
            t@ == known_place_type(*self, *func, name@),
    {
        match self.place_types.get(name) {
            Some(t) => *t,
            None => cg.infer_place_type(&Place { name: name.to_owned() }, func),
        }
    }

    /// The LLVM type of an operand.
    pub fn operand_type(&self, op: &Operand, func: &MirFunction, cg: &TextCodeGen) -> (t: &'static str)
        ensures
            t@ == known_operand_type(*self, *func, *op),
    {
        match op {
            Operand::Constant(c) => cg.constant_type(c),
            Operand::Place(p) => self.place_type(p.name.as_str(), func, cg),
        }
    }
}

impl TextCodeGen {
    /// Appends a constant assignment.
    #[verifier::rlimit(60)]
    #[verifier::spinoff_prover]
    pub fn emit_const(
        &self,
        out: &mut String,
        dest: &Place,
        value: &Constant,
        info: &FunctionInfo,
        table: &NameMap<String>,
        name_counts: &mut NameMap<u32>,
    )
        ensures
            final(out)@ == old(out)@ + const_text(dest.name@, *value, *info, *table, count_map(*old(name_counts))).0,
            count_map(*final(name_counts)) == const_text(dest.name@, *value, *info, *table, count_map(*old(name_counts))).1,
    {
        let dn = dest.name.as_str();
        let ct = self.constant_type(value);
        if contains_name(&info.local_names, dn) {
            let dt = place_type_or(&info.place_types, dn, ct);
            match value {
                Constant::Unit => {
                    push_str(out, "  store i8 0, ptr %");
                    push_str(out, dn);
                    push_str(out, ".addr\n");
                },
                Constant::String(s) => {
                    match table.get(s.as_str()) {
                        Some(g) => {
                            let base = concat(dn, ".tmp");
                            let t = self.unique_name(base.as_str(), name_counts);
                            append_def_start(out, t.as_str());
                            push_str(out, "getelementptr %BmbString, ptr @");
                            push_str(out, g.as_str());
                            push_str(out, ".bmb, i32 0");
                            push_str(out, "\n");
                            let pt = percent(t.as_str());
                            append_store(out, "ptr", pt.as_str(), dn);
                        },
                        None => {
                            push_str(out, "  ; string constant not in table: ");
                            push_str(out, s.as_str());
                            push_str(out, "\n");
                            push_str(out, "  store ptr null, ptr %");
                            push_str(out, dn);
                            push_str(out, ".addr\n");
                        },
                    }
                },
                _ => {
                    let mut v = String::new();
                    match value {
                        Constant::Int(n) => append_i64(&mut v, *n),
                        Constant::Bool(b) => push_str(&mut v, if *b { "1" } else { "0" }),
                        Constant::Float(_) => self.append_constant(&mut v, value),
                        Constant::Char(ch) => append_u64(&mut v, (*ch as u32) as u64),
                        _ => {},
                    }
                    assert(v@ =~= const_value_text(*value));
                    append_store(out, dt, v.as_str(), dn);
                },
            }
        } else {
            let d = self.unique_name(dn, name_counts);
            match value {
                Constant::String(s) => {
                    match table.get(s.as_str()) {
                        Some(g) => {
                            append_def_start(out, d.as_str());
                            push_str(out, "getelementptr %BmbString, ptr @");
                            push_str(out, g.as_str());
                            push_str(out, ".bmb, i32 0");
                            push_str(out, "\n");
                        },
                        None => {
                            push_str(out, "  ; string constant not in table: ");
                            push_str(out, s.as_str());
                            push_str(out, "\n");
                        },
                    }
                },
                Constant::Float(_) => {
                    append_def_start(out, d.as_str());
                    push_str(out, "fadd fast ");
                    push_str(out, ct);
                    push_str(out, " 0.0, ");
                    self.append_constant(out, value);
                    push_str(out, "\n");
                },
                Constant::Unit => {
                    append_def_start(out, d.as_str());
                    push_str(out, "add i8 0, 0");
                    push_str(out, "\n");
                },
                _ => {
                    let mut v = String::new();
                    match value {
                        Constant::Int(n) => append_i64(&mut v, *n),
                        Constant::Bool(b) => push_str(&mut v, if *b { "1" } else { "0" }),
                        Constant::Char(ch) => append_u64(&mut v, (*ch as u32) as u64),
                        _ => {},
                    }
                    assert(v@ =~= const_value_text(*value));
                    append_def_start(out, d.as_str());
                    push_str(out, "add ");
                    push_str(out, ct);
                    push_str(out, " 0, ");
                    push_str(out, v.as_str());
                    push_str(out, "\n");
                },
            }
        }
        assert(final(out)@ =~= old(out)@ + const_text(dest.name@, *value, *info, *table, count_map(*old(name_counts))).0);
    }

    /// Appends a load of a slot into a fresh temporary named after `base`,
    /// and gives the temporary's text.
    #[verifier::spinoff_prover]
    pub(crate) fn emit_fresh_load(
        &self,
        out: &mut String,
        base: &str,
        ty: &str,
        name: &str,
        name_counts: &mut NameMap<u32>,
    ) -> (v: String)
        ensures
            final(out)@ == old(out)@ + fresh_load(count_map(*old(name_counts)), base@, ty@, name@).0,
            v@ == fresh_load(count_map(*old(name_counts)), base@, ty@, name@).1,
            count_map(*final(name_counts)) == fresh_load(count_map(*old(name_counts)), base@, ty@, name@).2,
    {
        let l = self.unique_name(base, name_counts);
        append_load(out, l.as_str(), ty, name);
        percent(l.as_str())
    }

    /// Appends the copy of the value `v` of type `ty` into `dest`.
    #[verifier::rlimit(60)]
    #[verifier::spinoff_prover]
    fn emit_copy_into(
        &self,
        out: &mut String,
        dest: &str,
        ty: &str,
        v: &str,
        info: &FunctionInfo,
        name_counts: &mut NameMap<u32>,
    )
        ensures
            final(out)@ == old(out)@ + copy_into(*info, dest@, ty@, v@, count_map(*old(name_counts))).0,
            count_map(*final(name_counts)) == copy_into(*info, dest@, ty@, v@, count_map(*old(name_counts))).1,
    {
        if contains_name(&info.local_names, dest) {
            let dt = place_type_or_str(&info.place_types, dest, ty);
            if str_eq(ty, "i64") && str_eq(dt.as_str(), "i32") {
                let base = concat(dest, ".trunc");
                let t = self.unique_name(base.as_str(), name_counts);
                append_def_start(out, t.as_str());
                push_str(out, "trunc i64 ");
                push_str(out, v);
                push_str(out, " to i32");
                push_str(out, "\n");
                let pt = percent(t.as_str());
                append_store(out, "i32", pt.as_str(), dest);
            } else if str_eq(ty, "i32") && str_eq(dt.as_str(), "i64") {
                let base = concat(dest, ".sext");
                let t = self.unique_name(base.as_str(), name_counts);
                append_def_start(out, t.as_str());
                push_str(out, "sext i32 ");
                push_str(out, v);
                push_str(out, " to i64");
                push_str(out, "\n");
                let pt = percent(t.as_str());
                append_store(out, "i64", pt.as_str(), dest);
            } else {
                append_store(out, ty, v, dest);
            }
        } else {
            let d = self.unique_name(dest, name_counts);
            append_def_start(out, d.as_str());
            if str_eq(ty, "ptr") {
                push_str(out, "select i1 true, ptr ");
                push_str(out, v);
                push_str(out, ", ptr null");
            } else if str_eq(ty, "f64") {
                push_str(out, "fadd fast ");
                push_str(out, ty);
                push_str(out, " ");
                push_str(out, v);
                push_str(out, ", 0.0");
            } else {
                push_str(out, "add ");
                push_str(out, ty);
                push_str(out, " ");
                push_str(out, v);
                push_str(out, ", 0");
            }
            push_str(out, "\n");
        }
        assert(final(out)@ =~= old(out)@ + copy_into(*info, dest@, ty@, v@, count_map(*old(name_counts))).0);
    }

    /// Appends a copy between places.
    #[verifier::spinoff_prover]
    pub fn emit_copy(
        &self,
        out: &mut String,
        dest: &Place,
        src: &Place,
        func: &MirFunction,
        info: &FunctionInfo,
        name_counts: &mut NameMap<u32>,
    )
        ensures
            final(out)@ == old(out)@ + copy_text(dest.name@, src.name@, *info, *func, count_map(*old(name_counts))).0,
            count_map(*final(name_counts)) == copy_text(dest.name@, src.name@, *info, *func, count_map(*old(name_counts))).1,
    {
        let dn = dest.name.as_str();
        let sn = src.name.as_str();
        let ty: String = match info.tuple_var_types.get(sn) {
            Some(t) => t.as_str().to_owned(),
            None => info.place_type(sn, func, self).to_owned(),
        };
        let ty = ty.as_str();
        if str_eq(ty, "void") {
            return;
        }
        let v: String = if contains_name(&info.local_names, sn) {
            let base = concat(sn, ".load");
            self.emit_fresh_load(out, base.as_str(), ty, sn, name_counts)
        } else {
            percent(sn)
        };
        self.emit_copy_into(out, dn, ty, v.as_str(), info, name_counts);
        assert(final(out)@ =~= old(out)@ + copy_text(dest.name@, src.name@, *info, *func, count_map(*old(name_counts))).0);
    }

    /// Appends an operand read: a load of a local's slot into `%<l>`, else
    /// nothing; gives the operand's text.
    #[verifier::spinoff_prover]
    pub(crate) fn emit_operand_read(&self, out: &mut String, op: &Operand, ty: &str, l: &str, info: &FunctionInfo) -> (v: String)
        ensures
            final(out)@ == old(out)@ + operand_read(*info, *op, ty@, l@).0,
            v@ == operand_read(*info, *op, ty@, l@).1,
    {
        match op {
            Operand::Place(p) => {
                if contains_name(&info.local_names, p.name.as_str()) {
                    append_load(out, l, ty, p.name.as_str());
                    percent(l)
                } else {
                    self.format_operand(op)
                }
            },
            _ => self.format_operand(op),
        }
    }

    /// Appends the store of `%<d>` into the slot of `dest`, if it has one.
    #[verifier::spinoff_prover]
    pub(crate) fn emit_store_if_local(&self, out: &mut String, dest: &str, ty: &str, d: &str, info: &FunctionInfo)
        ensures
            final(out)@ == old(out)@ + store_if_local(*info, dest@, ty@, d@),
    {
        if contains_name(&info.local_names, dest) {
            let pd = percent(d);
            append_store(out, ty, pd.as_str(), dest);
        } else {
            assert(final(out)@ =~= old(out)@ + store_if_local(*info, dest@, ty@, d@));
        }
    }

    /// Appends a unary operation.
    #[verifier::rlimit(40)]
    #[verifier::spinoff_prover]
    pub fn emit_unary(
        &self,
        out: &mut String,
        dest: &Place,
        op: MirUnaryOp,
        src: &Operand,
        func: &MirFunction,
        info: &FunctionInfo,
        name_counts: &mut NameMap<u32>,
    )
        ensures
            final(out)@ == old(out)@ + unary_text(dest.name@, op, *src, *info, *func, count_map(*old(name_counts))).0,
            count_map(*final(name_counts)) == unary_text(dest.name@, op, *src, *info, *func, count_map(*old(name_counts))).1,
    {
        let dn = dest.name.as_str();
        let d = self.unique_name(dn, name_counts);
        let ty = self.infer_operand_type(src, func);
        let l: String = match src {
            Operand::Place(p) => {
                let mut l = concat(d.as_str(), ".");
                push_str(&mut l, p.name.as_str());
                push_str(&mut l, ".unary");
                l
            },
            _ => String::new(),
        };
        assert(l@ =~= unary_load_name(d@, *src));
        let s = self.emit_operand_read(out, src, ty, l.as_str(), info);
        let ghost o1 = out@;
        let s = s.as_str();
        append_def_start(out, d.as_str());
        match op {
            MirUnaryOp::Neg => {
                push_str(out, "sub ");
                push_str(out, ty);
                push_str(out, " 0, ");
                push_str(out, s);
            },
            MirUnaryOp::FNeg => {
                push_str(out, "fsub fast ");
                push_str(out, ty);
                push_str(out, " 0.0, ");
                push_str(out, s);
            },
            MirUnaryOp::Not => {
                push_str(out, "xor i1 ");
                push_str(out, s);
                push_str(out, ", 1");
            },
            MirUnaryOp::Bnot => {
                push_str(out, "xor ");
                push_str(out, ty);
                push_str(out, " ");
                push_str(out, s);
                push_str(out, ", -1");
            },
        }
        push_str(out, "\n");
        assert(out@ =~= o1 + def_line(d@, unary_rest(op, ty@, s@)));
        let rt = match op {
            MirUnaryOp::Not => "i1",
            _ => ty,
        };
        self.emit_store_if_local(out, dn, rt, d.as_str(), info);
        assert(final(out)@ =~= old(out)@ + unary_text(dest.name@, op, *src, *info, *func, count_map(*old(name_counts))).0);
    }

    /// Appends the read of a cast's source, and gives its text.
    #[verifier::spinoff_prover]
    fn emit_cast_source(
        &self,
        out: &mut String,
        dest: &str,
        src: &Operand,
        from: &str,
        info: &FunctionInfo,
        name_counts: &mut NameMap<u32>,
    ) -> (s: String)
        ensures
            final(out)@ == old(out)@ + cast_source(dest@, *src, from@, *info, count_map(*old(name_counts))).0,
            s@ == cast_source(dest@, *src, from@, *info, count_map(*old(name_counts))).1,
            count_map(*final(name_counts)) == cast_source(dest@, *src, from@, *info, count_map(*old(name_counts))).2,
    {
        match src {
            Operand::Place(p) => {
                if contains_name(&info.local_names, p.name.as_str()) {
                    let base = concat(dest, "_cast_load");
                    self.emit_fresh_load(out, base.as_str(), from, p.name.as_str(), name_counts)
                } else {
                    self.format_operand(src)
                }
            },
            _ => self.format_operand(src),
        }
    }

    /// Appends a cast.
    #[verifier::rlimit(40)]
    #[verifier::spinoff_prover]
    pub fn emit_cast(
        &self,
        out: &mut String,
        dest: &Place,
        src: &Operand,
        from_ty: &MirType,
        to_ty: &MirType,
        info: &FunctionInfo,
        name_counts: &mut NameMap<u32>,
    )
        ensures
            final(out)@ == old(out)@ + cast_text(dest.name@, *src, *from_ty, *to_ty, *info, count_map(*old(name_counts))).0,
            count_map(*final(name_counts)) == cast_text(dest.name@, *src, *from_ty, *to_ty, *info, count_map(*old(name_counts))).1,
    {
        let dn = dest.name.as_str();
        let ft = self.mir_type_to_llvm(from_ty);
        let tt = self.mir_type_to_llvm(to_ty);
        let s = self.emit_cast_source(out, dn, src, ft, info, name_counts);
        let ghost o1 = out@;
        let d = self.unique_name(dn, name_counts);
        let ci = self.get_cast_instruction(from_ty, to_ty);
        let target: String = if contains_name(&info.local_names, dn) {
            let base = concat(dn, "_cast");
            self.unique_name(base.as_str(), name_counts)
        } else {
            d
        };
        append_def_start(out, target.as_str());
        push_str(out, ci);
        push_str(out, " ");
        push_str(out, ft);
        push_str(out, " ");
        push_str(out, s.as_str());
        push_str(out, " to ");
        push_str(out, tt);
        push_str(out, "\n");
        assert(out@ =~= o1 + def_line(target@, ci@ + " "@ + ft@ + " "@ + s@ + " to "@ + tt@));
        self.emit_store_if_local(out, dn, tt, target.as_str(), info);
        assert(final(out)@ =~= old(out)@ + cast_text(dest.name@, *src, *from_ty, *to_ty, *info, count_map(*old(name_counts))).0);
    }

    /// Appends an operand read for a binary operation, and gives the
    /// operand's text.
    #[verifier::spinoff_prover]
    fn emit_operand_read_str(
        &self,
        out: &mut String,
        op: &Operand,
        ty: &str,
        l: &str,
        info: &FunctionInfo,
        table: &NameMap<String>,
    ) -> (v: String)
        ensures
            final(out)@ == old(out)@ + operand_read_str(*info, *op, ty@, l@, *table).0,
            v@ == operand_read_str(*info, *op, ty@, l@, *table).1,
    {
        match op {
            Operand::Place(p) => {
                if contains_name(&info.local_names, p.name.as_str()) {
                    append_load(out, l, ty, p.name.as_str());
                    percent(l)
                } else {
                    self.format_operand_with_strings(op, table)
                }
            },
            _ => self.format_operand_with_strings(op, table),
        }
    }

    /// Appends the instructions of a binary operation whose operands are
    /// read.
    #[verifier::rlimit(40)]
    #[verifier::spinoff_prover]
    fn emit_binop_body(
        &self,
        out: &mut String,
        dest: &str,
        d: &str,
        op: MirBinOp,
        lhs: &Operand,
        rhs: &Operand,
        lt: &str,
        rt: &str,
        ls: &str,
        rs: &str,
        func: &MirFunction,
        info: &FunctionInfo,
        table: &NameMap<String>,
    )
        ensures
            final(out)@ == old(out)@ + binop_body(dest@, d@, op, *lhs, *rhs, lt@, rt@, ls@, rs@, *info, *func, *table),
    {
        reveal(binop_body);
        let ptr = str_eq(lt, "ptr") || str_eq(rt, "ptr");
        if ptr && op == MirBinOp::Add {
            let la = string_arg_text(lhs, table, ls);
            let ra = string_arg_text(rhs, table, rs);
            let mut rest = concat("call ptr @bmb_string_concat(ptr ", la.as_str());
            push_str(&mut rest, ", ptr ");
            push_str(&mut rest, ra.as_str());
            push_str(&mut rest, ")");
            append_def(out, d, rest.as_str());
            self.emit_store_if_local(out, dest, "ptr", d, info);
        } else if ptr && (op == MirBinOp::Eq || op == MirBinOp::Ne) {
            let is_eq = op == MirBinOp::Eq;
            if Self::is_string_operand(lhs, func) || Self::is_string_operand(rhs, func) {
                let la = string_arg_text(lhs, table, ls);
                let ra = string_arg_text(rhs, table, rs);
                let v = concat(d, ".i64");
                let mut rest = concat("call i64 @bmb_string_eq(ptr ", la.as_str());
                push_str(&mut rest, ", ptr ");
                push_str(&mut rest, ra.as_str());
                push_str(&mut rest, ")");
                append_def(out, v.as_str(), rest.as_str());
                let mut rest2 = concat(if is_eq { "icmp ne" } else { "icmp eq" }, " i64 %");
                push_str(&mut rest2, d);
                push_str(&mut rest2, ".i64, 0");
                append_def(out, d, rest2.as_str());
            } else {
                let la = null_arg_text(lhs, ls);
                let ra = null_arg_text(rhs, rs);
                let mut rest = concat(if is_eq { "icmp eq" } else { "icmp ne" }, " ptr ");
                push_str(&mut rest, la.as_str());
                push_str(&mut rest, ", ");
                push_str(&mut rest, ra.as_str());
                append_def(out, d, rest.as_str());
            }
            self.emit_store_if_local(out, dest, "i1", d, info);
        } else if op == MirBinOp::Implies {
            let v = concat(d, ".not");
            let mut rest = concat("xor i1 ", ls);
            push_str(&mut rest, ", true");
            append_def(out, v.as_str(), rest.as_str());
            let mut rest2 = concat("or i1 %", d);
            push_str(&mut rest2, ".not, ");
            push_str(&mut rest2, rs);
            append_def(out, d, rest2.as_str());
            self.emit_store_if_local(out, dest, "i1", d, info);
        } else {
            let ops = if str_eq(lt, "double") || str_eq(lt, "f64") {
                float_op_str(op, self)
            } else {
                self.binop_to_llvm(op).0
            };
            let (fl, fr, ft) = emit_widen(out, lt, rt, lhs, rhs, ls, rs, d);
            let mut rest = concat(ops, " ");
            push_str(&mut rest, ft.as_str());
            push_str(&mut rest, " ");
            push_str(&mut rest, fl.as_str());
            push_str(&mut rest, ", ");
            push_str(&mut rest, fr.as_str());
            append_def(out, d, rest.as_str());
            let st = place_type_or_str(&info.place_types, dest, ft.as_str());
            self.emit_store_if_local(out, dest, st.as_str(), d, info);
        }
        assert(final(out)@ =~= old(out)@ + binop_body(dest@, d@, op, *lhs, *rhs, lt@, rt@, ls@, rs@, *info, *func, *table));
    }

    /// Appends a binary operation.
    #[verifier::rlimit(40)]
    #[verifier::spinoff_prover]
    pub fn emit_binop(
        &self,
        out: &mut String,
        dest: &Place,
        op: MirBinOp,
        lhs: &Operand,
        rhs: &Operand,
        func: &MirFunction,
        info: &FunctionInfo,
        table: &NameMap<String>,
        name_counts: &mut NameMap<u32>,
    )
        ensures
            final(out)@ == old(out)@ + binop_text(dest.name@, op, *lhs, *rhs, *info, *func, *table, count_map(*old(name_counts))).0,
            count_map(*final(name_counts)) == binop_text(dest.name@, op, *lhs, *rhs, *info, *func, *table, count_map(*old(name_counts))).1,
    {
        let dn = dest.name.as_str();
        let d = self.unique_name(dn, name_counts);
        let lt = info.operand_type(lhs, func, self);
        let rt = info.operand_type(rhs, func, self);
        let ln = side_name(d.as_str(), lhs, "lhs");
        let rn = side_name(d.as_str(), rhs, "rhs");
        let ls = self.emit_operand_read_str(out, lhs, lt, ln.as_str(), info, table);
        let rs = self.emit_operand_read_str(out, rhs, rt, rn.as_str(), info, table);
        let ghost o2 = out@;
        self.emit_binop_body(out, dn, d.as_str(), op, lhs, rhs, lt, rt, ls.as_str(), rs.as_str(), func, info, table);
        assert(final(out)@ =~= old(out)@ + binop_text(dest.name@, op, *lhs, *rhs, *info, *func, *table, count_map(*old(name_counts))).0);
    }

    /// Gives how a phi value is written.
    fn phi_value(
        &self,
        val: &Operand,
        label: &str,
        info: &FunctionInfo,
        table: &NameMap<String>,
        block: &str,
    ) -> (r: String)
        ensures
            r@ == phi_value_text(*val, label@, *info, *table, block@),
    {
        match val {
            Operand::Place(p) => {
                let name = p.name.as_str();
                match find_phi(&info.phi_coercions, block, name, label) {
                    Some(c) => percent(c.temp.as_str()),
                    None => {
                        if contains_name(&info.local_names, name) {
                            let mut r = percent(name);
                            push_str(&mut r, ".phi.");
                            push_str(&mut r, label);
                            assert(r@ =~= phi_value_text(*val, label@, *info, *table, block@));
                            r
                        } else {
                            self.format_operand_with_strings(val, table)
                        }
                    },
                }
            },
            Operand::Constant(Constant::String(s)) => match find_phi(&info.phi_strings, block, s.as_str(), label) {
                Some(t) => percent(t.as_str()),
                None => self.format_operand_with_strings(val, table),
            },
            _ => self.format_operand_with_strings(val, table),
        }
    }

    /// Gives the type of a phi node.
    fn phi_type_of(
        &self,
        dest: &str,
        values: &Vec<(Operand, String)>,
        func: &MirFunction,
        info: &FunctionInfo,
    ) -> (r: String)
        ensures
            r@ == phi_type(dest@, values@, *info, *func),
    {
        let mut i: usize = 0;
        assert(values@.subrange(0, values@.len() as int) =~= values@);
        while i < values.len()
            invariant
                i <= values.len(),
                first_tuple_type(values@, *info) == first_tuple_type(values@.subrange(i as int, values@.len() as int), *info),
            decreases values.len() - i,
        {
            assert(values@.subrange(i as int, values@.len() as int).drop_first()
                =~= values@.subrange(i + 1, values@.len() as int));
            match &values[i].0 {
                Operand::Place(p) => match info.tuple_var_types.get(p.name.as_str()) {
                    Some(t) => {
                        return t.as_str().to_owned();
                    },
                    None => {},
                },
                _ => {},
            }
            i = i + 1;
        }
        match info.place_types.get(dest) {
            Some(t) => (*t).to_owned(),
            None => if values.len() > 0 {
                info.operand_type(&values[0].0, func, self).to_owned()
            } else {
                "i64".to_owned()
            },
        }
    }

    /// Appends a phi node of the block `block`.
    #[verifier::spinoff_prover]
    pub fn emit_phi(
        &self,
        out: &mut String,
        dest: &Place,
        values: &Vec<(Operand, String)>,
        func: &MirFunction,
        info: &FunctionInfo,
        table: &NameMap<String>,
        block: &str,
        name_counts: &mut NameMap<u32>,
    )
        ensures
            final(out)@ == old(out)@ + phi_text(dest.name@, values@, *info, *func, *table, block@, count_map(*old(name_counts))).0,
            count_map(*final(name_counts)) == phi_text(dest.name@, values@, *info, *func, *table, block@, count_map(*old(name_counts))).1,
    {
        let d = self.unique_name(dest.name.as_str(), name_counts);
        let ty = self.phi_type_of(dest.name.as_str(), values, func, info);
        let mut rest = concat("phi ", ty.as_str());
        push_str(&mut rest, " ");
        let ghost r0 = rest@;
        let mut i: usize = 0;
        while i < values.len()
            invariant
                i <= values.len(),
                rest@ == r0 + phi_args_text(values@.subrange(0, i as int), *info, *table, block@),
            decreases values.len() - i,
        {
            if i > 0 {
                push_str(&mut rest, ", ");
            }
            let v = self.phi_value(&values[i].0, values[i].1.as_str(), info, table, block);
            push_str(&mut rest, "[ ");
            push_str(&mut rest, v.as_str());
            push_str(&mut rest, ", %bb_");
            push_str(&mut rest, values[i].1.as_str());
            push_str(&mut rest, " ]");
            assert(values@.subrange(0, i + 1).drop_last() =~= values@.subrange(0, i as int));
            i = i + 1;
            assert(rest@ =~= r0 + phi_args_text(values@.subrange(0, i as int), *info, *table, block@));
        }
        assert(values@.subrange(0, values.len() as int) =~= values@);
        append_def(out, d.as_str(), rest.as_str());
        assert(final(out)@ =~= old(out)@ + phi_text(dest.name@, values@, *info, *func, *table, block@, count_map(*old(name_counts))).0);
    }
}

} // verus!
