//! LLVM IR text of block terminators: returns (plain, string, tuple,
//! small-struct and struct-return forms), branches, switches.

use vstd::prelude::*;

use crate::codegen::llvm_text::{llvm_type, operand_text, operand_text_with_strings, TextCodeGen};
use crate::codegen::names::{contains_name, names_contain, NameMap};
use crate::mir::{Constant, MirFunction, MirType, Operand, Terminator};
use crate::text::{append_i64, append_u64, dec_int, dec_nat, push_str};

verus! {

/// The LLVM types of some elements, separated by `, `.
pub open spec fn types_joined(elems: Seq<Box<MirType>>) -> Seq<char>
    decreases elems.len(),
{
    if elems.len() == 0 {
        Seq::empty()
    } else if elems.len() == 1 {
        llvm_type(*elems[0])
    } else {
        types_joined(elems.drop_last()) + ", "@ + llvm_type(*elems.last())
    }
}

/// The LLVM aggregate type of a tuple with these element types.
pub open spec fn tuple_type_text(elems: Seq<Box<MirType>>) -> Seq<char> {
    "{ "@ + types_joined(elems) + " }"@
}

/// The number of fields of a struct type, zero for any other type.
pub open spec fn struct_field_count(ty: MirType) -> nat {
    match ty {
        MirType::Struct { fields, .. } => fields@.len(),
        _ => 0,
    }
}

/// The type recorded for a place, or `default` when none is.
pub open spec fn type_or(place_types: NameMap<&'static str>, name: Seq<char>, default: Seq<char>) -> Seq<char> {
    match place_types.lookup(name) {
        Some(t) => t@,
        None => default,
    }
}

/// The register aggregate type of a struct with one or two fields.
pub open spec fn small_struct_type(n: nat) -> Seq<char> {
    if n == 1 {
        "{i64}"@
    } else {
        "{i64, i64}"@
    }
}

/// Copying field `i` of the struct at `src` into the caller's return slot:
/// its address, its load, the slot's address, the store.
pub open spec fn sret_copy_field(src: Seq<char>, label: Seq<char>, i: nat) -> Seq<char> {
    let k = dec_nat(i);
    let a = "  %"@ + "_sret_gep_src."@ + k + "."@ + label + " = getelementptr i64, ptr "@ + src + ", i32 "@
        + k + "\n"@;
    let b = "  %"@ + "_sret_f"@ + k + "."@ + label + ".load = load i64, ptr %_sret_gep_src."@ + k + "."@
        + label + "\n"@;
    let c = "  %"@ + "_sret_gep_dst."@ + k + "."@ + label + " = getelementptr i64, ptr %_sret, i32 "@ + k
        + "\n"@;
    let d = "  store i64 %_sret_f"@ + k + "."@ + label + ".load, ptr %_sret_gep_dst."@ + k + "."@
        + label + "\n"@;
    a + b + c + d
}

/// Copying the first `n` fields into the caller's return slot.
pub open spec fn sret_copy_fields(src: Seq<char>, label: Seq<char>, n: nat) -> Seq<char>
    decreases n,
{
    if n == 0 {
        Seq::empty()
    } else {
        sret_copy_fields(src, label, (n - 1) as nat) + sret_copy_field(src, label, (n - 1) as nat)
    }
}

/// Where a struct to be returned is read from: a load of its local slot
/// (named after `prefix` and the block), or the SSA value itself.
pub open spec fn struct_source(
    name: Seq<char>,
    locals: Seq<String>,
    prefix: Seq<char>,
    label: Seq<char>,
) -> (Seq<char>, Seq<char>) {
    if names_contain(locals, name) {
        (
            "  %"@ + prefix + "."@ + label + " = load ptr, ptr %"@ + name + ".addr\n"@,
            "%"@ + prefix + "."@ + label,
        )
    } else {
        (Seq::empty(), "%"@ + name)
    }
}

/// Returning a tuple value.
pub open spec fn tuple_return_text(val: Operand, ret: Seq<char>, locals: Seq<String>) -> Seq<char> {
    match val {
        Operand::Place(p) => if names_contain(locals, p.name@) {
            "  %"@ + p.name@ + "_ret_load = load "@ + ret + ", ptr %"@ + p.name@ + ".addr\n"@
                + "  ret "@ + ret + " %"@ + p.name@ + "_ret_load\n"@
        } else {
            "  ret "@ + ret + " %"@ + p.name@ + "\n"@
        },
        _ => "  ret "@ + ret + " undef\n"@,
    }
}

/// Loading field 0 of the struct at `src` into an aggregate of type `rt`.
pub open spec fn small_first_field(n: nat, src: Seq<char>, rt: Seq<char>, label: Seq<char>) -> Seq<char> {
    "  ; small struct return - pack "@ + dec_nat(n) + " fields\n"@ + "  %_agg_gep0."@ + label
        + " = getelementptr i64, ptr "@ + src + ", i32 0\n"@ + "  %_agg_f0."@ + label
        + " = load i64, ptr %_agg_gep0."@ + label + "\n"@ + "  %_agg_v0."@ + label + " = insertvalue "@
        + rt + " undef, i64 %_agg_f0."@ + label + ", 0\n"@
}

/// Loading field 1 into the aggregate, and returning it.
pub open spec fn small_second_field(src: Seq<char>, rt: Seq<char>, label: Seq<char>) -> Seq<char> {
    "  %_agg_gep1."@ + label + " = getelementptr i64, ptr "@ + src + ", i32 1\n"@ + "  %_agg_f1."@
        + label + " = load i64, ptr %_agg_gep1."@ + label + "\n"@ + "  %_agg_v1."@ + label
        + " = insertvalue "@ + rt + " %_agg_v0."@ + label + ", i64 %_agg_f1."@ + label + ", 1\n"@
        + "  ret "@ + rt + " %_agg_v1."@ + label + "\n"@
}

/// Returning a struct of one or two fields packed in registers.
pub open spec fn small_return_text(val: Operand, n: nat, locals: Seq<String>, label: Seq<char>) -> Seq<char> {
    let rt = small_struct_type(n);
    match val {
        Operand::Place(p) => {
            let (load, src) = struct_source(p.name@, locals, "_small_src"@, label);
            if n == 2 {
                load + small_first_field(n, src, rt, label) + small_second_field(src, rt, label)
            } else {
                load + small_first_field(n, src, rt, label) + "  ret "@ + rt + " %_agg_v0."@ + label
                    + "\n"@
            }
        },
        _ => "  ret "@ + rt + " undef\n"@,
    }
}

/// Returning a struct of three or more fields through the caller's slot.
pub open spec fn sret_return_text(val: Operand, n: nat, locals: Seq<String>, label: Seq<char>) -> Seq<char> {
    match val {
        Operand::Place(p) => {
            let (load, src) = struct_source(p.name@, locals, "_sret_src"@, label);
            load + "  ; sret return - copy "@ + dec_nat(n) + " fields from "@ + src + " to %_sret\n"@
                + sret_copy_fields(src, label, n) + "  ret void\n"@
        },
        _ => "  ; sret return - value already in %_sret\n"@ + "  ret void\n"@,
    }
}

/// Returning a value of any other type `ty`.
pub open spec fn plain_return_text(
    val: Operand,
    ty: Seq<char>,
    table: NameMap<String>,
    locals: Seq<String>,
    place_types: NameMap<&'static str>,
    label: Seq<char>,
) -> Seq<char> {
    match val {
        Operand::Constant(Constant::String(s)) => match table.lookup(s@) {
            Some(g) => "  ret ptr @"@ + g@ + ".bmb\n"@,
            None => "  ret "@ + ty + " "@ + operand_text_with_strings(val, table) + "\n"@,
        },
        Operand::Place(p) => if ty == "void"@ {
            "  ret void\n"@
        } else if names_contain(locals, p.name@) {
            let lt = type_or(place_types, p.name@, ty);
            let v = "_ret_val."@ + label + "."@ + p.name@;
            let load = "  %"@ + v + " = load "@ + lt + ", ptr %"@ + p.name@ + ".addr\n"@;
            if lt == "i32"@ && ty == "i64"@ {
                load + "  %"@ + v + ".sext = sext i32 %"@ + v + " to i64\n"@ + "  ret i64 %"@ + v
                    + ".sext\n"@
            } else {
                load + "  ret "@ + ty + " %"@ + v + "\n"@
            }
        } else {
            let vt = type_or(place_types, p.name@, ty);
            if vt == "i32"@ && ty == "i64"@ {
                let v = "_ret_sext."@ + label + "."@ + p.name@;
                "  %"@ + v + " = sext i32 %"@ + p.name@ + " to i64\n"@ + "  ret i64 %"@ + v + "\n"@
            } else if vt == "i64"@ && ty == "ptr"@ {
                let v = "_ret_inttoptr."@ + label + "."@ + p.name@;
                "  %"@ + v + " = inttoptr i64 %"@ + p.name@ + " to ptr\n"@ + "  ret ptr %"@ + v
                    + "\n"@
            } else {
                "  ret "@ + ty + " %"@ + p.name@ + "\n"@
            }
        },
        _ => if ty == "void"@ {
            "  ret void\n"@
        } else {
            "  ret "@ + ty + " "@ + operand_text_with_strings(val, table) + "\n"@
        },
    }
}

/// Returning `val` from a function with return type `ret_ty`.
pub open spec fn return_value_text(
    val: Operand,
    ret_ty: MirType,
    table: NameMap<String>,
    locals: Seq<String>,
    place_types: NameMap<&'static str>,
    label: Seq<char>,
) -> Seq<char> {
    let n = struct_field_count(ret_ty);
    match ret_ty {
        MirType::Tuple(elems) => tuple_return_text(val, tuple_type_text(elems@), locals),
        _ => if 0 < n <= 2 {
            small_return_text(val, n, locals, label)
        } else if n > 2 {
            sret_return_text(val, n, locals, label)
        } else {
            plain_return_text(val, llvm_type(ret_ty), table, locals, place_types, label)
        },
    }
}

/// A branch or switch operand: a load of its local slot (named after
/// `suffix`), or the operand itself.
pub open spec fn loaded_operand(
    op: Operand,
    locals: Seq<String>,
    ty: Seq<char>,
    suffix: Seq<char>,
) -> (Seq<char>, Seq<char>) {
    match op {
        Operand::Place(p) => if names_contain(locals, p.name@) {
            let v = p.name@ + suffix;
            ("  %"@ + v + " = load "@ + ty + ", ptr %"@ + p.name@ + ".addr\n"@, "%"@ + v)
        } else {
            (Seq::empty(), operand_text(op))
        },
        _ => (Seq::empty(), operand_text(op)),
    }
}

/// The cases of a switch, one line each.
pub open spec fn switch_cases_text(cases: Seq<(i64, String)>) -> Seq<char>
    decreases cases.len(),
{
    if cases.len() == 0 {
        Seq::empty()
    } else {
        switch_cases_text(cases.drop_last()) + "    i64 "@ + dec_int(cases.last().0 as int)
            + ", label %bb_"@ + cases.last().1@ + "\n"@
    }
}

/// The LLVM IR text of a terminator of the block labelled `label` in
/// `func`.
pub open spec fn terminator_text(
    term: Terminator,
    func: MirFunction,
    table: NameMap<String>,
    locals: Seq<String>,
    place_types: NameMap<&'static str>,
    label: Seq<char>,
) -> Seq<char> {
    match term {
        Terminator::Return(None) => if func.ret_ty is Unit {
            "  ret void\n"@
        } else {
            "  ret "@ + llvm_type(func.ret_ty) + " 0\n"@
        },
        Terminator::Return(Some(val)) => return_value_text(
            val,
            func.ret_ty,
            table,
            locals,
            place_types,
            label,
        ),
        Terminator::Goto(l) => "  br label %bb_"@ + l@ + "\n"@,
        Terminator::Branch { cond, then_label, else_label } => {
            let (load, c) = loaded_operand(cond, locals, "i1"@, ".cond_"@ + then_label@);
            load + "  br i1 "@ + c + ", label %bb_"@ + then_label@ + ", label %bb_"@ + else_label@
                + "\n"@
        },
        Terminator::Unreachable => "  unreachable\n"@,
        Terminator::Switch { discriminant, cases, default } => {
            let (load, d) = loaded_operand(discriminant, locals, "i64"@, ".disc_"@ + default@);
            load + "  switch i64 "@ + d + ", label %bb_"@ + default@ + " [\n"@ + switch_cases_text(
                cases@,
            ) + "  ]\n"@
        },
    }
}


/// LLVM's conditional branch, `br i1 <c>, label %<on_true>, label %<on_false>`:
/// it jumps to `on_true` when `c` is true and to `on_false` otherwise.
pub open spec fn cond_br(c: Seq<char>, on_true: Seq<char>, on_false: Seq<char>) -> Seq<char> {
    "  br i1 "@ + c + ", label %"@ + on_true + ", label %"@ + on_false + "\n"@
}

/// The LLVM label of the MIR block `l`.
pub open spec fn block_label(l: Seq<char>) -> Seq<char> {
    "bb_"@ + l
}

/// A MIR branch ends in a conditional branch that goes to the block of its
/// `then` label when the condition holds and to the block of its `else`
/// label otherwise.
pub proof fn lemma_branch_targets(
    cond: Operand,
    then_label: String,
    else_label: String,
    func: MirFunction,
    table: NameMap<String>,
    locals: Seq<String>,
    place_types: NameMap<&'static str>,
    label: Seq<char>,
)
    ensures
        exists|pre: Seq<char>, c: Seq<char>|
            terminator_text(
                (Terminator::Branch { cond, then_label, else_label }),
                func,
                table,
                locals,
                place_types,
                label,
            ) == pre + cond_br(c, block_label(then_label@), block_label(else_label@)),
{
    reveal_strlit(", label %bb_");
    reveal_strlit(", label %");
    reveal_strlit("bb_");
    let (load, c) = loaded_operand(cond, locals, "i1"@, ".cond_"@ + then_label@);
    assert(terminator_text(
        (Terminator::Branch { cond, then_label, else_label }),
        func,
        table,
        locals,
        place_types,
        label,
    ) =~= load + cond_br(c, block_label(then_label@), block_label(else_label@)));
}


/// LLVM's unconditional branch to `target`.
pub open spec fn uncond_br(target: Seq<char>) -> Seq<char> {
    "  br label %"@ + target + "\n"@
}

/// A MIR jump ends its block with an unconditional branch to the block of
/// its label.
pub proof fn lemma_goto_target(
    l: String,
    func: MirFunction,
    table: NameMap<String>,
    locals: Seq<String>,
    place_types: NameMap<&'static str>,
    label: Seq<char>,
)
    ensures
        terminator_text(Terminator::Goto(l), func, table, locals, place_types, label) == uncond_br(block_label(l@)),
{
    reveal_strlit("  br label %bb_");
    reveal_strlit("  br label %");
    reveal_strlit("bb_");
    assert(terminator_text(Terminator::Goto(l), func, table, locals, place_types, label) =~= uncond_br(
        block_label(l@),
    ));
}

/// Appends the LLVM aggregate type of a tuple.
#[verifier::spinoff_prover]
pub fn append_tuple_type(out: &mut String, elems: &Vec<Box<MirType>>, cg: &TextCodeGen)
    ensures
        final(out)@ == old(out)@ + tuple_type_text(elems@),
{
    push_str(out, "{ ");
    let ghost start = out@;
    let mut i: usize = 0;
    while i < elems.len()
        invariant
            i <= elems.len(),
            out@ == start + types_joined(elems@.subrange(0, i as int)),
        decreases elems.len() - i,
    {
        if i > 0 {
            push_str(out, ", ");
        }
        push_str(out, cg.mir_type_to_llvm(&elems[i]));
        assert(elems@.subrange(0, i + 1).drop_last() =~= elems@.subrange(0, i as int));
        i = i + 1;
        assert(out@ =~= start + types_joined(elems@.subrange(0, i as int)));
    }
    assert(elems@.subrange(0, elems.len() as int) =~= elems@);
    push_str(out, " }");
    assert(final(out)@ =~= old(out)@ + tuple_type_text(elems@));
}

/// Appends where a struct to be returned is read from, and gives that
/// operand's text.
#[verifier::spinoff_prover]
fn append_struct_source(out: &mut String, name: &str, locals: &Vec<String>, prefix: &str, label: &str) -> (src: String)
    ensures
        final(out)@ == old(out)@ + struct_source(name@, locals@, prefix@, label@).0,
        src@ == struct_source(name@, locals@, prefix@, label@).1,
{
    let mut src = String::new();
    push_str(&mut src, "%");
    if contains_name(locals, name) {
        push_str(&mut src, prefix);
        push_str(&mut src, ".");
        push_str(&mut src, label);
        push_str(out, "  %");
        push_str(out, prefix);
        push_str(out, ".");
        push_str(out, label);
        push_str(out, " = load ptr, ptr %");
        push_str(out, name);
        push_str(out, ".addr\n");
    } else {
        push_str(&mut src, name);
    }
    assert(final(out)@ =~= old(out)@ + struct_source(name@, locals@, prefix@, label@).0);
    assert(src@ =~= struct_source(name@, locals@, prefix@, label@).1);
    src
}

/// Appends `  %<a><k>.<label><b>` and a newline.
#[verifier::spinoff_prover]
fn append_indexed_line(out: &mut String, a: &str, k: &str, label: &str, b: &str)
    ensures
        final(out)@ == old(out)@ + ("  %"@ + a@ + k@ + "."@ + label@ + b@ + "\n"@),
{
    push_str(out, "  %");
    push_str(out, a);
    push_str(out, k);
    push_str(out, ".");
    push_str(out, label);
    push_str(out, b);
    push_str(out, "\n");
    assert(final(out)@ =~= old(out)@ + ("  %"@ + a@ + k@ + "."@ + label@ + b@ + "\n"@));
}

/// Appends the copy of field `i` into the caller's return slot.
#[verifier::rlimit(60)]
#[verifier::spinoff_prover]
fn append_sret_copy_field(out: &mut String, src: &str, label: &str, i: usize)
    ensures
        final(out)@ == old(out)@ + sret_copy_field(src@, label@, i as nat),
{
    let mut ks = String::new();
    append_u64(&mut ks, i as u64);
    let k = ks.as_str();
    let ghost kk = k@;
    assert(kk == dec_nat(i as nat));
    // the address of the source field
    let mut b1 = String::new();
    push_str(&mut b1, " = getelementptr i64, ptr ");
    push_str(&mut b1, src);
    push_str(&mut b1, ", i32 ");
    push_str(&mut b1, k);
    append_indexed_line(out, "_sret_gep_src.", k, label, b1.as_str());
    let ghost o1 = out@;
    // its load
    let mut b2 = String::new();
    push_str(&mut b2, ".load = load i64, ptr %_sret_gep_src.");
    push_str(&mut b2, k);
    push_str(&mut b2, ".");
    push_str(&mut b2, label);
    append_indexed_line(out, "_sret_f", k, label, b2.as_str());
    let ghost o2 = out@;
    // the address of the slot's field
    let mut b3 = String::new();
    push_str(&mut b3, " = getelementptr i64, ptr %_sret, i32 ");
    push_str(&mut b3, k);
    append_indexed_line(out, "_sret_gep_dst.", k, label, b3.as_str());
    let ghost o3 = out@;
    // the store
    push_str(out, "  store i64 %_sret_f");
    push_str(out, k);
    push_str(out, ".");
    push_str(out, label);
    push_str(out, ".load, ptr %_sret_gep_dst.");
    push_str(out, k);
    push_str(out, ".");
    push_str(out, label);
    push_str(out, "\n");
    assert(o1 =~= old(out)@ + ("  %"@ + "_sret_gep_src."@ + kk + "."@ + label@ + " = getelementptr i64, ptr "@
        + src@ + ", i32 "@ + kk + "\n"@));
    assert(o2 =~= o1 + ("  %"@ + "_sret_f"@ + kk + "."@ + label@ + ".load = load i64, ptr %_sret_gep_src."@
        + kk + "."@ + label@ + "\n"@));
    assert(o3 =~= o2 + ("  %"@ + "_sret_gep_dst."@ + kk + "."@ + label@
        + " = getelementptr i64, ptr %_sret, i32 "@ + kk + "\n"@));
    assert(final(out)@ =~= o3 + ("  store i64 %_sret_f"@ + kk + "."@ + label@
        + ".load, ptr %_sret_gep_dst."@ + kk + "."@ + label@ + "\n"@));
    assert(final(out)@ =~= old(out)@ + sret_copy_field(src@, label@, i as nat));
}

/// Appends the return of a tuple value of aggregate type `ret`.
#[verifier::spinoff_prover]
fn append_tuple_return(out: &mut String, val: &Operand, ret: &str, locals: &Vec<String>)
    ensures
        final(out)@ == old(out)@ + tuple_return_text(*val, ret@, locals@),
{
    match val {
        Operand::Place(p) => {
            let name = p.name.as_str();
            if contains_name(locals, name) {
                push_str(out, "  %");
                push_str(out, name);
                push_str(out, "_ret_load = load ");
                push_str(out, ret);
                push_str(out, ", ptr %");
                push_str(out, name);
                push_str(out, ".addr\n");
                push_str(out, "  ret ");
                push_str(out, ret);
                push_str(out, " %");
                push_str(out, name);
                push_str(out, "_ret_load\n");
            } else {
                push_str(out, "  ret ");
                push_str(out, ret);
                push_str(out, " %");
                push_str(out, name);
                push_str(out, "\n");
            }
        },
        _ => {
            push_str(out, "  ret ");
            push_str(out, ret);
            push_str(out, " undef\n");
        },
    }
    assert(final(out)@ =~= old(out)@ + tuple_return_text(*val, ret@, locals@));
}

/// Appends the load of field 0 into a register aggregate.
#[verifier::spinoff_prover]
fn append_small_first_field(out: &mut String, n: usize, src: &str, rt: &str, label: &str)
    ensures
        final(out)@ == old(out)@ + small_first_field(n as nat, src@, rt@, label@),
{
    push_str(out, "  ; small struct return - pack ");
    append_u64(out, n as u64);
    push_str(out, " fields\n");
    push_str(out, "  %_agg_gep0.");
    push_str(out, label);
    push_str(out, " = getelementptr i64, ptr ");
    push_str(out, src);
    push_str(out, ", i32 0\n");
    push_str(out, "  %_agg_f0.");
    push_str(out, label);
    push_str(out, " = load i64, ptr %_agg_gep0.");
    push_str(out, label);
    push_str(out, "\n");
    push_str(out, "  %_agg_v0.");
    push_str(out, label);
    push_str(out, " = insertvalue ");
    push_str(out, rt);
    push_str(out, " undef, i64 %_agg_f0.");
    push_str(out, label);
    push_str(out, ", 0\n");
    assert(final(out)@ =~= old(out)@ + small_first_field(n as nat, src@, rt@, label@));
}

/// Appends the load of field 1 into a register aggregate and its return.
#[verifier::spinoff_prover]
fn append_small_second_field(out: &mut String, src: &str, rt: &str, label: &str)
    ensures
        final(out)@ == old(out)@ + small_second_field(src@, rt@, label@),
{
    push_str(out, "  %_agg_gep1.");
    push_str(out, label);
    push_str(out, " = getelementptr i64, ptr ");
    push_str(out, src);
    push_str(out, ", i32 1\n");
    push_str(out, "  %_agg_f1.");
    push_str(out, label);
    push_str(out, " = load i64, ptr %_agg_gep1.");
    push_str(out, label);
    push_str(out, "\n");
    push_str(out, "  %_agg_v1.");
    push_str(out, label);
    push_str(out, " = insertvalue ");
    push_str(out, rt);
    push_str(out, " %_agg_v0.");
    push_str(out, label);
    push_str(out, ", i64 %_agg_f1.");
    push_str(out, label);
    push_str(out, ", 1\n");
    push_str(out, "  ret ");
    push_str(out, rt);
    push_str(out, " %_agg_v1.");
    push_str(out, label);
    push_str(out, "\n");
    assert(final(out)@ =~= old(out)@ + small_second_field(src@, rt@, label@));
}

/// Appends the return of a struct of one or two fields in registers.
#[verifier::spinoff_prover]
fn append_small_return(out: &mut String, val: &Operand, n: usize, locals: &Vec<String>, label: &str)
    requires
        1 <= n <= 2,
    ensures
        final(out)@ == old(out)@ + small_return_text(*val, n as nat, locals@, label@),
{
    let rt = if n == 1 { "{i64}" } else { "{i64, i64}" };
    match val {
        Operand::Place(p) => {
            let src = append_struct_source(out, p.name.as_str(), locals, "_small_src", label);
            append_small_first_field(out, n, src.as_str(), rt, label);
            if n == 2 {
                append_small_second_field(out, src.as_str(), rt, label);
            } else {
                push_str(out, "  ret ");
                push_str(out, rt);
                push_str(out, " %_agg_v0.");
                push_str(out, label);
                push_str(out, "\n");
            }
        },
        _ => {
            push_str(out, "  ret ");
            push_str(out, rt);
            push_str(out, " undef\n");
        },
    }
    assert(final(out)@ =~= old(out)@ + small_return_text(*val, n as nat, locals@, label@));
}

/// Appends the return of a struct of `n` fields through the caller's
/// slot.
#[verifier::spinoff_prover]
fn append_sret_return(out: &mut String, val: &Operand, n: usize, locals: &Vec<String>, label: &str)
    ensures
        final(out)@ == old(out)@ + sret_return_text(*val, n as nat, locals@, label@),
{
    match val {
        Operand::Place(p) => {
            let src = append_struct_source(out, p.name.as_str(), locals, "_sret_src", label);
            let ghost o0 = out@;
            push_str(out, "  ; sret return - copy ");
            append_u64(out, n as u64);
            push_str(out, " fields from ");
            push_str(out, src.as_str());
            push_str(out, " to %_sret\n");
            let ghost o1 = out@;
            let mut i: usize = 0;
            while i < n
                invariant
                    i <= n,
                    out@ == o1 + sret_copy_fields(src@, label@, i as nat),
                decreases n - i,
            {
                append_sret_copy_field(out, src.as_str(), label, i);
                i = i + 1;
            }
            push_str(out, "  ret void\n");
            assert(final(out)@ =~= old(out)@ + sret_return_text(*val, n as nat, locals@, label@));
        },
        _ => {
            push_str(out, "  ; sret return - value already in %_sret\n");
            push_str(out, "  ret void\n");
            assert(final(out)@ =~= old(out)@ + sret_return_text(*val, n as nat, locals@, label@));
        },
    }
}

/// The type recorded for a place, or `default`.
#[verifier::spinoff_prover]
pub fn place_type_or(place_types: &NameMap<&'static str>, name: &str, default: &'static str) -> (t: &'static str)
    ensures
        t@ == type_or(*place_types, name@, default@),
{
    match place_types.get(name) {
        Some(t) => *t,
        None => default,
    }
}

/// Appends the return of a value of LLVM type `ty`.
#[verifier::rlimit(60)]
#[verifier::spinoff_prover]
fn append_plain_return(
    out: &mut String,
    val: &Operand,
    ty: &'static str,
    table: &NameMap<String>,
    locals: &Vec<String>,
    place_types: &NameMap<&'static str>,
    label: &str,
    cg: &TextCodeGen,
)
    ensures
        final(out)@ == old(out)@ + plain_return_text(*val, ty@, *table, locals@, *place_types, label@),
{
    match val {
        Operand::Constant(Constant::String(s)) => {
            match table.get(s.as_str()) {
                Some(g) => {
                    push_str(out, "  ret ptr @");
                    push_str(out, g.as_str());
                    push_str(out, ".bmb\n");
                },
                None => {
                    push_str(out, "  ret ");
                    push_str(out, ty);
                    push_str(out, " ");
                    let v = cg.format_operand_with_strings(val, table);
                    push_str(out, v.as_str());
                    push_str(out, "\n");
                },
            }
        },
        Operand::Place(p) => {
            let name = p.name.as_str();
            if crate::text::str_eq(ty, "void") {
                push_str(out, "  ret void\n");
            } else if contains_name(locals, name) {
                let lt = place_type_or(place_types, name, ty);
                let mut v = String::new();
                push_str(&mut v, "_ret_val.");
                push_str(&mut v, label);
                push_str(&mut v, ".");
                push_str(&mut v, name);
                push_str(out, "  %");
                push_str(out, v.as_str());
                push_str(out, " = load ");
                push_str(out, lt);
                push_str(out, ", ptr %");
                push_str(out, name);
                push_str(out, ".addr\n");
                if crate::text::str_eq(lt, "i32") && crate::text::str_eq(ty, "i64") {
                    push_str(out, "  %");
                    push_str(out, v.as_str());
                    push_str(out, ".sext = sext i32 %");
                    push_str(out, v.as_str());
                    push_str(out, " to i64\n");
                    push_str(out, "  ret i64 %");
                    push_str(out, v.as_str());
                    push_str(out, ".sext\n");
                } else {
                    push_str(out, "  ret ");
                    push_str(out, ty);
                    push_str(out, " %");
                    push_str(out, v.as_str());
                    push_str(out, "\n");
                }
            } else {
                let vt = place_type_or(place_types, name, ty);
                if crate::text::str_eq(vt, "i32") && crate::text::str_eq(ty, "i64") {
                    let mut v = String::new();
                    push_str(&mut v, "_ret_sext.");
                    push_str(&mut v, label);
                    push_str(&mut v, ".");
                    push_str(&mut v, name);
                    push_str(out, "  %");
                    push_str(out, v.as_str());
                    push_str(out, " = sext i32 %");
                    push_str(out, name);
                    push_str(out, " to i64\n");
                    push_str(out, "  ret i64 %");
                    push_str(out, v.as_str());
                    push_str(out, "\n");
                } else if crate::text::str_eq(vt, "i64") && crate::text::str_eq(ty, "ptr") {
                    let mut v = String::new();
                    push_str(&mut v, "_ret_inttoptr.");
                    push_str(&mut v, label);
                    push_str(&mut v, ".");
                    push_str(&mut v, name);
                    push_str(out, "  %");
                    push_str(out, v.as_str());
                    push_str(out, " = inttoptr i64 %");
                    push_str(out, name);
                    push_str(out, " to ptr\n");
                    push_str(out, "  ret ptr %");
                    push_str(out, v.as_str());
                    push_str(out, "\n");
                } else {
                    push_str(out, "  ret ");
                    push_str(out, ty);
                    push_str(out, " %");
                    push_str(out, name);
                    push_str(out, "\n");
                }
            }
        },
        _ => {
            if crate::text::str_eq(ty, "void") {
                push_str(out, "  ret void\n");
            } else {
                push_str(out, "  ret ");
                push_str(out, ty);
                push_str(out, " ");
                let v = cg.format_operand_with_strings(val, table);
                push_str(out, v.as_str());
                push_str(out, "\n");
            }
        },
    }
    assert(final(out)@ =~= old(out)@ + plain_return_text(*val, ty@, *table, locals@, *place_types, label@));
}

/// Appends the load of a branch or switch operand from its local slot
/// where it has one, and gives the operand's text.
#[verifier::spinoff_prover]
fn append_loaded_operand(out: &mut String, op: &Operand, locals: &Vec<String>, ty: &str, suffix: &str, cg: &TextCodeGen) -> (r: String)
    ensures
        final(out)@ == old(out)@ + loaded_operand(*op, locals@, ty@, suffix@).0,
        r@ == loaded_operand(*op, locals@, ty@, suffix@).1,
{
    match op {
        Operand::Place(p) => {
            let name = p.name.as_str();
            if contains_name(locals, name) {
                let mut v = String::new();
                push_str(&mut v, name);
                push_str(&mut v, suffix);
                push_str(out, "  %");
                push_str(out, v.as_str());
                push_str(out, " = load ");
                push_str(out, ty);
                push_str(out, ", ptr %");
                push_str(out, name);
                push_str(out, ".addr\n");
                let mut r = String::new();
                push_str(&mut r, "%");
                push_str(&mut r, v.as_str());
                assert(final(out)@ =~= old(out)@ + loaded_operand(*op, locals@, ty@, suffix@).0);
                assert(r@ =~= loaded_operand(*op, locals@, ty@, suffix@).1);
                r
            } else {
                assert(final(out)@ =~= old(out)@ + loaded_operand(*op, locals@, ty@, suffix@).0);
                cg.format_operand(op)
            }
        },
        _ => {
            assert(final(out)@ =~= old(out)@ + loaded_operand(*op, locals@, ty@, suffix@).0);
            cg.format_operand(op)
        },
    }
}

impl TextCodeGen {
    /// Appends the LLVM IR of a block's terminator.
    #[verifier::rlimit(60)]
    #[verifier::spinoff_prover]
    pub fn emit_terminator(
        &self,
        out: &mut String,
        term: &Terminator,
        func: &MirFunction,
        string_table: &NameMap<String>,
        local_names: &Vec<String>,
        place_types: &NameMap<&'static str>,
        block_label: &str,
    )
        ensures
            final(out)@ == old(out)@ + terminator_text(
                *term,
                *func,
                *string_table,
                local_names@,
                *place_types,
                block_label@,
            ),
    {
        match term {
            Terminator::Return(None) => {
                if matches!(func.ret_ty, MirType::Unit) {
                    push_str(out, "  ret void\n");
                } else {
                    push_str(out, "  ret ");
                    push_str(out, self.mir_type_to_llvm(&func.ret_ty));
                    push_str(out, " 0\n");
                }
            },
            Terminator::Return(Some(val)) => {
                let n: usize = match &func.ret_ty {
                    MirType::Struct { fields, .. } => fields.len(),
                    _ => 0,
                };
                match &func.ret_ty {
                    MirType::Tuple(elems) => {
                        let mut rt = String::new();
                        append_tuple_type(&mut rt, elems, self);
                        append_tuple_return(out, val, rt.as_str(), local_names);
                    },
                    _ => {
                        if n > 0 && n <= 2 {
                            append_small_return(out, val, n, local_names, block_label);
                        } else if n > 2 {
                            append_sret_return(out, val, n, local_names, block_label);
                        } else {
                            let ty = self.mir_type_to_llvm(&func.ret_ty);
                            append_plain_return(
                                out,
                                val,
                                ty,
                                string_table,
                                local_names,
                                place_types,
                                block_label,
                                self,
                            );
                        }
                    },
                }
            },
            Terminator::Goto(label) => {
                push_str(out, "  br label %bb_");
                push_str(out, label.as_str());
                push_str(out, "\n");
            },
            Terminator::Branch { cond, then_label, else_label } => {
                let mut suffix = String::new();
                push_str(&mut suffix, ".cond_");
                push_str(&mut suffix, then_label.as_str());
                let c = append_loaded_operand(out, cond, local_names, "i1", suffix.as_str(), self);
                push_str(out, "  br i1 ");
                push_str(out, c.as_str());
                push_str(out, ", label %bb_");
                push_str(out, then_label.as_str());
                push_str(out, ", label %bb_");
                push_str(out, else_label.as_str());
                push_str(out, "\n");
            },
            Terminator::Unreachable => {
                push_str(out, "  unreachable\n");
            },
            Terminator::Switch { discriminant, cases, default } => {
                let mut suffix = String::new();
                push_str(&mut suffix, ".disc_");
                push_str(&mut suffix, default.as_str());
                let d = append_loaded_operand(out, discriminant, local_names, "i64", suffix.as_str(), self);
                push_str(out, "  switch i64 ");
                push_str(out, d.as_str());
                push_str(out, ", label %bb_");
                push_str(out, default.as_str());
                push_str(out, " [\n");
                let ghost o1 = out@;
                let mut i: usize = 0;
                while i < cases.len()
                    invariant
                        i <= cases.len(),
                        out@ == o1 + switch_cases_text(cases@.subrange(0, i as int)),
                    decreases cases.len() - i,
                {
                    push_str(out, "    i64 ");
                    append_i64(out, cases[i].0);
                    push_str(out, ", label %bb_");
                    push_str(out, cases[i].1.as_str());
                    push_str(out, "\n");
                    assert(cases@.subrange(0, i + 1).drop_last() =~= cases@.subrange(0, i as int));
                    i = i + 1;
                    assert(out@ =~= o1 + switch_cases_text(cases@.subrange(0, i as int)));
                }
                assert(cases@.subrange(0, cases.len() as int) =~= cases@);
                push_str(out, "  ]\n");
            },
        }
        assert(final(out)@ =~= old(out)@ + terminator_text(
            *term,
            *func,
            *string_table,
            local_names@,
            *place_types,
            block_label@,
        ));
    }
}

} // verus!
