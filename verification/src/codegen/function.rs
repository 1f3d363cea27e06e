//! LLVM IR text of instructions in general, of basic blocks, and the
//! analyses a function's emission rests on.

use vstd::prelude::*;

use crate::codegen::builtins::builtin_text;
use crate::codegen::calls::call_text;
use crate::codegen::calls::callee_return_type;
use crate::codegen::instructions::{
    binop_text, cast_text, const_text, copy_text, find_phi, is_i32_constant, phi_find, phi_text, unary_text,
    FunctionInfo, PhiEntry, ProgramInfo,
};
use crate::codegen::aggregates::{
    enum_variant_text, field_access_text, field_store_text, field_type_or, field_type_str, tuple_extract_text,
    struct_init_text, tuple_init_text,
};
use crate::codegen::arrays::{array_init_text, index_load_text, index_store_text};
use crate::codegen::memory::{array_alloc_text, ptr_load_text, ptr_offset_text, ptr_store_text};
use crate::codegen::concurrency::concurrency_text;
use crate::codegen::select::select_text;
use crate::codegen::llvm_text::{constant_llvm_type, find_type, llvm_type, type_named, TextCodeGen, TextCodeGenError};
use crate::codegen::analysis::{coercion_entries, is_slot_local, phi_coercions_of, phi_loads_of, phi_strings_of, string_entries, string_map, tuple_vars_of};
use crate::codegen::names::{contains_name, count_map, insert_type, names_contain, type_map, NameMap};
use crate::codegen::terminator::{block_label, small_struct_type, struct_field_count, terminator_text, tuple_type_text, type_or};
use crate::mir::{BasicBlock, MirBinOp, MirFunction, MirInst, MirType, Operand};
use crate::text::{push_str, str_eq};

verus! {

/// The runtime builtins (by name and argument count) whose calls are
/// expanded inline rather than called.
pub open spec fn is_inline_builtin(name: Seq<char>, n: nat) -> bool {
    ||| n == 0 && name == "vec_new"@
    ||| n == 1 && (name == "sqrt"@ || name == "i64_to_f64"@ || name == "f64_to_i64"@ || name == "i32_to_f64"@
        || name == "i32_to_i64"@ || name == "i64_to_i32"@ || name == "box_new_i64"@ || name == "malloc"@
        || name == "box_free_i64"@ || name == "free"@ || name == "load_i64"@ || name == "box_get_i64"@
        || name == "load_f64"@ || name == "load_u8"@ || name == "str_data"@ || name == "vec_with_capacity"@
        || name == "vec_len"@ || name == "vec_cap"@ || name == "vec_pop"@ || name == "vec_free"@
        || name == "len"@ || name == "bmb_string_len"@ || name == "ord"@ || name == "bmb_ord"@)
    ||| n == 2 && (name == "store_i64"@ || name == "box_set_i64"@ || name == "store_f64"@ || name == "store_u8"@
        || name == "vec_get"@ || name == "vec_push"@ || name == "char_at"@ || name == "byte_at"@
        || name == "bmb_string_char_at"@)
    ||| n == 3 && name == "vec_set"@
}

/// The text of one instruction of the block `block`, and the counters
/// after it.
#[verifier::opaque]
pub open spec fn inst_text(
    inst: MirInst,
    func: MirFunction,
    info: FunctionInfo,
    prog: ProgramInfo,
    block: Seq<char>,
    counts: Map<Seq<char>, u32>,
) -> (Seq<char>, Map<Seq<char>, u32>) {
    let table = prog.string_table;
    match inst {
        MirInst::Const { dest, value } => const_text(dest.name@, value, info, table, counts),
        MirInst::Copy { dest, src } => copy_text(dest.name@, src.name@, info, func, counts),
        MirInst::BinOp { dest, op, lhs, rhs } => binop_text(dest.name@, op, lhs, rhs, info, func, table, counts),
        MirInst::UnaryOp { dest, op, src } => unary_text(dest.name@, op, src, info, func, counts),
        MirInst::Call { dest, func: callee, args, is_tail } => if is_inline_builtin(callee@, args@.len()) {
            builtin_text(dest, callee@, args@, info, func, table, counts)
        } else {
            call_text(dest, callee@, args@, is_tail, info, func, prog, counts)
        },
        MirInst::Phi { dest, values } => phi_text(dest.name@, values@, info, func, table, block, counts),
        MirInst::Cast { dest, src, from_ty, to_ty } => cast_text(dest.name@, src, from_ty, to_ty, info, counts),
        MirInst::PtrOffset { dest, ptr, offset, element_type } => ptr_offset_text(
            dest.name@,
            ptr,
            offset,
            element_type,
            info,
            counts,
        ),
        MirInst::ArrayAlloc { dest, element_type, size } => array_alloc_text(dest.name@, element_type, size, info, counts),
        MirInst::PtrLoad { dest, ptr, element_type } => ptr_load_text(dest.name@, ptr, element_type, info, counts),
        MirInst::PtrStore { ptr, value, element_type } => ptr_store_text(ptr, value, element_type, info, counts),
        MirInst::ArrayInit { dest, element_type, elements } => (
            array_init_text(dest.name@, element_type, elements@, info),
            counts,
        ),
        MirInst::IndexLoad { dest, array, index, element_type } => (
            index_load_text(dest.name@, array.name@, index, element_type, info, func),
            counts,
        ),
        MirInst::IndexStore { array, index, value, element_type } => index_store_text(
            array.name@,
            index,
            value,
            element_type,
            info,
            func,
            counts,
        ),
        MirInst::TupleExtract { dest, tuple, index, element_type } => tuple_extract_text(
            dest.name@,
            tuple.name@,
            index,
            element_type,
            info,
            counts,
        ),
        MirInst::FieldAccess { dest, base, field, field_index, struct_name } => (
            field_access_text(dest.name@, base.name@, field@, field_index, struct_name@, info, func, prog),
            counts,
        ),
        MirInst::FieldStore { base, field, field_index, struct_name, value } => field_store_text(
            base.name@,
            field@,
            field_index,
            struct_name@,
            value,
            info,
            func,
            prog,
            counts,
        ),
        MirInst::EnumVariant { dest, enum_name, variant, args } => (
            enum_variant_text(dest.name@, enum_name@, variant@, args@, func),
            counts,
        ),
        MirInst::TupleInit { dest, elements } => tuple_init_text(dest.name@, elements@, info, counts),
        MirInst::StructInit { dest, struct_name, fields } => (
            struct_init_text(dest.name@, struct_name@, fields@, info, func),
            counts,
        ),
        MirInst::Select { dest, cond_op, cond_lhs, cond_rhs, true_val, false_val } => (
            select_text(info, func, table, dest.name@, cond_op, cond_lhs, cond_rhs, true_val, false_val),
            counts,
        ),
        _ => concurrency_text(inst, info, counts),
    }
}

/// The text of the first `n` instructions, and the counters after them.
pub open spec fn insts_text(
    insts: Seq<MirInst>,
    n: int,
    func: MirFunction,
    info: FunctionInfo,
    prog: ProgramInfo,
    block: Seq<char>,
    counts: Map<Seq<char>, u32>,
) -> (Seq<char>, Map<Seq<char>, u32>)
    decreases n,
{
    if n <= 0 {
        (Seq::empty(), counts)
    } else {
        let (t, c) = insts_text(insts, n - 1, func, info, prog, block, counts);
        let (t2, c2) = inst_text(insts[n - 1], func, info, prog, block, c);
        (t + t2, c2)
    }
}

/// The type a local is loaded with for a phi: its tuple type, the type
/// recorded for it, its declared type, else `ptr`.
pub open spec fn phi_load_type(info: FunctionInfo, func: MirFunction, name: Seq<char>) -> Seq<char> {
    match info.tuple_var_types.lookup(name) {
        Some(t) => t@,
        None => match info.place_types.lookup(name) {
            Some(t) => t@,
            None => match type_named(func.locals@, name) {
                Some(t) => llvm_type(t),
                None => "ptr"@,
            },
        },
    }
}

/// The loads, in the block `label`, of locals that phi nodes of its
/// successors read (the first `n` entries).
pub open spec fn phi_loads_text(
    entries: Seq<PhiEntry<String>>,
    n: int,
    label: Seq<char>,
    info: FunctionInfo,
    func: MirFunction,
) -> Seq<char>
    decreases n,
{
    if n <= 0 {
        Seq::empty()
    } else {
        let e = entries[n - 1];
        phi_loads_text(entries, n - 1, label, info, func) + if e.pred@ == label {
            "  %"@ + e.data@ + " = load "@ + phi_load_type(info, func, e.value@) + ", ptr %"@ + e.value@
                + ".addr\n"@
        } else {
            Seq::empty()
        }
    }
}

/// The string values, in the block `label`, that phi nodes of its
/// successors read (the first `n` entries).
pub open spec fn phi_strings_text(
    entries: Seq<PhiEntry<String>>,
    n: int,
    label: Seq<char>,
    table: NameMap<String>,
) -> Seq<char>
    decreases n,
{
    if n <= 0 {
        Seq::empty()
    } else {
        let e = entries[n - 1];
        phi_strings_text(entries, n - 1, label, table) + if e.pred@ == label {
            match table.lookup(e.value@) {
                Some(g) => "  %"@ + e.data@ + " = getelementptr %BmbString, ptr @"@ + g@ + ".bmb, i32 0\n"@,
                None => Seq::empty(),
            }
        } else {
            Seq::empty()
        }
    }
}

/// The first phi load of the local `v` from the block `p`, whatever block
/// the phi is in.
pub open spec fn load_from(entries: Seq<PhiEntry<String>>, v: Seq<char>, p: Seq<char>) -> Option<Seq<char>>
    decreases entries.len(),
{
    if entries.len() == 0 {
        None
    } else if entries[0].value@ == v && entries[0].pred@ == p {
        Some(entries[0].data@)
    } else {
        load_from(entries.drop_first(), v, p)
    }
}

/// The instruction widening a phi value from `from` to `to`.
pub open spec fn coercion_instruction(from: Seq<char>, to: Seq<char>) -> Seq<char> {
    if (from == "i32"@ && to == "i64"@) || (from == "i1"@ && to == "i64"@) || (from == "i1"@ && to == "i32"@) {
        "sext"@
    } else if from == "i64"@ && to == "i32"@ {
        "trunc"@
    } else {
        "bitcast"@
    }
}

/// The widening, in the block `label`, of one value a phi node of its
/// successors reads.
pub open spec fn coercion_line(info: FunctionInfo, e: PhiEntry<crate::codegen::instructions::Coercion>, label: Seq<char>) -> Seq<char> {
    if e.pred@ == label {
        let src = match load_from(info.phi_loads@, e.value@, e.pred@) {
            Some(t) => "%"@ + t,
            None => "%"@ + e.value@,
        };
        "  %"@ + e.data.temp@ + " = "@ + coercion_instruction(e.data.from_ty@, e.data.to_ty@) + " "@
            + e.data.from_ty@ + " "@ + src + " to "@ + e.data.to_ty@ + "\n"@
    } else {
        Seq::empty()
    }
}

/// The widenings, in the block `label`, of values that phi nodes of its
/// successors read (the first `n` entries).
pub open spec fn phi_coercions_text(info: FunctionInfo, n: int, label: Seq<char>) -> Seq<char>
    decreases n,
{
    if n <= 0 {
        Seq::empty()
    } else {
        phi_coercions_text(info, n - 1, label) + coercion_line(info, info.phi_coercions@[n - 1], label)
    }
}

/// The text of a basic block, and the counters after it.
pub open spec fn block_text(
    block: BasicBlock,
    func: MirFunction,
    info: FunctionInfo,
    prog: ProgramInfo,
    counts: Map<Seq<char>, u32>,
) -> (Seq<char>, Map<Seq<char>, u32>) {
    let label = block.label@;
    let (t, c) = insts_text(block.instructions@, block.instructions@.len() as int, func, info, prog, label, counts);
    (
        "bb_"@ + label + ":\n"@ + t + phi_loads_text(info.phi_loads@, info.phi_loads@.len() as int, label, info, func)
            + phi_strings_text(info.phi_strings@, info.phi_strings@.len() as int, label, prog.string_table)
            + phi_coercions_text(info, info.phi_coercions@.len() as int, label) + terminator_text(
            block.terminator,
            func,
            prog.string_table,
            info.local_names@,
            info.place_types,
            label,
        ),
        c,
    )
}

/// A block's text opens with the label that branches to the block name:
/// the block label of its MIR label, then a colon.
pub proof fn lemma_block_opens_with_its_label(
    block: BasicBlock,
    func: MirFunction,
    info: FunctionInfo,
    prog: ProgramInfo,
    counts: Map<Seq<char>, u32>,
)
    ensures
        block_text(block, func, info, prog, counts).0.take((block_label(block.label@) + ":\n"@).len() as int)
            == block_label(block.label@) + ":\n"@,
{
    let t = block_text(block, func, info, prog, counts).0;
    let head = block_label(block.label@) + ":\n"@;
    assert(t =~= head + t.skip(head.len() as int));
    assert(t.take(head.len() as int) =~= head);
}

/// Whether a call of `name` with `n` arguments is of an inline builtin.
fn inline_builtin(name: &str, n: usize) -> (r: bool)
    ensures
        r == is_inline_builtin(name@, n as nat),
{
    (n == 0 && str_eq(name, "vec_new")) || (n == 1 && (str_eq(name, "sqrt") || str_eq(name, "i64_to_f64")
        || str_eq(name, "f64_to_i64") || str_eq(name, "i32_to_f64") || str_eq(name, "i32_to_i64") || str_eq(
        name,
        "i64_to_i32",
    ) || str_eq(name, "box_new_i64") || str_eq(name, "malloc") || str_eq(name, "box_free_i64") || str_eq(
        name,
        "free",
    ) || str_eq(name, "load_i64") || str_eq(name, "box_get_i64") || str_eq(name, "load_f64") || str_eq(
        name,
        "load_u8",
    ) || str_eq(name, "str_data") || str_eq(name, "vec_with_capacity") || str_eq(name, "vec_len")
        || str_eq(name, "vec_cap") || str_eq(name, "vec_pop") || str_eq(name, "vec_free") || str_eq(
        name,
        "len",
    ) || str_eq(name, "bmb_string_len") || str_eq(name, "ord") || str_eq(name, "bmb_ord"))) || (n == 2 && (
    str_eq(name, "store_i64") || str_eq(name, "box_set_i64") || str_eq(name, "store_f64") || str_eq(
        name,
        "store_u8",
    ) || str_eq(name, "vec_get") || str_eq(name, "vec_push") || str_eq(name, "char_at") || str_eq(
        name,
        "byte_at",
    ) || str_eq(name, "bmb_string_char_at"))) || (n == 3 && str_eq(name, "vec_set"))
}

/// The first phi load of the local `v` from the block `p`.
fn find_load_from<'a>(entries: &'a Vec<PhiEntry<String>>, v: &str, p: &str) -> (r: Option<&'a String>)
    ensures
        match r {
            Some(t) => load_from(entries@, v@, p@) == Some(t@),
            None => load_from(entries@, v@, p@) is None,
        },
{
    let mut i: usize = 0;
    assert(entries@.subrange(0, entries@.len() as int) =~= entries@);
    while i < entries.len()
        invariant
            i <= entries.len(),
            load_from(entries@, v@, p@) == load_from(entries@.subrange(i as int, entries@.len() as int), v@, p@),
        decreases entries.len() - i,
    {
        assert(entries@.subrange(i as int, entries@.len() as int).drop_first()
            =~= entries@.subrange(i + 1, entries@.len() as int));
        if str_eq(entries[i].value.as_str(), v) && str_eq(entries[i].pred.as_str(), p) {
            return Some(&entries[i].data);
        }
        i = i + 1;
    }
    None
}

impl TextCodeGen {
    /// Appends one instruction of the block `block`.
    pub fn emit_instruction_with_strings(
        &self,
        out: &mut String,
        inst: &MirInst,
        func: &MirFunction,
        info: &FunctionInfo,
        prog: &ProgramInfo,
        block: &str,
        name_counts: &mut NameMap<u32>,
    ) -> (r: Result<(), TextCodeGenError>)
        ensures
            r is Ok,
            final(out)@ == old(out)@ + inst_text(*inst, *func, *info, *prog, block@, count_map(*old(name_counts))).0,
            count_map(*final(name_counts)) == inst_text(*inst, *func, *info, *prog, block@, count_map(*old(name_counts))).1,
    {
        reveal(inst_text);
        let table = &prog.string_table;
        match inst {
            MirInst::Const { dest, value } => self.emit_const(out, dest, value, info, table, name_counts),
            MirInst::Copy { dest, src } => self.emit_copy(out, dest, src, func, info, name_counts),
            MirInst::BinOp { dest, op, lhs, rhs } => self.emit_binop(out, dest, *op, lhs, rhs, func, info, table, name_counts),
            MirInst::UnaryOp { dest, op, src } => self.emit_unary(out, dest, *op, src, func, info, name_counts),
            MirInst::Call { dest, func: callee, args, is_tail } => {
                if inline_builtin(callee.as_str(), args.len()) {
                    self.emit_builtin(out, dest, callee.as_str(), args, info, func, table, name_counts);
                } else {
                    self.emit_call(out, dest, callee.as_str(), args, *is_tail, func, info, prog, name_counts);
                }
            },
            MirInst::Phi { dest, values } => self.emit_phi(out, dest, values, func, info, table, block, name_counts),
            MirInst::Cast { dest, src, from_ty, to_ty } => self.emit_cast(out, dest, src, from_ty, to_ty, info, name_counts),
            MirInst::PtrOffset { dest, ptr, offset, element_type } => {
                self.emit_ptr_offset(out, dest, ptr, offset, element_type, info, name_counts)
            },
            MirInst::ArrayAlloc { dest, element_type, size } => {
                self.emit_array_alloc(out, dest, element_type, *size, info, name_counts)
            },
            MirInst::PtrLoad { dest, ptr, element_type } => self.emit_ptr_load(out, dest, ptr, element_type, info, name_counts),
            MirInst::PtrStore { ptr, value, element_type } => {
                self.emit_ptr_store(out, ptr, value, element_type, info, name_counts)
            },
            MirInst::ArrayInit { dest, element_type, elements } => {
                self.emit_array_init(out, dest, element_type, elements, info)
            },
            MirInst::IndexLoad { dest, array, index, element_type } => {
                self.emit_index_load(out, dest, array, index, element_type, info, func)
            },
            MirInst::IndexStore { array, index, value, element_type } => {
                self.emit_index_store(out, array, index, value, element_type, info, func, name_counts)
            },
            MirInst::TupleExtract { dest, tuple, index, element_type } => {
                self.emit_tuple_extract(out, dest, tuple, *index, element_type, info, name_counts)
            },
            MirInst::FieldAccess { dest, base, field, field_index, struct_name } => {
                self.emit_field_access(out, dest, base, field.as_str(), *field_index, struct_name.as_str(), info, func, prog)
            },
            MirInst::FieldStore { base, field, field_index, struct_name, value } => {
                self.emit_field_store(
                    out,
                    base,
                    field.as_str(),
                    *field_index,
                    struct_name.as_str(),
                    value,
                    info,
                    func,
                    prog,
                    name_counts,
                )
            },
            MirInst::EnumVariant { dest, enum_name, variant, args } => {
                self.emit_enum_variant(out, dest, enum_name.as_str(), variant.as_str(), args, func)
            },
            MirInst::TupleInit { dest, elements } => self.emit_tuple_init(out, dest, elements, info, name_counts),
            MirInst::StructInit { dest, struct_name, fields } => {
                self.emit_struct_init(out, dest, struct_name.as_str(), fields, info, func)
            },
            MirInst::Select { dest, cond_op, cond_lhs, cond_rhs, true_val, false_val } => {
                self.emit_select(out, info, func, table, dest.name.as_str(), *cond_op, cond_lhs, cond_rhs, true_val, false_val)
            },
            _ => self.emit_concurrency(out, inst, info, name_counts),
        }
        Ok(())
    }

    /// Appends the loads of locals read by phi nodes of the successors of
    /// the block `label`.
    fn emit_phi_loads(&self, out: &mut String, label: &str, func: &MirFunction, info: &FunctionInfo)
        ensures
            final(out)@ == old(out)@ + phi_loads_text(info.phi_loads@, info.phi_loads@.len() as int, label@, *info, *func),
    {
        let entries = &info.phi_loads;
        let ghost o = out@;
        let mut i: usize = 0;
        while i < entries.len()
            invariant
                i <= entries.len(),
                out@ == o + phi_loads_text(entries@, i as int, label@, *info, *func),
            decreases entries.len() - i,
        {
            let e = &entries[i];
            if str_eq(e.pred.as_str(), label) {
                let ty: String = match info.tuple_var_types.get(e.value.as_str()) {
                    Some(t) => t.as_str().to_owned(),
                    None => match info.place_types.get(e.value.as_str()) {
                        Some(t) => (*t).to_owned(),
                        None => match find_type(&func.locals, e.value.as_str()) {
                            Some(t) => self.mir_type_to_llvm(t).to_owned(),
                            None => "ptr".to_owned(),
                        },
                    },
                };
                assert(ty@ == phi_load_type(*info, *func, e.value@));
                push_str(out, "  %");
                push_str(out, e.data.as_str());
                push_str(out, " = load ");
                push_str(out, ty.as_str());
                push_str(out, ", ptr %");
                push_str(out, e.value.as_str());
                push_str(out, ".addr\n");
            }
            i = i + 1;
            assert(out@ =~= o + phi_loads_text(entries@, i as int, label@, *info, *func));
        }
    }

    /// Appends the string values read by phi nodes of the successors of
    /// the block `label`.
    fn emit_phi_strings(&self, out: &mut String, label: &str, info: &FunctionInfo, table: &NameMap<String>)
        ensures
            final(out)@ == old(out)@ + phi_strings_text(info.phi_strings@, info.phi_strings@.len() as int, label@, *table),
    {
        let entries = &info.phi_strings;
        let ghost o = out@;
        let mut i: usize = 0;
        while i < entries.len()
            invariant
                i <= entries.len(),
                out@ == o + phi_strings_text(entries@, i as int, label@, *table),
            decreases entries.len() - i,
        {
            let e = &entries[i];
            if str_eq(e.pred.as_str(), label) {
                match table.get(e.value.as_str()) {
                    Some(g) => {
                        push_str(out, "  %");
                        push_str(out, e.data.as_str());
                        push_str(out, " = getelementptr %BmbString, ptr @");
                        push_str(out, g.as_str());
                        push_str(out, ".bmb, i32 0\n");
                    },
                    None => {},
                }
            }
            i = i + 1;
            assert(out@ =~= o + phi_strings_text(entries@, i as int, label@, *table));
        }
    }

    /// The widening of one phi value in the block `label`.
    fn coercion_line_text(&self, e: &PhiEntry<crate::codegen::instructions::Coercion>, label: &str, info: &FunctionInfo) -> (line: String)
        ensures
            line@ == coercion_line(*info, *e, label@),
    {
        let mut line = String::new();
        if str_eq(e.pred.as_str(), label) {
            let mut src = String::new();
            push_str(&mut src, "%");
            match find_load_from(&info.phi_loads, e.value.as_str(), e.pred.as_str()) {
                Some(t) => push_str(&mut src, t.as_str()),
                None => push_str(&mut src, e.value.as_str()),
            }
            let from = e.data.from_ty;
            let to = e.data.to_ty;
            let instr = if (str_eq(from, "i32") && str_eq(to, "i64")) || (str_eq(from, "i1") && str_eq(to, "i64"))
                || (str_eq(from, "i1") && str_eq(to, "i32")) {
                "sext"
            } else if str_eq(from, "i64") && str_eq(to, "i32") {
                "trunc"
            } else {
                "bitcast"
            };
            push_str(&mut line, "  %");
            push_str(&mut line, e.data.temp.as_str());
            push_str(&mut line, " = ");
            push_str(&mut line, instr);
            push_str(&mut line, " ");
            push_str(&mut line, from);
            push_str(&mut line, " ");
            push_str(&mut line, src.as_str());
            push_str(&mut line, " to ");
            push_str(&mut line, to);
            push_str(&mut line, "\n");
        }
        assert(line@ =~= coercion_line(*info, *e, label@));
        line
    }

    /// Appends the widenings of values read by phi nodes of the successors
    /// of the block `label`.
    fn emit_phi_coercions(&self, out: &mut String, label: &str, info: &FunctionInfo)
        ensures
            final(out)@ == old(out)@ + phi_coercions_text(*info, info.phi_coercions@.len() as int, label@),
    {
        let entries = &info.phi_coercions;
        let ghost o = out@;
        let mut i: usize = 0;
        while i < entries.len()
            invariant
                i <= entries.len(),
                entries@ == info.phi_coercions@,
                out@ == o + phi_coercions_text(*info, i as int, label@),
            decreases entries.len() - i,
        {
            let e = &entries[i];
            let line = self.coercion_line_text(e, label, info);
            push_str(out, line.as_str());
            i = i + 1;
            assert(out@ =~= o + phi_coercions_text(*info, i as int, label@));
        }
    }

    /// Appends the instructions of a block.
    fn emit_insts(
        &self,
        out: &mut String,
        block: &BasicBlock,
        func: &MirFunction,
        info: &FunctionInfo,
        prog: &ProgramInfo,
        name_counts: &mut NameMap<u32>,
    )
        ensures
            final(out)@ == old(out)@ + insts_text(block.instructions@, block.instructions@.len() as int, *func, *info, *prog, block.label@, count_map(*old(name_counts))).0,
            count_map(*final(name_counts)) == insts_text(block.instructions@, block.instructions@.len() as int, *func, *info, *prog, block.label@, count_map(*old(name_counts))).1,
    {
        let label = block.label.as_str();
        let ghost o = out@;
        let ghost c0 = count_map(*old(name_counts));
        let mut i: usize = 0;
        while i < block.instructions.len()
            invariant
                i <= block.instructions.len(),
                label@ == block.label@,
                c0 == count_map(*old(name_counts)),
                out@ == o + insts_text(block.instructions@, i as int, *func, *info, *prog, label@, c0).0,
                count_map(*name_counts) == insts_text(block.instructions@, i as int, *func, *info, *prog, label@, c0).1,
            decreases block.instructions.len() - i,
        {
            let _ = self.emit_instruction_with_strings(out, &block.instructions[i], func, info, prog, label, name_counts);
            i = i + 1;
            assert(out@ =~= o + insts_text(block.instructions@, i as int, *func, *info, *prog, label@, c0).0);
        }
    }

    /// Appends a basic block: its label, its instructions, the loads,
    /// string values and widenings its successors' phi nodes read, and its
    /// terminator.
    pub fn emit_block_with_strings(
        &self,
        out: &mut String,
        block: &BasicBlock,
        func: &MirFunction,
        info: &FunctionInfo,
        prog: &ProgramInfo,
        name_counts: &mut NameMap<u32>,
    ) -> (r: Result<(), TextCodeGenError>)
        ensures
            r is Ok,
            final(out)@ == old(out)@ + block_text(*block, *func, *info, *prog, count_map(*old(name_counts))).0,
            count_map(*final(name_counts)) == block_text(*block, *func, *info, *prog, count_map(*old(name_counts))).1,
    {
        let label = block.label.as_str();
        push_str(out, "bb_");
        push_str(out, label);
        push_str(out, ":\n");
        self.emit_insts(out, block, func, info, prog, name_counts);
        self.emit_phi_loads(out, label, func, info);
        self.emit_phi_strings(out, label, info, &prog.string_table);
        self.emit_phi_coercions(out, label, info);
        self.emit_terminator(out, &block.terminator, func, &prog.string_table, &info.local_names, &info.place_types, label);
        let ghost bt = block_text(*block, *func, *info, *prog, count_map(*old(name_counts)));
        assert(final(out)@ =~= old(out)@ + bt.0);
        Ok(())
    }
}

/// The type a phi node widens to when it meets a value of type `b`, having
/// type `a` so far: pointers over doubles over 64-bit over 32-bit over
/// 1-bit integers; any other pair gives `b`.
pub open spec fn phi_widen(a: Seq<char>, b: Seq<char>) -> Seq<char> {
    if b == "ptr"@ || a == "ptr"@ {
        "ptr"@
    } else if b == "double"@ || a == "double"@ {
        "double"@
    } else if b == "i64"@ || a == "i64"@ {
        "i64"@
    } else if (a == "i32"@ && b == "i32"@) || (a == "i32"@ && b == "i1"@) || (a == "i1"@ && b == "i32"@) {
        "i32"@
    } else if a == "i1"@ && b == "i1"@ {
        "i1"@
    } else {
        b
    }
}

/// The widest of a binary operation's operand types, as `phi_widen` orders
/// them; any other pair gives the left one.
pub open spec fn binop_widen(lt: Seq<char>, rt: Seq<char>) -> Seq<char> {
    if rt == "ptr"@ || lt == "ptr"@ {
        "ptr"@
    } else if rt == "double"@ || lt == "double"@ {
        "double"@
    } else if rt == "i64"@ || lt == "i64"@ {
        "i64"@
    } else if (lt == "i32"@ && rt == "i32"@) || (lt == "i32"@ && rt == "i1"@) || (lt == "i1"@ && rt == "i32"@) {
        "i32"@
    } else if lt == "i1"@ && rt == "i1"@ {
        "i1"@
    } else {
        lt
    }
}

/// The type of an operand as far as the types found so far tell: a
/// constant's type, a place's recorded type, else `i64`.
pub open spec fn scanned_type(m: Map<Seq<char>, Seq<char>>, op: Operand) -> Seq<char> {
    match op {
        Operand::Constant(c) => constant_llvm_type(c),
        Operand::Place(p) => if m.contains_key(p.name@) {
            m[p.name@]
        } else {
            "i64"@
        },
    }
}

/// Whether a binary operator is a comparison (with an `i1` result).
pub open spec fn is_comparison(op: MirBinOp) -> bool {
    op is Eq || op is Ne || op is Lt || op is Le || op is Gt || op is Ge || op is FEq || op is FNe
        || op is FLt || op is FLe || op is FGt || op is FGe
}

/// The result type of a binary operation, given its operand types.
pub open spec fn binop_result_type(op: MirBinOp, lhs: Operand, rhs: Operand, lt: Seq<char>, rt: Seq<char>) -> Seq<char> {
    let narrow = (lt == "i32"@ && rt == "i64"@ && is_i32_constant(rhs)) || (lt == "i64"@ && rt == "i32"@
        && is_i32_constant(lhs));
    let widest = if narrow { "i32"@ } else { binop_widen(lt, rt) };
    if is_comparison(op) {
        "i1"@
    } else if op is Add && (lt == "ptr"@ || rt == "ptr"@) {
        "ptr"@
    } else {
        widest
    }
}

/// The widest type of the first `n` phi values.
pub open spec fn phi_values_widest(m: Map<Seq<char>, Seq<char>>, values: Seq<(Operand, String)>, n: int) -> Seq<char>
    decreases n,
{
    if n <= 0 {
        "i1"@
    } else {
        phi_widen(phi_values_widest(m, values, n - 1), scanned_type(m, values[n - 1].0))
    }
}

/// Whether a name is declared as a local of the function.
pub open spec fn is_declared_local(func: MirFunction, name: Seq<char>) -> bool {
    type_named(func.locals@, name) is Some
}

/// The place types after scanning one instruction.
pub open spec fn scan_inst(m: Map<Seq<char>, Seq<char>>, inst: MirInst, func: MirFunction, prog: ProgramInfo) -> Map<Seq<char>, Seq<char>> {
    match inst {
        MirInst::Const { dest, value } => if is_declared_local(func, dest.name@) {
            m
        } else {
            m.insert(dest.name@, constant_llvm_type(value))
        },
        MirInst::Call { dest: Some(d), func: callee, .. } => m.insert(d.name@, callee_return_type(prog, callee@)),
        MirInst::BinOp { dest, op, lhs, rhs } => m.insert(
            dest.name@,
            binop_result_type(op, lhs, rhs, scanned_type(m, lhs), scanned_type(m, rhs)),
        ),
        MirInst::Phi { dest, values } => m.insert(dest.name@, phi_values_widest(m, values@, values@.len() as int)),
        MirInst::Copy { dest, src } => if is_declared_local(func, dest.name@) {
            m
        } else {
            m.insert(dest.name@, if m.contains_key(src.name@) { m[src.name@] } else { "i64"@ })
        },
        MirInst::Cast { dest, to_ty, .. } => m.insert(dest.name@, llvm_type(to_ty)),
        MirInst::PtrOffset { dest, .. } => m.insert(dest.name@, "ptr"@),
        MirInst::ArrayAlloc { dest, .. } => m.insert(dest.name@, "ptr"@),
        MirInst::PtrLoad { dest, element_type, .. } => m.insert(dest.name@, llvm_type(element_type)),
        MirInst::ArrayInit { dest, .. } => m.insert(dest.name@, "ptr"@),
        MirInst::IndexLoad { dest, element_type, .. } => m.insert(
            dest.name@,
            if element_type is Struct { "ptr"@ } else { llvm_type(element_type) },
        ),
        MirInst::TupleExtract { dest, element_type, .. } => m.insert(dest.name@, llvm_type(element_type)),
        MirInst::FieldAccess { dest, struct_name, field_index, .. } => m.insert(
            dest.name@,
            field_type_or(prog, struct_name@, field_index as int, "i64"@),
        ),
        MirInst::TupleInit { dest, .. } => m.insert(dest.name@, "ptr"@),
        MirInst::StructInit { dest, .. } => m.insert(dest.name@, "ptr"@),
        _ => m,
    }
}

/// The place types after scanning the first `n` instructions.
pub open spec fn scan_insts(m: Map<Seq<char>, Seq<char>>, insts: Seq<MirInst>, n: int, func: MirFunction, prog: ProgramInfo) -> Map<Seq<char>, Seq<char>>
    decreases n,
{
    if n <= 0 {
        m
    } else {
        scan_inst(scan_insts(m, insts, n - 1, func, prog), insts[n - 1], func, prog)
    }
}

/// The place types after scanning the first `n` blocks.
pub open spec fn scan_blocks(m: Map<Seq<char>, Seq<char>>, blocks: Seq<BasicBlock>, n: int, func: MirFunction, prog: ProgramInfo) -> Map<Seq<char>, Seq<char>>
    decreases n,
{
    if n <= 0 {
        m
    } else {
        let b = blocks[n - 1];
        scan_insts(scan_blocks(m, blocks, n - 1, func, prog), b.instructions@, b.instructions@.len() as int, func, prog)
    }
}

/// The declared types of the first `n` of some named entries, later ones
/// overriding earlier ones.
pub open spec fn declared_types(m: Map<Seq<char>, Seq<char>>, entries: Seq<(String, MirType)>, n: int) -> Map<Seq<char>, Seq<char>>
    decreases n,
{
    if n <= 0 {
        m
    } else {
        declared_types(m, entries, n - 1).insert(entries[n - 1].0@, llvm_type(entries[n - 1].1))
    }
}

/// The LLVM type of each place of a function: the declared types of its
/// parameters and locals, then what each instruction defines, in order.
pub open spec fn place_types_of(func: MirFunction, prog: ProgramInfo) -> Map<Seq<char>, Seq<char>> {
    let params = declared_types(Map::empty(), func.params@, func.params@.len() as int);
    let decl = declared_types(params, func.locals@, func.locals@.len() as int);
    scan_blocks(decl, func.blocks@, func.blocks@.len() as int, func, prog)
}

/// The LLVM type a phi node widens to.
fn phi_widen_exec(a: &'static str, b: &'static str) -> (r: &'static str)
    ensures
        r@ == phi_widen(a@, b@),
{
    if str_eq(b, "ptr") || str_eq(a, "ptr") {
        "ptr"
    } else if str_eq(b, "double") || str_eq(a, "double") {
        "double"
    } else if str_eq(b, "i64") || str_eq(a, "i64") {
        "i64"
    } else if (str_eq(a, "i32") && str_eq(b, "i32")) || (str_eq(a, "i32") && str_eq(b, "i1")) || (str_eq(a, "i1")
        && str_eq(b, "i32")) {
        "i32"
    } else if str_eq(a, "i1") && str_eq(b, "i1") {
        "i1"
    } else {
        b
    }
}

/// The widest of a binary operation's operand types.
fn binop_widen_exec(lt: &'static str, rt: &'static str) -> (r: &'static str)
    ensures
        r@ == binop_widen(lt@, rt@),
{
    if str_eq(rt, "ptr") || str_eq(lt, "ptr") {
        "ptr"
    } else if str_eq(rt, "double") || str_eq(lt, "double") {
        "double"
    } else if str_eq(rt, "i64") || str_eq(lt, "i64") {
        "i64"
    } else if (str_eq(lt, "i32") && str_eq(rt, "i32")) || (str_eq(lt, "i32") && str_eq(rt, "i1")) || (str_eq(
        lt,
        "i1",
    ) && str_eq(rt, "i32")) {
        "i32"
    } else if str_eq(lt, "i1") && str_eq(rt, "i1") {
        "i1"
    } else {
        lt
    }
}

/// The type of an operand as far as the types found so far tell.
fn scanned_type_exec(m: &NameMap<&'static str>, op: &Operand, cg: &TextCodeGen) -> (r: &'static str)
    ensures
        r@ == scanned_type(type_map(*m), *op),
{
    match op {
        Operand::Constant(c) => cg.constant_type(c),
        Operand::Place(p) => match m.get(p.name.as_str()) {
            Some(t) => *t,
            None => "i64",
        },
    }
}

/// Whether an operand is an integer constant that fits in 32 bits.
fn fits_i32(op: &Operand) -> (r: bool)
    ensures
        r == is_i32_constant(*op),
{
    match op {
        Operand::Constant(crate::mir::Constant::Int(v)) => -0x8000_0000 <= *v && *v <= 0x7fff_ffff,
        _ => false,
    }
}

/// The result type of a binary operation.
fn binop_result_exec(op: MirBinOp, lhs: &Operand, rhs: &Operand, lt: &'static str, rt: &'static str) -> (r: &'static str)
    ensures
        r@ == binop_result_type(op, *lhs, *rhs, lt@, rt@),
{
    let narrow = (str_eq(lt, "i32") && str_eq(rt, "i64") && fits_i32(rhs)) || (str_eq(lt, "i64") && str_eq(rt, "i32")
        && fits_i32(lhs));
    let widest = if narrow { "i32" } else { binop_widen_exec(lt, rt) };
    match op {
        MirBinOp::Eq | MirBinOp::Ne | MirBinOp::Lt | MirBinOp::Le | MirBinOp::Gt | MirBinOp::Ge | MirBinOp::FEq
        | MirBinOp::FNe | MirBinOp::FLt | MirBinOp::FLe | MirBinOp::FGt | MirBinOp::FGe => "i1",
        MirBinOp::Add => if str_eq(lt, "ptr") || str_eq(rt, "ptr") {
            "ptr"
        } else {
            widest
        },
        _ => widest,
    }
}

impl TextCodeGen {
    /// Records the type an instruction gives its destination.
    fn scan_instruction(&self, m: &mut NameMap<&'static str>, inst: &MirInst, func: &MirFunction, prog: &ProgramInfo)
        ensures
            type_map(*final(m)) == scan_inst(type_map(*old(m)), *inst, *func, *prog),
    {
        match inst {
            MirInst::Const { dest, value } => {
                if find_type(&func.locals, dest.name.as_str()).is_none() {
                    insert_type(m, dest.name.as_str(), self.constant_type(value));
                }
            },
            MirInst::Call { dest: Some(d), func: callee, .. } => {
                let rt = match prog.fn_return_types.get(callee.as_str()) {
                    Some(t) => *t,
                    None => self.infer_call_return_type(callee.as_str(), func),
                };
                insert_type(m, d.name.as_str(), rt);
            },
            MirInst::BinOp { dest, op, lhs, rhs } => {
                let lt = scanned_type_exec(m, lhs, self);
                let rt = scanned_type_exec(m, rhs, self);
                insert_type(m, dest.name.as_str(), binop_result_exec(*op, lhs, rhs, lt, rt));
            },
            MirInst::Phi { dest, values } => {
                let mut w: &'static str = "i1";
                let mut i: usize = 0;
                while i < values.len()
                    invariant
                        i <= values.len(),
                        w@ == phi_values_widest(type_map(*m), values@, i as int),
                    decreases values.len() - i,
                {
                    w = phi_widen_exec(w, scanned_type_exec(m, &values[i].0, self));
                    i = i + 1;
                }
                insert_type(m, dest.name.as_str(), w);
            },
            MirInst::Copy { dest, src } => {
                if find_type(&func.locals, dest.name.as_str()).is_none() {
                    let t = match m.get(src.name.as_str()) {
                        Some(t) => *t,
                        None => "i64",
                    };
                    insert_type(m, dest.name.as_str(), t);
                }
            },
            MirInst::Cast { dest, to_ty, .. } => {
                insert_type(m, dest.name.as_str(), self.mir_type_to_llvm(to_ty));
            },
            MirInst::PtrOffset { dest, .. } => {
                insert_type(m, dest.name.as_str(), "ptr");
            },
            MirInst::ArrayAlloc { dest, .. } => {
                insert_type(m, dest.name.as_str(), "ptr");
            },
            MirInst::PtrLoad { dest, element_type, .. } => {
                insert_type(m, dest.name.as_str(), self.mir_type_to_llvm(element_type));
            },
            MirInst::ArrayInit { dest, .. } => {
                insert_type(m, dest.name.as_str(), "ptr");
            },
            MirInst::IndexLoad { dest, element_type, .. } => {
                let t = match element_type {
                    MirType::Struct { .. } => "ptr",
                    _ => self.mir_type_to_llvm(element_type),
                };
                insert_type(m, dest.name.as_str(), t);
            },
            MirInst::TupleExtract { dest, element_type, .. } => {
                insert_type(m, dest.name.as_str(), self.mir_type_to_llvm(element_type));
            },
            MirInst::FieldAccess { dest, struct_name, field_index, .. } => {
                insert_type(m, dest.name.as_str(), field_type_str(prog, struct_name.as_str(), *field_index, "i64"));
            },
            MirInst::TupleInit { dest, .. } => {
                insert_type(m, dest.name.as_str(), "ptr");
            },
            MirInst::StructInit { dest, .. } => {
                insert_type(m, dest.name.as_str(), "ptr");
            },
            _ => {},
        }
    }

    /// The LLVM type of each place of a function: the declared types of its
    /// parameters and locals, then the type each instruction gives its
    /// destination, in order.
    pub fn build_place_type_map(&self, func: &MirFunction, prog: &ProgramInfo) -> (m: NameMap<&'static str>)
        ensures
            type_map(m) == place_types_of(*func, *prog),
    {
        let mut m: NameMap<&'static str> = NameMap::new();
        assert(type_map(m) =~= Map::<Seq<char>, Seq<char>>::empty());
        let mut i: usize = 0;
        while i < func.params.len()
            invariant
                i <= func.params.len(),
                type_map(m) == declared_types(Map::empty(), func.params@, i as int),
            decreases func.params.len() - i,
        {
            insert_type(&mut m, func.params[i].0.as_str(), self.mir_type_to_llvm(&func.params[i].1));
            i = i + 1;
        }
        let ghost params = type_map(m);
        let mut i: usize = 0;
        while i < func.locals.len()
            invariant
                i <= func.locals.len(),
                type_map(m) == declared_types(params, func.locals@, i as int),
            decreases func.locals.len() - i,
        {
            insert_type(&mut m, func.locals[i].0.as_str(), self.mir_type_to_llvm(&func.locals[i].1));
            i = i + 1;
        }
        let ghost decl = type_map(m);
        let mut b: usize = 0;
        while b < func.blocks.len()
            invariant
                b <= func.blocks.len(),
                type_map(m) == scan_blocks(decl, func.blocks@, b as int, *func, *prog),
            decreases func.blocks.len() - b,
        {
            let block = &func.blocks[b];
            let ghost start = type_map(m);
            let mut k: usize = 0;
            while k < block.instructions.len()
                invariant
                    k <= block.instructions.len(),
                    type_map(m) == scan_insts(start, block.instructions@, k as int, *func, *prog),
                decreases block.instructions.len() - k,
            {
                self.scan_instruction(&mut m, &block.instructions[k], func, prog);
                k = k + 1;
            }
            b = b + 1;
        }
        m
    }
}

/// What the code generator works out about a function before emitting
/// it, as `info` holds it.
pub open spec fn function_info_for(func: MirFunction, prog: ProgramInfo, info: FunctionInfo) -> bool {
    &&& type_map(info.place_types) == place_types_of(func, prog)
    &&& forall|k: Seq<char>| names_contain(info.local_names@, k) <==> is_slot_local(func, k)
    &&& string_map(info.tuple_var_types) == tuple_vars_of(func, prog)
    &&& string_entries(info.phi_loads@) == phi_loads_of(func)
    &&& string_entries(info.phi_strings@) == phi_strings_of(func)
    &&& coercion_entries(info.phi_coercions@) == phi_coercions_of(func, place_types_of(func, prog))
}

/// The LLVM return type of a function's definition: `void` for a struct
/// of 3+ fields (returned through the caller's slot), a register aggregate
/// for 1-2 fields, the aggregate of a tuple, else the type's.
pub open spec fn ret_type_text(ret_ty: MirType) -> Seq<char> {
    let n = struct_field_count(ret_ty);
    if n > 2 {
        "void"@
    } else if n > 0 {
        small_struct_type(n)
    } else {
        match ret_ty {
            MirType::Tuple(elems) => tuple_type_text(elems@),
            _ => llvm_type(ret_ty),
        }
    }
}

/// A parameter in a function's definition; strings are read-only.
pub open spec fn param_text(name: Seq<char>, ty: MirType) -> Seq<char> {
    if ty is String {
        "ptr nocapture readonly %"@ + name
    } else {
        llvm_type(ty) + " %"@ + name
    }
}

/// The first `n` parameters, separated by `, `.
pub open spec fn params_joined(params: Seq<(String, MirType)>, n: int) -> Seq<char>
    decreases n,
{
    if n <= 0 {
        Seq::empty()
    } else if n == 1 {
        param_text(params[0].0@, params[0].1)
    } else {
        params_joined(params, n - 1) + ", "@ + param_text(params[n - 1].0@, params[n - 1].1)
    }
}

/// The parameter list of a function's definition, led by the return slot
/// for a struct of 3+ fields.
pub open spec fn params_text(func: MirFunction) -> Seq<char> {
    let joined = params_joined(func.params@, func.params@.len() as int);
    if struct_field_count(func.ret_ty) > 2 {
        if func.params@.len() == 0 {
            "ptr noalias sret(i8) %_sret"@
        } else {
            "ptr noalias sret(i8) %_sret, "@ + joined
        }
    } else {
        joined
    }
}

/// The attributes of a function's definition.
pub open spec fn attrs_text(func: MirFunction) -> Seq<char> {
    if func.name@ == "main"@ {
        Seq::empty()
    } else if func.always_inline && func.is_memory_free {
        " alwaysinline nounwind willreturn mustprogress memory(none)"@
    } else if func.always_inline {
        " alwaysinline nounwind willreturn mustprogress"@
    } else if func.inline_hint && func.is_memory_free {
        " inlinehint nounwind willreturn mustprogress memory(none)"@
    } else if func.inline_hint {
        " inlinehint nounwind willreturn mustprogress"@
    } else if func.is_memory_free {
        " nounwind willreturn mustprogress memory(none)"@
    } else {
        " nounwind willreturn mustprogress"@
    }
}

/// The name a function is defined under: `main` becomes `bmb_user_main`.
pub open spec fn emitted_name(name: Seq<char>) -> Seq<char> {
    if name == "main"@ {
        "bmb_user_main"@
    } else {
        name
    }
}

/// The first line of a function's definition.
pub open spec fn define_line(func: MirFunction) -> Seq<char> {
    let linkage = if func.always_inline && func.name@ != "main"@ && func.name@ != "bmb_user_main"@ {
        "private "@
    } else {
        Seq::empty()
    };
    "define "@ + linkage + ret_type_text(func.ret_ty) + " @"@ + emitted_name(func.name@) + "("@ + params_text(func)
        + ")"@ + attrs_text(func) + " {\n"@
}

/// The stack slots of the first `n` locals that have one.
pub open spec fn allocas_text(func: MirFunction, info: FunctionInfo, n: int) -> Seq<char>
    decreases n,
{
    if n <= 0 {
        Seq::empty()
    } else {
        let name = func.locals@[n - 1].0@;
        let ty = match info.tuple_var_types.lookup(name) {
            Some(t) => t@,
            None => type_or(info.place_types, name, llvm_type(func.locals@[n - 1].1)),
        };
        allocas_text(func, info, n - 1) + if names_contain(info.local_names@, name) && ty != "void"@ {
            "  %"@ + name + ".addr = alloca "@ + ty + "\n"@
        } else {
            Seq::empty()
        }
    }
}

/// The entry block holding the stack slots, when there are any.
pub open spec fn entry_text(func: MirFunction, info: FunctionInfo) -> Seq<char> {
    if info.local_names@.len() > 0 {
        "alloca_entry:\n"@ + allocas_text(func, info, func.locals@.len() as int) + if func.blocks@.len() > 0 {
            "  br label %bb_"@ + func.blocks@[0].label@ + "\n"@
        } else {
            Seq::empty()
        }
    } else {
        Seq::empty()
    }
}

/// The text of the first `n` blocks, and the counters after them.
pub open spec fn blocks_text(
    func: MirFunction,
    info: FunctionInfo,
    prog: ProgramInfo,
    n: int,
    counts: Map<Seq<char>, u32>,
) -> (Seq<char>, Map<Seq<char>, u32>)
    decreases n,
{
    if n <= 0 {
        (Seq::empty(), counts)
    } else {
        let (t, c) = blocks_text(func, info, prog, n - 1, counts);
        let (t2, c2) = block_text(func.blocks@[n - 1], func, info, prog, c);
        (t + t2, c2)
    }
}

/// The counters at the start of a function: each parameter (and the
/// return slot) defined once.
pub open spec fn initial_counts(func: MirFunction, n: int) -> Map<Seq<char>, u32>
    decreases n,
{
    if n <= 0 {
        Map::empty()
    } else {
        initial_counts(func, n - 1).insert(func.params@[n - 1].0@, 1)
    }
}

/// The counters at the start of a function's first block.
pub open spec fn start_counts(func: MirFunction) -> Map<Seq<char>, u32> {
    let c = initial_counts(func, func.params@.len() as int);
    if struct_field_count(func.ret_ty) > 2 {
        c.insert("_sret"@, 1)
    } else {
        c
    }
}

/// The definition of a function, given what is worked out about it.
pub open spec fn function_text(func: MirFunction, prog: ProgramInfo, info: FunctionInfo) -> Seq<char> {
    define_line(func) + entry_text(func, info) + blocks_text(
        func,
        info,
        prog,
        func.blocks@.len() as int,
        start_counts(func),
    ).0 + "}\n"@ + "\n"@
}

impl TextCodeGen {
    /// The LLVM return type of a function's definition.
    fn ret_type_string(&self, ret_ty: &MirType) -> (r: String)
        ensures
            r@ == ret_type_text(*ret_ty),
    {
        let n: usize = match ret_ty {
            MirType::Struct { fields, .. } => fields.len(),
            _ => 0,
        };
        if n > 2 {
            "void".to_owned()
        } else if n > 0 {
            (if n == 1 { "{i64}" } else { "{i64, i64}" }).to_owned()
        } else {
            match ret_ty {
                MirType::Tuple(elems) => {
                    let mut r = String::new();
                    crate::codegen::terminator::append_tuple_type(&mut r, elems, self);
                    assert(r@ =~= ret_type_text(*ret_ty));
                    r
                },
                _ => self.mir_type_to_llvm(ret_ty).to_owned(),
            }
        }
    }

    /// The parameter list of a function's definition.
    fn params_string(&self, func: &MirFunction) -> (r: String)
        ensures
            r@ == params_text(*func),
    {
        let mut params = String::new();
        let mut i: usize = 0;
        while i < func.params.len()
            invariant
                i <= func.params.len(),
                params@ == params_joined(func.params@, i as int),
            decreases func.params.len() - i,
        {
            if i > 0 {
                push_str(&mut params, ", ");
            }
            let pname = func.params[i].0.as_str();
            let pty = &func.params[i].1;
            if matches!(pty, MirType::String) {
                push_str(&mut params, "ptr nocapture readonly %");
                push_str(&mut params, pname);
            } else {
                push_str(&mut params, self.mir_type_to_llvm(pty));
                push_str(&mut params, " %");
                push_str(&mut params, pname);
            }
            i = i + 1;
            assert(params@ =~= params_joined(func.params@, i as int));
        }
        let n: usize = match &func.ret_ty {
            MirType::Struct { fields, .. } => fields.len(),
            _ => 0,
        };
        if n > 2 {
            if func.params.len() == 0 {
                "ptr noalias sret(i8) %_sret".to_owned()
            } else {
                let mut r = "ptr noalias sret(i8) %_sret, ".to_owned();
                push_str(&mut r, params.as_str());
                r
            }
        } else {
            params
        }
    }

    /// The attributes of a function's definition.
    fn attrs_str(&self, func: &MirFunction) -> (r: &'static str)
        ensures
            r@ == attrs_text(*func),
    {
        if str_eq(func.name.as_str(), "main") {
            proof {
                reveal_strlit("");
            }
            ""
        } else if func.always_inline && func.is_memory_free {
            " alwaysinline nounwind willreturn mustprogress memory(none)"
        } else if func.always_inline {
            " alwaysinline nounwind willreturn mustprogress"
        } else if func.inline_hint && func.is_memory_free {
            " inlinehint nounwind willreturn mustprogress memory(none)"
        } else if func.inline_hint {
            " inlinehint nounwind willreturn mustprogress"
        } else if func.is_memory_free {
            " nounwind willreturn mustprogress memory(none)"
        } else {
            " nounwind willreturn mustprogress"
        }
    }

    /// Appends the first line of a function's definition.
    fn emit_define_line(&self, out: &mut String, func: &MirFunction)
        ensures
            final(out)@ == old(out)@ + define_line(*func),
    {
        let name = func.name.as_str();
        push_str(out, "define ");
        let private = func.always_inline && !str_eq(name, "main") && !str_eq(name, "bmb_user_main");
        let linkage = if private { "private " } else { "" };
        assert(linkage@ == (if func.always_inline && func.name@ != "main"@ && func.name@ != "bmb_user_main"@ {
            "private "@
        } else {
            Seq::<char>::empty()
        })) by {
            if !private {
                reveal_strlit("");
            }
        }
        push_str(out, linkage);
        let rt = self.ret_type_string(&func.ret_ty);
        push_str(out, rt.as_str());
        push_str(out, " @");
        let en = if str_eq(name, "main") { "bmb_user_main" } else { name };
        push_str(out, en);
        push_str(out, "(");
        let params = self.params_string(func);
        push_str(out, params.as_str());
        push_str(out, ")");
        push_str(out, self.attrs_str(func));
        push_str(out, " {\n");
        assert(final(out)@ =~= old(out)@ + define_line(*func));
    }

    /// Appends the entry block holding the stack slots, when there are any.
    fn emit_entry(&self, out: &mut String, func: &MirFunction, info: &FunctionInfo)
        ensures
            final(out)@ == old(out)@ + entry_text(*func, *info),
    {
        if info.local_names.len() > 0 {
            push_str(out, "alloca_entry:\n");
            let ghost o = out@;
            let mut i: usize = 0;
            while i < func.locals.len()
                invariant
                    i <= func.locals.len(),
                    out@ == o + allocas_text(*func, *info, i as int),
                decreases func.locals.len() - i,
            {
                let name = func.locals[i].0.as_str();
                let ty: String = match info.tuple_var_types.get(name) {
                    Some(t) => t.as_str().to_owned(),
                    None => match info.place_types.get(name) {
                        Some(t) => (*t).to_owned(),
                        None => self.mir_type_to_llvm(&func.locals[i].1).to_owned(),
                    },
                };
                if contains_name(&info.local_names, name) && !str_eq(ty.as_str(), "void") {
                    push_str(out, "  %");
                    push_str(out, name);
                    push_str(out, ".addr = alloca ");
                    push_str(out, ty.as_str());
                    push_str(out, "\n");
                }
                i = i + 1;
                assert(out@ =~= o + allocas_text(*func, *info, i as int));
            }
            if func.blocks.len() > 0 {
                push_str(out, "  br label %bb_");
                push_str(out, func.blocks[0].label.as_str());
                push_str(out, "\n");
            }
        }
        assert(final(out)@ =~= old(out)@ + entry_text(*func, *info));
    }

    /// Appends the blocks of a function.
    fn emit_blocks(
        &self,
        out: &mut String,
        func: &MirFunction,
        info: &FunctionInfo,
        prog: &ProgramInfo,
        name_counts: &mut NameMap<u32>,
    )
        ensures
            final(out)@ == old(out)@ + blocks_text(*func, *info, *prog, func.blocks@.len() as int, count_map(*old(name_counts))).0,
    {
        let ghost o = out@;
        let ghost c0 = count_map(*old(name_counts));
        let mut i: usize = 0;
        while i < func.blocks.len()
            invariant
                i <= func.blocks.len(),
                c0 == count_map(*old(name_counts)),
                out@ == o + blocks_text(*func, *info, *prog, i as int, c0).0,
                count_map(*name_counts) == blocks_text(*func, *info, *prog, i as int, c0).1,
            decreases func.blocks.len() - i,
        {
            let _ = self.emit_block_with_strings(out, &func.blocks[i], func, info, prog, name_counts);
            i = i + 1;
            assert(out@ =~= o + blocks_text(*func, *info, *prog, i as int, c0).0);
        }
    }

    /// Appends the definition of a function: its signature, the stack
    /// slots of its locals, and its blocks.
    pub fn emit_function_with_strings(
        &self,
        out: &mut String,
        func: &MirFunction,
        prog: &ProgramInfo,
    ) -> (r: Result<(), TextCodeGenError>)
        ensures
            r is Ok,
            exists|info: FunctionInfo|
                function_info_for(*func, *prog, info) && final(out)@ == old(out)@ + function_text(*func, *prog, info),
    {
        let place_types = self.build_place_type_map(func, prog);
        let phi_dests = self.phi_dests(func);
        let local_names = self.slot_locals(func, &phi_dests);
        let tuple_var_types = self.tuple_var_types(func, prog);
        let phi_loads = self.phi_loads(func, &phi_dests);
        let phi_strings = self.phi_strings(func);
        let phi_coercions = self.phi_coercions(func, &place_types);
        let info = FunctionInfo { place_types, local_names, tuple_var_types, phi_loads, phi_strings, phi_coercions };
        assert(function_info_for(*func, *prog, info));
        let mut name_counts: NameMap<u32> = NameMap::new();
        assert(count_map(name_counts) =~= Map::<Seq<char>, u32>::empty());
        let mut i: usize = 0;
        while i < func.params.len()
            invariant
                i <= func.params.len(),
                count_map(name_counts) == initial_counts(*func, i as int),
            decreases func.params.len() - i,
        {
            name_counts.insert(func.params[i].0.as_str(), 1);
            assert(count_map(name_counts) =~= initial_counts(*func, i + 1));
            i = i + 1;
        }
        let n: usize = match &func.ret_ty {
            MirType::Struct { fields, .. } => fields.len(),
            _ => 0,
        };
        if n > 2 {
            let ghost before = count_map(name_counts);
            name_counts.insert("_sret", 1);
            assert(count_map(name_counts) =~= before.insert("_sret"@, 1));
        }
        assert(count_map(name_counts) == start_counts(*func));
        self.emit_define_line(out, func);
        self.emit_entry(out, func, &info);
        self.emit_blocks(out, func, &info, prog, &mut name_counts);
        push_str(out, "}\n");
        push_str(out, "\n");
        assert(final(out)@ =~= old(out)@ + function_text(*func, *prog, info));
        Ok(())
    }
}

/// What the code generator knows of a program that has no string
/// constants, functions or struct results.
pub open spec fn empty_program_info(prog: ProgramInfo) -> bool {
    &&& prog.string_table.entries@.len() == 0
    &&& prog.fn_return_types.entries@.len() == 0
    &&& prog.fn_param_types.entries@.len() == 0
    &&& prog.sret_functions.entries@.len() == 0
    &&& prog.small_struct_functions.entries@.len() == 0
    &&& prog.tuple_functions.entries@.len() == 0
    &&& prog.struct_field_types.entries@.len() == 0
}

/// What the code generator knows of a function when nothing is worked
/// out about it: no place types, stack slots, tuples or phi helpers.
pub open spec fn empty_function_info(info: FunctionInfo) -> bool {
    &&& info.place_types.entries@.len() == 0
    &&& info.local_names@.len() == 0
    &&& info.tuple_var_types.entries@.len() == 0
    &&& info.phi_loads@.len() == 0
    &&& info.phi_strings@.len() == 0
    &&& info.phi_coercions@.len() == 0
}

/// Nothing known of a program.
pub fn empty_program() -> (prog: ProgramInfo)
    ensures
        empty_program_info(prog),
{
    ProgramInfo {
        string_table: NameMap::new(),
        fn_return_types: NameMap::new(),
        fn_param_types: NameMap::new(),
        sret_functions: NameMap::new(),
        small_struct_functions: NameMap::new(),
        tuple_functions: NameMap::new(),
        struct_field_types: NameMap::new(),
    }
}

/// Nothing known of a function.
pub fn empty_function() -> (info: FunctionInfo)
    ensures
        empty_function_info(info),
{
    FunctionInfo {
        place_types: NameMap::new(),
        local_names: Vec::new(),
        tuple_var_types: NameMap::new(),
        phi_loads: Vec::new(),
        phi_strings: Vec::new(),
        phi_coercions: Vec::new(),
    }
}

impl TextCodeGen {
    /// Appends the definition of a function on its own, without a string
    /// table or what other functions return.
    pub fn emit_function(&self, out: &mut String, func: &MirFunction) -> (r: Result<(), TextCodeGenError>)
        ensures
            r is Ok,
            exists|prog: ProgramInfo, info: FunctionInfo|
                empty_program_info(prog) && function_info_for(*func, prog, info) && final(out)@ == old(out)@
                    + function_text(*func, prog, info),
    {
        let prog = empty_program();
        self.emit_function_with_strings(out, func, &prog)
    }

    /// Appends a basic block on its own, with nothing known of its
    /// function and program, its counters starting afresh.
    pub fn emit_block(&self, out: &mut String, block: &BasicBlock, func: &MirFunction) -> (r: Result<(), TextCodeGenError>)
        ensures
            r is Ok,
            exists|prog: ProgramInfo, info: FunctionInfo|
                empty_program_info(prog) && empty_function_info(info) && final(out)@ == old(out)@ + block_text(
                    *block,
                    *func,
                    info,
                    prog,
                    Map::empty(),
                ).0,
    {
        let prog = empty_program();
        let info = empty_function();
        let mut counts: NameMap<u32> = NameMap::new();
        assert(count_map(counts) =~= Map::<Seq<char>, u32>::empty());
        let r = self.emit_block_with_strings(out, block, func, &info, &prog, &mut counts);
        assert(empty_program_info(prog) && empty_function_info(info));
        r
    }
}

} // verus!
