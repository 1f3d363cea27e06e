//! LLVM IR text of a conditional select: a comparison (of strings through
//! the runtime, of integers with `icmp`) and an LLVM `select` of the two
//! values, widened to a common type.

use vstd::prelude::*;

use crate::codegen::instructions::{
    append_def, concat, concat3, def_line, is_local, percent, place_type_or_str, store_if_local, FunctionInfo,
};
use crate::codegen::llvm_text::{
    binop_llvm, icmp_holds, int_comparison_holds, is_int_comparison, is_string_operand_spec,
    lemma_integer_comparisons_lowered,
    operand_text_with_strings, TextCodeGen,
};
use crate::codegen::names::{contains_name, NameMap};
use crate::codegen::terminator::type_or;
use crate::mir::{Constant, MirBinOp, MirFunction, Operand};
use crate::text::{push_str, str_eq};

verus! {

/// The name a condition operand's recorded type is looked up by: a
/// place's name, the empty name for a constant.
pub open spec fn lookup_name(op: Operand) -> Seq<char> {
    match op {
        Operand::Place(p) => p.name@,
        _ => Seq::empty(),
    }
}

/// Whether the type recorded for an operand's name is `ptr`.
pub open spec fn recorded_ptr(info: FunctionInfo, op: Operand) -> bool {
    type_or(info.place_types, lookup_name(op), Seq::empty()) == "ptr"@
}

/// Whether a select compares strings: one side is a string, or has the
/// recorded type `ptr`.
pub open spec fn compares_strings(info: FunctionInfo, func: MirFunction, lhs: Operand, rhs: Operand) -> bool {
    is_string_operand_spec(func, lhs) || is_string_operand_spec(func, rhs) || recorded_ptr(info, lhs) || recorded_ptr(
        info,
        rhs,
    )
}

/// The type of a selected value: a place's recorded type (`i64` if none),
/// `ptr` for a string constant, `i64` for any other constant.
pub open spec fn select_value_type(info: FunctionInfo, op: Operand) -> Seq<char> {
    match op {
        Operand::Place(p) => type_or(info.place_types, p.name@, "i64"@),
        Operand::Constant(Constant::String(_)) => "ptr"@,
        _ => "i64"@,
    }
}

/// The type both values are selected as: `ptr` if either is one, else
/// `i64` if either is one, else the first value's type.
pub open spec fn select_type(t: Seq<char>, f: Seq<char>) -> Seq<char> {
    if t == "ptr"@ || f == "ptr"@ {
        "ptr"@
    } else if t == "i64"@ || f == "i64"@ {
        "i64"@
    } else {
        t
    }
}

/// A side of a string comparison: a string constant's `.bmb` record, a
/// local's slot loaded into `%<d><suffix>`, else the operand's text. Gives
/// the load and the value's text.
pub open spec fn string_side(
    info: FunctionInfo,
    table: NameMap<String>,
    d: Seq<char>,
    op: Operand,
    suffix: Seq<char>,
) -> (Seq<char>, Seq<char>) {
    match op {
        Operand::Constant(Constant::String(s)) => match table.lookup(s@) {
            Some(g) => (Seq::empty(), "@"@ + g@ + ".bmb"@),
            None => (Seq::empty(), operand_text_with_strings(op, table)),
        },
        Operand::Place(p) => if is_local(info, p.name@) {
            (def_line(d + suffix, "load ptr, ptr %"@ + p.name@ + ".addr"@), "%"@ + d + suffix)
        } else {
            (Seq::empty(), operand_text_with_strings(op, table))
        },
        _ => (Seq::empty(), operand_text_with_strings(op, table)),
    }
}

/// A side of an integer comparison: a local's slot loaded into
/// `%<d><suffix>`, else the operand's text.
pub open spec fn int_side(
    info: FunctionInfo,
    table: NameMap<String>,
    d: Seq<char>,
    op: Operand,
    suffix: Seq<char>,
) -> (Seq<char>, Seq<char>) {
    match op {
        Operand::Place(p) => if is_local(info, p.name@) {
            (def_line(d + suffix, "load i64, ptr %"@ + p.name@ + ".addr"@), "%"@ + d + suffix)
        } else {
            (Seq::empty(), operand_text_with_strings(op, table))
        },
        _ => (Seq::empty(), operand_text_with_strings(op, table)),
    }
}

/// The `icmp` predicate of a comparison operator; `eq` for any other
/// operator.
pub open spec fn compare_predicate(op: MirBinOp) -> Seq<char> {
    match op {
        MirBinOp::Eq => "eq"@,
        MirBinOp::Ne => "ne"@,
        MirBinOp::Lt => "slt"@,
        MirBinOp::Le => "sle"@,
        MirBinOp::Gt => "sgt"@,
        MirBinOp::Ge => "sge"@,
        _ => "eq"@,
    }
}


/// The predicate of a select's integer condition is that of its
/// comparison operator: written after `icmp`, it holds on every pair of
/// integers exactly when the comparison does (so `>=` holds on equal
/// operands and `>` does not), and it is the predicate of the `icmp` that a
/// binary operation with the same operator is lowered to.
pub proof fn lemma_select_predicates(op: MirBinOp, a: int, b: int)
    requires
        is_int_comparison(op),
    ensures
        icmp_holds("icmp "@ + compare_predicate(op), a, b) == int_comparison_holds(op, a, b),
        "icmp "@ + compare_predicate(op) == binop_llvm(op).0,
{
    reveal_strlit("icmp ");
    match op {
        MirBinOp::Eq => {
            reveal_strlit("eq");
            reveal_strlit("icmp eq");
            assert("icmp "@ + "eq"@ =~= "icmp eq"@);
        },
        MirBinOp::Ne => {
            reveal_strlit("ne");
            reveal_strlit("icmp ne");
            assert("icmp "@ + "ne"@ =~= "icmp ne"@);
        },
        MirBinOp::Lt => {
            reveal_strlit("slt");
            reveal_strlit("icmp slt");
            assert("icmp "@ + "slt"@ =~= "icmp slt"@);
        },
        MirBinOp::Le => {
            reveal_strlit("sle");
            reveal_strlit("icmp sle");
            assert("icmp "@ + "sle"@ =~= "icmp sle"@);
        },
        MirBinOp::Gt => {
            reveal_strlit("sgt");
            reveal_strlit("icmp sgt");
            assert("icmp "@ + "sgt"@ =~= "icmp sgt"@);
        },
        MirBinOp::Ge => {
            reveal_strlit("sge");
            reveal_strlit("icmp sge");
            assert("icmp "@ + "sge"@ =~= "icmp sge"@);
        },
        _ => {},
    }
    lemma_integer_comparisons_lowered(op, a, b);
}

/// The condition of a select, as the `i1` value `%<d>_cond`. Strings are
/// compared for (in)equality by the runtime; anything else with `icmp`.
pub open spec fn select_cond(
    info: FunctionInfo,
    func: MirFunction,
    table: NameMap<String>,
    d: Seq<char>,
    op: MirBinOp,
    lhs: Operand,
    rhs: Operand,
) -> Seq<char> {
    if compares_strings(info, func, lhs, rhs) && (op is Eq || op is Ne) {
        let (ll, lv) = string_side(info, table, d, lhs, "_cond_lhs"@);
        let (rl, rv) = string_side(info, table, d, rhs, "_cond_rhs"@);
        let test = if op is Eq { "icmp ne i64 %"@ } else { "icmp eq i64 %"@ };
        ll + rl + def_line(d + "_cond.i64"@, "call i64 @bmb_string_eq(ptr "@ + lv + ", ptr "@ + rv + ")"@) + def_line(
            d + "_cond"@,
            test + d + "_cond.i64, 0"@,
        )
    } else {
        let (ll, lv) = int_side(info, table, d, lhs, "_cond.lhs"@);
        let (rl, rv) = int_side(info, table, d, rhs, "_cond.rhs"@);
        ll + rl + def_line(d + "_cond"@, "icmp "@ + compare_predicate(op) + " i64 "@ + lv + ", "@ + rv)
    }
}

/// A selected value of type `ty`: a local pointer loaded from its slot, a
/// local 32-bit integer loaded and sign-extended where `ty` is `i64`, else
/// the operand's text. Gives the loads and the value's text.
pub open spec fn select_arm(
    info: FunctionInfo,
    table: NameMap<String>,
    d: Seq<char>,
    op: Operand,
    ty: Seq<char>,
    suffix: Seq<char>,
) -> (Seq<char>, Seq<char>) {
    match op {
        Operand::Place(p) => if ty == "ptr"@ && is_local(info, p.name@) {
            (def_line(d + suffix, "load ptr, ptr %"@ + p.name@ + ".addr"@), "%"@ + d + suffix)
        } else if ty == "i64"@ && type_or(info.place_types, p.name@, "i64"@) == "i32"@ && is_local(info, p.name@) {
            (
                def_line(d + suffix + ".i32"@, "load i32, ptr %"@ + p.name@ + ".addr"@) + def_line(
                    d + suffix,
                    "sext i32 %"@ + d + suffix + ".i32"@ + " to i64"@,
                ),
                "%"@ + d + suffix,
            )
        } else {
            (Seq::empty(), operand_text_with_strings(op, table))
        },
        _ => (Seq::empty(), operand_text_with_strings(op, table)),
    }
}

/// `dest = if lhs op rhs { t } else { f }`: the condition, the loads of
/// the values, the `select` and the store into the slot of `d`, if it has
/// one.
pub open spec fn select_text(
    info: FunctionInfo,
    func: MirFunction,
    table: NameMap<String>,
    d: Seq<char>,
    op: MirBinOp,
    lhs: Operand,
    rhs: Operand,
    t: Operand,
    f: Operand,
) -> Seq<char> {
    let ty = select_type(select_value_type(info, t), select_value_type(info, f));
    let (tl, tv) = select_arm(info, table, d, t, ty, "_sel_true"@);
    let (fl, fv) = select_arm(info, table, d, f, ty, "_sel_false"@);
    select_cond(info, func, table, d, op, lhs, rhs) + tl + fl + def_line(
        d,
        "select i1 %"@ + d + "_cond, "@ + ty + " "@ + tv + ", "@ + ty + " "@ + fv,
    ) + store_if_local(info, d, ty, d)
}

/// The name an operand's recorded type is looked up by.
fn lookup_name_str(op: &Operand) -> (r: &str)
    ensures
        r@ == lookup_name(*op),
{
    match op {
        Operand::Place(p) => p.name.as_str(),
        _ => {
            proof {
                reveal_strlit("");
                assert(""@ =~= Seq::<char>::empty());
            }
            ""
        },
    }
}

/// Whether the type recorded for an operand's name is `ptr`.
fn recorded_ptr_exec(info: &FunctionInfo, op: &Operand) -> (r: bool)
    ensures
        r == recorded_ptr(*info, *op),
{
    proof {
        reveal_strlit("");
        assert(""@ =~= Seq::<char>::empty());
    }
    let t = place_type_or_str(&info.place_types, lookup_name_str(op), "");
    str_eq(t.as_str(), "ptr")
}

/// The type of a selected value.
fn select_value_type_str(info: &FunctionInfo, op: &Operand) -> (r: String)
    ensures
        r@ == select_value_type(*info, *op),
{
    match op {
        Operand::Place(p) => place_type_or_str(&info.place_types, p.name.as_str(), "i64"),
        Operand::Constant(Constant::String(_)) => "ptr".to_owned(),
        _ => "i64".to_owned(),
    }
}

/// The type both values of a select are selected as.
fn select_type_str(info: &FunctionInfo, t: &Operand, f: &Operand) -> (r: String)
    ensures
        r@ == select_type(select_value_type(*info, *t), select_value_type(*info, *f)),
{
    let tt = select_value_type_str(info, t);
    let ft = select_value_type_str(info, f);
    if str_eq(tt.as_str(), "ptr") || str_eq(ft.as_str(), "ptr") {
        "ptr".to_owned()
    } else if str_eq(tt.as_str(), "i64") || str_eq(ft.as_str(), "i64") {
        "i64".to_owned()
    } else {
        tt
    }
}

/// The `icmp` predicate of a comparison operator.
fn compare_predicate_str(op: MirBinOp) -> (r: &'static str)
    ensures
        r@ == compare_predicate(op),
{
    match op {
        MirBinOp::Eq => "eq",
        MirBinOp::Ne => "ne",
        MirBinOp::Lt => "slt",
        MirBinOp::Le => "sle",
        MirBinOp::Gt => "sgt",
        MirBinOp::Ge => "sge",
        _ => "eq",
    }
}

impl TextCodeGen {
    /// Appends the load of a side of a string comparison; gives the value's
    /// text.
    fn emit_string_side(
        &self,
        out: &mut String,
        info: &FunctionInfo,
        table: &NameMap<String>,
        d: &str,
        op: &Operand,
        suffix: &str,
    ) -> (v: String)
        ensures
            final(out)@ == old(out)@ + string_side(*info, *table, d@, *op, suffix@).0,
            v@ == string_side(*info, *table, d@, *op, suffix@).1,
    {
        match op {
            Operand::Constant(Constant::String(s)) => match table.get(s.as_str()) {
                Some(g) => {
                    assert(old(out)@ + Seq::<char>::empty() =~= old(out)@);
                    concat3("@", g.as_str(), ".bmb")
                },
                None => {
                    assert(old(out)@ + Seq::<char>::empty() =~= old(out)@);
                    self.format_operand_with_strings(op, table)
                },
            },
            Operand::Place(p) => {
                if contains_name(&info.local_names, p.name.as_str()) {
                    let n = concat(d, suffix);
                    let r = concat3("load ptr, ptr %", p.name.as_str(), ".addr");
                    append_def(out, n.as_str(), r.as_str());
                    percent(n.as_str())
                } else {
                    assert(old(out)@ + Seq::<char>::empty() =~= old(out)@);
                    self.format_operand_with_strings(op, table)
                }
            },
            _ => {
                assert(old(out)@ + Seq::<char>::empty() =~= old(out)@);
                self.format_operand_with_strings(op, table)
            },
        }
    }

    /// Appends the load of a side of an integer comparison; gives the
    /// value's text.
    fn emit_int_side(
        &self,
        out: &mut String,
        info: &FunctionInfo,
        table: &NameMap<String>,
        d: &str,
        op: &Operand,
        suffix: &str,
    ) -> (v: String)
        ensures
            final(out)@ == old(out)@ + int_side(*info, *table, d@, *op, suffix@).0,
            v@ == int_side(*info, *table, d@, *op, suffix@).1,
    {
        match op {
            Operand::Place(p) => {
                if contains_name(&info.local_names, p.name.as_str()) {
                    let n = concat(d, suffix);
                    let r = concat3("load i64, ptr %", p.name.as_str(), ".addr");
                    append_def(out, n.as_str(), r.as_str());
                    percent(n.as_str())
                } else {
                    assert(old(out)@ + Seq::<char>::empty() =~= old(out)@);
                    self.format_operand_with_strings(op, table)
                }
            },
            _ => {
                assert(old(out)@ + Seq::<char>::empty() =~= old(out)@);
                self.format_operand_with_strings(op, table)
            },
        }
    }

    /// Appends the condition of a select.
    #[verifier::spinoff_prover]
    fn emit_select_cond(
        &self,
        out: &mut String,
        info: &FunctionInfo,
        func: &MirFunction,
        table: &NameMap<String>,
        d: &str,
        op: MirBinOp,
        lhs: &Operand,
        rhs: &Operand,
    )
        ensures
            final(out)@ == old(out)@ + select_cond(*info, *func, *table, d@, op, *lhs, *rhs),
    {
        let is_string = Self::is_string_operand(lhs, func) || Self::is_string_operand(rhs, func)
            || recorded_ptr_exec(info, lhs) || recorded_ptr_exec(info, rhs);
        let equality = match op {
            MirBinOp::Eq => true,
            MirBinOp::Ne => true,
            _ => false,
        };
        if is_string && equality {
            let lv = self.emit_string_side(out, info, table, d, lhs, "_cond_lhs");
            let rv = self.emit_string_side(out, info, table, d, rhs, "_cond_rhs");
            let n = concat(d, "_cond.i64");
            let mut r = concat3("call i64 @bmb_string_eq(ptr ", lv.as_str(), ", ptr ");
            push_str(&mut r, rv.as_str());
            push_str(&mut r, ")");
            append_def(out, n.as_str(), r.as_str());
            let c = concat(d, "_cond");
            let test = match op {
                MirBinOp::Eq => "icmp ne i64 %",
                _ => "icmp eq i64 %",
            };
            let t = concat3(test, d, "_cond.i64, 0");
            append_def(out, c.as_str(), t.as_str());
        } else {
            let lv = self.emit_int_side(out, info, table, d, lhs, "_cond.lhs");
            let rv = self.emit_int_side(out, info, table, d, rhs, "_cond.rhs");
            let c = concat(d, "_cond");
            let mut r = concat3("icmp ", compare_predicate_str(op), " i64 ");
            push_str(&mut r, lv.as_str());
            push_str(&mut r, ", ");
            push_str(&mut r, rv.as_str());
            append_def(out, c.as_str(), r.as_str());
        }
        assert(final(out)@ =~= old(out)@ + select_cond(*info, *func, *table, d@, op, *lhs, *rhs));
    }

    /// Appends the loads of a selected value; gives the value's text.
    #[verifier::spinoff_prover]
    fn emit_select_arm(
        &self,
        out: &mut String,
        info: &FunctionInfo,
        table: &NameMap<String>,
        d: &str,
        op: &Operand,
        ty: &str,
        suffix: &str,
    ) -> (v: String)
        ensures
            final(out)@ == old(out)@ + select_arm(*info, *table, d@, *op, ty@, suffix@).0,
            v@ == select_arm(*info, *table, d@, *op, ty@, suffix@).1,
    {
        match op {
            Operand::Place(p) => {
                let pn = p.name.as_str();
                let local = contains_name(&info.local_names, pn);
                let op_ty = place_type_or_str(&info.place_types, pn, "i64");
                if str_eq(ty, "ptr") && local {
                    let n = concat(d, suffix);
                    let r = concat3("load ptr, ptr %", pn, ".addr");
                    append_def(out, n.as_str(), r.as_str());
                    percent(n.as_str())
                } else if str_eq(ty, "i64") && str_eq(op_ty.as_str(), "i32") && local {
                    let n = concat(d, suffix);
                    let n32 = concat3(d, suffix, ".i32");
                    let r = concat3("load i32, ptr %", pn, ".addr");
                    append_def(out, n32.as_str(), r.as_str());
                    let x = concat3("sext i32 %", n32.as_str(), " to i64");
                    append_def(out, n.as_str(), x.as_str());
                    assert(final(out)@ =~= old(out)@ + select_arm(*info, *table, d@, *op, ty@, suffix@).0);
                    percent(n.as_str())
                } else {
                    assert(old(out)@ + Seq::<char>::empty() =~= old(out)@);
                    self.format_operand_with_strings(op, table)
                }
            },
            _ => {
                assert(old(out)@ + Seq::<char>::empty() =~= old(out)@);
                self.format_operand_with_strings(op, table)
            },
        }
    }

    /// Appends a select.
    #[verifier::spinoff_prover]
    pub fn emit_select(
        &self,
        out: &mut String,
        info: &FunctionInfo,
        func: &MirFunction,
        table: &NameMap<String>,
        dest: &str,
        op: MirBinOp,
        lhs: &Operand,
        rhs: &Operand,
        t: &Operand,
        f: &Operand,
    )
        ensures
            final(out)@ == old(out)@ + select_text(*info, *func, *table, dest@, op, *lhs, *rhs, *t, *f),
    {
        let tys = select_type_str(info, t, f);
        let ty = tys.as_str();
        self.emit_select_cond(out, info, func, table, dest, op, lhs, rhs);
        let tv = self.emit_select_arm(out, info, table, dest, t, ty, "_sel_true");
        let fv = self.emit_select_arm(out, info, table, dest, f, ty, "_sel_false");
        let mut r = concat3("select i1 %", dest, "_cond, ");
        push_str(&mut r, ty);
        push_str(&mut r, " ");
        push_str(&mut r, tv.as_str());
        push_str(&mut r, ", ");
        push_str(&mut r, ty);
        push_str(&mut r, " ");
        push_str(&mut r, fv.as_str());
        assert(r@ =~= "select i1 %"@ + dest@ + "_cond, "@ + ty@ + " "@ + tv@ + ", "@ + ty@ + " "@ + fv@);
        append_def(out, dest, r.as_str());
        self.emit_store_if_local(out, dest, ty, dest, info);
        assert(final(out)@ =~= old(out)@ + select_text(*info, *func, *table, dest@, op, *lhs, *rhs, *t, *f));
    }
}

} // verus!
