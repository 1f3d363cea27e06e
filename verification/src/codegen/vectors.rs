//! LLVM IR text of the vector builtins, expanded inline.
//!
//! A vector is one heap block of 64-bit words, held as an integer: its
//! capacity, its length, then its elements.

use vstd::prelude::*;

use crate::codegen::builtins::{arg_load, arg_load_wide, bump, bump_str, dest_or_tmp, dest_result};
use crate::codegen::instructions::{append_def, concat, concat3, def_line, store_line, FunctionInfo};
use crate::codegen::llvm_text::TextCodeGen;
use crate::codegen::names::{count_map, NameMap};
use crate::mir::{MirFunction, Operand, Place};
use crate::text::{dec_nat, push_str};

verus! {

/// `  store <ty> <v>, ptr %<p>`
pub open spec fn store_to(ty: Seq<char>, v: Seq<char>, p: Seq<char>) -> Seq<char> {
    "  store "@ + ty + " "@ + v + ", ptr %"@ + p + "\n"@
}

/// The header of a fresh vector of capacity eight, as an integer.
pub open spec fn vec_new_text(dest: Option<Place>, info: FunctionInfo, counts: Map<Seq<char>, u32>) -> (Seq<char>, Map<Seq<char>, u32>) {
    let (k, c1) = bump(counts, "vec_new"@);
    let ks = dec_nat(k as nat);
    let h = "vec.header."@ + ks;
    let lp = "vec.init.len."@ + ks;
    let (r, c2) = dest_result(info, dest, "vec.conv."@ + ks, false, "ptrtoint ptr %"@ + h + " to i64"@, "i64"@, c1);
    (
        def_line(h, "call ptr @malloc(i64 80)"@) + store_to("i64"@, "8"@, h) + def_line(
            lp,
            "getelementptr i64, ptr %"@ + h + ", i64 1"@,
        ) + store_to("i64"@, "0"@, lp) + r,
        c2,
    )
}

/// A fresh vector of the given capacity, as an integer.
pub open spec fn vec_with_capacity_text(
    dest: Option<Place>,
    cap: Operand,
    info: FunctionInfo,
    table: NameMap<String>,
    counts: Map<Seq<char>, u32>,
) -> (Seq<char>, Map<Seq<char>, u32>) {
    let (k, c1) = bump(counts, "vec_cap_alloc"@);
    let ks = dec_nat(k as nat);
    let (cl, cv) = arg_load(info, cap, "vec.cap.arg."@ + ks, "i64"@, table);
    let t = "vec.wcap.total."@ + ks;
    let sz = "vec.wcap.size."@ + ks;
    let h = "vec.wcap.header."@ + ks;
    let lp = "vec.wcap.len."@ + ks;
    let (r, c2) = dest_result(info, dest, "vec.wcap.conv."@ + ks, false, "ptrtoint ptr %"@ + h + " to i64"@, "i64"@, c1);
    (
        cl + def_line(t, "add i64 "@ + cv + ", 2"@) + def_line(sz, "mul i64 %"@ + t + ", 8"@) + def_line(
            h,
            "call ptr @malloc(i64 %"@ + sz + ")"@,
        ) + store_to("i64"@, cv, h) + def_line(lp, "getelementptr i64, ptr %"@ + h + ", i64 1"@) + store_to(
            "i64"@,
            "0"@,
            lp,
        ) + r,
        c2,
    )
}

/// A header word (`word` 0 for the capacity, 1 for the length) of a
/// vector; `what` names the builtin's temporaries.
pub open spec fn vec_word_text(
    dest: Option<Place>,
    v: Operand,
    key: Seq<char>,
    what: Seq<char>,
    word: Seq<char>,
    info: FunctionInfo,
    table: NameMap<String>,
    counts: Map<Seq<char>, u32>,
) -> (Seq<char>, Map<Seq<char>, u32>) {
    let (k, c1) = bump(counts, key);
    let ks = dec_nat(k as nat);
    let (vl, vv) = arg_load(info, v, "vec."@ + what + ".arg."@ + ks, "i64"@, table);
    let h = "vec."@ + what + ".header."@ + ks;
    let p = "vec."@ + what + ".ptr."@ + ks;
    let (r, c2) = dest_result(info, dest, "vec."@ + what + ".val."@ + ks, false, "load i64, ptr %"@ + p, "i64"@, c1);
    (
        vl + def_line(h, "inttoptr i64 "@ + vv + " to ptr"@) + def_line(
            p,
            "getelementptr i64, ptr %"@ + h + ", i64 "@ + word,
        ) + r,
        c2,
    )
}

/// The address of element `iv` of the vector `vv` (whose temporaries are
/// named `vec.<what>.*.<ks>`): the header, the offset past the two header
/// words, and the element pointer.
pub open spec fn vec_elem_addr(what: Seq<char>, ks: Seq<char>, vv: Seq<char>, iv: Seq<char>) -> Seq<char> {
    let h = "vec."@ + what + ".header."@ + ks;
    let off = "vec."@ + what + ".off."@ + ks;
    def_line(h, "inttoptr i64 "@ + vv + " to ptr"@) + def_line(off, "add i64 "@ + iv + ", 2"@) + def_line(
        "vec."@ + what + ".elem."@ + ks,
        "getelementptr i64, ptr %"@ + h + ", i64 %"@ + off,
    )
}

/// `vec_get(v, i)`: element `i` of the vector `v`.
pub open spec fn vec_get_text(
    dest: Option<Place>,
    v: Operand,
    i: Operand,
    info: FunctionInfo,
    func: MirFunction,
    table: NameMap<String>,
    counts: Map<Seq<char>, u32>,
) -> (Seq<char>, Map<Seq<char>, u32>) {
    let (k, c1) = bump(counts, "vec_get"@);
    let ks = dec_nat(k as nat);
    let (vl, vv) = arg_load(info, v, "vec.get.vec."@ + ks, "i64"@, table);
    let (il, iv) = arg_load_wide(info, func, i, "vec.get.idx."@ + ks, "vec.get.idx.sext."@ + ks, table);
    let (r, c2) = dest_result(info, dest, "vec.get.val."@ + ks, false, "load i64, ptr %vec.get.elem."@ + ks, "i64"@, c1);
    (vl + il + vec_elem_addr("get"@, ks, vv, iv) + r, c2)
}

/// `vec_set(v, i, x)`: `x` written into element `i` of the vector `v`.
pub open spec fn vec_set_text(
    v: Operand,
    i: Operand,
    x: Operand,
    info: FunctionInfo,
    func: MirFunction,
    table: NameMap<String>,
    counts: Map<Seq<char>, u32>,
) -> (Seq<char>, Map<Seq<char>, u32>) {
    let (k, c1) = bump(counts, "vec_set"@);
    let ks = dec_nat(k as nat);
    let (vl, vv) = arg_load(info, v, "vec.set.vec."@ + ks, "i64"@, table);
    let (il, iv) = arg_load_wide(info, func, i, "vec.set.idx."@ + ks, "vec.set.idx.sext."@ + ks, table);
    let (xl, xv) = arg_load(info, x, "vec.set.val."@ + ks, "i64"@, table);
    (vl + il + xl + vec_elem_addr("set"@, ks, vv, iv) + store_to("i64"@, xv, "vec.set.elem."@ + ks), c1)
}

/// `vec_push(v, x)`: a call of the runtime's push.
pub open spec fn vec_push_text(
    v: Operand,
    x: Operand,
    info: FunctionInfo,
    table: NameMap<String>,
    counts: Map<Seq<char>, u32>,
) -> (Seq<char>, Map<Seq<char>, u32>) {
    let (k, c1) = bump(counts, "vec_push"@);
    let ks = dec_nat(k as nat);
    let (vl, vv) = arg_load(info, v, "vp.vec."@ + ks, "i64"@, table);
    let (xl, xv) = arg_load(info, x, "vp.val."@ + ks, "i64"@, table);
    (vl + xl + "  call void @bmb_vec_push(i64 "@ + vv + ", i64 "@ + xv + ")\n"@, c1)
}

/// The reading of the last element and the new length of a vector being
/// popped (temporaries numbered `ks`).
pub open spec fn vec_pop_steps(ks: Seq<char>, vv: Seq<char>) -> Seq<char> {
    let h = "vpop.header."@ + ks;
    let lp = "vpop.len.ptr."@ + ks;
    let lv = "vpop.len."@ + ks;
    let lo = "vpop.last_off."@ + ks;
    def_line(h, "inttoptr i64 "@ + vv + " to ptr"@) + def_line(lp, "getelementptr i64, ptr %"@ + h + ", i64 1"@)
        + def_line(lv, "load i64, ptr %"@ + lp) + def_line(lo, "add i64 %"@ + lv + ", 1"@) + def_line(
        "vpop.elem."@ + ks,
        "getelementptr i64, ptr %"@ + h + ", i64 %"@ + lo,
    ) + def_line("vpop.newlen."@ + ks, "sub i64 %"@ + lv + ", 1"@)
}

/// `vec_pop(v)`: the last element of the vector `v`, its length lowered
/// by one.
pub open spec fn vec_pop_text(
    dest: Option<Place>,
    v: Operand,
    info: FunctionInfo,
    table: NameMap<String>,
    counts: Map<Seq<char>, u32>,
) -> (Seq<char>, Map<Seq<char>, u32>) {
    let (k, c1) = bump(counts, "vec_pop"@);
    let ks = dec_nat(k as nat);
    let (vl, vv) = arg_load(info, v, "vpop.vec."@ + ks, "i64"@, table);
    (vl + vec_pop_steps(ks, vv) + vec_pop_tail(dest, info, ks), c1)
}

/// The end of `vec_pop`: the popped element handed to the destination and
/// the new length stored.
pub open spec fn vec_pop_tail(dest: Option<Place>, info: FunctionInfo, ks: Seq<char>) -> Seq<char> {
    let shrink = store_to("i64"@, "%vpop.newlen."@ + ks, "vpop.len.ptr."@ + ks);
    let load = "load i64, ptr %vpop.elem."@ + ks;
    match dest {
        Some(d) => if crate::codegen::instructions::is_local(info, d.name@) {
            def_line("vpop.val."@ + ks, load) + shrink + store_line("i64"@, "%vpop.val."@ + ks, d.name@)
        } else {
            def_line(d.name@, load) + shrink
        },
        None => shrink,
    }
}

/// `vec_free(v)`: the vector's block freed.
pub open spec fn vec_free_text(
    v: Operand,
    info: FunctionInfo,
    table: NameMap<String>,
    counts: Map<Seq<char>, u32>,
) -> (Seq<char>, Map<Seq<char>, u32>) {
    let (k, c1) = bump(counts, "vec_free"@);
    let ks = dec_nat(k as nat);
    let (vl, vv) = arg_load(info, v, "vfree.vec."@ + ks, "i64"@, table);
    let h = "vfree.header."@ + ks;
    (vl + def_line(h, "inttoptr i64 "@ + vv + " to ptr"@) + "  call void @free(ptr %"@ + h + ")\n"@, c1)
}

/// Appends the end of `vec_pop`.
#[verifier::spinoff_prover]
fn emit_vec_pop_tail(out: &mut String, dest: &Option<Place>, info: &FunctionInfo, ks: &str)
    ensures
        final(out)@ == old(out)@ + vec_pop_tail(*dest, *info, ks@),
{
    let nl = concat("%vpop.newlen.", ks);
    let lp = concat("vpop.len.ptr.", ks);
    let load = concat("load i64, ptr %vpop.elem.", ks);
    match dest {
        Some(d) => {
            let dn = d.name.as_str();
            if crate::codegen::names::contains_name(&info.local_names, dn) {
                let ev = concat("vpop.val.", ks);
                append_def(out, ev.as_str(), load.as_str());
                emit_store_to(out, "i64", nl.as_str(), lp.as_str());
                let pe = concat("%vpop.val.", ks);
                crate::codegen::instructions::append_store(out, "i64", pe.as_str(), dn);
            } else {
                append_def(out, dn, load.as_str());
                emit_store_to(out, "i64", nl.as_str(), lp.as_str());
            }
        },
        None => {
            emit_store_to(out, "i64", nl.as_str(), lp.as_str());
        },
    }
    assert(final(out)@ =~= old(out)@ + vec_pop_tail(*dest, *info, ks@));
}

/// Appends a store line.
fn emit_store_to(out: &mut String, ty: &str, v: &str, p: &str)
    ensures
        final(out)@ == old(out)@ + store_to(ty@, v@, p@),
{
    push_str(out, "  store ");
    push_str(out, ty);
    push_str(out, " ");
    push_str(out, v);
    push_str(out, ", ptr %");
    push_str(out, p);
    push_str(out, "\n");
    assert(final(out)@ =~= old(out)@ + store_to(ty@, v@, p@));
}

/// `<a><b><c><d>`, as a new string.
fn concat4(a: &str, b: &str, c: &str, d: &str) -> (r: String)
    ensures
        r@ == a@ + b@ + c@ + d@,
{
    let mut r = concat3(a, b, c);
    push_str(&mut r, d);
    r
}

/// Appends the address of a vector element.
#[verifier::spinoff_prover]
fn emit_vec_elem_addr(out: &mut String, what: &str, ks: &str, vv: &str, iv: &str)
    ensures
        final(out)@ == old(out)@ + vec_elem_addr(what@, ks@, vv@, iv@),
{
    let h = concat4("vec.", what, ".header.", ks);
    let off = concat4("vec.", what, ".off.", ks);
    let e = concat4("vec.", what, ".elem.", ks);
    let r1 = concat3("inttoptr i64 ", vv, " to ptr");
    append_def(out, h.as_str(), r1.as_str());
    let r2 = concat3("add i64 ", iv, ", 2");
    append_def(out, off.as_str(), r2.as_str());
    let mut r3 = concat3("getelementptr i64, ptr %", h.as_str(), ", i64 %");
    push_str(&mut r3, off.as_str());
    append_def(out, e.as_str(), r3.as_str());
    assert(final(out)@ =~= old(out)@ + vec_elem_addr(what@, ks@, vv@, iv@));
}

/// Appends the steps of popping a vector.
#[verifier::spinoff_prover]
fn emit_vec_pop_steps(out: &mut String, ks: &str, vv: &str)
    ensures
        final(out)@ == old(out)@ + vec_pop_steps(ks@, vv@),
{
    let h = concat("vpop.header.", ks);
    let lp = concat("vpop.len.ptr.", ks);
    let lv = concat("vpop.len.", ks);
    let lo = concat("vpop.last_off.", ks);
    let r1 = concat3("inttoptr i64 ", vv, " to ptr");
    append_def(out, h.as_str(), r1.as_str());
    let r2 = concat3("getelementptr i64, ptr %", h.as_str(), ", i64 1");
    append_def(out, lp.as_str(), r2.as_str());
    let r3 = concat("load i64, ptr %", lp.as_str());
    append_def(out, lv.as_str(), r3.as_str());
    let r4 = concat3("add i64 %", lv.as_str(), ", 1");
    append_def(out, lo.as_str(), r4.as_str());
    let e = concat("vpop.elem.", ks);
    let mut r5 = concat3("getelementptr i64, ptr %", h.as_str(), ", i64 %");
    push_str(&mut r5, lo.as_str());
    append_def(out, e.as_str(), r5.as_str());
    let nl = concat("vpop.newlen.", ks);
    let r6 = concat3("sub i64 %", lv.as_str(), ", 1");
    append_def(out, nl.as_str(), r6.as_str());
    assert(final(out)@ =~= old(out)@ + vec_pop_steps(ks@, vv@));
}

impl TextCodeGen {
    /// Appends `vec_new`.
    #[verifier::spinoff_prover]
    pub fn emit_vec_new(&self, out: &mut String, dest: &Option<Place>, info: &FunctionInfo, name_counts: &mut NameMap<u32>)
        ensures
            final(out)@ == old(out)@ + vec_new_text(*dest, *info, count_map(*old(name_counts))).0,
            count_map(*final(name_counts)) == vec_new_text(*dest, *info, count_map(*old(name_counts))).1,
    {
        let (_k, ks) = bump_str(name_counts, "vec_new");
        let h = concat("vec.header.", ks.as_str());
        let lp = concat("vec.init.len.", ks.as_str());
        append_def(out, h.as_str(), "call ptr @malloc(i64 80)");
        emit_store_to(out, "i64", "8", h.as_str());
        let r = concat3("getelementptr i64, ptr %", h.as_str(), ", i64 1");
        append_def(out, lp.as_str(), r.as_str());
        emit_store_to(out, "i64", "0", lp.as_str());
        let l = concat("vec.conv.", ks.as_str());
        let op = concat3("ptrtoint ptr %", h.as_str(), " to i64");
        self.emit_dest_result(out, dest, l.as_str(), false, op.as_str(), "i64", info, name_counts);
    }

    /// Appends `vec_with_capacity`.
    #[verifier::spinoff_prover]
    pub fn emit_vec_with_capacity(
        &self,
        out: &mut String,
        dest: &Option<Place>,
        cap: &Operand,
        info: &FunctionInfo,
        table: &NameMap<String>,
        name_counts: &mut NameMap<u32>,
    )
        ensures
            final(out)@ == old(out)@ + vec_with_capacity_text(*dest, *cap, *info, *table, count_map(*old(name_counts))).0,
            count_map(*final(name_counts)) == vec_with_capacity_text(*dest, *cap, *info, *table, count_map(*old(name_counts))).1,
    {
        let (_k, ks) = bump_str(name_counts, "vec_cap_alloc");
        let l = concat("vec.cap.arg.", ks.as_str());
        let cv = self.emit_arg_load(out, cap, l.as_str(), "i64", info, table);
        let t = concat("vec.wcap.total.", ks.as_str());
        let sz = concat("vec.wcap.size.", ks.as_str());
        let h = concat("vec.wcap.header.", ks.as_str());
        let lp = concat("vec.wcap.len.", ks.as_str());
        let r1 = concat3("add i64 ", cv.as_str(), ", 2");
        append_def(out, t.as_str(), r1.as_str());
        let r2 = concat3("mul i64 %", t.as_str(), ", 8");
        append_def(out, sz.as_str(), r2.as_str());
        let r3 = concat3("call ptr @malloc(i64 %", sz.as_str(), ")");
        append_def(out, h.as_str(), r3.as_str());
        emit_store_to(out, "i64", cv.as_str(), h.as_str());
        let r4 = concat3("getelementptr i64, ptr %", h.as_str(), ", i64 1");
        append_def(out, lp.as_str(), r4.as_str());
        emit_store_to(out, "i64", "0", lp.as_str());
        let l2 = concat("vec.wcap.conv.", ks.as_str());
        let op = concat3("ptrtoint ptr %", h.as_str(), " to i64");
        self.emit_dest_result(out, dest, l2.as_str(), false, op.as_str(), "i64", info, name_counts);
    }

    /// Appends `vec_len` (`word` 1) or `vec_cap` (`word` 0).
    #[verifier::spinoff_prover]
    pub fn emit_vec_word(
        &self,
        out: &mut String,
        dest: &Option<Place>,
        v: &Operand,
        key: &str,
        what: &str,
        word: &str,
        info: &FunctionInfo,
        table: &NameMap<String>,
        name_counts: &mut NameMap<u32>,
    )
        ensures
            final(out)@ == old(out)@ + vec_word_text(*dest, *v, key@, what@, word@, *info, *table, count_map(*old(name_counts))).0,
            count_map(*final(name_counts)) == vec_word_text(*dest, *v, key@, what@, word@, *info, *table, count_map(*old(name_counts))).1,
    {
        let (_k, ks) = bump_str(name_counts, key);
        let l = concat4("vec.", what, ".arg.", ks.as_str());
        let vv = self.emit_arg_load(out, v, l.as_str(), "i64", info, table);
        let h = concat4("vec.", what, ".header.", ks.as_str());
        let p = concat4("vec.", what, ".ptr.", ks.as_str());
        let r1 = concat3("inttoptr i64 ", vv.as_str(), " to ptr");
        append_def(out, h.as_str(), r1.as_str());
        let mut r2 = concat3("getelementptr i64, ptr %", h.as_str(), ", i64 ");
        push_str(&mut r2, word);
        append_def(out, p.as_str(), r2.as_str());
        let l2 = concat4("vec.", what, ".val.", ks.as_str());
        let op = concat("load i64, ptr %", p.as_str());
        self.emit_dest_result(out, dest, l2.as_str(), false, op.as_str(), "i64", info, name_counts);
    }

    /// Appends `vec_get`.
    #[verifier::spinoff_prover]
    pub fn emit_vec_get(
        &self,
        out: &mut String,
        dest: &Option<Place>,
        v: &Operand,
        i: &Operand,
        info: &FunctionInfo,
        func: &MirFunction,
        table: &NameMap<String>,
        name_counts: &mut NameMap<u32>,
    )
        ensures
            final(out)@ == old(out)@ + vec_get_text(*dest, *v, *i, *info, *func, *table, count_map(*old(name_counts))).0,
            count_map(*final(name_counts)) == vec_get_text(*dest, *v, *i, *info, *func, *table, count_map(*old(name_counts))).1,
    {
        let (_k, ks) = bump_str(name_counts, "vec_get");
        let l1 = concat("vec.get.vec.", ks.as_str());
        let vv = self.emit_arg_load(out, v, l1.as_str(), "i64", info, table);
        let l2 = concat("vec.get.idx.", ks.as_str());
        let sx = concat("vec.get.idx.sext.", ks.as_str());
        let iv = self.emit_arg_load_wide(out, i, l2.as_str(), sx.as_str(), info, func, table);
        emit_vec_elem_addr(out, "get", ks.as_str(), vv.as_str(), iv.as_str());
        let l3 = concat("vec.get.val.", ks.as_str());
        let op = concat("load i64, ptr %vec.get.elem.", ks.as_str());
        self.emit_dest_result(out, dest, l3.as_str(), false, op.as_str(), "i64", info, name_counts);
    }

    /// Appends `vec_set`.
    #[verifier::spinoff_prover]
    pub fn emit_vec_set(
        &self,
        out: &mut String,
        v: &Operand,
        i: &Operand,
        x: &Operand,
        info: &FunctionInfo,
        func: &MirFunction,
        table: &NameMap<String>,
        name_counts: &mut NameMap<u32>,
    )
        ensures
            final(out)@ == old(out)@ + vec_set_text(*v, *i, *x, *info, *func, *table, count_map(*old(name_counts))).0,
            count_map(*final(name_counts)) == vec_set_text(*v, *i, *x, *info, *func, *table, count_map(*old(name_counts))).1,
    {
        let (_k, ks) = bump_str(name_counts, "vec_set");
        let l1 = concat("vec.set.vec.", ks.as_str());
        let vv = self.emit_arg_load(out, v, l1.as_str(), "i64", info, table);
        let l2 = concat("vec.set.idx.", ks.as_str());
        let sx = concat("vec.set.idx.sext.", ks.as_str());
        let iv = self.emit_arg_load_wide(out, i, l2.as_str(), sx.as_str(), info, func, table);
        let l3 = concat("vec.set.val.", ks.as_str());
        let xv = self.emit_arg_load(out, x, l3.as_str(), "i64", info, table);
        emit_vec_elem_addr(out, "set", ks.as_str(), vv.as_str(), iv.as_str());
        let e = concat("vec.set.elem.", ks.as_str());
        emit_store_to(out, "i64", xv.as_str(), e.as_str());
    }

    /// Appends `vec_push`.
    #[verifier::spinoff_prover]
    pub fn emit_vec_push(
        &self,
        out: &mut String,
        v: &Operand,
        x: &Operand,
        info: &FunctionInfo,
        table: &NameMap<String>,
        name_counts: &mut NameMap<u32>,
    )
        ensures
            final(out)@ == old(out)@ + vec_push_text(*v, *x, *info, *table, count_map(*old(name_counts))).0,
            count_map(*final(name_counts)) == vec_push_text(*v, *x, *info, *table, count_map(*old(name_counts))).1,
    {
        let (_k, ks) = bump_str(name_counts, "vec_push");
        let l1 = concat("vp.vec.", ks.as_str());
        let vv = self.emit_arg_load(out, v, l1.as_str(), "i64", info, table);
        let l2 = concat("vp.val.", ks.as_str());
        let xv = self.emit_arg_load(out, x, l2.as_str(), "i64", info, table);
        push_str(out, "  call void @bmb_vec_push(i64 ");
        push_str(out, vv.as_str());
        push_str(out, ", i64 ");
        push_str(out, xv.as_str());
        push_str(out, ")\n");
        assert(final(out)@ =~= old(out)@ + vec_push_text(*v, *x, *info, *table, count_map(*old(name_counts))).0);
    }

    /// Appends `vec_pop`.
    #[verifier::spinoff_prover]
    pub fn emit_vec_pop(
        &self,
        out: &mut String,
        dest: &Option<Place>,
        v: &Operand,
        info: &FunctionInfo,
        table: &NameMap<String>,
        name_counts: &mut NameMap<u32>,
    )
        ensures
            final(out)@ == old(out)@ + vec_pop_text(*dest, *v, *info, *table, count_map(*old(name_counts))).0,
            count_map(*final(name_counts)) == vec_pop_text(*dest, *v, *info, *table, count_map(*old(name_counts))).1,
    {
        let (_k, ks) = bump_str(name_counts, "vec_pop");
        let l = concat("vpop.vec.", ks.as_str());
        let vv = self.emit_arg_load(out, v, l.as_str(), "i64", info, table);
        emit_vec_pop_steps(out, ks.as_str(), vv.as_str());
        emit_vec_pop_tail(out, dest, info, ks.as_str());
        assert(final(out)@ =~= old(out)@ + vec_pop_text(*dest, *v, *info, *table, count_map(*old(name_counts))).0);
    }

    /// Appends `vec_free`.
    #[verifier::spinoff_prover]
    pub fn emit_vec_free(
        &self,
        out: &mut String,
        v: &Operand,
        info: &FunctionInfo,
        table: &NameMap<String>,
        name_counts: &mut NameMap<u32>,
    )
        ensures
            final(out)@ == old(out)@ + vec_free_text(*v, *info, *table, count_map(*old(name_counts))).0,
            count_map(*final(name_counts)) == vec_free_text(*v, *info, *table, count_map(*old(name_counts))).1,
    {
        let (_k, ks) = bump_str(name_counts, "vec_free");
        let l = concat("vfree.vec.", ks.as_str());
        let vv = self.emit_arg_load(out, v, l.as_str(), "i64", info, table);
        let h = concat("vfree.header.", ks.as_str());
        let r = concat3("inttoptr i64 ", vv.as_str(), " to ptr");
        append_def(out, h.as_str(), r.as_str());
        push_str(out, "  call void @free(ptr %");
        push_str(out, h.as_str());
        push_str(out, ")\n");
        assert(final(out)@ =~= old(out)@ + vec_free_text(*v, *info, *table, count_map(*old(name_counts))).0);
    }
}

} // verus!
