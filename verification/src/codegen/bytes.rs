//! LLVM IR text of the builtins that read strings and raw bytes, expanded
//! inline.
//!
//! A string is a pointer to `{ptr data, i64 len, i64 cap}`. A byte address
//! built by an addition is accessed as an offset from its base, so that
//! LLVM keeps track of the pointer it comes from.

use vstd::prelude::*;

use crate::codegen::builtins::{
    arg_load, arg_load_wide, bump, bump_str, dest_or_tmp, dest_or_tmp_str, dest_result, is_narrowed_param,
};
use crate::codegen::instructions::{
    append_def, append_store, concat, concat3, def_line, is_local, known_operand_type, percent, store_line, FunctionInfo,
};
use crate::codegen::aggregates::is_param;
use crate::codegen::llvm_text::{find_type, operand_text_with_strings, TextCodeGen};
use crate::codegen::memory::{named_after, named_after_str};
use crate::codegen::names::{contains_name, count_map, NameMap};
use crate::mir::{BasicBlock, Constant, MirBinOp, MirFunction, MirInst, Operand, Place};
use crate::text::{dec_nat, push_str, str_eq};

verus! {

/// A string argument: a local's slot loaded into `%<l>`, a string
/// constant as its `BmbString` global, else the operand's text.
pub open spec fn str_arg(info: FunctionInfo, op: Operand, l: Seq<char>, table: NameMap<String>) -> (Seq<char>, Seq<char>) {
    match op {
        Operand::Place(p) => if is_local(info, p.name@) {
            (def_line(l, "load ptr, ptr %"@ + p.name@ + ".addr"@), "%"@ + l)
        } else {
            (Seq::empty(), operand_text_with_strings(op, table))
        },
        Operand::Constant(Constant::String(s)) => match table.lookup(s@) {
            Some(g) => (Seq::empty(), "@"@ + g@ + ".bmb"@),
            None => (Seq::empty(), operand_text_with_strings(op, table)),
        },
        _ => (Seq::empty(), operand_text_with_strings(op, table)),
    }
}

/// `str_data(s)`: the address of a string's bytes, as an integer.
pub open spec fn str_data_text(
    dest: Option<Place>,
    s: Operand,
    info: FunctionInfo,
    table: NameMap<String>,
    counts: Map<Seq<char>, u32>,
) -> (Seq<char>, Map<Seq<char>, u32>) {
    let (k, c1) = bump(counts, "str_data_op"@);
    let ks = dec_nat(k as nat);
    let (sl, sv) = arg_load(info, s, named_after(s, ".str_data.struct."@ + ks), "ptr"@, table);
    let g = "str_data.gep."@ + ks;
    let dp = "str_data.ptr."@ + ks;
    let (r, c2) = dest_result(info, dest, dest_or_tmp(dest) + ".ptrtoint."@ + ks, false, "ptrtoint ptr %"@ + dp + " to i64"@, "i64"@, c1);
    (
        sl + def_line(g, "getelementptr {ptr, i64, i64}, ptr "@ + sv + ", i32 0, i32 0"@) + def_line(
            dp,
            "load ptr, ptr %"@ + g,
        ) + r,
        c2,
    )
}

/// `len(s)`: the length word of a string.
pub open spec fn str_len_text(
    dest: Option<Place>,
    s: Operand,
    info: FunctionInfo,
    table: NameMap<String>,
    counts: Map<Seq<char>, u32>,
) -> (Seq<char>, Map<Seq<char>, u32>) {
    let (k, c1) = bump(counts, "str_len"@);
    let ks = dec_nat(k as nat);
    let (sl, sv) = str_arg(info, s, "strlen.str."@ + ks, table);
    let lp = "strlen.len_ptr."@ + ks;
    let (r, c2) = dest_result(info, dest, dest_or_tmp(dest), true, "load i64, ptr %"@ + lp, "i64"@, c1);
    (sl + def_line(lp, "getelementptr {ptr, i64, i64}, ptr "@ + sv + ", i32 0, i32 1"@) + r, c2)
}

/// The byte at index `iv` of the string `sv`, loaded into `%<p>.byte.<ks>`
/// through temporaries named `<p>.*.<ks>`.
pub open spec fn string_byte(p: Seq<char>, ks: Seq<char>, sv: Seq<char>, iv: Option<Seq<char>>) -> Seq<char> {
    let dpp = p + ".data_ptr."@ + ks;
    let dp = p + ".data."@ + ks;
    let head = def_line(dpp, "getelementptr {ptr, i64, i64}, ptr "@ + sv + ", i32 0, i32 0"@) + def_line(
        dp,
        "load ptr, ptr %"@ + dpp,
    );
    match iv {
        Some(i) => {
            let cp = p + ".char_ptr."@ + ks;
            head + def_line(cp, "getelementptr i8, ptr %"@ + dp + ", i64 "@ + i) + def_line(
                p + ".byte."@ + ks,
                "load i8, ptr %"@ + cp,
            )
        },
        None => head + def_line(p + ".byte."@ + ks, "load i8, ptr %"@ + dp),
    }
}

/// `char_at(s, i)`: byte `i` of a string, widened.
pub open spec fn char_at_text(
    dest: Option<Place>,
    s: Operand,
    i: Operand,
    info: FunctionInfo,
    table: NameMap<String>,
    counts: Map<Seq<char>, u32>,
) -> (Seq<char>, Map<Seq<char>, u32>) {
    let (k, c1) = bump(counts, "str_char_at"@);
    let ks = dec_nat(k as nat);
    let (sl, sv) = str_arg(info, s, "charat.str."@ + ks, table);
    let (il, iv) = arg_load(info, i, "charat.idx."@ + ks, "i64"@, table);
    let (r, c2) = dest_result(info, dest, dest_or_tmp(dest), true, "zext i8 %charat.byte."@ + ks + " to i64"@, "i64"@, c1);
    (sl + il + string_byte("charat"@, ks, sv, Some(iv)) + r, c2)
}

/// `ord(x)`: an integer passed through; else the first byte of a string,
/// widened.
pub open spec fn ord_text(
    dest: Option<Place>,
    x: Operand,
    info: FunctionInfo,
    func: MirFunction,
    table: NameMap<String>,
    counts: Map<Seq<char>, u32>,
) -> (Seq<char>, Map<Seq<char>, u32>) {
    let (k, c1) = bump(counts, "str_ord"@);
    let ks = dec_nat(k as nat);
    if known_operand_type(info, func, x) == "i64"@ {
        let (cl, cv) = arg_load(info, x, "ord.passthru."@ + ks, "i64"@, table);
        let (r, c2) = dest_result(info, dest, dest_or_tmp(dest), true, "add i64 "@ + cv + ", 0"@, "i64"@, c1);
        (cl + r, c2)
    } else {
        let (sl, sv) = arg_load(info, x, "ord.str."@ + ks, "ptr"@, table);
        let (r, c2) = dest_result(info, dest, dest_or_tmp(dest), true, "zext i8 %ord.byte."@ + ks + " to i64"@, "i64"@, c1);
        (sl + string_byte("ord"@, ks, sv, None) + r, c2)
    }
}

/// The operands of the first addition into `name` among the instructions
/// of `insts` from position `k` on.
pub open spec fn add_in_insts(insts: Seq<MirInst>, k: int, name: Seq<char>) -> Option<(Operand, Operand)>
    decreases insts.len() - k,
{
    if k < 0 || k >= insts.len() {
        None
    } else {
        match insts[k] {
            MirInst::BinOp { dest, op: MirBinOp::Add, lhs, rhs } => if dest.name@ == name {
                Some((lhs, rhs))
            } else {
                add_in_insts(insts, k + 1, name)
            },
            _ => add_in_insts(insts, k + 1, name),
        }
    }
}

/// The operands of the first addition into `name` in the blocks from
/// position `b` on.
pub open spec fn add_in_blocks(blocks: Seq<BasicBlock>, b: int, name: Seq<char>) -> Option<(Operand, Operand)>
    decreases blocks.len() - b,
{
    if b < 0 || b >= blocks.len() {
        None
    } else {
        match add_in_insts(blocks[b].instructions@, 0, name) {
            Some(r) => Some(r),
            None => add_in_blocks(blocks, b + 1, name),
        }
    }
}

/// The base and the offset of a byte address defined as an addition in
/// the function: the parameter among the two operands as the base, else
/// the left one.
pub open spec fn address_parts(func: MirFunction, addr: Operand) -> Option<(Operand, Operand)> {
    match addr {
        Operand::Place(a) => match add_in_blocks(func.blocks@, 0, a.name@) {
            Some((l, r)) => if (r matches Operand::Place(p) && is_param(func, p.name@)) {
                Some((r, l))
            } else {
                Some((l, r))
            },
            None => None,
        },
        _ => None,
    }
}

/// The byte at `%<src>` widened into the destination.
pub open spec fn u8_result(dest: Option<Place>, src: Seq<char>, ks: Seq<char>, info: FunctionInfo) -> Seq<char> {
    match dest {
        Some(d) => if is_local(info, d.name@) {
            let b = d.name@ + ".u8."@ + ks;
            let z = d.name@ + ".zext."@ + ks;
            def_line(b, "load i8, ptr %"@ + src) + def_line(z, "zext i8 %"@ + b + " to i64"@) + store_line(
                "i64"@,
                "%"@ + z,
                d.name@,
            )
        } else {
            let b = d.name@ + ".u8"@;
            def_line(b, "load i8, ptr %"@ + src) + def_line(d.name@, "zext i8 %"@ + b + " to i64"@)
        },
        None => Seq::empty(),
    }
}

/// The address of a byte at the base `bv` plus the offset `ov`, into
/// `%<ep>` through `%<bp>`.
pub open spec fn byte_gep(bp: Seq<char>, ep: Seq<char>, bv: Seq<char>, ov: Seq<char>) -> Seq<char> {
    def_line(bp, "inttoptr i64 "@ + bv + " to ptr"@) + def_line(ep, "getelementptr i8, ptr %"@ + bp + ", i64 "@ + ov)
}

/// `load_u8(a)`: the byte at the address `a`, widened.
pub open spec fn load_u8_text(
    dest: Option<Place>,
    a: Operand,
    info: FunctionInfo,
    func: MirFunction,
    table: NameMap<String>,
    counts: Map<Seq<char>, u32>,
) -> (Seq<char>, Map<Seq<char>, u32>) {
    let (k, c1) = bump(counts, "load_u8_op"@);
    let ks = dec_nat(k as nat);
    match address_parts(func, a) {
        Some((base, off)) => {
            let (bl, bv) = arg_load_wide(info, func, base, "gep_base_load."@ + ks, "gep_base_sext."@ + ks, table);
            let (ol, ov) = arg_load_wide(info, func, off, "gep_offset_load."@ + ks, "gep_offset_sext."@ + ks, table);
            let ep = "gep_elem."@ + ks;
            (bl + ol + byte_gep("gep_base."@ + ks, ep, bv, ov) + u8_result(dest, ep, ks, info), c1)
        },
        None => {
            let (pl, pv) = arg_load_wide(info, func, a, named_after(a, ".load_u8.ptr."@ + ks), named_after(a, ".load_u8.sext."@ + ks), table);
            let pc = "load_u8_ptr."@ + ks;
            (pl + def_line(pc, "inttoptr i64 "@ + pv + " to ptr"@) + u8_result(dest, pc, ks, info), c1)
        },
    }
}

/// The truncation of `vv` to a byte into `%<t>` and its store at `%<p>`.
pub open spec fn byte_store(t: Seq<char>, vv: Seq<char>, p: Seq<char>) -> Seq<char> {
    def_line(t, "trunc i64 "@ + vv + " to i8"@) + "  store i8 %"@ + t + ", ptr %"@ + p + "\n"@
}

/// `store_u8(a, v)`: the low byte of `v` written at the address `a`.
pub open spec fn store_u8_text(
    a: Operand,
    v: Operand,
    info: FunctionInfo,
    func: MirFunction,
    table: NameMap<String>,
    counts: Map<Seq<char>, u32>,
) -> (Seq<char>, Map<Seq<char>, u32>) {
    let (k, c1) = bump(counts, "store_u8_op"@);
    let ks = dec_nat(k as nat);
    let t = "store_u8_trunc."@ + ks;
    match address_parts(func, a) {
        Some((base, off)) => {
            let (bl, bv) = arg_load_wide(info, func, base, "sgep_base_load."@ + ks, "sgep_base_sext."@ + ks, table);
            let (ol, ov) = arg_load_wide(info, func, off, "sgep_offset_load."@ + ks, "sgep_offset_sext."@ + ks, table);
            let (vl, vv) = arg_load_wide(info, func, v, named_after(v, ".store_u8.val."@ + ks), named_after(v, ".store_u8.val.sext."@ + ks), table);
            let ep = "sgep_elem."@ + ks;
            (bl + ol + vl + byte_gep("sgep_base."@ + ks, ep, bv, ov) + byte_store(t, vv, ep), c1)
        },
        None => {
            let (pl, pv) = arg_load_wide(info, func, a, named_after(a, ".store_u8.ptr."@ + ks), named_after(a, ".store_u8.sext."@ + ks), table);
            let (vl, vv) = arg_load_wide(info, func, v, named_after(v, ".store_u8.val."@ + ks), named_after(v, ".store_u8.val.sext."@ + ks), table);
            let pc = "store_u8_ptr."@ + ks;
            (pl + vl + def_line(pc, "inttoptr i64 "@ + pv + " to ptr"@) + byte_store(t, vv, pc), c1)
        },
    }
}

/// The operands of the first addition into `name` in the function.
fn first_add<'a>(func: &'a MirFunction, name: &str) -> (r: Option<(&'a Operand, &'a Operand)>)
    ensures
        match r {
            Some((l, o)) => add_in_blocks(func.blocks@, 0, name@) == Some((*l, *o)),
            None => add_in_blocks(func.blocks@, 0, name@) is None,
        },
{
    let mut b: usize = 0;
    while b < func.blocks.len()
        invariant
            b <= func.blocks@.len(),
            add_in_blocks(func.blocks@, 0, name@) == add_in_blocks(func.blocks@, b as int, name@),
        decreases func.blocks.len() - b,
    {
        let insts = &func.blocks[b].instructions;
        let mut k: usize = 0;
        while k < insts.len()
            invariant
                b < func.blocks@.len(),
                insts@ == func.blocks@[b as int].instructions@,
                add_in_blocks(func.blocks@, 0, name@) == add_in_blocks(func.blocks@, b as int, name@),
                k <= insts@.len(),
                add_in_insts(insts@, 0, name@) == add_in_insts(insts@, k as int, name@),
            decreases insts.len() - k,
        {
            match &insts[k] {
                MirInst::BinOp { dest, op: MirBinOp::Add, lhs, rhs } => {
                    if str_eq(dest.name.as_str(), name) {
                        return Some((lhs, rhs));
                    }
                },
                _ => {},
            }
            k = k + 1;
        }
        b = b + 1;
    }
    None
}

/// The base and the offset of a byte address defined as an addition.
fn address_parts_of<'a>(func: &'a MirFunction, addr: &Operand) -> (r: Option<(&'a Operand, &'a Operand)>)
    ensures
        match r {
            Some((b, o)) => address_parts(*func, *addr) == Some((*b, *o)),
            None => address_parts(*func, *addr) is None,
        },
{
    match addr {
        Operand::Place(a) => match first_add(func, a.name.as_str()) {
            Some((l, o)) => {
                let o_is_param = match o {
                    Operand::Place(p) => find_type(&func.params, p.name.as_str()).is_some(),
                    _ => false,
                };
                if o_is_param {
                    Some((o, l))
                } else {
                    Some((l, o))
                }
            },
            None => None,
        },
        _ => None,
    }
}

/// Appends the byte of a string at an index (or its first byte).
#[verifier::spinoff_prover]
fn emit_string_byte(out: &mut String, p: &str, ks: &str, sv: &str, iv: Option<&str>)
    ensures
        final(out)@ == old(out)@ + string_byte(p@, ks@, sv@, match iv { Some(i) => Some(i@), None => None }),
{
    let dpp = concat3(p, ".data_ptr.", ks);
    let dp = concat3(p, ".data.", ks);
    let by = concat3(p, ".byte.", ks);
    let r1 = concat3("getelementptr {ptr, i64, i64}, ptr ", sv, ", i32 0, i32 0");
    append_def(out, dpp.as_str(), r1.as_str());
    let r2 = concat("load ptr, ptr %", dpp.as_str());
    append_def(out, dp.as_str(), r2.as_str());
    match iv {
        Some(i) => {
            let cp = concat3(p, ".char_ptr.", ks);
            let mut r3 = concat3("getelementptr i8, ptr %", dp.as_str(), ", i64 ");
            push_str(&mut r3, i);
            append_def(out, cp.as_str(), r3.as_str());
            let r4 = concat("load i8, ptr %", cp.as_str());
            append_def(out, by.as_str(), r4.as_str());
        },
        None => {
            let r4 = concat("load i8, ptr %", dp.as_str());
            append_def(out, by.as_str(), r4.as_str());
        },
    }
    assert(final(out)@ =~= old(out)@ + string_byte(p@, ks@, sv@, match iv { Some(i) => Some(i@), None => None }));
}

/// Appends the address of a byte at a base plus an offset.
#[verifier::spinoff_prover]
fn emit_byte_gep(out: &mut String, bp: &str, ep: &str, bv: &str, ov: &str)
    ensures
        final(out)@ == old(out)@ + byte_gep(bp@, ep@, bv@, ov@),
{
    let r1 = concat3("inttoptr i64 ", bv, " to ptr");
    append_def(out, bp, r1.as_str());
    let mut r2 = concat3("getelementptr i8, ptr %", bp, ", i64 ");
    push_str(&mut r2, ov);
    append_def(out, ep, r2.as_str());
}

/// Appends the truncation of a value to a byte and its store.
#[verifier::spinoff_prover]
fn emit_byte_store(out: &mut String, t: &str, vv: &str, p: &str)
    ensures
        final(out)@ == old(out)@ + byte_store(t@, vv@, p@),
{
    let r = concat3("trunc i64 ", vv, " to i8");
    append_def(out, t, r.as_str());
    push_str(out, "  store i8 %");
    push_str(out, t);
    push_str(out, ", ptr %");
    push_str(out, p);
    push_str(out, "\n");
    assert(final(out)@ =~= old(out)@ + byte_store(t@, vv@, p@));
}

/// Appends the widening of a loaded byte into the destination.
#[verifier::spinoff_prover]
fn emit_u8_result(out: &mut String, dest: &Option<Place>, src: &str, ks: &str, info: &FunctionInfo)
    ensures
        final(out)@ == old(out)@ + u8_result(*dest, src@, ks@, *info),
{
    match dest {
        Some(d) => {
            let dn = d.name.as_str();
            let r1 = concat("load i8, ptr %", src);
            if contains_name(&info.local_names, dn) {
                let b = concat3(dn, ".u8.", ks);
                let z = concat3(dn, ".zext.", ks);
                append_def(out, b.as_str(), r1.as_str());
                let r2 = concat3("zext i8 %", b.as_str(), " to i64");
                append_def(out, z.as_str(), r2.as_str());
                let pz = percent(z.as_str());
                append_store(out, "i64", pz.as_str(), dn);
            } else {
                let b = concat(dn, ".u8");
                append_def(out, b.as_str(), r1.as_str());
                let r2 = concat3("zext i8 %", b.as_str(), " to i64");
                append_def(out, dn, r2.as_str());
            }
        },
        None => {
            assert(final(out)@ =~= old(out)@);
        },
    }
}

impl TextCodeGen {
    /// Appends the reading of a string argument; gives its text.
    #[verifier::spinoff_prover]
    fn emit_str_arg(&self, out: &mut String, op: &Operand, l: &str, info: &FunctionInfo, table: &NameMap<String>) -> (v: String)
        ensures
            final(out)@ == old(out)@ + str_arg(*info, *op, l@, *table).0,
            v@ == str_arg(*info, *op, l@, *table).1,
    {
        match op {
            Operand::Place(p) => {
                if contains_name(&info.local_names, p.name.as_str()) {
                    let r = concat3("load ptr, ptr %", p.name.as_str(), ".addr");
                    append_def(out, l, r.as_str());
                    return percent(l);
                }
            },
            Operand::Constant(Constant::String(s)) => {
                match table.get(s.as_str()) {
                    Some(g) => {
                        assert(final(out)@ =~= old(out)@);
                        return concat3("@", g.as_str(), ".bmb");
                    },
                    None => {},
                }
            },
            _ => {},
        }
        assert(final(out)@ =~= old(out)@);
        self.format_operand_with_strings(op, table)
    }

    /// Appends `str_data`.
    #[verifier::spinoff_prover]
    pub fn emit_str_data(
        &self,
        out: &mut String,
        dest: &Option<Place>,
        s: &Operand,
        info: &FunctionInfo,
        table: &NameMap<String>,
        name_counts: &mut NameMap<u32>,
    )
        ensures
            final(out)@ == old(out)@ + str_data_text(*dest, *s, *info, *table, count_map(*old(name_counts))).0,
            count_map(*final(name_counts)) == str_data_text(*dest, *s, *info, *table, count_map(*old(name_counts))).1,
    {
        let (_k, ks) = bump_str(name_counts, "str_data_op");
        let l = named_after_str(s, concat(".str_data.struct.", ks.as_str()).as_str());
        let sv = self.emit_arg_load(out, s, l.as_str(), "ptr", info, table);
        let g = concat("str_data.gep.", ks.as_str());
        let dp = concat("str_data.ptr.", ks.as_str());
        let r1 = concat3("getelementptr {ptr, i64, i64}, ptr ", sv.as_str(), ", i32 0, i32 0");
        append_def(out, g.as_str(), r1.as_str());
        let r2 = concat("load ptr, ptr %", g.as_str());
        append_def(out, dp.as_str(), r2.as_str());
        let l2 = concat3(dest_or_tmp_str(dest), ".ptrtoint.", ks.as_str());
        let op = concat3("ptrtoint ptr %", dp.as_str(), " to i64");
        self.emit_dest_result(out, dest, l2.as_str(), false, op.as_str(), "i64", info, name_counts);
    }

    /// Appends `len` or `bmb_string_len`.
    #[verifier::spinoff_prover]
    pub fn emit_str_len(
        &self,
        out: &mut String,
        dest: &Option<Place>,
        s: &Operand,
        info: &FunctionInfo,
        table: &NameMap<String>,
        name_counts: &mut NameMap<u32>,
    )
        ensures
            final(out)@ == old(out)@ + str_len_text(*dest, *s, *info, *table, count_map(*old(name_counts))).0,
            count_map(*final(name_counts)) == str_len_text(*dest, *s, *info, *table, count_map(*old(name_counts))).1,
    {
        let (_k, ks) = bump_str(name_counts, "str_len");
        let l = concat("strlen.str.", ks.as_str());
        let sv = self.emit_str_arg(out, s, l.as_str(), info, table);
        let lp = concat("strlen.len_ptr.", ks.as_str());
        let r = concat3("getelementptr {ptr, i64, i64}, ptr ", sv.as_str(), ", i32 0, i32 1");
        append_def(out, lp.as_str(), r.as_str());
        let op = concat("load i64, ptr %", lp.as_str());
        self.emit_dest_result(out, dest, dest_or_tmp_str(dest), true, op.as_str(), "i64", info, name_counts);
    }

    /// Appends `char_at`, `byte_at` or `bmb_string_char_at`.
    #[verifier::spinoff_prover]
    pub fn emit_char_at(
        &self,
        out: &mut String,
        dest: &Option<Place>,
        s: &Operand,
        i: &Operand,
        info: &FunctionInfo,
        table: &NameMap<String>,
        name_counts: &mut NameMap<u32>,
    )
        ensures
            final(out)@ == old(out)@ + char_at_text(*dest, *s, *i, *info, *table, count_map(*old(name_counts))).0,
            count_map(*final(name_counts)) == char_at_text(*dest, *s, *i, *info, *table, count_map(*old(name_counts))).1,
    {
        let (_k, ks) = bump_str(name_counts, "str_char_at");
        let l = concat("charat.str.", ks.as_str());
        let sv = self.emit_str_arg(out, s, l.as_str(), info, table);
        let l2 = concat("charat.idx.", ks.as_str());
        let iv = self.emit_arg_load(out, i, l2.as_str(), "i64", info, table);
        emit_string_byte(out, "charat", ks.as_str(), sv.as_str(), Some(iv.as_str()));
        let op = concat3("zext i8 %charat.byte.", ks.as_str(), " to i64");
        self.emit_dest_result(out, dest, dest_or_tmp_str(dest), true, op.as_str(), "i64", info, name_counts);
    }

    /// Appends `ord` or `bmb_ord`.
    #[verifier::spinoff_prover]
    pub fn emit_ord(
        &self,
        out: &mut String,
        dest: &Option<Place>,
        x: &Operand,
        info: &FunctionInfo,
        func: &MirFunction,
        table: &NameMap<String>,
        name_counts: &mut NameMap<u32>,
    )
        ensures
            final(out)@ == old(out)@ + ord_text(*dest, *x, *info, *func, *table, count_map(*old(name_counts))).0,
            count_map(*final(name_counts)) == ord_text(*dest, *x, *info, *func, *table, count_map(*old(name_counts))).1,
    {
        let (_k, ks) = bump_str(name_counts, "str_ord");
        if str_eq(info.operand_type(x, func, self), "i64") {
            let l = concat("ord.passthru.", ks.as_str());
            let cv = self.emit_arg_load(out, x, l.as_str(), "i64", info, table);
            let op = concat3("add i64 ", cv.as_str(), ", 0");
            self.emit_dest_result(out, dest, dest_or_tmp_str(dest), true, op.as_str(), "i64", info, name_counts);
        } else {
            let l = concat("ord.str.", ks.as_str());
            let sv = self.emit_arg_load(out, x, l.as_str(), "ptr", info, table);
            emit_string_byte(out, "ord", ks.as_str(), sv.as_str(), None);
            let op = concat3("zext i8 %ord.byte.", ks.as_str(), " to i64");
            self.emit_dest_result(out, dest, dest_or_tmp_str(dest), true, op.as_str(), "i64", info, name_counts);
        }
    }

    /// Appends `load_u8`.
    #[verifier::spinoff_prover]
    pub fn emit_load_u8(
        &self,
        out: &mut String,
        dest: &Option<Place>,
        a: &Operand,
        info: &FunctionInfo,
        func: &MirFunction,
        table: &NameMap<String>,
        name_counts: &mut NameMap<u32>,
    )
        ensures
            final(out)@ == old(out)@ + load_u8_text(*dest, *a, *info, *func, *table, count_map(*old(name_counts))).0,
            count_map(*final(name_counts)) == load_u8_text(*dest, *a, *info, *func, *table, count_map(*old(name_counts))).1,
    {
        let (_k, ks) = bump_str(name_counts, "load_u8_op");
        match address_parts_of(func, a) {
            Some((base, off)) => {
                let l1 = concat("gep_base_load.", ks.as_str());
                let s1 = concat("gep_base_sext.", ks.as_str());
                let bv = self.emit_arg_load_wide(out, base, l1.as_str(), s1.as_str(), info, func, table);
                let l2 = concat("gep_offset_load.", ks.as_str());
                let s2 = concat("gep_offset_sext.", ks.as_str());
                let ov = self.emit_arg_load_wide(out, off, l2.as_str(), s2.as_str(), info, func, table);
                let bp = concat("gep_base.", ks.as_str());
                let ep = concat("gep_elem.", ks.as_str());
                emit_byte_gep(out, bp.as_str(), ep.as_str(), bv.as_str(), ov.as_str());
                emit_u8_result(out, dest, ep.as_str(), ks.as_str(), info);
            },
            None => {
                let l = named_after_str(a, concat(".load_u8.ptr.", ks.as_str()).as_str());
                let sx = named_after_str(a, concat(".load_u8.sext.", ks.as_str()).as_str());
                let pv = self.emit_arg_load_wide(out, a, l.as_str(), sx.as_str(), info, func, table);
                let pc = concat("load_u8_ptr.", ks.as_str());
                let r = concat3("inttoptr i64 ", pv.as_str(), " to ptr");
                append_def(out, pc.as_str(), r.as_str());
                emit_u8_result(out, dest, pc.as_str(), ks.as_str(), info);
            },
        }
    }

    /// Appends `store_u8`.
    #[verifier::spinoff_prover]
    pub fn emit_store_u8(
        &self,
        out: &mut String,
        a: &Operand,
        v: &Operand,
        info: &FunctionInfo,
        func: &MirFunction,
        table: &NameMap<String>,
        name_counts: &mut NameMap<u32>,
    )
        ensures
            final(out)@ == old(out)@ + store_u8_text(*a, *v, *info, *func, *table, count_map(*old(name_counts))).0,
            count_map(*final(name_counts)) == store_u8_text(*a, *v, *info, *func, *table, count_map(*old(name_counts))).1,
    {
        let (_k, ks) = bump_str(name_counts, "store_u8_op");
        let t = concat("store_u8_trunc.", ks.as_str());
        let vl = named_after_str(v, concat(".store_u8.val.", ks.as_str()).as_str());
        let vs = named_after_str(v, concat(".store_u8.val.sext.", ks.as_str()).as_str());
        match address_parts_of(func, a) {
            Some((base, off)) => {
                let l1 = concat("sgep_base_load.", ks.as_str());
                let s1 = concat("sgep_base_sext.", ks.as_str());
                let bv = self.emit_arg_load_wide(out, base, l1.as_str(), s1.as_str(), info, func, table);
                let l2 = concat("sgep_offset_load.", ks.as_str());
                let s2 = concat("sgep_offset_sext.", ks.as_str());
                let ov = self.emit_arg_load_wide(out, off, l2.as_str(), s2.as_str(), info, func, table);
                let vv = self.emit_arg_load_wide(out, v, vl.as_str(), vs.as_str(), info, func, table);
                let bp = concat("sgep_base.", ks.as_str());
                let ep = concat("sgep_elem.", ks.as_str());
                emit_byte_gep(out, bp.as_str(), ep.as_str(), bv.as_str(), ov.as_str());
                emit_byte_store(out, t.as_str(), vv.as_str(), ep.as_str());
            },
            None => {
                let l = named_after_str(a, concat(".store_u8.ptr.", ks.as_str()).as_str());
                let sx = named_after_str(a, concat(".store_u8.sext.", ks.as_str()).as_str());
                let pv = self.emit_arg_load_wide(out, a, l.as_str(), sx.as_str(), info, func, table);
                let vv = self.emit_arg_load_wide(out, v, vl.as_str(), vs.as_str(), info, func, table);
                let pc = concat("store_u8_ptr.", ks.as_str());
                let r = concat3("inttoptr i64 ", pv.as_str(), " to ptr");
                append_def(out, pc.as_str(), r.as_str());
                emit_byte_store(out, t.as_str(), vv.as_str(), pc.as_str());
            },
        }
    }
}

} // verus!
