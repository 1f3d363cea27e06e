//! The string constants of a program and the table of their LLVM globals.

use vstd::prelude::*;

use crate::codegen::llvm_text::TextCodeGen;
use crate::codegen::names::{lookup_in, NameMap};
use crate::mir::{BasicBlock, Constant, MirFunction, MirInst, MirProgram, Operand, Terminator};
use crate::text::{append_u64, dec_nat, lemma_dec_nat_injective, push_str};

verus! {

/// The string constant an operand is, if it is one.
pub open spec fn operand_string(op: Operand) -> Seq<Seq<char>> {
    match op {
        Operand::Constant(Constant::String(s)) => seq![s@],
        _ => Seq::empty(),
    }
}

/// The string constants among some operands, in order.
pub open spec fn operand_strings(ops: Seq<Operand>) -> Seq<Seq<char>>
    decreases ops.len(),
{
    if ops.len() == 0 {
        Seq::empty()
    } else {
        operand_strings(ops.drop_last()) + operand_string(ops.last())
    }
}

/// The operands of phi values.
pub open spec fn phi_operands(values: Seq<(Operand, String)>) -> Seq<Operand> {
    values.map_values(|v: (Operand, String)| v.0)
}

/// The string constants an instruction uses: a string constant assigned,
/// or string constants among call arguments, phi values or binary operands.
pub open spec fn inst_strings(inst: MirInst) -> Seq<Seq<char>> {
    match inst {
        MirInst::Const { value: Constant::String(s), .. } => seq![s@],
        MirInst::Call { args, .. } => operand_strings(args@),
        MirInst::Phi { values, .. } => operand_strings(phi_operands(values@)),
        MirInst::BinOp { lhs, rhs, .. } => operand_strings(seq![lhs, rhs]),
        _ => Seq::empty(),
    }
}

/// The string constants of some instructions, in order.
pub open spec fn insts_strings(insts: Seq<MirInst>) -> Seq<Seq<char>>
    decreases insts.len(),
{
    if insts.len() == 0 {
        Seq::empty()
    } else {
        insts_strings(insts.drop_last()) + inst_strings(insts.last())
    }
}

/// The string constant a terminator returns, if any.
pub open spec fn terminator_strings(t: Terminator) -> Seq<Seq<char>> {
    match t {
        Terminator::Return(Some(Operand::Constant(Constant::String(s)))) => seq![s@],
        _ => Seq::empty(),
    }
}

/// The string constants of a block: its instructions', then its
/// terminator's.
pub open spec fn block_strings(b: BasicBlock) -> Seq<Seq<char>> {
    insts_strings(b.instructions@) + terminator_strings(b.terminator)
}

/// The string constants of some blocks, in order.
pub open spec fn blocks_strings(bs: Seq<BasicBlock>) -> Seq<Seq<char>>
    decreases bs.len(),
{
    if bs.len() == 0 {
        Seq::empty()
    } else {
        blocks_strings(bs.drop_last()) + block_strings(bs.last())
    }
}

/// The string constants of some functions, in order.
pub open spec fn functions_strings(fs: Seq<MirFunction>) -> Seq<Seq<char>>
    decreases fs.len(),
{
    if fs.len() == 0 {
        Seq::empty()
    } else {
        functions_strings(fs.drop_last()) + blocks_strings(fs.last().blocks@)
    }
}

/// `seen` extended by the strings of `occ` not seen yet, in order of first
/// occurrence.
pub open spec fn add_new(seen: Seq<Seq<char>>, occ: Seq<Seq<char>>) -> Seq<Seq<char>>
    decreases occ.len(),
{
    if occ.len() == 0 {
        seen
    } else {
        let d = add_new(seen, occ.drop_last());
        if d.contains(occ.last()) {
            d
        } else {
            d.push(occ.last())
        }
    }
}

/// The distinct string constants of a program, in order of first
/// occurrence.
pub open spec fn program_strings(p: MirProgram) -> Seq<Seq<char>> {
    add_new(Seq::empty(), functions_strings(p.functions@))
}

/// The name of the global holding the `i`-th string constant: `.str.<i>`.
pub open spec fn string_global_name(i: nat) -> Seq<char> {
    ".str."@ + dec_nat(i)
}

/// A string table lists the strings `strs`, in order, the `i`-th one
/// under the global `.str.<i>`.
pub open spec fn table_lists(table: NameMap<String>, strs: Seq<Seq<char>>) -> bool {
    &&& table.entries@.len() == strs.len()
    &&& forall|i: int|
        0 <= i < strs.len() ==> (#[trigger] table.entries@[i]).0@ == strs[i]
            && table.entries@[i].1@ == string_global_name(i as nat)
}

/// Adding strings in two steps adds them as one step.
pub proof fn lemma_add_new_concat(seen: Seq<Seq<char>>, a: Seq<Seq<char>>, b: Seq<Seq<char>>)
    ensures
        add_new(seen, a + b) == add_new(add_new(seen, a), b),
    decreases b.len(),
{
    if b.len() == 0 {
        assert(a + b =~= a);
    } else {
        lemma_add_new_concat(seen, a, b.drop_last());
        assert((a + b).drop_last() =~= a + b.drop_last());
        assert((a + b).last() == b.last());
    }
}

/// Some entry is named `k` exactly when looking `k` up finds a value.
pub proof fn lemma_lookup_some<V>(s: Seq<(String, V)>, k: Seq<char>)
    ensures
        lookup_in(s, k) is Some <==> exists|i: int| 0 <= i < s.len() && (#[trigger] s[i]).0@ == k,
    decreases s.len(),
{
    if s.len() > 0 {
        lemma_lookup_some(s.drop_last(), k);
        if lookup_in(s, k) is Some {
            if s.last().0@ == k {
                assert(s[s.len() - 1].0@ == k);
            } else {
                let i = choose|i: int| 0 <= i < s.drop_last().len() && s.drop_last()[i].0@ == k;
                assert(s[i].0@ == k);
            }
        }
        if exists|i: int| 0 <= i < s.len() && (#[trigger] s[i]).0@ == k {
            let i = choose|i: int| 0 <= i < s.len() && (#[trigger] s[i]).0@ == k;
            if i < s.len() - 1 {
                assert(s.drop_last()[i].0@ == k);
            }
        }
    }
}

/// In a table without repeated names, the value stored under the `i`-th
/// name is the `i`-th value.
pub proof fn lemma_lookup_unique<V>(s: Seq<(String, V)>, i: int)
    requires
        0 <= i < s.len(),
        forall|a: int, b: int| 0 <= a < b < s.len() ==> (#[trigger] s[a]).0@ != (#[trigger] s[b]).0@,
    ensures
        lookup_in(s, s[i].0@) == Some(s[i].1),
    decreases s.len(),
{
    if i < s.len() - 1 {
        assert(s[i].0@ != s[s.len() - 1].0@);
        lemma_lookup_unique(s.drop_last(), i);
    }
}

/// In a string table, each string is looked up to the global named after
/// its position.
pub proof fn lemma_table_lookup(table: NameMap<String>, strs: Seq<Seq<char>>, i: int)
    requires
        table_lists(table, strs),
        0 <= i < strs.len(),
        forall|a: int, b: int| 0 <= a < b < strs.len() ==> strs[a] != strs[b],
    ensures
        table.lookup(strs[i]) is Some,
        table.lookup(strs[i])->0@ == string_global_name(i as nat),
{
    assert forall|a: int, b: int| 0 <= a < b < table.entries@.len() implies (
    #[trigger] table.entries@[a]).0@ != (#[trigger] table.entries@[b]).0@ by {
        assert(table.entries@[a].0@ == strs[a]);
        assert(table.entries@[b].0@ == strs[b]);
    }
    lemma_lookup_unique(table.entries@, i);
}

/// The strings `add_new` produces from distinct strings are distinct.
pub proof fn lemma_add_new_distinct(seen: Seq<Seq<char>>, occ: Seq<Seq<char>>)
    requires
        forall|a: int, b: int| 0 <= a < b < seen.len() ==> seen[a] != seen[b],
    ensures
        forall|a: int, b: int|
            0 <= a < b < add_new(seen, occ).len() ==> add_new(seen, occ)[a] != add_new(
                seen,
                occ,
            )[b],
    decreases occ.len(),
{
    if occ.len() > 0 {
        lemma_add_new_distinct(seen, occ.drop_last());
        let d = add_new(seen, occ.drop_last());
        if !d.contains(occ.last()) {
            assert forall|a: int, b: int| 0 <= a < b < d.push(occ.last()).len() implies d.push(
                occ.last(),
            )[a] != d.push(occ.last())[b] by {
                if b == d.len() {
                    assert(d.push(occ.last())[a] == d[a]);
                }
            }
        }
    }
}

/// Adds one string to a table if it is not there yet.
fn add_string(table: &mut NameMap<String>, s: &str, Ghost(strs): Ghost<Seq<Seq<char>>>)
    requires
        table_lists(*old(table), strs),
    ensures
        table_lists(*final(table), add_new(strs, seq![s@])),
{
    proof {
        lemma_lookup_some(table.entries@, s@);
        assert(add_new(strs, seq![s@]) == (if strs.contains(s@) {
            strs
        } else {
            strs.push(s@)
        })) by {
            assert(seq![s@].drop_last() =~= Seq::<Seq<char>>::empty());
            assert(add_new(strs, Seq::<Seq<char>>::empty()) == strs);
        }
        if strs.contains(s@) {
            let i = choose|i: int| 0 <= i < strs.len() && strs[i] == s@;
            assert(table.entries@[i].0@ == s@);
        }
        if exists|i: int| 0 <= i < table.entries@.len() && (#[trigger] table.entries@[i]).0@ == s@ {
            let i = choose|i: int|
                0 <= i < table.entries@.len() && (#[trigger] table.entries@[i]).0@ == s@;
            assert(strs[i] == s@);
        }
    }
    if !table.contains_key(s) {
        let n = table.entries.len();
        let mut name = String::new();
        push_str(&mut name, ".str.");
        append_u64(&mut name, n as u64);
        assert(name@ =~= string_global_name(n as nat));
        let ghost old_entries = table.entries@;
        table.insert(s, name);
        assert forall|i: int| 0 <= i < strs.push(s@).len() implies (
        #[trigger] table.entries@[i]).0@ == strs.push(s@)[i] && table.entries@[i].1@
            == string_global_name(i as nat) by {
            if i < strs.len() {
                assert(table.entries@[i] == table.entries@.drop_last()[i]);
                assert(old_entries[i].0@ == strs[i]);
            }
        }
    }
}

/// Adds the string constant an operand is, if it is one.
fn add_operand_string(table: &mut NameMap<String>, op: &Operand, Ghost(strs): Ghost<Seq<Seq<char>>>)
    requires
        table_lists(*old(table), strs),
    ensures
        table_lists(*final(table), add_new(strs, operand_string(*op))),
{
    if let Operand::Constant(Constant::String(s)) = op {
        add_string(table, s.as_str(), Ghost(strs));
    } else {
        assert(add_new(strs, operand_string(*op)) == strs);
    }
}

/// Adds the string constants among some operands.
fn add_operand_strings(
    table: &mut NameMap<String>,
    ops: &Vec<Operand>,
    Ghost(strs): Ghost<Seq<Seq<char>>>,
)
    requires
        table_lists(*old(table), strs),
    ensures
        table_lists(*final(table), add_new(strs, operand_strings(ops@))),
{
    let mut i: usize = 0;
    while i < ops.len()
        invariant
            i <= ops.len(),
            table_lists(*table, add_new(strs, operand_strings(ops@.subrange(0, i as int)))),
        decreases ops.len() - i,
    {
        let ghost cur = add_new(strs, operand_strings(ops@.subrange(0, i as int)));
        proof {
            assert(ops@.subrange(0, i + 1).drop_last() =~= ops@.subrange(0, i as int));
            lemma_add_new_concat(
                strs,
                operand_strings(ops@.subrange(0, i as int)),
                operand_string(ops@[i as int]),
            );
        }
        add_operand_string(table, &ops[i], Ghost(cur));
        i = i + 1;
    }
    assert(ops@.subrange(0, ops.len() as int) =~= ops@);
}

/// Adds the string constants among some phi values.
fn add_phi_strings(
    table: &mut NameMap<String>,
    values: &Vec<(Operand, String)>,
    Ghost(strs): Ghost<Seq<Seq<char>>>,
)
    requires
        table_lists(*old(table), strs),
    ensures
        table_lists(*final(table), add_new(strs, operand_strings(phi_operands(values@)))),
{
    let mut i: usize = 0;
    while i < values.len()
        invariant
            i <= values.len(),
            table_lists(
                *table,
                add_new(strs, operand_strings(phi_operands(values@.subrange(0, i as int)))),
            ),
        decreases values.len() - i,
    {
        let ghost pre = phi_operands(values@.subrange(0, i as int));
        let ghost cur = add_new(strs, operand_strings(pre));
        proof {
            assert(phi_operands(values@.subrange(0, i + 1)).drop_last() =~= pre);
            assert(phi_operands(values@.subrange(0, i + 1)).last() == values@[i as int].0);
            lemma_add_new_concat(strs, operand_strings(pre), operand_string(values@[i as int].0));
        }
        add_operand_string(table, &values[i].0, Ghost(cur));
        i = i + 1;
    }
    assert(values@.subrange(0, values.len() as int) =~= values@);
}

/// Adds the string constants an instruction uses.
fn add_inst_strings(table: &mut NameMap<String>, inst: &MirInst, Ghost(strs): Ghost<Seq<Seq<char>>>)
    requires
        table_lists(*old(table), strs),
    ensures
        table_lists(*final(table), add_new(strs, inst_strings(*inst))),
{
    match inst {
        MirInst::Const { value: Constant::String(s), .. } => {
            add_string(table, s.as_str(), Ghost(strs));
        },
        MirInst::Call { args, .. } => {
            add_operand_strings(table, args, Ghost(strs));
        },
        MirInst::Phi { values, .. } => {
            add_phi_strings(table, values, Ghost(strs));
        },
        MirInst::BinOp { lhs, rhs, .. } => {
            proof {
                assert(seq![*lhs, *rhs].drop_last() =~= seq![*lhs]);
                assert(seq![*lhs].drop_last() =~= Seq::<Operand>::empty());
                assert(operand_strings(Seq::<Operand>::empty()) == Seq::<Seq<char>>::empty());
                assert(operand_strings(seq![*lhs]) =~= operand_string(*lhs));
                lemma_add_new_concat(strs, operand_string(*lhs), operand_string(*rhs));
                assert(operand_strings(seq![*lhs, *rhs]) =~= operand_string(*lhs) + operand_string(*rhs));
            }
            add_operand_string(table, lhs, Ghost(strs));
            add_operand_string(table, rhs, Ghost(add_new(strs, operand_string(*lhs))));
        },
        _ => {
            assert(add_new(strs, inst_strings(*inst)) == strs);
        },
    }
}

/// Adds the string constants of a block.
fn add_block_strings(table: &mut NameMap<String>, b: &BasicBlock, Ghost(strs): Ghost<Seq<Seq<char>>>)
    requires
        table_lists(*old(table), strs),
    ensures
        table_lists(*final(table), add_new(strs, block_strings(*b))),
{
    let mut i: usize = 0;
    while i < b.instructions.len()
        invariant
            i <= b.instructions.len(),
            table_lists(*table, add_new(strs, insts_strings(b.instructions@.subrange(0, i as int)))),
        decreases b.instructions.len() - i,
    {
        let ghost cur = add_new(strs, insts_strings(b.instructions@.subrange(0, i as int)));
        proof {
            assert(b.instructions@.subrange(0, i + 1).drop_last() =~= b.instructions@.subrange(0, i as int));
            lemma_add_new_concat(
                strs,
                insts_strings(b.instructions@.subrange(0, i as int)),
                inst_strings(b.instructions@[i as int]),
            );
        }
        add_inst_strings(table, &b.instructions[i], Ghost(cur));
        i = i + 1;
    }
    assert(b.instructions@.subrange(0, b.instructions.len() as int) =~= b.instructions@);
    let ghost cur = add_new(strs, insts_strings(b.instructions@));
    proof {
        lemma_add_new_concat(strs, insts_strings(b.instructions@), terminator_strings(b.terminator));
    }
    if let Terminator::Return(Some(Operand::Constant(Constant::String(s)))) = &b.terminator {
        add_string(table, s.as_str(), Ghost(cur));
    } else {
        assert(add_new(cur, terminator_strings(b.terminator)) == cur);
    }
}

/// Adds the string constants of a function.
fn add_function_strings(table: &mut NameMap<String>, f: &MirFunction, Ghost(strs): Ghost<Seq<Seq<char>>>)
    requires
        table_lists(*old(table), strs),
    ensures
        table_lists(*final(table), add_new(strs, blocks_strings(f.blocks@))),
{
    let mut i: usize = 0;
    while i < f.blocks.len()
        invariant
            i <= f.blocks.len(),
            table_lists(*table, add_new(strs, blocks_strings(f.blocks@.subrange(0, i as int)))),
        decreases f.blocks.len() - i,
    {
        let ghost cur = add_new(strs, blocks_strings(f.blocks@.subrange(0, i as int)));
        proof {
            assert(f.blocks@.subrange(0, i + 1).drop_last() =~= f.blocks@.subrange(0, i as int));
            lemma_add_new_concat(
                strs,
                blocks_strings(f.blocks@.subrange(0, i as int)),
                block_strings(f.blocks@[i as int]),
            );
        }
        add_block_strings(table, &f.blocks[i], Ghost(cur));
        i = i + 1;
    }
    assert(f.blocks@.subrange(0, f.blocks.len() as int) =~= f.blocks@);
}

/// Collects the string constants of a program: each distinct string once,
/// in order of first occurrence, the `i`-th under the global `.str.<i>`.
impl TextCodeGen {
pub fn collect_string_constants(&self, program: &MirProgram) -> (table: NameMap<String>)
    ensures
        table_lists(table, program_strings(*program)),
{
    let mut table: NameMap<String> = NameMap::new();
    let mut i: usize = 0;
    while i < program.functions.len()
        invariant
            i <= program.functions.len(),
            table_lists(
                table,
                add_new(Seq::empty(), functions_strings(program.functions@.subrange(0, i as int))),
            ),
        decreases program.functions.len() - i,
    {
        let ghost cur = add_new(
            Seq::empty(),
            functions_strings(program.functions@.subrange(0, i as int)),
        );
        proof {
            assert(program.functions@.subrange(0, i + 1).drop_last() =~= program.functions@.subrange(
                0,
                i as int,
            ));
            lemma_add_new_concat(
                Seq::empty(),
                functions_strings(program.functions@.subrange(0, i as int)),
                blocks_strings(program.functions@[i as int].blocks@),
            );
        }
        add_function_strings(&mut table, &program.functions[i], Ghost(cur));
        i = i + 1;
    }
    assert(program.functions@.subrange(0, program.functions.len() as int) =~= program.functions@);
    table
}
}

/// The strings of a program are distinct.
pub proof fn lemma_program_strings_distinct(p: MirProgram)
    ensures
        forall|a: int, b: int|
            0 <= a < b < program_strings(p).len() ==> program_strings(p)[a] != program_strings(p)[b],
{
    lemma_add_new_distinct(Seq::empty(), functions_strings(p.functions@));
}

/// Every string that occurs is among the strings `add_new` produces.
pub proof fn lemma_add_new_covers(seen: Seq<Seq<char>>, occ: Seq<Seq<char>>, x: Seq<char>)
    requires
        seen.contains(x) || occ.contains(x),
    ensures
        add_new(seen, occ).contains(x),
    decreases occ.len(),
{
    if occ.len() > 0 {
        let d = add_new(seen, occ.drop_last());
        if seen.contains(x) || occ.drop_last().contains(x) {
            lemma_add_new_covers(seen, occ.drop_last(), x);
            if !d.contains(occ.last()) {
                let i = choose|i: int| 0 <= i < d.len() && d[i] == x;
                assert(d.push(occ.last())[i] == x);
            }
        } else {
            let i = choose|i: int| 0 <= i < occ.len() && occ[i] == x;
            if i < occ.len() - 1 {
                assert(occ.drop_last()[i] == x);
            }
            assert(occ.last() == x);
            if !d.contains(occ.last()) {
                assert(d.push(occ.last())[d.len() as int] == x);
            }
        }
    }
}

/// The string table of a program gives every string constant of the
/// program a global, one per distinct string: two string constants share a
/// global exactly when they are the same string.
pub proof fn lemma_string_table_globals(table: NameMap<String>, program: MirProgram, s1: Seq<char>, s2: Seq<char>)
    requires
        table_lists(table, program_strings(program)),
        functions_strings(program.functions@).contains(s1),
        functions_strings(program.functions@).contains(s2),
    ensures
        table.lookup(s1) is Some,
        table.lookup(s2) is Some,
        (table.lookup(s1)->0@ == table.lookup(s2)->0@) <==> s1 == s2,
{
    let strs = program_strings(program);
    lemma_program_strings_distinct(program);
    lemma_add_new_covers(Seq::empty(), functions_strings(program.functions@), s1);
    lemma_add_new_covers(Seq::empty(), functions_strings(program.functions@), s2);
    let i = choose|i: int| 0 <= i < strs.len() && strs[i] == s1;
    let j = choose|j: int| 0 <= j < strs.len() && strs[j] == s2;
    lemma_table_lookup(table, strs, i);
    lemma_table_lookup(table, strs, j);
    if table.lookup(s1)->0@ == table.lookup(s2)->0@ {
        assert(string_global_name(i as nat) == string_global_name(j as nat));
        let p = ".str."@;
        let gi = string_global_name(i as nat);
        let gj = string_global_name(j as nat);
        assert(dec_nat(i as nat) =~= gi.subrange(p.len() as int, gi.len() as int));
        assert(dec_nat(j as nat) =~= gj.subrange(p.len() as int, gj.len() as int));
        lemma_dec_nat_injective(i as nat, j as nat);
    }
}

} // verus!
