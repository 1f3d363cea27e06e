//! Escape analysis of struct values: which places initialised by a struct
//! literal leave the function, by being returned, passed to a call, copied
//! or merged by a phi node.

use vstd::prelude::*;

use crate::codegen::llvm_text::TextCodeGen;
use crate::codegen::names::{contains_name, names_contain};
use crate::mir::{BasicBlock, MirFunction, MirInst, Operand, Terminator};
use crate::text::str_eq;

verus! {

/// Whether an instruction initialises `name` with a struct literal.
pub open spec fn inits_struct(inst: MirInst, name: Seq<char>) -> bool {
    match inst {
        MirInst::StructInit { dest, .. } => dest.name@ == name,
        _ => false,
    }
}

/// Whether some instruction of the blocks initialises `name` with a struct
/// literal.
pub open spec fn struct_initialised(blocks: Seq<BasicBlock>, name: Seq<char>) -> bool {
    exists|j: int, i: int|
        0 <= j < blocks.len() && 0 <= i < blocks[j].instructions@.len() && #[trigger] inits_struct(
            blocks[j].instructions@[i],
            name,
        )
}

/// Whether an operand is the place `name`.
pub open spec fn is_place_named(op: Operand, name: Seq<char>) -> bool {
    match op {
        Operand::Place(p) => p.name@ == name,
        _ => false,
    }
}

/// Whether an instruction lets `name` escape: as a call argument, as the
/// source of a copy, or as a value merged by a phi node.
pub open spec fn inst_lets_escape(inst: MirInst, name: Seq<char>) -> bool {
    match inst {
        MirInst::Call { args, .. } => exists|k: int| 0 <= k < args@.len() && #[trigger] is_place_named(args@[k], name),
        MirInst::Copy { src, .. } => src.name@ == name,
        MirInst::Phi { values, .. } => exists|k: int|
            0 <= k < values@.len() && #[trigger] is_place_named(values@[k].0, name),
        _ => false,
    }
}

/// Whether a block returns the place `name`.
pub open spec fn block_returns(b: BasicBlock, name: Seq<char>) -> bool {
    match b.terminator {
        Terminator::Return(Some(op)) => is_place_named(op, name),
        _ => false,
    }
}

/// Whether one of the first `n` instructions lets `name` escape.
pub open spec fn insts_let_escape(insts: Seq<MirInst>, n: int, name: Seq<char>) -> bool {
    exists|i: int| 0 <= i < n && #[trigger] inst_lets_escape(insts[i], name)
}

/// Whether one of the first `n` blocks returns `name` or lets it escape.
pub open spec fn blocks_let_escape(blocks: Seq<BasicBlock>, n: int, name: Seq<char>) -> bool {
    exists|j: int|
        0 <= j < n && (block_returns(#[trigger] blocks[j], name) || insts_let_escape(
            blocks[j].instructions@,
            blocks[j].instructions@.len() as int,
            name,
        ))
}

/// Whether a struct value escapes from the function: it is initialised by
/// a struct literal and then returned, passed to a call, copied or merged
/// by a phi node.
pub open spec fn escapes(func: MirFunction, name: Seq<char>) -> bool {
    struct_initialised(func.blocks@, name) && blocks_let_escape(func.blocks@, func.blocks@.len() as int, name)
}

/// Whether the names are distinct.
pub open spec fn distinct_names(names: Seq<String>) -> bool {
    forall|a: int, b: int| 0 <= a < b < names.len() ==> names[a]@ != names[b]@
}

/// Whether some instruction of the function initialises `name` with a
/// struct literal.
fn is_struct_initialised(func: &MirFunction, name: &str) -> (r: bool)
    ensures
        r == struct_initialised(func.blocks@, name@),
{
    let mut j: usize = 0;
    while j < func.blocks.len()
        invariant
            j <= func.blocks@.len(),
            forall|jj: int, i: int|
                0 <= jj < j && 0 <= i < func.blocks@[jj].instructions@.len() ==> !#[trigger] inits_struct(
                    func.blocks@[jj].instructions@[i],
                    name@,
                ),
        decreases func.blocks.len() - j,
    {
        let insts = &func.blocks[j].instructions;
        let mut i: usize = 0;
        while i < insts.len()
            invariant
                j < func.blocks@.len(),
                insts@ == func.blocks@[j as int].instructions@,
                i <= insts@.len(),
                forall|jj: int, ii: int|
                    0 <= jj < j && 0 <= ii < func.blocks@[jj].instructions@.len() ==> !#[trigger] inits_struct(
                        func.blocks@[jj].instructions@[ii],
                        name@,
                    ),
                forall|ii: int| 0 <= ii < i ==> !#[trigger] inits_struct(insts@[ii], name@),
            decreases insts.len() - i,
        {
            if let MirInst::StructInit { dest, .. } = &insts[i] {
                if str_eq(dest.name.as_str(), name) {
                    assert(inits_struct(func.blocks@[j as int].instructions@[i as int], name@));
                    return true;
                }
            }
            i = i + 1;
        }
        j = j + 1;
    }
    false
}

/// Adds `name` to the escaped names if a struct literal initialises it and
/// it is not there yet.
fn note_escape(escaped: &mut Vec<String>, func: &MirFunction, name: &str)
    requires
        distinct_names(old(escaped)@),
    ensures
        distinct_names(final(escaped)@),
        forall|n: Seq<char>|
            #[trigger] names_contain(final(escaped)@, n) <==> (names_contain(old(escaped)@, n) || (n == name@
                && struct_initialised(func.blocks@, n))),
{
    if is_struct_initialised(func, name) && !contains_name(escaped, name) {
        escaped.push(name.to_owned());
        assert forall|n: Seq<char>| names_contain(final(escaped)@, n) <==> (names_contain(old(escaped)@, n) || (n
            == name@ && struct_initialised(func.blocks@, n))) by {
            if names_contain(old(escaped)@, n) {
                let k = choose|k: int| 0 <= k < old(escaped)@.len() && #[trigger] old(escaped)@[k]@ == n;
                assert(final(escaped)@[k]@ == n);
            }
            if n == name@ {
                assert(final(escaped)@[old(escaped)@.len() as int]@ == n);
            }
        }
    }
}

impl TextCodeGen {
    /// The struct values that escape from a function, each once, in the
    /// order in which they are first seen to escape.
    pub fn collect_escaped_structs(&self, func: &MirFunction) -> (r: Vec<String>)
        ensures
            distinct_names(r@),
            forall|n: Seq<char>| names_contain(r@, n) <==> escapes(*func, n),
    {
        let blocks = &func.blocks;
        let mut escaped: Vec<String> = Vec::new();
        let mut j: usize = 0;
        while j < blocks.len()
            invariant
                blocks@ == func.blocks@,
                j <= blocks@.len(),
                distinct_names(escaped@),
                forall|n: Seq<char>|
                    #[trigger] names_contain(escaped@, n) <==> (struct_initialised(blocks@, n) && blocks_let_escape(
                        blocks@,
                        j as int,
                        n,
                    )),
            decreases blocks.len() - j,
        {
            let block = &blocks[j];
            let ghost before = escaped@;
            if let Terminator::Return(Some(Operand::Place(p))) = &block.terminator {
                note_escape(&mut escaped, func, p.name.as_str());
            }
            let ghost after_return = escaped@;
            assert forall|n: Seq<char>| names_contain(after_return, n) <==> (names_contain(before, n) || (
            block_returns(blocks@[j as int], n) && struct_initialised(blocks@, n))) by {}
            let insts = &block.instructions;
            let mut i: usize = 0;
            while i < insts.len()
                invariant
                    blocks@ == func.blocks@,
                    j < blocks@.len(),
                    insts@ == blocks@[j as int].instructions@,
                    i <= insts@.len(),
                    distinct_names(escaped@),
                    forall|n: Seq<char>|
                        #[trigger] names_contain(escaped@, n) <==> (names_contain(after_return, n) || (struct_initialised(
                            blocks@,
                            n,
                        ) && insts_let_escape(insts@, i as int, n))),
                decreases insts.len() - i,
            {
                let ghost start = escaped@;
                self.note_inst_escapes(&mut escaped, func, &insts[i]);
                assert forall|n: Seq<char>|
                    names_contain(escaped@, n) <==> (names_contain(after_return, n) || (struct_initialised(
                        blocks@,
                        n,
                    ) && insts_let_escape(insts@, i + 1, n))) by {
                    assert(names_contain(start, n) <==> (names_contain(after_return, n) || (struct_initialised(
                        blocks@,
                        n,
                    ) && insts_let_escape(insts@, i as int, n))));
                    assert(names_contain(escaped@, n) <==> (names_contain(start, n) || (struct_initialised(
                        func.blocks@,
                        n,
                    ) && inst_lets_escape(insts@[i as int], n))));
                    if inst_lets_escape(insts@[i as int], n) {
                        assert(insts_let_escape(insts@, i + 1, n));
                    }
                    if insts_let_escape(insts@, i + 1, n) && !insts_let_escape(insts@, i as int, n) {
                        let w = choose|w: int| 0 <= w < i + 1 && #[trigger] inst_lets_escape(insts@[w], n);
                        assert(w == i);
                    }
                    if insts_let_escape(insts@, i as int, n) {
                        let w = choose|w: int| 0 <= w < i && #[trigger] inst_lets_escape(insts@[w], n);
                        assert(insts_let_escape(insts@, i + 1, n));
                    }
                }
                i = i + 1;
            }
            assert forall|n: Seq<char>|
                names_contain(escaped@, n) <==> (struct_initialised(blocks@, n) && blocks_let_escape(
                    blocks@,
                    j + 1,
                    n,
                )) by {
                assert(names_contain(before, n) <==> (struct_initialised(blocks@, n) && blocks_let_escape(
                    blocks@,
                    j as int,
                    n,
                )));
                assert(names_contain(after_return, n) <==> (names_contain(before, n) || (block_returns(
                    blocks@[j as int],
                    n,
                ) && struct_initialised(blocks@, n))));
                assert(names_contain(escaped@, n) <==> (names_contain(after_return, n) || (struct_initialised(
                    blocks@,
                    n,
                ) && insts_let_escape(insts@, insts@.len() as int, n))));
                let here = block_returns(blocks@[j as int], n) || insts_let_escape(
                    blocks@[j as int].instructions@,
                    blocks@[j as int].instructions@.len() as int,
                    n,
                );
                if here {
                    assert(blocks_let_escape(blocks@, j + 1, n));
                }
                if blocks_let_escape(blocks@, j as int, n) {
                    let w = choose|w: int|
                        0 <= w < j && (block_returns(#[trigger] blocks@[w], n) || insts_let_escape(
                            blocks@[w].instructions@,
                            blocks@[w].instructions@.len() as int,
                            n,
                        ));
                    assert(blocks_let_escape(blocks@, j + 1, n));
                }
                if blocks_let_escape(blocks@, j + 1, n) && !blocks_let_escape(blocks@, j as int, n) {
                    let w = choose|w: int|
                        0 <= w < j + 1 && (block_returns(#[trigger] blocks@[w], n) || insts_let_escape(
                            blocks@[w].instructions@,
                            blocks@[w].instructions@.len() as int,
                            n,
                        ));
                    assert(w == j);
                }
            }
            j = j + 1;
        }
        escaped
    }

    /// Adds the struct values that one instruction lets escape.
    fn note_inst_escapes(&self, escaped: &mut Vec<String>, func: &MirFunction, inst: &MirInst)
        requires
            distinct_names(old(escaped)@),
        ensures
            distinct_names(final(escaped)@),
            forall|n: Seq<char>|
                #[trigger] names_contain(final(escaped)@, n) <==> (names_contain(old(escaped)@, n) || (struct_initialised(
                    func.blocks@,
                    n,
                ) && inst_lets_escape(*inst, n))),
    {
        match inst {
            MirInst::Call { args, .. } => {
                let mut k: usize = 0;
                while k < args.len()
                    invariant
                        k <= args@.len(),
                        distinct_names(escaped@),
                        forall|n: Seq<char>|
                            names_contain(escaped@, n) <==> (names_contain(old(escaped)@, n) || (struct_initialised(
                                func.blocks@,
                                n,
                            ) && exists|kk: int| 0 <= kk < k && #[trigger] is_place_named(args@[kk], n))),
                    decreases args.len() - k,
                {
                    if let Operand::Place(p) = &args[k] {
                        note_escape(escaped, func, p.name.as_str());
                    }
                    assert forall|n: Seq<char>|
                        names_contain(escaped@, n) <==> (names_contain(old(escaped)@, n) || (struct_initialised(
                            func.blocks@,
                            n,
                        ) && exists|kk: int| 0 <= kk < k + 1 && #[trigger] is_place_named(args@[kk], n))) by {
                        if is_place_named(args@[k as int], n) {
                            assert(exists|kk: int| 0 <= kk < k + 1 && #[trigger] is_place_named(args@[kk], n));
                        }
                    }
                    k = k + 1;
                }
            },
            MirInst::Copy { src, .. } => {
                note_escape(escaped, func, src.name.as_str());
            },
            MirInst::Phi { values, .. } => {
                let mut k: usize = 0;
                while k < values.len()
                    invariant
                        k <= values@.len(),
                        distinct_names(escaped@),
                        forall|n: Seq<char>|
                            names_contain(escaped@, n) <==> (names_contain(old(escaped)@, n) || (struct_initialised(
                                func.blocks@,
                                n,
                            ) && exists|kk: int| 0 <= kk < k && #[trigger] is_place_named(values@[kk].0, n))),
                    decreases values.len() - k,
                {
                    if let Operand::Place(p) = &values[k].0 {
                        note_escape(escaped, func, p.name.as_str());
                    }
                    assert forall|n: Seq<char>|
                        names_contain(escaped@, n) <==> (names_contain(old(escaped)@, n) || (struct_initialised(
                            func.blocks@,
                            n,
                        ) && exists|kk: int| 0 <= kk < k + 1 && #[trigger] is_place_named(values@[kk].0, n))) by {
                        if is_place_named(values@[k as int].0, n) {
                            assert(exists|kk: int| 0 <= kk < k + 1 && #[trigger] is_place_named(values@[kk].0, n));
                        }
                    }
                    k = k + 1;
                }
            },
            _ => {},
        }
    }
}

} // verus!
