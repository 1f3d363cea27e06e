//! Whether a struct built in a function is returned from it, directly or
//! through phi nodes: such a struct of three or more fields is built in
//! the caller's return slot.
//!
//! The search follows phi nodes backwards from the returned places, and
//! visits each name at most once over the whole search.

use vstd::prelude::*;

use crate::codegen::analysis::{is_place_named, phi_values_hold, returns_place};
use crate::codegen::names::{contains_name, names_contain};
use crate::codegen::llvm_text::TextCodeGen;
use crate::mir::{BasicBlock, MirFunction, MirInst, Operand, Terminator};
use crate::text::str_eq;

verus! {

/// The destinations of the phi nodes among the first `k` instructions.
pub open spec fn phi_dests_in(insts: Seq<MirInst>, k: int) -> Seq<Seq<char>>
    decreases k,
{
    if k <= 0 {
        Seq::empty()
    } else {
        let rest = phi_dests_in(insts, k - 1);
        match insts[k - 1] {
            MirInst::Phi { dest, .. } => rest.push(dest.name@),
            _ => rest,
        }
    }
}

/// The destinations of the phi nodes of the first `n` blocks.
pub open spec fn phi_dests_of_blocks(blocks: Seq<BasicBlock>, n: int) -> Seq<Seq<char>>
    decreases n,
{
    if n <= 0 {
        Seq::empty()
    } else {
        phi_dests_of_blocks(blocks, n - 1) + phi_dests_in(
            blocks[n - 1].instructions@,
            blocks[n - 1].instructions@.len() as int,
        )
    }
}

/// The names a search for `name` can visit: `name` and the destinations
/// of the function's phi nodes.
pub open spec fn search_names(func: MirFunction, name: Seq<char>) -> Set<Seq<char>> {
    phi_dests_of_blocks(func.blocks@, func.blocks@.len() as int).to_set().insert(name)
}

/// Whether some phi value is the place `name`.
pub open spec fn phi_takes(values: Seq<(Operand, String)>, name: Seq<char>) -> bool {
    exists|i: int| 0 <= i < values.len() && #[trigger] is_place_named(values[i].0, name)
}

/// Whether `name` flows to a return of the function, searching from the
/// names visited so far (`visited`, among the names `u`). Gives the answer
/// and the names visited after the search.
pub open spec fn ret_inner(
    func: MirFunction,
    u: Set<Seq<char>>,
    name: Seq<char>,
    visited: Set<Seq<char>>,
) -> (bool, Set<Seq<char>>)
    decreases u.difference(visited).len(), 0nat, 0nat, 0nat,
{
    if !u.finite() || visited.contains(name) || !u.contains(name) {
        (false, visited)
    } else {
        proof {
            lemma_visit_shrinks(u, visited, name);
        }
        ret_scan(func, u, name, visited.insert(name), 0, 0)
    }
}

/// The search for `name` from instruction `k` of block `b` on: a block
/// returning `name` ends it; so does a phi node taking `name` whose
/// destination flows to a return.
pub open spec fn ret_scan(
    func: MirFunction,
    u: Set<Seq<char>>,
    name: Seq<char>,
    visited: Set<Seq<char>>,
    b: nat,
    k: nat,
) -> (bool, Set<Seq<char>>)
    decreases u.difference(visited).len(), 1nat, func.blocks@.len() - b, (if b < func.blocks@.len() {
        func.blocks@[b as int].instructions@.len() as int
    } else {
        0
    }) - k,
{
    if !u.finite() || b >= func.blocks@.len() {
        (false, visited)
    } else {
        let block = func.blocks@[b as int];
        if k == 0 && returns_place(block.terminator, name) {
            (true, visited)
        } else if k >= block.instructions@.len() {
            ret_scan(func, u, name, visited, b + 1, 0)
        } else {
            match block.instructions@[k as int] {
                MirInst::Phi { dest, values } => {
                    let (r, v2) = ret_inner(func, u, dest.name@, visited);
                    let w = v2.union(visited);
                    proof {
                        lemma_union_shrinks(u, visited, v2);
                    }
                    if r && phi_takes(values@, name) {
                        (true, w)
                    } else {
                        ret_scan(func, u, name, w, b, k + 1)
                    }
                },
                _ => ret_scan(func, u, name, visited, b, k + 1),
            }
        }
    }
}

/// Visiting one more name of `u` leaves fewer names of `u` to visit.
pub proof fn lemma_visit_shrinks(u: Set<Seq<char>>, visited: Set<Seq<char>>, name: Seq<char>)
    requires
        u.finite(),
        u.contains(name),
        !visited.contains(name),
    ensures
        u.difference(visited.insert(name)).len() < u.difference(visited).len(),
{
    broadcast use vstd::set::group_set_axioms;
    assert(u.difference(visited.insert(name)) =~= u.difference(visited).remove(name));
}

/// Visiting more names leaves no more names of `u` to visit.
pub proof fn lemma_union_shrinks(u: Set<Seq<char>>, visited: Set<Seq<char>>, more: Set<Seq<char>>)
    requires
        u.finite(),
    ensures
        u.difference(more.union(visited)).len() <= u.difference(visited).len(),
{
    broadcast use vstd::set::group_set_axioms;
    vstd::set_lib::lemma_len_subset(u.difference(more.union(visited)), u.difference(visited));
}

/// Visiting never forgets a name.
pub proof fn lemma_inner_grows(func: MirFunction, u: Set<Seq<char>>, name: Seq<char>, visited: Set<Seq<char>>)
    ensures
        visited.subset_of(ret_inner(func, u, name, visited).1),
    decreases u.difference(visited).len(), 0nat, 0nat, 0nat,
{
    if !u.finite() || visited.contains(name) || !u.contains(name) {
    } else {
        lemma_visit_shrinks(u, visited, name);
        lemma_scan_grows(func, u, name, visited.insert(name), 0, 0);
    }
}

/// Scanning never forgets a name.
pub proof fn lemma_scan_grows(
    func: MirFunction,
    u: Set<Seq<char>>,
    name: Seq<char>,
    visited: Set<Seq<char>>,
    b: nat,
    k: nat,
)
    ensures
        visited.subset_of(ret_scan(func, u, name, visited, b, k).1),
    decreases u.difference(visited).len(), 1nat, func.blocks@.len() - b, (if b < func.blocks@.len() {
        func.blocks@[b as int].instructions@.len() as int
    } else {
        0
    }) - k,
{
    if !u.finite() || b >= func.blocks@.len() {
    } else {
        let block = func.blocks@[b as int];
        if k == 0 && returns_place(block.terminator, name) {
        } else if k >= block.instructions@.len() {
            lemma_scan_grows(func, u, name, visited, b + 1, 0);
        } else {
            match block.instructions@[k as int] {
                MirInst::Phi { dest, values } => {
                    let (r, v2) = ret_inner(func, u, dest.name@, visited);
                    lemma_inner_grows(func, u, dest.name@, visited);
                    lemma_union_shrinks(u, visited, v2);
                    if !(r && phi_takes(values@, name)) {
                        lemma_scan_grows(func, u, name, v2.union(visited), b, k + 1);
                    }
                },
                _ => {
                    lemma_scan_grows(func, u, name, visited, b, k + 1);
                },
            }
        }
    }
}

/// The destination of a phi node among the first `n` instructions is
/// listed.
proof fn lemma_phi_dest_in(insts: Seq<MirInst>, n: int, k: int)
    requires
        0 <= k < n <= insts.len(),
        insts[k] is Phi,
    ensures
        phi_dests_in(insts, n).contains(insts[k]->Phi_dest.name@),
    decreases n,
{
    if n == k + 1 {
        let rest = phi_dests_in(insts, k);
        assert(phi_dests_in(insts, n) == rest.push(insts[k]->Phi_dest.name@));
        assert(phi_dests_in(insts, n)[rest.len() as int] == insts[k]->Phi_dest.name@);
    } else {
        lemma_phi_dest_in(insts, n - 1, k);
        let prev = phi_dests_in(insts, n - 1);
        let j = choose|j: int| 0 <= j < prev.len() && prev[j] == insts[k]->Phi_dest.name@;
        match insts[n - 1] {
            MirInst::Phi { dest, .. } => {
                assert(phi_dests_in(insts, n)[j] == prev[j]);
            },
            _ => {},
        }
    }
}

/// The destination of a phi node of one of the first `n` blocks is
/// listed.
proof fn lemma_phi_dest_of_blocks(blocks: Seq<BasicBlock>, n: int, b: int, k: int)
    requires
        0 <= b < n <= blocks.len(),
        0 <= k < blocks[b].instructions@.len(),
        blocks[b].instructions@[k] is Phi,
    ensures
        phi_dests_of_blocks(blocks, n).contains(blocks[b].instructions@[k]->Phi_dest.name@),
    decreases n,
{
    let d = blocks[b].instructions@[k]->Phi_dest.name@;
    let prev = phi_dests_of_blocks(blocks, n - 1);
    let last = phi_dests_in(blocks[n - 1].instructions@, blocks[n - 1].instructions@.len() as int);
    if b == n - 1 {
        lemma_phi_dest_in(blocks[b].instructions@, blocks[b].instructions@.len() as int, k);
        let j = choose|j: int| 0 <= j < last.len() && last[j] == d;
        assert((prev + last)[prev.len() + j] == d);
    } else {
        lemma_phi_dest_of_blocks(blocks, n - 1, b, k);
        let j = choose|j: int| 0 <= j < prev.len() && prev[j] == d;
        assert((prev + last)[j] == d);
    }
}

/// Whether every phi destination of the function is among `u`.
pub open spec fn holds_phi_dests(func: MirFunction, u: Set<Seq<char>>) -> bool {
    forall|b: int, k: int|
        0 <= b < func.blocks@.len() && 0 <= k < func.blocks@[b].instructions@.len()
            && (#[trigger] func.blocks@[b].instructions@[k]) is Phi ==> u.contains(
            func.blocks@[b].instructions@[k]->Phi_dest.name@,
        )
}

/// The names a search can visit are finite, hold the name searched for
/// and every phi destination.
proof fn lemma_search_names(func: MirFunction, name: Seq<char>)
    ensures
        search_names(func, name).finite(),
        search_names(func, name).contains(name),
        holds_phi_dests(func, search_names(func, name)),
{
    broadcast use vstd::set::group_set_axioms;
    broadcast use vstd::seq_lib::seq_to_set_is_finite;

    let ds = phi_dests_of_blocks(func.blocks@, func.blocks@.len() as int);
    assert forall|b: int, k: int|
        0 <= b < func.blocks@.len() && 0 <= k < func.blocks@[b].instructions@.len()
            && (#[trigger] func.blocks@[b].instructions@[k]) is Phi implies search_names(func, name).contains(
        func.blocks@[b].instructions@[k]->Phi_dest.name@,
    ) by {
        lemma_phi_dest_of_blocks(func.blocks@, func.blocks@.len() as int, b, k);
    }
}

/// Whether the struct held in `name` is returned from the function,
/// directly or through phi nodes.
pub open spec fn struct_returned(func: MirFunction, name: Seq<char>) -> bool {
    ret_inner(func, search_names(func, name), name, Set::empty()).0
}

/// The names held by a list, as a set.
pub open spec fn names_set(v: Seq<String>) -> Set<Seq<char>> {
    Set::new(|k: Seq<char>| names_contain(v, k))
}

/// Adding a name to a list adds it to its set.
proof fn lemma_names_push(v: Seq<String>, x: String)
    ensures
        names_set(v.push(x)) == names_set(v).insert(x@),
{
    assert forall|k: Seq<char>| #[trigger] names_set(v.push(x)).contains(k) == names_set(v).insert(x@).contains(k) by {
        if names_contain(v, k) {
            let i = choose|i: int| 0 <= i < v.len() && #[trigger] v[i]@ == k;
            assert(v.push(x)[i]@ == k);
        }
        if k == x@ {
            assert(v.push(x)[v.len() as int]@ == k);
        }
        if names_contain(v.push(x), k) {
            let i = choose|i: int| 0 <= i < v.push(x).len() && #[trigger] v.push(x)[i]@ == k;
            if i < v.len() {
                assert(v[i]@ == k);
            }
        }
    }
    assert(names_set(v.push(x)) =~= names_set(v).insert(x@));
}

impl TextCodeGen {
    /// Whether `name` flows to a return, searching from the names visited
    /// so far (the search's names are among `u`).
    fn is_struct_returned_inner(
        &self,
        func: &MirFunction,
        name: &str,
        visited: &mut Vec<String>,
        names: Ghost<Set<Seq<char>>>,
    ) -> (r: bool)
        requires
            names@.finite(),
            names@.contains(name@),
            holds_phi_dests(*func, names@),
        ensures
            (r, names_set(final(visited)@)) == ret_inner(*func, names@, name@, names_set(old(visited)@)),
        decreases names@.difference(names_set(old(visited)@)).len(),
    {
        let ghost u = names@;
        if contains_name(visited, name) {
            assert(names_set(visited@).contains(name@));
            return false;
        }
        let ghost v0 = names_set(visited@);
        let ghost prev = visited@;
        let owned = name.to_owned();
        visited.push(owned);
        proof {
            lemma_names_push(prev, visited@.last());
            assert(prev.push(visited@.last()) == visited@);
            lemma_visit_shrinks(u, v0, name@);
        }
        assert(names_set(visited@) == v0.insert(name@));
        let mut b: usize = 0;
        while b < func.blocks.len()
            invariant
                b <= func.blocks@.len(),
                u.finite(),
                holds_phi_dests(*func, u),
                u.contains(name@),
                !v0.contains(name@),
                v0 == names_set(old(visited)@),
                u == names@,
                v0.insert(name@).subset_of(names_set(visited@)),
                u.difference(v0.insert(name@)).len() < u.difference(v0).len(),
                ret_inner(*func, u, name@, v0) == ret_scan(*func, u, name@, names_set(visited@), b as nat, 0),
            decreases func.blocks.len() - b,
        {
            let block = &func.blocks[b];
            match &block.terminator {
                Terminator::Return(Some(Operand::Place(p))) => {
                    if str_eq(p.name.as_str(), name) {
                        assert(returns_place(func.blocks@[b as int].terminator, name@));
                        assert(ret_scan(*func, u, name@, names_set(visited@), b as nat, 0) == (true, names_set(visited@)));
                        return true;
                    }
                },
                _ => {},
            }
            let mut k: usize = 0;
            while k < block.instructions.len()
                invariant
                    b < func.blocks@.len(),
                    *block == func.blocks@[b as int],
                    k <= block.instructions@.len(),
                    u.finite(),
                    holds_phi_dests(*func, u),
                    u.contains(name@),
                    !v0.contains(name@),
                    v0 == names_set(old(visited)@),
                    u == names@,
                    v0.insert(name@).subset_of(names_set(visited@)),
                    u.difference(v0.insert(name@)).len() < u.difference(v0).len(),
                    !returns_place(block.terminator, name@),
                    ret_inner(*func, u, name@, v0) == ret_scan(*func, u, name@, names_set(visited@), b as nat, k as nat),
                decreases block.instructions.len() - k,
            {
                match &block.instructions[k] {
                    MirInst::Phi { dest, values } => {
                        let ghost vb = names_set(visited@);
                        proof {
                            broadcast use vstd::set::group_set_axioms;
                            assert(block.instructions@[k as int] is Phi);
                            assert(func.blocks@[b as int].instructions@[k as int] == block.instructions@[k as int]);
                            assert(u.difference(vb).subset_of(u.difference(v0.insert(name@))));
                            vstd::set_lib::lemma_len_subset(u.difference(vb), u.difference(v0.insert(name@)));
                        }
                        let r = self.is_struct_returned_inner(func, dest.name.as_str(), visited, Ghost(u));
                        proof {
                            lemma_inner_grows(*func, u, dest.name@, vb);
                            assert(names_set(visited@).union(vb) =~= names_set(visited@));
                        }
                        if r && phi_values_hold(values, name) {
                            assert(phi_takes(values@, name@));
                            return true;
                        }
                    },
                    _ => {},
                }
                k = k + 1;
            }
            b = b + 1;
        }
        false
    }

    /// Whether the struct held in `struct_name` is returned from the
    /// function, directly or through phi nodes.
    pub fn is_struct_returned(&self, func: &MirFunction, struct_name: &str) -> (r: bool)
        ensures
            r == struct_returned(*func, struct_name@),
    {
        let mut visited: Vec<String> = Vec::new();
        proof {
            lemma_search_names(*func, struct_name@);
        }
        assert(names_set(visited@) =~= Set::<Seq<char>>::empty());
        self.is_struct_returned_inner(func, struct_name, &mut visited, Ghost(search_names(*func, struct_name@)))
    }
}

} // verus!
