//! What the code generator works out about a function before emitting it:
//! which places hold tuples, which locals live in stack slots, and which
//! phi values need loads, string temporaries or widening in their
//! predecessor blocks.

use crate::codegen::aggregates::tuple_init_type;
use vstd::prelude::*;

use crate::codegen::instructions::{Coercion, PhiEntry, ProgramInfo};
use crate::codegen::llvm_text::{constant_llvm_type, llvm_type, type_named, TextCodeGen};
use crate::codegen::names::{contains_name, names_contain, type_map, NameMap};
use crate::mir::{BasicBlock, Constant, MirFunction, MirInst, MirType, Operand, Terminator};
use crate::text::{append_u64, dec_nat, push_str, str_eq};

verus! {

/// The strings of a map of strings, by name.
pub open spec fn string_map(m: NameMap<String>) -> Map<Seq<char>, Seq<char>> {
    Map::new(|k: Seq<char>| m.lookup(k) is Some, |k: Seq<char>| m.lookup(k)->0@)
}

/// Storing `v` for `k` in a map of strings.
pub fn insert_string(m: &mut NameMap<String>, k: &str, v: &str)
    ensures
        string_map(*final(m)) == string_map(*old(m)).insert(k@, v@),
{
    m.insert(k, v.to_owned());
    assert(string_map(*m) =~= string_map(*old(m)).insert(k@, v@));
}

/// The tuple types known after one instruction is seen: the destination of
/// a call of a tuple-returning function holds that function's tuple type,
/// and a tuple built from elements the aggregate of their types.
pub open spec fn tuple_seed_inst(m: Map<Seq<char>, Seq<char>>, inst: MirInst, prog: ProgramInfo) -> Map<Seq<char>, Seq<char>> {
    match inst {
        MirInst::Call { dest: Some(d), func: callee, .. } => match prog.tuple_functions.lookup(callee@) {
            Some(tt) => m.insert(d.name@, tt@),
            None => m,
        },
        MirInst::TupleInit { dest, elements } => m.insert(dest.name@, tuple_init_type(elements@)),
        _ => m,
    }
}

/// The tuple types known after the first `n` instructions are seen.
pub open spec fn tuple_seed_insts(m: Map<Seq<char>, Seq<char>>, insts: Seq<MirInst>, n: int, prog: ProgramInfo) -> Map<Seq<char>, Seq<char>>
    decreases n,
{
    if n <= 0 {
        m
    } else {
        tuple_seed_inst(tuple_seed_insts(m, insts, n - 1, prog), insts[n - 1], prog)
    }
}

/// The tuple types known after the first `n` blocks are seen.
pub open spec fn tuple_seed_blocks(m: Map<Seq<char>, Seq<char>>, blocks: Seq<BasicBlock>, n: int, prog: ProgramInfo) -> Map<Seq<char>, Seq<char>>
    decreases n,
{
    if n <= 0 {
        m
    } else {
        let b = blocks[n - 1];
        tuple_seed_insts(tuple_seed_blocks(m, blocks, n - 1, prog), b.instructions@, b.instructions@.len() as int, prog)
    }
}

/// The tuple type of the first phi value known to hold a tuple.
pub open spec fn first_known_tuple(m: Map<Seq<char>, Seq<char>>, values: Seq<(Operand, String)>) -> Option<Seq<char>>
    decreases values.len(),
{
    if values.len() == 0 {
        None
    } else {
        match values[0].0 {
            Operand::Place(p) => if m.contains_key(p.name@) {
                Some(m[p.name@])
            } else {
                first_known_tuple(m, values.drop_first())
            },
            _ => first_known_tuple(m, values.drop_first()),
        }
    }
}

/// The tuple types known after one instruction passes them on (a copy
/// from, or a phi of, a tuple), and whether it added one.
pub open spec fn tuple_step_inst(m: Map<Seq<char>, Seq<char>>, inst: MirInst) -> (Map<Seq<char>, Seq<char>>, bool) {
    match inst {
        MirInst::Copy { dest, src } => if !m.contains_key(dest.name@) && m.contains_key(src.name@) {
            (m.insert(dest.name@, m[src.name@]), true)
        } else {
            (m, false)
        },
        MirInst::Phi { dest, values } => if !m.contains_key(dest.name@) {
            match first_known_tuple(m, values@) {
                Some(t) => (m.insert(dest.name@, t), true),
                None => (m, false),
            }
        } else {
            (m, false)
        },
        _ => (m, false),
    }
}

/// One pass of passing tuple types on over the first `n` instructions.
pub open spec fn tuple_step_insts(m: Map<Seq<char>, Seq<char>>, insts: Seq<MirInst>, n: int) -> (Map<Seq<char>, Seq<char>>, bool)
    decreases n,
{
    if n <= 0 {
        (m, false)
    } else {
        let (m1, c1) = tuple_step_insts(m, insts, n - 1);
        let (m2, c2) = tuple_step_inst(m1, insts[n - 1]);
        (m2, c1 || c2)
    }
}

/// One pass of passing tuple types on over the first `n` blocks.
pub open spec fn tuple_step_blocks(m: Map<Seq<char>, Seq<char>>, blocks: Seq<BasicBlock>, n: int) -> (Map<Seq<char>, Seq<char>>, bool)
    decreases n,
{
    if n <= 0 {
        (m, false)
    } else {
        let (m1, c1) = tuple_step_blocks(m, blocks, n - 1);
        let b = blocks[n - 1];
        let (m2, c2) = tuple_step_insts(m1, b.instructions@, b.instructions@.len() as int);
        (m2, c1 || c2)
    }
}

/// Passing tuple types on, pass after pass, until a pass adds none or `k`
/// passes are made.
pub open spec fn tuple_fix(m: Map<Seq<char>, Seq<char>>, blocks: Seq<BasicBlock>, k: nat) -> Map<Seq<char>, Seq<char>>
    decreases k,
{
    if k == 0 {
        m
    } else {
        let (m1, changed) = tuple_step_blocks(m, blocks, blocks.len() as int);
        if changed {
            tuple_fix(m1, blocks, (k - 1) as nat)
        } else {
            m1
        }
    }
}

/// The tuple type of each place of a function that holds a tuple: call
/// results of tuple-returning functions, passed on through copies and phi
/// nodes in at most ten passes.
pub open spec fn tuple_vars_of(func: MirFunction, prog: ProgramInfo) -> Map<Seq<char>, Seq<char>> {
    tuple_fix(
        tuple_seed_blocks(Map::empty(), func.blocks@, func.blocks@.len() as int, prog),
        func.blocks@,
        10,
    )
}

/// Whether an instruction is a phi node into `name`.
pub open spec fn is_phi_into(inst: MirInst, name: Seq<char>) -> bool {
    inst matches MirInst::Phi { dest, .. } && dest.name@ == name
}

/// Whether one of the first `n` instructions is a phi node into `name`.
pub open spec fn phi_into_within(insts: Seq<MirInst>, n: int, name: Seq<char>) -> bool {
    exists|i: int| 0 <= i < n && #[trigger] is_phi_into(insts[i], name)
}

/// Whether a phi node of one of the first `n` blocks goes into `name`.
pub open spec fn phi_into_blocks(blocks: Seq<BasicBlock>, n: int, name: Seq<char>) -> bool {
    exists|b: int|
        0 <= b < n && #[trigger] phi_into_within(blocks[b].instructions@, blocks[b].instructions@.len() as int, name)
}

/// Whether a name is the destination of a phi node of the function.
pub open spec fn is_phi_dest(func: MirFunction, name: Seq<char>) -> bool {
    phi_into_blocks(func.blocks@, func.blocks@.len() as int, name)
}

/// Whether the local declared at position `i` is named `name` and gets a
/// stack slot: its type is not `void` nor an array, and it is no phi
/// destination.
pub open spec fn slot_local_at(func: MirFunction, i: int, name: Seq<char>) -> bool {
    func.locals@[i].0@ == name && llvm_type(func.locals@[i].1) != "void"@ && !(func.locals@[i].1 is Array)
        && !is_phi_dest(func, name)
}

/// Whether one of the first `n` locals is named `name` and gets a slot.
pub open spec fn slot_local_within(func: MirFunction, n: int, name: Seq<char>) -> bool {
    exists|i: int| 0 <= i < n && #[trigger] slot_local_at(func, i, name)
}

/// Whether a local gets a stack slot.
pub open spec fn is_slot_local(func: MirFunction, name: Seq<char>) -> bool {
    slot_local_within(func, func.locals@.len() as int, name)
}

/// The tuple type of the first phi value known to hold a tuple.
fn first_known_tuple_exec(m: &NameMap<String>, values: &Vec<(Operand, String)>) -> (r: Option<String>)
    ensures
        match r {
            Some(t) => first_known_tuple(string_map(*m), values@) == Some(t@),
            None => first_known_tuple(string_map(*m), values@) is None,
        },
{
    let mut i: usize = 0;
    assert(values@.subrange(0, values@.len() as int) =~= values@);
    while i < values.len()
        invariant
            i <= values.len(),
            first_known_tuple(string_map(*m), values@) == first_known_tuple(
                string_map(*m),
                values@.subrange(i as int, values@.len() as int),
            ),
        decreases values.len() - i,
    {
        assert(values@.subrange(i as int, values@.len() as int).drop_first()
            =~= values@.subrange(i + 1, values@.len() as int));
        assert(values@.subrange(i as int, values@.len() as int)[0] == values@[i as int]);
        match &values[i].0 {
            Operand::Place(p) => match m.get(p.name.as_str()) {
                Some(t) => {
                    return Some(t.as_str().to_owned());
                },
                None => {},
            },
            _ => {},
        }
        i = i + 1;
    }
    None
}

/// The key and data of a phi entry, as text.
pub open spec fn string_entry_view(e: PhiEntry<String>) -> (Seq<char>, Seq<char>, Seq<char>, Seq<char>) {
    (e.block@, e.value@, e.pred@, e.data@)
}

/// The key and data of a phi widening, as text.
pub open spec fn coercion_entry_view(e: PhiEntry<Coercion>) -> (Seq<char>, Seq<char>, Seq<char>, (Seq<char>, Seq<char>, Seq<char>)) {
    (e.block@, e.value@, e.pred@, (e.data.temp@, e.data.from_ty@, e.data.to_ty@))
}

/// Phi entries with string data, as text.
pub open spec fn string_entries(s: Seq<PhiEntry<String>>) -> Seq<(Seq<char>, Seq<char>, Seq<char>, Seq<char>)> {
    s.map_values(|e: PhiEntry<String>| string_entry_view(e))
}

/// Phi widenings, as text.
pub open spec fn coercion_entries(s: Seq<PhiEntry<Coercion>>) -> Seq<(Seq<char>, Seq<char>, Seq<char>, (Seq<char>, Seq<char>, Seq<char>))> {
    s.map_values(|e: PhiEntry<Coercion>| coercion_entry_view(e))
}

/// Whether entry `i` has the key `(b, v, p)`.
pub open spec fn key_at<D>(s: Seq<(Seq<char>, Seq<char>, Seq<char>, D)>, i: int, b: Seq<char>, v: Seq<char>, p: Seq<char>) -> bool {
    s[i].0 == b && s[i].1 == v && s[i].2 == p
}

/// Whether some entry has the key `(b, v, p)`.
pub open spec fn has_key<D>(s: Seq<(Seq<char>, Seq<char>, Seq<char>, D)>, b: Seq<char>, v: Seq<char>, p: Seq<char>) -> bool {
    exists|i: int| 0 <= i < s.len() && #[trigger] key_at(s, i, b, v, p)
}

/// The position of the first entry with the key `(b, v, p)`.
pub open spec fn first_key<D>(s: Seq<(Seq<char>, Seq<char>, Seq<char>, D)>, b: Seq<char>, v: Seq<char>, p: Seq<char>) -> int {
    choose|i: int| 0 <= i < s.len() && key_at(s, i, b, v, p) && forall|j: int| 0 <= j < i ==> !#[trigger] key_at(s, j, b, v, p)
}

/// Adding an entry unless its key is there already.
pub open spec fn put_if_absent<D>(s: Seq<(Seq<char>, Seq<char>, Seq<char>, D)>, e: (Seq<char>, Seq<char>, Seq<char>, D)) -> Seq<(Seq<char>, Seq<char>, Seq<char>, D)> {
    if has_key(s, e.0, e.1, e.2) {
        s
    } else {
        s.push(e)
    }
}

/// Adding an entry, replacing the entry with its key if there is one.
pub open spec fn put_replace<D>(s: Seq<(Seq<char>, Seq<char>, Seq<char>, D)>, e: (Seq<char>, Seq<char>, Seq<char>, D)) -> Seq<(Seq<char>, Seq<char>, Seq<char>, D)> {
    if has_key(s, e.0, e.1, e.2) {
        s.update(first_key(s, e.0, e.1, e.2), e)
    } else {
        s.push(e)
    }
}

/// The phi loads after the first `n` values of a phi node in the block
/// `label`: a load of each declared local that is no phi destination,
/// once per predecessor.
pub open spec fn phi_loads_values(
    s: Seq<(Seq<char>, Seq<char>, Seq<char>, Seq<char>)>,
    func: MirFunction,
    label: Seq<char>,
    values: Seq<(Operand, String)>,
    n: int,
) -> Seq<(Seq<char>, Seq<char>, Seq<char>, Seq<char>)>
    decreases n,
{
    if n <= 0 {
        s
    } else {
        let s1 = phi_loads_values(s, func, label, values, n - 1);
        let pred = values[n - 1].1@;
        match values[n - 1].0 {
            Operand::Place(p) => if type_named(func.locals@, p.name@) is Some && !is_phi_dest(func, p.name@) {
                put_if_absent(s1, (label, p.name@, pred, p.name@ + ".phi."@ + pred))
            } else {
                s1
            },
            _ => s1,
        }
    }
}

/// The phi loads after the first `n` instructions of the block `label`.
pub open spec fn phi_loads_insts(
    s: Seq<(Seq<char>, Seq<char>, Seq<char>, Seq<char>)>,
    func: MirFunction,
    label: Seq<char>,
    insts: Seq<MirInst>,
    n: int,
) -> Seq<(Seq<char>, Seq<char>, Seq<char>, Seq<char>)>
    decreases n,
{
    if n <= 0 {
        s
    } else {
        let s1 = phi_loads_insts(s, func, label, insts, n - 1);
        match insts[n - 1] {
            MirInst::Phi { values, .. } => phi_loads_values(s1, func, label, values@, values@.len() as int),
            _ => s1,
        }
    }
}

/// The phi loads after the first `n` blocks.
pub open spec fn phi_loads_blocks(
    s: Seq<(Seq<char>, Seq<char>, Seq<char>, Seq<char>)>,
    func: MirFunction,
    n: int,
) -> Seq<(Seq<char>, Seq<char>, Seq<char>, Seq<char>)>
    decreases n,
{
    if n <= 0 {
        s
    } else {
        let b = func.blocks@[n - 1];
        phi_loads_insts(phi_loads_blocks(s, func, n - 1), func, b.label@, b.instructions@, b.instructions@.len() as int)
    }
}

/// The loads of locals that phi nodes read from their predecessors:
/// `(phi block, local, predecessor, temporary)` in order of first use.
pub open spec fn phi_loads_of(func: MirFunction) -> Seq<(Seq<char>, Seq<char>, Seq<char>, Seq<char>)> {
    phi_loads_blocks(Seq::empty(), func, func.blocks@.len() as int)
}

/// The next value of a 32-bit counter, wrapping around.
pub open spec fn next_u32(k: u32) -> u32 {
    ((k as int + 1) % 0x1_0000_0000) as u32
}

/// The phi string temporaries (and the counter) after the first `n`
/// values of a phi node in the block `label`: one per string constant and
/// predecessor, numbered in order.
pub open spec fn phi_strings_values(
    st: (Seq<(Seq<char>, Seq<char>, Seq<char>, Seq<char>)>, u32),
    label: Seq<char>,
    values: Seq<(Operand, String)>,
    n: int,
) -> (Seq<(Seq<char>, Seq<char>, Seq<char>, Seq<char>)>, u32)
    decreases n,
{
    if n <= 0 {
        st
    } else {
        let (s1, k) = phi_strings_values(st, label, values, n - 1);
        let pred = values[n - 1].1@;
        match values[n - 1].0 {
            Operand::Constant(Constant::String(str)) => if has_key(s1, label, str@, pred) {
                (s1, k)
            } else {
                (s1.push((label, str@, pred, "_str_phi_"@ + dec_nat(k as nat))), next_u32(k))
            },
            _ => (s1, k),
        }
    }
}

/// The phi string temporaries after the first `n` instructions of the
/// block `label`.
pub open spec fn phi_strings_insts(
    st: (Seq<(Seq<char>, Seq<char>, Seq<char>, Seq<char>)>, u32),
    label: Seq<char>,
    insts: Seq<MirInst>,
    n: int,
) -> (Seq<(Seq<char>, Seq<char>, Seq<char>, Seq<char>)>, u32)
    decreases n,
{
    if n <= 0 {
        st
    } else {
        let st1 = phi_strings_insts(st, label, insts, n - 1);
        match insts[n - 1] {
            MirInst::Phi { values, .. } => phi_strings_values(st1, label, values@, values@.len() as int),
            _ => st1,
        }
    }
}

/// The phi string temporaries after the first `n` blocks.
pub open spec fn phi_strings_blocks(
    st: (Seq<(Seq<char>, Seq<char>, Seq<char>, Seq<char>)>, u32),
    func: MirFunction,
    n: int,
) -> (Seq<(Seq<char>, Seq<char>, Seq<char>, Seq<char>)>, u32)
    decreases n,
{
    if n <= 0 {
        st
    } else {
        let b = func.blocks@[n - 1];
        phi_strings_insts(phi_strings_blocks(st, func, n - 1), b.label@, b.instructions@, b.instructions@.len() as int)
    }
}

/// The temporaries holding string constants that phi nodes read:
/// `(phi block, string, predecessor, temporary)` in order of first use.
pub open spec fn phi_strings_of(func: MirFunction) -> Seq<(Seq<char>, Seq<char>, Seq<char>, Seq<char>)> {
    phi_strings_blocks((Seq::empty(), 0), func, func.blocks@.len() as int).0
}

/// Whether a phi value of type `from` is widened to a phi of type `to`.
pub open spec fn needs_coercion(from: Seq<char>, to: Seq<char>) -> bool {
    (from == "i32"@ && to == "i64"@) || (from == "i1"@ && to == "i64"@) || (from == "i1"@ && to == "i32"@)
}

/// The phi widenings (and the counter) after the first `n` values of a
/// phi node of type `ty` in the block `label`: each place value of a
/// narrower type gets a numbered temporary.
pub open spec fn phi_coercions_values(
    st: (Seq<(Seq<char>, Seq<char>, Seq<char>, (Seq<char>, Seq<char>, Seq<char>))>, u32),
    m: Map<Seq<char>, Seq<char>>,
    ty: Seq<char>,
    label: Seq<char>,
    values: Seq<(Operand, String)>,
    n: int,
) -> (Seq<(Seq<char>, Seq<char>, Seq<char>, (Seq<char>, Seq<char>, Seq<char>))>, u32)
    decreases n,
{
    if n <= 0 {
        st
    } else {
        let (s1, k) = phi_coercions_values(st, m, ty, label, values, n - 1);
        let val = values[n - 1].0;
        let vt = match val {
            Operand::Constant(c) => constant_llvm_type(c),
            Operand::Place(p) => if m.contains_key(p.name@) { m[p.name@] } else { "i64"@ },
        };
        match val {
            Operand::Place(p) => if needs_coercion(vt, ty) {
                (
                    put_replace(s1, (label, p.name@, values[n - 1].1@, ("_phi_sext_"@ + dec_nat(k as nat), vt, ty))),
                    next_u32(k),
                )
            } else {
                (s1, k)
            },
            _ => (s1, k),
        }
    }
}

/// The phi widenings after the first `n` instructions of the block
/// `label`.
pub open spec fn phi_coercions_insts(
    st: (Seq<(Seq<char>, Seq<char>, Seq<char>, (Seq<char>, Seq<char>, Seq<char>))>, u32),
    m: Map<Seq<char>, Seq<char>>,
    label: Seq<char>,
    insts: Seq<MirInst>,
    n: int,
) -> (Seq<(Seq<char>, Seq<char>, Seq<char>, (Seq<char>, Seq<char>, Seq<char>))>, u32)
    decreases n,
{
    if n <= 0 {
        st
    } else {
        let st1 = phi_coercions_insts(st, m, label, insts, n - 1);
        match insts[n - 1] {
            MirInst::Phi { dest, values } => {
                let ty = if m.contains_key(dest.name@) { m[dest.name@] } else { "i64"@ };
                phi_coercions_values(st1, m, ty, label, values@, values@.len() as int)
            },
            _ => st1,
        }
    }
}

/// The phi widenings after the first `n` blocks.
pub open spec fn phi_coercions_blocks(
    st: (Seq<(Seq<char>, Seq<char>, Seq<char>, (Seq<char>, Seq<char>, Seq<char>))>, u32),
    m: Map<Seq<char>, Seq<char>>,
    func: MirFunction,
    n: int,
) -> (Seq<(Seq<char>, Seq<char>, Seq<char>, (Seq<char>, Seq<char>, Seq<char>))>, u32)
    decreases n,
{
    if n <= 0 {
        st
    } else {
        let b = func.blocks@[n - 1];
        phi_coercions_insts(phi_coercions_blocks(st, m, func, n - 1), m, b.label@, b.instructions@, b.instructions@.len() as int)
    }
}

/// The widenings of narrower phi values, given the place types `m`:
/// `(phi block, value, predecessor, (temporary, from, to))`.
pub open spec fn phi_coercions_of(func: MirFunction, m: Map<Seq<char>, Seq<char>>) -> Seq<(Seq<char>, Seq<char>, Seq<char>, (Seq<char>, Seq<char>, Seq<char>))> {
    phi_coercions_blocks((Seq::empty(), 0), m, func, func.blocks@.len() as int).0
}

/// The position of the first entry with a key, if any.
fn find_key<V>(entries: &Vec<PhiEntry<V>>, b: &str, v: &str, p: &str) -> (r: Option<usize>)
    ensures
        match r {
            Some(i) => i < entries@.len() && entries@[i as int].block@ == b@ && entries@[i as int].value@ == v@
                && entries@[i as int].pred@ == p@ && forall|j: int| 0 <= j < i ==> !(entries@[j].block@ == b@
                && entries@[j].value@ == v@ && entries@[j].pred@ == p@),
            None => forall|j: int| 0 <= j < entries@.len() ==> !(entries@[j].block@ == b@ && entries@[j].value@ == v@
                && entries@[j].pred@ == p@),
        },
{
    let mut i: usize = 0;
    while i < entries.len()
        invariant
            i <= entries.len(),
            forall|j: int| 0 <= j < i ==> !(entries@[j].block@ == b@ && entries@[j].value@ == v@ && entries@[j].pred@ == p@),
        decreases entries.len() - i,
    {
        if str_eq(entries[i].block.as_str(), b) && str_eq(entries[i].value.as_str(), v) && str_eq(entries[i].pred.as_str(), p) {
            return Some(i);
        }
        i = i + 1;
    }
    None
}

/// Adds a phi entry with string data unless its key is there already.
fn put_string_if_absent(entries: &mut Vec<PhiEntry<String>>, b: &str, v: &str, p: &str, data: &str)
    ensures
        string_entries(final(entries)@) == put_if_absent(string_entries(old(entries)@), (b@, v@, p@, data@)),
{
    let ghost s = string_entries(entries@);
    match find_key(entries, b, v, p) {
        Some(i) => {
            assert(key_at(s, i as int, b@, v@, p@));
        },
        None => {
            assert(!has_key(s, b@, v@, p@)) by {
                if has_key(s, b@, v@, p@) {
                    let j = choose|j: int| 0 <= j < s.len() && #[trigger] key_at(s, j, b@, v@, p@);
                    assert(key_at(s, j, b@, v@, p@));
                }
            }
            entries.push(PhiEntry { block: b.to_owned(), value: v.to_owned(), pred: p.to_owned(), data: data.to_owned() });
            assert(string_entries(entries@) =~= s.push((b@, v@, p@, data@)));
        },
    }
}

/// Adds a phi widening, replacing the one with its key if there is one.
fn put_coercion(entries: &mut Vec<PhiEntry<Coercion>>, b: &str, v: &str, p: &str, c: Coercion)
    ensures
        coercion_entries(final(entries)@) == put_replace(
            coercion_entries(old(entries)@),
            (b@, v@, p@, (c.temp@, c.from_ty@, c.to_ty@)),
        ),
{
    let ghost s = coercion_entries(entries@);
    let ghost e = (b@, v@, p@, (c.temp@, c.from_ty@, c.to_ty@));
    let entry = PhiEntry { block: b.to_owned(), value: v.to_owned(), pred: p.to_owned(), data: c };
    match find_key(entries, b, v, p) {
        Some(i) => {
            assert(key_at(s, i as int, b@, v@, p@));
            let ghost f = first_key(s, b@, v@, p@);
            assert(f == i) by {
                assert(0 <= i < s.len() && key_at(s, i as int, b@, v@, p@) && forall|j: int| 0 <= j < i ==> !#[trigger] key_at(s, j, b@, v@, p@));
                if f < i {
                    assert(key_at(s, f, b@, v@, p@));
                } else if f > i {
                    assert(!key_at(s, i as int, b@, v@, p@));
                }
            }
            entries.set(i, entry);
            assert(coercion_entries(entries@) =~= s.update(i as int, e));
        },
        None => {
            assert(!has_key(s, b@, v@, p@)) by {
                if has_key(s, b@, v@, p@) {
                    let j = choose|j: int| 0 <= j < s.len() && #[trigger] key_at(s, j, b@, v@, p@);
                    assert(key_at(s, j, b@, v@, p@));
                }
            }
            entries.push(entry);
            assert(coercion_entries(entries@) =~= s.push(e));
        },
    }
}

impl TextCodeGen {
    /// The destinations of the phi nodes of a function.
    pub fn phi_dests(&self, func: &MirFunction) -> (v: Vec<String>)
        ensures
            forall|k: Seq<char>| names_contain(v@, k) <==> is_phi_dest(*func, k),
    {
        let mut v: Vec<String> = Vec::new();
        let mut b: usize = 0;
        while b < func.blocks.len()
            invariant
                b <= func.blocks.len(),
                forall|k: Seq<char>| names_contain(v@, k) <==> phi_into_blocks(func.blocks@, b as int, k),
            decreases func.blocks.len() - b,
        {
            let insts = &func.blocks[b].instructions;
            let mut i: usize = 0;
            while i < insts.len()
                invariant
                    b < func.blocks.len(),
                    i <= insts.len(),
                    insts@ == func.blocks@[b as int].instructions@,
                    forall|k: Seq<char>|
                        names_contain(v@, k) <==> phi_into_blocks(func.blocks@, b as int, k) || phi_into_within(
                            insts@,
                            i as int,
                            k,
                        ),
                decreases insts.len() - i,
            {
                let ghost old_v = v@;
                match &insts[i] {
                    MirInst::Phi { dest, .. } => {
                        v.push(dest.name.as_str().to_owned());
                        assert(v@ == old_v.push(v@.last()));
                    },
                    _ => {},
                }
                assert(forall|w: int| 0 <= w < old_v.len() ==> v@[w] == old_v[w]);
                assert forall|k: Seq<char>|
                    names_contain(v@, k) <==> phi_into_blocks(func.blocks@, b as int, k) || phi_into_within(
                        insts@,
                        i + 1,
                        k,
                    ) by {
                    if names_contain(v@, k) {
                        let w = choose|w: int| 0 <= w < v@.len() && #[trigger] v@[w]@ == k;
                        if w < old_v.len() {
                            assert(names_contain(old_v, k));
                            if phi_into_within(insts@, i as int, k) {
                                let j = choose|j: int| 0 <= j < i && #[trigger] is_phi_into(insts@[j], k);
                                assert(is_phi_into(insts@[j], k));
                            }
                        } else {
                            assert(is_phi_into(insts@[i as int], k));
                        }
                    }
                    if phi_into_within(insts@, i + 1, k) {
                        let j = choose|j: int| 0 <= j < i + 1 && #[trigger] is_phi_into(insts@[j], k);
                        if j < i {
                            assert(phi_into_within(insts@, i as int, k));
                            assert(names_contain(old_v, k));
                            let w = choose|w: int| 0 <= w < old_v.len() && #[trigger] old_v[w]@ == k;
                            assert(v@[w]@ == k);
                        } else {
                            assert(v@[old_v.len() as int]@ == k);
                        }
                    }
                    if phi_into_blocks(func.blocks@, b as int, k) {
                        assert(names_contain(old_v, k));
                        let w = choose|w: int| 0 <= w < old_v.len() && #[trigger] old_v[w]@ == k;
                        assert(v@[w]@ == k);
                    }
                }
                i = i + 1;
            }
            assert forall|k: Seq<char>| phi_into_blocks(func.blocks@, b + 1, k) <==> phi_into_blocks(func.blocks@, b as int, k)
                || phi_into_within(insts@, insts@.len() as int, k) by {
                if phi_into_blocks(func.blocks@, b + 1, k) {
                    let bb = choose|bb: int|
                        0 <= bb < b + 1 && #[trigger] phi_into_within(func.blocks@[bb].instructions@, func.blocks@[bb].instructions@.len() as int, k);
                    if bb < b {
                        assert(phi_into_blocks(func.blocks@, b as int, k));
                    }
                }
                if phi_into_within(insts@, insts@.len() as int, k) {
                    assert(phi_into_within(func.blocks@[b as int].instructions@, func.blocks@[b as int].instructions@.len() as int, k));
                }
                if phi_into_blocks(func.blocks@, b as int, k) {
                    let bb = choose|bb: int|
                        0 <= bb < b && #[trigger] phi_into_within(func.blocks@[bb].instructions@, func.blocks@[bb].instructions@.len() as int, k);
                    assert(phi_into_within(func.blocks@[bb].instructions@, func.blocks@[bb].instructions@.len() as int, k));
                }
            }
            b = b + 1;
        }
        v
    }

    /// The locals of a function that live in stack slots.
    pub fn slot_locals(&self, func: &MirFunction, phi_dests: &Vec<String>) -> (v: Vec<String>)
        requires
            forall|k: Seq<char>| names_contain(phi_dests@, k) <==> is_phi_dest(*func, k),
        ensures
            forall|k: Seq<char>| names_contain(v@, k) <==> is_slot_local(*func, k),
    {
        let mut v: Vec<String> = Vec::new();
        let mut i: usize = 0;
        while i < func.locals.len()
            invariant
                i <= func.locals.len(),
                forall|k: Seq<char>| names_contain(phi_dests@, k) <==> is_phi_dest(*func, k),
                forall|k: Seq<char>| names_contain(v@, k) <==> slot_local_within(*func, i as int, k),
            decreases func.locals.len() - i,
        {
            let ghost old_v = v@;
            let name = func.locals[i].0.as_str();
            let ty = &func.locals[i].1;
            let keep = !str_eq(self.mir_type_to_llvm(ty), "void") && !matches!(ty, MirType::Array { .. })
                && !contains_name(phi_dests, name);
            if keep {
                v.push(name.to_owned());
                assert(v@ == old_v.push(v@.last()));
            }
            assert(forall|w: int| 0 <= w < old_v.len() ==> v@[w] == old_v[w]);
            assert forall|k: Seq<char>| names_contain(v@, k) <==> slot_local_within(*func, i + 1, k) by {
                if names_contain(v@, k) {
                    let w = choose|w: int| 0 <= w < v@.len() && #[trigger] v@[w]@ == k;
                    if w < old_v.len() {
                        assert(names_contain(old_v, k));
                        let j = choose|j: int| 0 <= j < i && #[trigger] slot_local_at(*func, j, k);
                        assert(slot_local_at(*func, j, k));
                    } else {
                        assert(slot_local_at(*func, i as int, k));
                    }
                }
                if slot_local_within(*func, i + 1, k) {
                    let j = choose|j: int| 0 <= j < i + 1 && #[trigger] slot_local_at(*func, j, k);
                    if j < i {
                        assert(slot_local_within(*func, i as int, k));
                        assert(names_contain(old_v, k));
                        let w = choose|w: int| 0 <= w < old_v.len() && #[trigger] old_v[w]@ == k;
                        assert(v@[w]@ == k);
                    } else {
                        assert(v@[old_v.len() as int]@ == k);
                    }
                }
            }
            i = i + 1;
        }
        v
    }

    /// The tuple type of each place of a function that holds a tuple.
    pub fn tuple_var_types(&self, func: &MirFunction, prog: &ProgramInfo) -> (m: NameMap<String>)
        ensures
            string_map(m) == tuple_vars_of(*func, *prog),
    {
        let mut m: NameMap<String> = NameMap::new();
        assert(string_map(m) =~= Map::<Seq<char>, Seq<char>>::empty());
        let mut b: usize = 0;
        while b < func.blocks.len()
            invariant
                b <= func.blocks.len(),
                string_map(m) == tuple_seed_blocks(Map::empty(), func.blocks@, b as int, *prog),
            decreases func.blocks.len() - b,
        {
            let insts = &func.blocks[b].instructions;
            let ghost start = string_map(m);
            let mut i: usize = 0;
            while i < insts.len()
                invariant
                    b < func.blocks.len(),
                    i <= insts.len(),
                    insts@ == func.blocks@[b as int].instructions@,
                    string_map(m) == tuple_seed_insts(start, insts@, i as int, *prog),
                decreases insts.len() - i,
            {
                match &insts[i] {
                    MirInst::Call { dest: Some(d), func: callee, .. } => match prog.tuple_functions.get(callee.as_str()) {
                        Some(tt) => insert_string(&mut m, d.name.as_str(), tt.as_str()),
                        None => {},
                    },
                    MirInst::TupleInit { dest, elements } => {
                        let tt = self.tuple_init_type_str(elements);
                        insert_string(&mut m, dest.name.as_str(), tt.as_str());
                    },
                    _ => {},
                }
                i = i + 1;
            }
            b = b + 1;
        }
        let ghost seed = string_map(m);
        let mut k: usize = 0;
        while k < 10
            invariant
                k <= 10,
                tuple_vars_of(*func, *prog) == tuple_fix(string_map(m), func.blocks@, (10 - k) as nat),
            decreases 10 - k,
        {
            let ghost before = string_map(m);
            let changed = self.tuple_pass(&mut m, func);
            if !changed {
                return m;
            }
            k = k + 1;
        }
        m
    }

    /// One pass of passing tuple types on through copies and phi nodes;
    /// tells whether it added one.
    fn tuple_pass(&self, m: &mut NameMap<String>, func: &MirFunction) -> (changed: bool)
        ensures
            (string_map(*final(m)), changed) == tuple_step_blocks(string_map(*old(m)), func.blocks@, func.blocks@.len() as int),
    {
        let mut changed = false;
        let mut b: usize = 0;
        while b < func.blocks.len()
            invariant
                b <= func.blocks.len(),
                (string_map(*m), changed) == tuple_step_blocks(string_map(*old(m)), func.blocks@, b as int),
            decreases func.blocks.len() - b,
        {
            let insts = &func.blocks[b].instructions;
            let ghost start = string_map(*m);
            let ghost ch0 = changed;
            let mut inner = false;
            let mut i: usize = 0;
            while i < insts.len()
                invariant
                    b < func.blocks.len(),
                    i <= insts.len(),
                    insts@ == func.blocks@[b as int].instructions@,
                    (string_map(*m), inner) == tuple_step_insts(start, insts@, i as int),
                decreases insts.len() - i,
            {
                let c = self.tuple_step(m, &insts[i]);
                inner = inner || c;
                i = i + 1;
            }
            changed = changed || inner;
            b = b + 1;
        }
        changed
    }

    /// Passes tuple types on through one instruction; tells whether it
    /// added one.
    fn tuple_step(&self, m: &mut NameMap<String>, inst: &MirInst) -> (changed: bool)
        ensures
            (string_map(*final(m)), changed) == tuple_step_inst(string_map(*old(m)), *inst),
    {
        match inst {
            MirInst::Copy { dest, src } => {
                if m.get(dest.name.as_str()).is_none() {
                    match m.get(src.name.as_str()) {
                        Some(t) => {
                            let t = t.as_str().to_owned();
                            insert_string(m, dest.name.as_str(), t.as_str());
                            return true;
                        },
                        None => {},
                    }
                }
                false
            },
            MirInst::Phi { dest, values } => {
                if m.get(dest.name.as_str()).is_none() {
                    match first_known_tuple_exec(m, values) {
                        Some(t) => {
                            insert_string(m, dest.name.as_str(), t.as_str());
                            return true;
                        },
                        None => {},
                    }
                }
                false
            },
            _ => false,
        }
    }

    /// Adds the phi loads of one phi node's values in the block `label`.
    fn add_phi_loads(
        &self,
        entries: &mut Vec<PhiEntry<String>>,
        func: &MirFunction,
        phi_dests: &Vec<String>,
        label: &str,
        values: &Vec<(Operand, String)>,
    )
        requires
            forall|k: Seq<char>| names_contain(phi_dests@, k) <==> is_phi_dest(*func, k),
        ensures
            string_entries(final(entries)@) == phi_loads_values(string_entries(old(entries)@), *func, label@, values@, values@.len() as int),
    {
        let ghost s0 = string_entries(entries@);
        let mut i: usize = 0;
        while i < values.len()
            invariant
                i <= values.len(),
                forall|k: Seq<char>| names_contain(phi_dests@, k) <==> is_phi_dest(*func, k),
                string_entries(entries@) == phi_loads_values(s0, *func, label@, values@, i as int),
            decreases values.len() - i,
        {
            match &values[i].0 {
                Operand::Place(p) => {
                    let name = p.name.as_str();
                    let declared = crate::codegen::llvm_text::find_type(&func.locals, name).is_some();
                    if declared && !contains_name(phi_dests, name) {
                        let pred = values[i].1.as_str();
                        let mut t = name.to_owned();
                        push_str(&mut t, ".phi.");
                        push_str(&mut t, pred);
                        put_string_if_absent(entries, label, name, pred, t.as_str());
                    }
                },
                _ => {},
            }
            i = i + 1;
        }
    }

    /// The loads of locals that phi nodes read from their predecessors.
    pub fn phi_loads(&self, func: &MirFunction, phi_dests: &Vec<String>) -> (v: Vec<PhiEntry<String>>)
        requires
            forall|k: Seq<char>| names_contain(phi_dests@, k) <==> is_phi_dest(*func, k),
        ensures
            string_entries(v@) == phi_loads_of(*func),
    {
        let mut v: Vec<PhiEntry<String>> = Vec::new();
        assert(string_entries(v@) =~= Seq::empty());
        let mut b: usize = 0;
        while b < func.blocks.len()
            invariant
                b <= func.blocks.len(),
                forall|k: Seq<char>| names_contain(phi_dests@, k) <==> is_phi_dest(*func, k),
                string_entries(v@) == phi_loads_blocks(Seq::empty(), *func, b as int),
            decreases func.blocks.len() - b,
        {
            let block = &func.blocks[b];
            let ghost start = string_entries(v@);
            let mut i: usize = 0;
            while i < block.instructions.len()
                invariant
                    b < func.blocks.len(),
                    *block == func.blocks@[b as int],
                    i <= block.instructions.len(),
                    forall|k: Seq<char>| names_contain(phi_dests@, k) <==> is_phi_dest(*func, k),
                    string_entries(v@) == phi_loads_insts(start, *func, block.label@, block.instructions@, i as int),
                decreases block.instructions.len() - i,
            {
                match &block.instructions[i] {
                    MirInst::Phi { values, .. } => {
                        self.add_phi_loads(&mut v, func, phi_dests, block.label.as_str(), values);
                    },
                    _ => {},
                }
                i = i + 1;
            }
            b = b + 1;
        }
        v
    }

    /// Adds the string temporaries of one phi node's values in the block
    /// `label`.
    fn add_phi_strings(
        &self,
        entries: &mut Vec<PhiEntry<String>>,
        counter: &mut u32,
        label: &str,
        values: &Vec<(Operand, String)>,
    )
        ensures
            (string_entries(final(entries)@), *final(counter)) == phi_strings_values(
                (string_entries(old(entries)@), *old(counter)),
                label@,
                values@,
                values@.len() as int,
            ),
    {
        let ghost st0 = (string_entries(entries@), *counter);
        let mut i: usize = 0;
        while i < values.len()
            invariant
                i <= values.len(),
                (string_entries(entries@), *counter) == phi_strings_values(st0, label@, values@, i as int),
            decreases values.len() - i,
        {
            match &values[i].0 {
                Operand::Constant(Constant::String(str)) => {
                    let pred = values[i].1.as_str();
                    let ghost s = string_entries(entries@);
                    match find_key(entries, label, str.as_str(), pred) {
                        Some(j) => {
                            assert(key_at(s, j as int, label@, str@, pred@));
                        },
                        None => {
                            assert(!has_key(s, label@, str@, pred@)) by {
                                if has_key(s, label@, str@, pred@) {
                                    let j = choose|j: int| 0 <= j < s.len() && #[trigger] key_at(s, j, label@, str@, pred@);
                                    assert(key_at(s, j, label@, str@, pred@));
                                }
                            }
                            let mut t = "_str_phi_".to_owned();
                            append_u64(&mut t, *counter as u64);
                            put_string_if_absent(entries, label, str.as_str(), pred, t.as_str());
                            *counter = if *counter == u32::MAX { 0 } else { *counter + 1 };
                        },
                    }
                },
                _ => {},
            }
            i = i + 1;
        }
    }

    /// The temporaries holding string constants that phi nodes read.
    pub fn phi_strings(&self, func: &MirFunction) -> (v: Vec<PhiEntry<String>>)
        ensures
            string_entries(v@) == phi_strings_of(*func),
    {
        let mut v: Vec<PhiEntry<String>> = Vec::new();
        let mut counter: u32 = 0;
        assert(string_entries(v@) =~= Seq::empty());
        let mut b: usize = 0;
        while b < func.blocks.len()
            invariant
                b <= func.blocks.len(),
                (string_entries(v@), counter) == phi_strings_blocks((Seq::empty(), 0), *func, b as int),
            decreases func.blocks.len() - b,
        {
            let block = &func.blocks[b];
            let ghost start = (string_entries(v@), counter);
            let mut i: usize = 0;
            while i < block.instructions.len()
                invariant
                    b < func.blocks.len(),
                    *block == func.blocks@[b as int],
                    i <= block.instructions.len(),
                    (string_entries(v@), counter) == phi_strings_insts(start, block.label@, block.instructions@, i as int),
                decreases block.instructions.len() - i,
            {
                match &block.instructions[i] {
                    MirInst::Phi { values, .. } => {
                        self.add_phi_strings(&mut v, &mut counter, block.label.as_str(), values);
                    },
                    _ => {},
                }
                i = i + 1;
            }
            b = b + 1;
        }
        v
    }

    /// Adds the widenings of one phi node's values (of phi type `ty`) in the
    /// block `label`.
    fn add_phi_coercions(
        &self,
        entries: &mut Vec<PhiEntry<Coercion>>,
        counter: &mut u32,
        place_types: &NameMap<&'static str>,
        ty: &'static str,
        label: &str,
        values: &Vec<(Operand, String)>,
    )
        ensures
            (coercion_entries(final(entries)@), *final(counter)) == phi_coercions_values(
                (coercion_entries(old(entries)@), *old(counter)),
                type_map(*place_types),
                ty@,
                label@,
                values@,
                values@.len() as int,
            ),
    {
        let ghost st0 = (coercion_entries(entries@), *counter);
        let mut i: usize = 0;
        while i < values.len()
            invariant
                i <= values.len(),
                (coercion_entries(entries@), *counter) == phi_coercions_values(st0, type_map(*place_types), ty@, label@, values@, i as int),
            decreases values.len() - i,
        {
            let val = &values[i].0;
            let vt: &'static str = match val {
                Operand::Constant(c) => self.constant_type(c),
                Operand::Place(p) => match place_types.get(p.name.as_str()) {
                    Some(t) => *t,
                    None => "i64",
                },
            };
            match val {
                Operand::Place(p) => {
                    let needs = (str_eq(vt, "i32") && str_eq(ty, "i64")) || (str_eq(vt, "i1") && str_eq(ty, "i64"))
                        || (str_eq(vt, "i1") && str_eq(ty, "i32"));
                    if needs {
                        let mut t = "_phi_sext_".to_owned();
                        append_u64(&mut t, *counter as u64);
                        put_coercion(entries, label, p.name.as_str(), values[i].1.as_str(), Coercion { temp: t, from_ty: vt, to_ty: ty });
                        *counter = if *counter == u32::MAX { 0 } else { *counter + 1 };
                    }
                },
                _ => {},
            }
            i = i + 1;
        }
    }

    /// The widenings of narrower phi values.
    pub fn phi_coercions(&self, func: &MirFunction, place_types: &NameMap<&'static str>) -> (v: Vec<PhiEntry<Coercion>>)
        ensures
            coercion_entries(v@) == phi_coercions_of(*func, type_map(*place_types)),
    {
        let mut v: Vec<PhiEntry<Coercion>> = Vec::new();
        let mut counter: u32 = 0;
        assert(coercion_entries(v@) =~= Seq::empty());
        let mut b: usize = 0;
        while b < func.blocks.len()
            invariant
                b <= func.blocks.len(),
                (coercion_entries(v@), counter) == phi_coercions_blocks((Seq::empty(), 0), type_map(*place_types), *func, b as int),
            decreases func.blocks.len() - b,
        {
            let block = &func.blocks[b];
            let ghost start = (coercion_entries(v@), counter);
            let mut i: usize = 0;
            while i < block.instructions.len()
                invariant
                    b < func.blocks.len(),
                    *block == func.blocks@[b as int],
                    i <= block.instructions.len(),
                    (coercion_entries(v@), counter) == phi_coercions_insts(start, type_map(*place_types), block.label@, block.instructions@, i as int),
                decreases block.instructions.len() - i,
            {
                match &block.instructions[i] {
                    MirInst::Phi { dest, values } => {
                        let ty: &'static str = match place_types.get(dest.name.as_str()) {
                            Some(t) => *t,
                            None => "i64",
                        };
                        self.add_phi_coercions(&mut v, &mut counter, place_types, ty, block.label.as_str(), values);
                    },
                    _ => {},
                }
                i = i + 1;
            }
            b = b + 1;
        }
        v
    }
}

/// Whether a terminator returns the place `name`.
pub open spec fn returns_place(term: Terminator, name: Seq<char>) -> bool {
    term matches Terminator::Return(Some(Operand::Place(p))) && p.name@ == name
}

/// Whether an operand is the place `name`.
pub open spec fn is_place_named(op: Operand, name: Seq<char>) -> bool {
    op matches Operand::Place(p) && p.name@ == name
}

/// Whether an instruction lets the place `name` escape: passes it to a
/// call, copies it, or makes it a phi value.
pub open spec fn lets_escape(inst: MirInst, name: Seq<char>) -> bool {
    match inst {
        MirInst::Call { args, .. } => exists|i: int| 0 <= i < args@.len() && #[trigger] is_place_named(args@[i], name),
        MirInst::Copy { src, .. } => src.name@ == name,
        MirInst::Phi { values, .. } => exists|i: int|
            0 <= i < values@.len() && #[trigger] is_place_named(values@[i].0, name),
        _ => false,
    }
}

/// Whether a block returns `name` or lets it escape.
pub open spec fn block_lets_escape(b: BasicBlock, name: Seq<char>) -> bool {
    returns_place(b.terminator, name) || exists|i: int|
        0 <= i < b.instructions@.len() && #[trigger] lets_escape(b.instructions@[i], name)
}

/// Whether a struct held in `name` escapes its function: it is returned,
/// passed to a call, copied, or made a phi value.
pub open spec fn struct_escapes(func: MirFunction, name: Seq<char>) -> bool {
    exists|b: int| 0 <= b < func.blocks@.len() && #[trigger] block_lets_escape(func.blocks@[b], name)
}

/// Whether some operand is the place `name`.
fn operands_hold(ops: &Vec<Operand>, name: &str) -> (r: bool)
    ensures
        r == exists|i: int| 0 <= i < ops@.len() && #[trigger] is_place_named(ops@[i], name@),
{
    let mut i: usize = 0;
    while i < ops.len()
        invariant
            i <= ops.len(),
            forall|j: int| 0 <= j < i ==> !#[trigger] is_place_named(ops@[j], name@),
        decreases ops.len() - i,
    {
        match &ops[i] {
            Operand::Place(p) => {
                if str_eq(p.name.as_str(), name) {
                    assert(is_place_named(ops@[i as int], name@));
                    return true;
                }
            },
            _ => {},
        }
        i = i + 1;
    }
    false
}

/// Whether some phi value is the place `name`.
pub(crate) fn phi_values_hold(values: &Vec<(Operand, String)>, name: &str) -> (r: bool)
    ensures
        r == exists|i: int| 0 <= i < values@.len() && #[trigger] is_place_named(values@[i].0, name@),
{
    let mut i: usize = 0;
    while i < values.len()
        invariant
            i <= values.len(),
            forall|j: int| 0 <= j < i ==> !#[trigger] is_place_named(values@[j].0, name@),
        decreases values.len() - i,
    {
        match &values[i].0 {
            Operand::Place(p) => {
                if str_eq(p.name.as_str(), name) {
                    assert(is_place_named(values@[i as int].0, name@));
                    return true;
                }
            },
            _ => {},
        }
        i = i + 1;
    }
    false
}

impl TextCodeGen {
    /// Whether a struct held in `struct_name` escapes the function (so it
    /// must live on the heap): it is returned, passed to a call, copied, or
    /// made a phi value.
    pub fn check_struct_escapes(&self, func: &MirFunction, struct_name: &str) -> (r: bool)
        ensures
            r == struct_escapes(*func, struct_name@),
    {
        let mut b: usize = 0;
        while b < func.blocks.len()
            invariant
                b <= func.blocks.len(),
                forall|k: int| 0 <= k < b ==> !#[trigger] block_lets_escape(func.blocks@[k], struct_name@),
            decreases func.blocks.len() - b,
        {
            let block = &func.blocks[b];
            match &block.terminator {
                Terminator::Return(Some(Operand::Place(p))) => {
                    if str_eq(p.name.as_str(), struct_name) {
                        assert(block_lets_escape(func.blocks@[b as int], struct_name@));
                        return true;
                    }
                },
                _ => {},
            }
            let mut i: usize = 0;
            while i < block.instructions.len()
                invariant
                    b < func.blocks.len(),
                    *block == func.blocks@[b as int],
                    i <= block.instructions.len(),
                    forall|j: int| 0 <= j < i ==> !#[trigger] lets_escape(block.instructions@[j], struct_name@),
                decreases block.instructions.len() - i,
            {
                let esc = match &block.instructions[i] {
                    MirInst::Call { args, .. } => operands_hold(args, struct_name),
                    MirInst::Copy { src, .. } => str_eq(src.name.as_str(), struct_name),
                    MirInst::Phi { values, .. } => phi_values_hold(values, struct_name),
                    _ => false,
                };
                if esc {
                    assert(lets_escape(block.instructions@[i as int], struct_name@));
                    assert(block_lets_escape(func.blocks@[b as int], struct_name@));
                    return true;
                }
                i = i + 1;
            }
            assert(!block_lets_escape(func.blocks@[b as int], struct_name@));
            b = b + 1;
        }
        false
    }
}

} // verus!
