//! LLVM IR text of MIR instructions that work through pointers: pointer
//! offsets, stack arrays, and loads and stores through pointers.

use vstd::prelude::*;

use crate::codegen::instructions::{
    append_def, concat, def_line, fresh, fresh_load, is_local, place_type_or_str, store_if_local,
    FunctionInfo,
};
use crate::codegen::llvm_text::{llvm_type, operand_text, TextCodeGen};
use crate::codegen::names::{contains_name, count_map, NameMap};
use crate::codegen::terminator::type_or;
use crate::mir::{MirType, Operand, Place};
use crate::text::{append_u64, dec_nat, push_str};

verus! {

/// An operand as an instruction reads it: a local's slot loaded into a
/// fresh temporary named after `base`, else the operand's text. Gives the
/// load, the value's text and the counters after it.
pub open spec fn slot_read(
    info: FunctionInfo,
    op: Operand,
    base: Seq<char>,
    ty: Seq<char>,
    counts: Map<Seq<char>, u32>,
) -> (Seq<char>, Seq<char>, Map<Seq<char>, u32>) {
    match op {
        Operand::Place(p) => if is_local(info, p.name@) {
            fresh_load(counts, base, ty, p.name@)
        } else {
            (Seq::empty(), operand_text(op), counts)
        },
        _ => (Seq::empty(), operand_text(op), counts),
    }
}

/// A stack array of `size` elements into `dest`.
pub open spec fn array_alloc_text(
    dest: Seq<char>,
    elem: MirType,
    size: usize,
    info: FunctionInfo,
    counts: Map<Seq<char>, u32>,
) -> (Seq<char>, Map<Seq<char>, u32>) {
    let (d, c1) = fresh(counts, dest);
    (
        def_line(d, "alloca ["@ + dec_nat(size as nat) + " x "@ + llvm_type(elem) + "]"@) + store_if_local(
            info,
            dest,
            "ptr"@,
            d,
        ),
        c1,
    )
}

/// A load through the pointer `ptr` into `dest`.
pub open spec fn ptr_load_text(
    dest: Seq<char>,
    ptr: Operand,
    elem: MirType,
    info: FunctionInfo,
    counts: Map<Seq<char>, u32>,
) -> (Seq<char>, Map<Seq<char>, u32>) {
    let (d, c1) = fresh(counts, dest);
    let ty = llvm_type(elem);
    let (load, pv, c2) = slot_read(info, ptr, dest + "_ptr_load"@, "ptr"@, c1);
    (load + def_line(d, "load "@ + ty + ", ptr "@ + pv) + store_if_local(info, dest, ty, d), c2)
}

/// The name a local operand of a store through a pointer is loaded as.
pub open spec fn named_after(op: Operand, suffix: Seq<char>) -> Seq<char> {
    match op {
        Operand::Place(p) => p.name@ + suffix,
        _ => Seq::empty(),
    }
}

/// The type a value stored through a pointer is read with: the type
/// recorded for its place, else the element type.
pub open spec fn stored_value_type(info: FunctionInfo, op: Operand, elem: Seq<char>) -> Seq<char> {
    match op {
        Operand::Place(p) => type_or(info.place_types, p.name@, elem),
        _ => elem,
    }
}

/// A store of `value` through the pointer `ptr`.
pub open spec fn ptr_store_text(
    ptr: Operand,
    value: Operand,
    elem: MirType,
    info: FunctionInfo,
    counts: Map<Seq<char>, u32>,
) -> (Seq<char>, Map<Seq<char>, u32>) {
    let ty = llvm_type(elem);
    let (l1, pv, c1) = slot_read(info, ptr, named_after(ptr, "_ptr_store_addr"@), "ptr"@, counts);
    let (l2, vv, c2) = slot_read(info, value, named_after(value, "_val_load"@), stored_value_type(info, value, ty), c1);
    (l1 + l2 + "  store "@ + ty + " "@ + vv + ", ptr "@ + pv + "\n"@, c2)
}

/// The element type a pointer offset steps by: a struct's own type, else
/// the element's LLVM type.
pub open spec fn stride_type(elem: MirType) -> Seq<char> {
    match elem {
        MirType::Struct { name, .. } => "%struct."@ + name@,
        MirType::StructPtr(name) => "%struct."@ + name@,
        _ => llvm_type(elem),
    }
}

/// The pointer `ptr` moved by `offset` elements, into `dest`.
pub open spec fn ptr_offset_text(
    dest: Seq<char>,
    ptr: Operand,
    offset: Operand,
    elem: MirType,
    info: FunctionInfo,
    counts: Map<Seq<char>, u32>,
) -> (Seq<char>, Map<Seq<char>, u32>) {
    let (d, c1) = fresh(counts, dest);
    let (l1, pv, c2) = slot_read(info, ptr, dest + "_ptr_load"@, "ptr"@, c1);
    let (l2, ov, c3) = slot_read(info, offset, dest + "_offset_load"@, "i64"@, c2);
    (
        l1 + l2 + def_line(d, "getelementptr inbounds "@ + stride_type(elem) + ", ptr "@ + pv + ", i64 "@ + ov)
            + store_if_local(info, dest, "ptr"@, d),
        c3,
    )
}

/// The name a local operand is loaded as, as a new string.
pub(crate) fn named_after_str(op: &Operand, suffix: &str) -> (r: String)
    ensures
        r@ == named_after(*op, suffix@),
{
    match op {
        Operand::Place(p) => concat(p.name.as_str(), suffix),
        _ => String::new(),
    }
}

/// The element type a pointer offset steps by.
fn stride_type_str(elem: &MirType, cg: &TextCodeGen) -> (r: String)
    ensures
        r@ == stride_type(*elem),
{
    match elem {
        MirType::Struct { name, .. } => concat("%struct.", name.as_str()),
        MirType::StructPtr(name) => concat("%struct.", name.as_str()),
        _ => cg.mir_type_to_llvm(elem).to_owned(),
    }
}

impl TextCodeGen {
    /// Appends the read of an operand: a load of a local's slot into a
    /// fresh temporary named after `base`; gives the value's text.
    #[verifier::spinoff_prover]
    pub(crate) fn emit_slot_read(
        &self,
        out: &mut String,
        op: &Operand,
        base: &str,
        ty: &str,
        info: &FunctionInfo,
        name_counts: &mut NameMap<u32>,
    ) -> (v: String)
        ensures
            final(out)@ == old(out)@ + slot_read(*info, *op, base@, ty@, count_map(*old(name_counts))).0,
            v@ == slot_read(*info, *op, base@, ty@, count_map(*old(name_counts))).1,
            count_map(*final(name_counts)) == slot_read(*info, *op, base@, ty@, count_map(*old(name_counts))).2,
    {
        match op {
            Operand::Place(p) => {
                if contains_name(&info.local_names, p.name.as_str()) {
                    self.emit_fresh_load(out, base, ty, p.name.as_str(), name_counts)
                } else {
                    assert(final(out)@ =~= old(out)@);
                    self.format_operand(op)
                }
            },
            _ => {
                assert(final(out)@ =~= old(out)@);
                self.format_operand(op)
            },
        }
    }

    /// Appends a stack array allocation.
    #[verifier::spinoff_prover]
    pub fn emit_array_alloc(
        &self,
        out: &mut String,
        dest: &Place,
        elem: &MirType,
        size: usize,
        info: &FunctionInfo,
        name_counts: &mut NameMap<u32>,
    )
        ensures
            final(out)@ == old(out)@ + array_alloc_text(dest.name@, *elem, size, *info, count_map(*old(name_counts))).0,
            count_map(*final(name_counts)) == array_alloc_text(dest.name@, *elem, size, *info, count_map(*old(name_counts))).1,
    {
        let dn = dest.name.as_str();
        let d = self.unique_name(dn, name_counts);
        let mut rest = String::new();
        push_str(&mut rest, "alloca [");
        append_u64(&mut rest, size as u64);
        push_str(&mut rest, " x ");
        push_str(&mut rest, self.mir_type_to_llvm(elem));
        push_str(&mut rest, "]");
        append_def(out, d.as_str(), rest.as_str());
        self.emit_store_if_local(out, dn, "ptr", d.as_str(), info);
        assert(final(out)@ =~= old(out)@ + array_alloc_text(dest.name@, *elem, size, *info, count_map(*old(name_counts))).0);
    }

    /// Appends a load through a pointer.
    #[verifier::spinoff_prover]
    pub fn emit_ptr_load(
        &self,
        out: &mut String,
        dest: &Place,
        ptr: &Operand,
        elem: &MirType,
        info: &FunctionInfo,
        name_counts: &mut NameMap<u32>,
    )
        ensures
            final(out)@ == old(out)@ + ptr_load_text(dest.name@, *ptr, *elem, *info, count_map(*old(name_counts))).0,
            count_map(*final(name_counts)) == ptr_load_text(dest.name@, *ptr, *elem, *info, count_map(*old(name_counts))).1,
    {
        let dn = dest.name.as_str();
        let d = self.unique_name(dn, name_counts);
        let ty = self.mir_type_to_llvm(elem);
        let base = concat(dn, "_ptr_load");
        let pv = self.emit_slot_read(out, ptr, base.as_str(), "ptr", info, name_counts);
        let mut rest = String::new();
        push_str(&mut rest, "load ");
        push_str(&mut rest, ty);
        push_str(&mut rest, ", ptr ");
        push_str(&mut rest, pv.as_str());
        append_def(out, d.as_str(), rest.as_str());
        self.emit_store_if_local(out, dn, ty, d.as_str(), info);
        assert(final(out)@ =~= old(out)@ + ptr_load_text(dest.name@, *ptr, *elem, *info, count_map(*old(name_counts))).0);
    }

    /// Appends a store through a pointer.
    #[verifier::spinoff_prover]
    pub fn emit_ptr_store(
        &self,
        out: &mut String,
        ptr: &Operand,
        value: &Operand,
        elem: &MirType,
        info: &FunctionInfo,
        name_counts: &mut NameMap<u32>,
    )
        ensures
            final(out)@ == old(out)@ + ptr_store_text(*ptr, *value, *elem, *info, count_map(*old(name_counts))).0,
            count_map(*final(name_counts)) == ptr_store_text(*ptr, *value, *elem, *info, count_map(*old(name_counts))).1,
    {
        let ty = self.mir_type_to_llvm(elem);
        let b1 = named_after_str(ptr, "_ptr_store_addr");
        let pv = self.emit_slot_read(out, ptr, b1.as_str(), "ptr", info, name_counts);
        let b2 = named_after_str(value, "_val_load");
        let vt = match value {
            Operand::Place(p) => place_type_or_str(&info.place_types, p.name.as_str(), ty),
            _ => ty.to_owned(),
        };
        let vv = self.emit_slot_read(out, value, b2.as_str(), vt.as_str(), info, name_counts);
        push_str(out, "  store ");
        push_str(out, ty);
        push_str(out, " ");
        push_str(out, vv.as_str());
        push_str(out, ", ptr ");
        push_str(out, pv.as_str());
        push_str(out, "\n");
        assert(final(out)@ =~= old(out)@ + ptr_store_text(*ptr, *value, *elem, *info, count_map(*old(name_counts))).0);
    }

    /// Appends a pointer offset.
    #[verifier::spinoff_prover]
    pub fn emit_ptr_offset(
        &self,
        out: &mut String,
        dest: &Place,
        ptr: &Operand,
        offset: &Operand,
        elem: &MirType,
        info: &FunctionInfo,
        name_counts: &mut NameMap<u32>,
    )
        ensures
            final(out)@ == old(out)@ + ptr_offset_text(dest.name@, *ptr, *offset, *elem, *info, count_map(*old(name_counts))).0,
            count_map(*final(name_counts)) == ptr_offset_text(dest.name@, *ptr, *offset, *elem, *info, count_map(*old(name_counts))).1,
    {
        let dn = dest.name.as_str();
        let d = self.unique_name(dn, name_counts);
        let b1 = concat(dn, "_ptr_load");
        let pv = self.emit_slot_read(out, ptr, b1.as_str(), "ptr", info, name_counts);
        let b2 = concat(dn, "_offset_load");
        let ov = self.emit_slot_read(out, offset, b2.as_str(), "i64", info, name_counts);
        let st = stride_type_str(elem, self);
        let mut rest = String::new();
        push_str(&mut rest, "getelementptr inbounds ");
        push_str(&mut rest, st.as_str());
        push_str(&mut rest, ", ptr ");
        push_str(&mut rest, pv.as_str());
        push_str(&mut rest, ", i64 ");
        push_str(&mut rest, ov.as_str());
        append_def(out, d.as_str(), rest.as_str());
        self.emit_store_if_local(out, dn, "ptr", d.as_str(), info);
        assert(final(out)@ =~= old(out)@ + ptr_offset_text(dest.name@, *ptr, *offset, *elem, *info, count_map(*old(name_counts))).0);
    }
}

} // verus!
