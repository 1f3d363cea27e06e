//! The module-level parts of generated LLVM IR: the header, struct type
//! definitions, string globals and runtime declarations.

use vstd::prelude::*;
use vstd::string::*;
use vstd::utf8::encode_utf8;

use crate::codegen::llvm_text::{datalayout_for, llvm_escape, llvm_type, TextCodeGen};
use crate::codegen::names::NameMap;
use crate::mir::MirType;
use crate::text::{
    append_i64, append_u128, dec_int, dec_nat, lemma_seq_lt_asym, lemma_seq_lt_trans, push_str,
    seq_lt, str_lt,
};

verus! {

/// The module header: module id, data layout and target triple, then a
/// blank line.
pub open spec fn header_text(triple: Seq<char>) -> Seq<char> {
    "; ModuleID = bmb_program\n"@ + "target datalayout = \""@ + datalayout_for(triple) + "\"\n"@
        + "target triple = \""@ + triple + "\"\n"@ + "\n"@
}

/// The LLVM types of some fields, separated by `, `.
pub open spec fn field_types_text(fields: Seq<(String, MirType)>) -> Seq<char>
    decreases fields.len(),
{
    if fields.len() == 0 {
        Seq::empty()
    } else if fields.len() == 1 {
        llvm_type(fields[0].1)
    } else {
        field_types_text(fields.drop_last()) + ", "@ + llvm_type(fields.last().1)
    }
}

/// The definition of one struct type.
pub open spec fn struct_type_line(name: Seq<char>, fields: Seq<(String, MirType)>) -> Seq<char> {
    "%struct."@ + name + " = type { "@ + field_types_text(fields) + " }\n"@
}

/// The struct definitions at the given positions, in that order.
pub open spec fn struct_lines(defs: Seq<(String, Vec<(String, MirType)>)>, order: Seq<int>) -> Seq<
    char,
>
    decreases order.len(),
{
    if order.len() == 0 {
        Seq::empty()
    } else {
        struct_lines(defs, order.drop_last()) + struct_type_line(
            defs[order.last()].0@,
            defs[order.last()].1@,
        )
    }
}

/// `order` lists each position below `n` exactly once.
pub open spec fn is_order_of(order: Seq<int>, n: nat) -> bool {
    &&& order.len() == n
    &&& forall|k: int| 0 <= k < order.len() ==> 0 <= #[trigger] order[k] < n
    &&& forall|a: int, b: int| 0 <= a < b < order.len() ==> order[a] != order[b]
}

/// The definitions at positions `order` are sorted by name.
pub open spec fn sorted_by_name(defs: Seq<(String, Vec<(String, MirType)>)>, order: Seq<int>) -> bool {
    forall|a: int, b: int|
        0 <= a < b < order.len() ==> !seq_lt(defs[order[b]].0@, defs[order[a]].0@)
}

/// The struct type section: nothing without struct definitions, else a
/// comment, one definition per struct in the order given, and a blank line.
pub open spec fn struct_types_text(defs: Seq<(String, Vec<(String, MirType)>)>, order: Seq<int>) -> Seq<
    char,
> {
    if defs.len() == 0 {
        Seq::empty()
    } else {
        "; Struct type definitions\n"@ + struct_lines(defs, order) + "\n"@
    }
}

/// The two globals of one string constant: the bytes with a terminating
/// NUL, and a string value pointing at them with the byte length as both
/// length and capacity.
pub open spec fn string_global_text(content: Seq<char>, name: Seq<char>) -> Seq<char> {
    let n = encode_utf8(content).len();
    "@"@ + name + " = private unnamed_addr constant ["@ + dec_nat(n + 1) + " x i8] c\""@
        + llvm_escape(encode_utf8(content)) + "\\00\"\n"@ + "@"@ + name
        + ".bmb = private unnamed_addr global %BmbString { ptr @"@ + name + ", i64 "@ + dec_int(
        (n as i64) as int,
    ) + ", i64 "@ + dec_int((n as i64) as int) + " }\n"@
}

/// The globals of some string table entries, in order.
pub open spec fn string_globals_lines(entries: Seq<(String, String)>) -> Seq<char>
    decreases entries.len(),
{
    if entries.len() == 0 {
        Seq::empty()
    } else {
        string_globals_lines(entries.drop_last()) + string_global_text(
            entries.last().0@,
            entries.last().1@,
        )
    }
}

/// The string section: nothing for an empty table, else the string type,
/// then the globals of each entry in table order, then a blank line.
pub open spec fn string_globals_text(entries: Seq<(String, String)>) -> Seq<char> {
    if entries.len() == 0 {
        Seq::empty()
    } else {
        "; BmbString struct type\n"@ + "%BmbString = type { ptr, i64, i64 }\n"@ + "\n"@
            + "; String constants\n"@ + string_globals_lines(entries) + "\n"@
    }
}

/// The declarations of the runtime functions generated code may call.
pub const RUNTIME_DECLARATIONS: &'static str = "\
    ; Runtime declarations - Basic I/O\n\
    declare void @println(i64)\n\
    declare void @print(i64)\n\
    declare void @println_f64(double)\n\
    declare void @print_f64(double)\n\
    declare i64 @read_int()\n\
    declare void @assert(i1)\n\
    declare i64 @bmb_abs(i64) nounwind willreturn memory(none) speculatable\n\
    declare i64 @bmb_min(i64, i64) nounwind willreturn memory(none) speculatable\n\
    declare i64 @bmb_max(i64, i64) nounwind willreturn memory(none) speculatable\n\
    declare i64 @bmb_clamp(i64, i64, i64) nounwind willreturn memory(none) speculatable\n\
    declare i64 @bmb_pow(i64, i64) nounwind willreturn memory(none) speculatable\n\
    \n\
    ; Runtime declarations - String operations\n\
    declare ptr @bmb_string_new(ptr, i64) nounwind\n\
    declare ptr @bmb_string_from_cstr(ptr) nounwind\n\
    declare i64 @bmb_string_len(ptr nocapture) memory(argmem: read) nounwind willreturn speculatable\n\
    declare i64 @bmb_string_char_at(ptr nocapture, i64) memory(argmem: read) nounwind willreturn speculatable\n\
    declare ptr @bmb_string_slice(ptr, i64, i64) memory(argmem: read) nounwind willreturn\n\
    declare ptr @bmb_string_concat(ptr, ptr) nounwind\n\
    declare ptr @bmb_string_concat3(ptr, ptr, ptr) nounwind willreturn\n\
    declare i64 @bmb_string_eq(ptr, ptr) memory(argmem: read) nounwind willreturn\n\
    declare i64 @bmb_string_starts_with(ptr nocapture, ptr nocapture) memory(argmem: read) nounwind willreturn speculatable\n\
    declare i64 @bmb_string_ends_with(ptr nocapture, ptr nocapture) memory(argmem: read) nounwind willreturn speculatable\n\
    declare i64 @bmb_string_contains(ptr nocapture, ptr nocapture) memory(argmem: read) nounwind willreturn speculatable\n\
    declare i64 @bmb_string_index_of(ptr nocapture, ptr nocapture) memory(argmem: read) nounwind willreturn speculatable\n\
    declare ptr @bmb_string_trim(ptr nocapture) nounwind willreturn\n\
    declare ptr @bmb_string_replace(ptr nocapture, ptr nocapture, ptr nocapture) nounwind willreturn\n\
    declare ptr @bmb_string_to_upper(ptr nocapture) nounwind willreturn\n\
    declare ptr @bmb_string_to_lower(ptr nocapture) nounwind willreturn\n\
    declare ptr @bmb_string_repeat(ptr nocapture, i64) nounwind willreturn\n\
    declare i64 @bmb_string_is_empty(ptr nocapture) memory(argmem: read) nounwind willreturn speculatable\n\
    declare ptr @bmb_chr(i64) nounwind willreturn\n\
    declare i64 @bmb_ord(ptr nocapture) memory(argmem: read) nounwind willreturn speculatable\n\
    declare void @bmb_print_str(ptr) nounwind\n\
    \n\
    ; Runtime declarations - File I/O\n\
    declare i64 @bmb_file_exists(ptr)\n\
    declare i64 @bmb_file_size(ptr)\n\
    declare ptr @bmb_read_file(ptr)\n\
    declare i64 @bmb_write_file(ptr, ptr)\n\
    declare i64 @write_file_newlines(ptr, ptr)\n\
    declare i64 @bmb_append_file(ptr, ptr)\n\
    \n\
    ; Runtime declarations - StringBuilder\n\
    declare i64 @bmb_sb_new()\n\
    declare i64 @bmb_sb_with_capacity(i64)\n\
    declare i64 @bmb_sb_push(i64, ptr)\n\
    declare i64 @bmb_sb_push_char(i64, i64)\n\
    declare i64 @bmb_sb_push_int(i64, i64)\n\
    declare i64 @bmb_sb_push_escaped(i64, ptr)\n\
    declare i64 @bmb_sb_push_range(i64, ptr, i64, i64)\n\
    declare i64 @bmb_sb_len(i64)\n\
    declare ptr @bmb_sb_build(i64)\n\
    declare i64 @bmb_sb_clear(i64)\n\
    declare i64 @bmb_sb_contains(i64, ptr)\n\
    declare i64 @bmb_sb_println(i64)\n\
    \n\
    ; Runtime declarations - Process execution\n\
    declare i64 @bmb_system(ptr)\n\
    declare ptr @bmb_system_capture(ptr)\n\
    declare ptr @bmb_exec_output(ptr, ptr)\n\
    declare ptr @bmb_getenv(ptr)\n\
    \n\
    ; Runtime declarations - Memory management (v0.88.2)\n\
    declare i64 @bmb_string_free(ptr)\n\
    declare i64 @free_string(ptr)\n\
    declare i64 @bmb_sb_free(i64)\n\
    declare i64 @sb_free(i64)\n\
    declare i64 @bmb_arena_mode(i64)\n\
    declare i64 @arena_mode(i64)\n\
    declare i64 @bmb_arena_reset()\n\
    declare i64 @arena_reset()\n\
    declare i64 @bmb_arena_save()\n\
    declare i64 @arena_save()\n\
    declare i64 @bmb_arena_restore()\n\
    declare i64 @arena_restore()\n\
    declare i64 @bmb_arena_usage()\n\
    declare i64 @arena_usage()\n\
    \n\
    ; Runtime declarations - Timing (v0.63)\n\
    declare i64 @bmb_time_ns() nounwind willreturn\n\
    declare i64 @time_ns() nounwind willreturn\n\
    \n\
    ; Runtime declarations - Threading (v0.70)\n\
    declare i64 @bmb_spawn(ptr, ptr) nounwind\n\
    declare i64 @bmb_join(i64) nounwind\n\
    \n\
    ; Runtime declarations - Mutex (v0.71)\n\
    declare i64 @bmb_mutex_new(i64) nounwind\n\
    declare i64 @bmb_mutex_lock(i64) nounwind\n\
    declare void @bmb_mutex_unlock(i64, i64) nounwind\n\
    declare i64 @bmb_mutex_try_lock(i64) nounwind\n\
    declare void @bmb_mutex_free(i64) nounwind\n\
    \n\
    ; Runtime declarations - Arc (v0.72)\n\
    declare i64 @bmb_arc_new(i64) nounwind\n\
    declare i64 @bmb_arc_clone(i64) nounwind\n\
    declare i64 @bmb_arc_get(i64) nounwind\n\
    declare void @bmb_arc_drop(i64) nounwind\n\
    declare i64 @bmb_arc_strong_count(i64) nounwind\n\
    \n\
    ; Runtime declarations - Channel (v0.73)\n\
    declare void @bmb_channel_new(i64, ptr, ptr) nounwind\n\
    declare void @bmb_channel_send(i64, i64) nounwind\n\
    declare i64 @bmb_channel_recv(i64) nounwind\n\
    declare i64 @bmb_channel_try_send(i64, i64) nounwind\n\
    declare i64 @bmb_channel_try_recv(i64, ptr) nounwind\n\
    declare i64 @bmb_channel_recv_timeout(i64, i64, ptr) nounwind\n\
    declare i64 @bmb_sender_clone(i64) nounwind\n\
    declare i64 @bmb_block_on(i64) nounwind\n\
    declare i64 @bmb_channel_send_timeout(i64, i64, i64) nounwind\n\
    declare void @bmb_channel_close(i64) nounwind\n\
    declare i64 @bmb_channel_is_closed(i64) nounwind\n\
    declare i64 @bmb_channel_recv_opt(i64, ptr) nounwind\n\
    \n\
    ; Runtime declarations - RwLock (v0.74)\n\
    declare i64 @bmb_rwlock_new(i64) nounwind\n\
    declare i64 @bmb_rwlock_read(i64) nounwind\n\
    declare void @bmb_rwlock_read_unlock(i64) nounwind\n\
    declare i64 @bmb_rwlock_write(i64) nounwind\n\
    declare void @bmb_rwlock_write_unlock(i64, i64) nounwind\n\
    declare void @bmb_rwlock_free(i64) nounwind\n\
    \n\
    ; Runtime declarations - Barrier (v0.74)\n\
    declare i64 @bmb_barrier_new(i64) nounwind\n\
    declare i64 @bmb_barrier_wait(i64) nounwind\n\
    declare void @bmb_barrier_free(i64) nounwind\n\
    \n\
    ; Runtime declarations - Condvar (v0.74)\n\
    declare i64 @bmb_condvar_new() nounwind\n\
    declare i64 @bmb_condvar_wait(i64, i64) nounwind\n\
    declare void @bmb_condvar_notify_one(i64) nounwind\n\
    declare void @bmb_condvar_notify_all(i64) nounwind\n\
    declare void @bmb_condvar_free(i64) nounwind\n\
    \n\
    ; Runtime declarations - Async/Await (v0.75)\n\
    declare i64 @__future_await(i64) nounwind\n\
    \n\
    ; Runtime declarations - AsyncFile (v0.83)\n\
    declare i64 @bmb_async_file_open(i64) nounwind\n\
    declare i64 @bmb_async_file_read(i64) nounwind\n\
    declare void @bmb_async_file_write(i64, i64) nounwind\n\
    declare void @bmb_async_file_close(i64) nounwind\n\
    \n\
    ; Runtime declarations - AsyncSocket (v0.83.1)\n\
    declare i64 @bmb_async_socket_connect(i64, i64) nounwind\n\
    declare i64 @bmb_async_socket_read(i64) nounwind\n\
    declare void @bmb_async_socket_write(i64, i64) nounwind\n\
    declare void @bmb_async_socket_close(i64) nounwind\n\
    \n\
    ; Runtime declarations - ThreadPool (v0.84)\n\
    declare i64 @bmb_thread_pool_new(i64) nounwind\n\
    declare void @bmb_thread_pool_execute(i64, i64) nounwind\n\
    declare void @bmb_thread_pool_join(i64) nounwind\n\
    declare void @bmb_thread_pool_shutdown(i64) nounwind\n\
    \n\
    ; Runtime declarations - Scope (v0.85)\n\
    declare i64 @bmb_scope_new() nounwind\n\
    declare void @bmb_scope_spawn(i64, i64) nounwind\n\
    declare void @bmb_scope_wait(i64) nounwind\n\
    \n\
    ; Runtime declarations - CLI arguments\n\
    declare i64 @arg_count()\n\
    declare ptr @get_arg(i64)\n\
    \n\
    ; Runtime declarations - Method name wrappers\n\
    declare i64 @len(ptr nocapture) memory(argmem: read) nounwind willreturn speculatable\n\
    declare i64 @char_at(ptr nocapture, i64) memory(argmem: read) nounwind willreturn speculatable\n\
    declare i64 @byte_at(ptr nocapture, i64) memory(argmem: read) nounwind willreturn speculatable\n\
    declare ptr @slice(ptr, i64, i64) memory(argmem: read) nounwind willreturn\n\
    declare ptr @chr(i64) nounwind willreturn\n\
    declare i64 @ord(ptr) memory(argmem: read) nounwind willreturn\n\
    declare ptr @char_to_string(i32)\n\
    declare void @print_str(ptr)\n\
    declare void @println_str(ptr)\n\
    \n\
    declare i64 @file_exists(ptr)\n\
    declare i64 @file_exists_cstr(ptr)\n\
    declare i64 @bmb_file_exists_cstr(ptr)\n\
    declare i64 @file_size(ptr)\n\
    declare ptr @read_file(ptr)\n\
    declare i64 @write_file(ptr, ptr)\n\
    declare i64 @append_file(ptr, ptr)\n\
    \n\
    declare i64 @sb_new() nounwind\n\
    declare i64 @sb_with_capacity(i64) nounwind\n\
    declare i64 @sb_push(i64, ptr) nounwind\n\
    declare i64 @sb_push_cstr(i64, ptr) nounwind\n\
    declare i64 @sb_push_char(i64, i64) nounwind\n\
    declare i64 @sb_push_int(i64, i64) nounwind\n\
    declare i64 @sb_push_escaped(i64, ptr) nounwind\n\
    declare i64 @sb_push_range(i64, ptr, i64, i64) nounwind\n\
    declare i64 @sb_len(i64) nounwind willreturn\n\
    declare ptr @sb_build(i64) nounwind\n\
    declare i64 @sb_clear(i64) nounwind\n\
    declare i64 @sb_contains(i64, ptr) nounwind\n\
    declare i64 @sb_println(i64) nounwind\n\
    declare i64 @puts_cstr(ptr) nounwind\n\
    \n\
    ; Runtime declarations - String HashMap\n\
    declare i64 @strmap_new() nounwind\n\
    declare i64 @strmap_insert(i64, ptr, i64) nounwind\n\
    declare i64 @strmap_get(i64, ptr) nounwind\n\
    declare i64 @strmap_contains(i64, ptr) nounwind\n\
    declare i64 @strmap_size(i64) nounwind\n\
    \n\
    ; Runtime declarations - Math intrinsics\n\
    declare double @llvm.sqrt.f64(double)\n\
    declare double @llvm.sin.f64(double)\n\
    declare double @llvm.cos.f64(double)\n\
    declare double @llvm.floor.f64(double)\n\
    declare double @llvm.ceil.f64(double)\n\
    declare double @llvm.fabs.f64(double)\n\
    declare double @llvm.pow.f64(double, double)\n\
    declare double @llvm.fma.f64(double, double, double)\n\
    declare void @llvm.memcpy.p0.p0.i64(ptr, ptr, i64, i1)\n\
    declare void @llvm.memset.p0.i64(ptr, i8, i64, i1)\n\
    \n\
    ; Runtime declarations - Memory allocation\n\
    declare noalias ptr @malloc(i64) nounwind allocsize(0)\n\
    declare noalias ptr @realloc(ptr, i64) nounwind allocsize(1)\n\
    declare void @free(ptr nocapture) nounwind\n\
    declare noalias ptr @calloc(i64, i64) nounwind allocsize(0,1)\n\
    \n\
    ; Runtime declarations - Low-level memory access\n\
    declare i64 @load_u8(i64) memory(read) nounwind willreturn speculatable\n\
    declare void @store_u8(i64, i64) memory(write) nounwind willreturn\n\
    declare i64 @str_data(ptr nocapture) memory(argmem: read) nounwind willreturn speculatable\n\
    \n\
    ; Runtime declarations - Vector\n\
    declare i64 @vec_new() nounwind\n\
    declare void @vec_free(i64) nounwind\n\
    declare i64 @vec_len(i64) nounwind willreturn\n\
    declare i64 @vec_get(i64, i64) nounwind willreturn\n\
    declare void @vec_set(i64, i64, i64) nounwind\n\
    declare void @vec_push(i64, i64) nounwind\n\
    declare void @bmb_vec_push(i64, i64) nounwind\n\
    \n\
    ; Runtime declarations - Hashmap\n\
    declare i64 @hashmap_new() nounwind\n\
    declare i64 @hashmap_insert(i64, i64, i64) nounwind\n\
    declare i64 @hashmap_get(i64, i64) nounwind willreturn\n\
    declare i64 @hashmap_remove(i64, i64) nounwind\n\
    declare i64 @hashmap_len(i64) nounwind willreturn\n\
    declare i64 @hashmap_contains(i64, i64) nounwind willreturn\n\
    declare void @hashmap_free(i64) nounwind\n\
    \n\
    ; Runtime declarations - String Hashmap\n\
    declare ptr @str_hashmap_new() nounwind\n\
    declare i64 @str_hashmap_insert(ptr, ptr, i64) nounwind\n\
    declare i64 @str_hashmap_get(ptr, ptr) nounwind willreturn\n\
    declare void @str_hashmap_free(ptr) nounwind\n\
    declare ptr @reg_cached_lookup(ptr, ptr, i64) nounwind willreturn\n\
    \n\
";

/// Appends the LLVM types of some fields, separated by `, `.
fn append_field_types(out: &mut String, fields: &Vec<(String, MirType)>, cg: &TextCodeGen)
    ensures
        final(out)@ == old(out)@ + field_types_text(fields@),
{
    let mut i: usize = 0;
    while i < fields.len()
        invariant
            i <= fields.len(),
            out@ == old(out)@ + field_types_text(fields@.subrange(0, i as int)),
        decreases fields.len() - i,
    {
        if i > 0 {
            push_str(out, ", ");
        }
        push_str(out, cg.mir_type_to_llvm(&fields[i].1));
        assert(fields@.subrange(0, i + 1).drop_last() =~= fields@.subrange(0, i as int));
        i = i + 1;
        assert(out@ =~= old(out)@ + field_types_text(fields@.subrange(0, i as int)));
    }
    assert(fields@.subrange(0, fields.len() as int) =~= fields@);
}

/// The positions of the struct definitions sorted by name; equal names
/// keep their relative order.
fn sort_by_name(defs: &Vec<(String, Vec<(String, MirType)>)>) -> (order: Vec<usize>)
    ensures
        is_order_of(order@.map_values(|k: usize| k as int), defs@.len()),
        sorted_by_name(defs@, order@.map_values(|k: usize| k as int)),
{
    let mut order: Vec<usize> = Vec::new();
    let mut i: usize = 0;
    while i < defs.len()
        invariant
            i <= defs.len(),
            is_order_of(order@.map_values(|k: usize| k as int), i as nat),
            sorted_by_name(defs@, order@.map_values(|k: usize| k as int)),
        decreases defs.len() - i,
    {
        let ghost before = order@.map_values(|k: usize| k as int);
        proof {
            assert forall|k: int| 0 <= k < order@.len() implies 0 <= #[trigger] order@[k] < i by {
                assert(before[k] == order@[k] as int);
            }
        }
        // The first position whose name comes after the new one.
        let mut p: usize = 0;
        while p < order.len() && !str_lt(defs[i].0.as_str(), defs[order[p]].0.as_str())
            invariant
                p <= order.len(),
                i < defs.len(),
                order@.len() == i,
                forall|k: int| 0 <= k < order@.len() ==> 0 <= #[trigger] order@[k] < i,
                forall|k: int| 0 <= k < p ==> !seq_lt(defs@[i as int].0@, defs@[order@[k] as int].0@),
            decreases order.len() - p,
        {
            p = p + 1;
        }
        order.insert(p, i);
        let ghost after = order@.map_values(|k: usize| k as int);
        proof {
            assert(after =~= before.insert(p as int, i as int));
            assert forall|a: int, b: int| 0 <= a < b < after.len() implies !seq_lt(
                defs@[after[b]].0@,
                defs@[after[a]].0@,
            ) by {
                let x = defs@[i as int].0@;
                if a == p {
                    // after[b] = before[b - 1], at or past p
                    if b - 1 > p as int {
                        if seq_lt(defs@[before[b - 1]].0@, x) {
                            // x < before[p] <= before[b - 1]
                            lemma_seq_lt_trans(defs@[before[b - 1]].0@, x, defs@[before[p as int]].0@);
                        }
                    } else {
                        lemma_seq_lt_asym(x, defs@[before[p as int]].0@);
                    }
                } else if b == p {
                    assert(!seq_lt(x, defs@[before[a]].0@));
                } else {
                    let aa = if a < p { a } else { a - 1 };
                    let bb = if b < p { b } else { b - 1 };
                    assert(after[a] == before[aa]);
                    assert(after[b] == before[bb]);
                }
            }
        }
        i = i + 1;
    }
    order
}

/// Appends the struct definitions at the positions `order`.
fn append_struct_lines(
    out: &mut String,
    defs: &Vec<(String, Vec<(String, MirType)>)>,
    order: &Vec<usize>,
    cg: &TextCodeGen,
)
    requires
        forall|k: int| 0 <= k < order@.len() ==> #[trigger] order@[k] < defs@.len(),
    ensures
        final(out)@ == old(out)@ + struct_lines(defs@, order@.map_values(|k: usize| k as int)),
{
    let mut j: usize = 0;
    while j < order.len()
        invariant
            j <= order.len(),
            forall|k: int| 0 <= k < order@.len() ==> #[trigger] order@[k] < defs@.len(),
            out@ == old(out)@ + struct_lines(
                defs@,
                order@.subrange(0, j as int).map_values(|k: usize| k as int),
            ),
        decreases order.len() - j,
    {
        let d = &defs[order[j]];
        push_str(out, "%struct.");
        push_str(out, d.0.as_str());
        push_str(out, " = type { ");
        append_field_types(out, &d.1, cg);
        push_str(out, " }\n");
        assert(order@.subrange(0, j + 1).map_values(|k: usize| k as int).drop_last()
            =~= order@.subrange(0, j as int).map_values(|k: usize| k as int));
        j = j + 1;
        assert(out@ =~= old(out)@ + struct_lines(
            defs@,
            order@.subrange(0, j as int).map_values(|k: usize| k as int),
        ));
    }
    assert(order@.subrange(0, order.len() as int) =~= order@);
}

/// Appends the two globals of one string constant.
fn append_string_global(out: &mut String, content: &str, name: &str, cg: &TextCodeGen)
    ensures
        final(out)@ == old(out)@ + string_global_text(content@, name@),
{
    let n = content.as_bytes().len();
    push_str(out, "@");
    push_str(out, name);
    push_str(out, " = private unnamed_addr constant [");
    append_u128(out, (n as u128) + 1);
    push_str(out, " x i8] c\"");
    let esc = cg.escape_string_for_llvm(content);
    push_str(out, esc.as_str());
    push_str(out, "\\00\"\n");
    push_str(out, "@");
    push_str(out, name);
    push_str(out, ".bmb = private unnamed_addr global %BmbString { ptr @");
    push_str(out, name);
    push_str(out, ", i64 ");
    let len_field: i64 = #[verifier::truncate] (n as i64);
    append_i64(out, len_field);
    push_str(out, ", i64 ");
    append_i64(out, len_field);
    push_str(out, " }\n");
    assert(final(out)@ =~= old(out)@ + string_global_text(content@, name@));
}

impl TextCodeGen {
    /// Appends the module header.
    pub fn emit_header(&self, out: &mut String)
        ensures
            final(out)@ == old(out)@ + header_text(self.target_triple@),
    {
        push_str(out, "; ModuleID = bmb_program\n");
        push_str(out, "target datalayout = \"");
        push_str(out, Self::target_datalayout(self.target_triple.as_str()));
        push_str(out, "\"\n");
        push_str(out, "target triple = \"");
        push_str(out, self.target_triple.as_str());
        push_str(out, "\"\n");
        push_str(out, "\n");
        assert(final(out)@ =~= old(out)@ + header_text(self.target_triple@));
    }

    /// Appends the struct type definitions, sorted by name.
    pub fn emit_struct_types(&self, out: &mut String, struct_defs: &Vec<(String, Vec<(String, MirType)>)>)
        ensures
            exists|order: Seq<int>|
                is_order_of(order, struct_defs@.len()) && sorted_by_name(struct_defs@, order)
                    && final(out)@ == old(out)@ + struct_types_text(struct_defs@, order),
    {
        let order = sort_by_name(struct_defs);
        let ghost ord = order@.map_values(|k: usize| k as int);
        if struct_defs.len() == 0 {
            assert(final(out)@ =~= old(out)@ + struct_types_text(struct_defs@, ord));
            return;
        }
        push_str(out, "; Struct type definitions\n");
        proof {
            assert forall|k: int| 0 <= k < order@.len() implies #[trigger] order@[k] < struct_defs@.len() by {
                assert(ord[k] == order@[k] as int);
            }
        }
        append_struct_lines(out, struct_defs, &order, self);
        push_str(out, "\n");
        assert(final(out)@ =~= old(out)@ + struct_types_text(struct_defs@, ord));
    }

    /// Appends the string globals of a string table, in table order.
    pub fn emit_string_globals(&self, out: &mut String, table: &NameMap<String>)
        ensures
            final(out)@ == old(out)@ + string_globals_text(table.entries@),
    {
        if table.entries.len() == 0 {
            assert(final(out)@ =~= old(out)@ + string_globals_text(table.entries@));
            return;
        }
        push_str(out, "; BmbString struct type\n");
        push_str(out, "%BmbString = type { ptr, i64, i64 }\n");
        push_str(out, "\n");
        push_str(out, "; String constants\n");
        let ghost start = out@;
        let mut i: usize = 0;
        while i < table.entries.len()
            invariant
                i <= table.entries.len(),
                out@ == start + string_globals_lines(table.entries@.subrange(0, i as int)),
            decreases table.entries.len() - i,
        {
            append_string_global(out, table.entries[i].0.as_str(), table.entries[i].1.as_str(), self);
            assert(table.entries@.subrange(0, i + 1).drop_last() =~= table.entries@.subrange(0, i as int));
            i = i + 1;
            assert(out@ =~= start + string_globals_lines(table.entries@.subrange(0, i as int)));
        }
        assert(table.entries@.subrange(0, table.entries.len() as int) =~= table.entries@);
        push_str(out, "\n");
        assert(final(out)@ =~= old(out)@ + string_globals_text(table.entries@));
    }

    /// Appends the runtime function declarations.
    pub fn emit_runtime_declarations(&self, out: &mut String)
        ensures
            final(out)@ == old(out)@ + RUNTIME_DECLARATIONS@,
    {
        push_str(out, RUNTIME_DECLARATIONS);
    }
}

} // verus!
