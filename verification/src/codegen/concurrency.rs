//! LLVM IR text of the MIR instructions of threads, locks, atomics,
//! channels, asynchronous I/O, thread pools and scopes. Most of them are
//! calls of the runtime's entry points on `i64` handles.

use vstd::prelude::*;

use crate::codegen::instructions::{append_def, concat, concat3, def_line, fresh, store_if_local, FunctionInfo};
use crate::codegen::llvm_text::{operand_text, TextCodeGen};
use crate::codegen::memory::{named_after, named_after_str, slot_read};
use crate::codegen::names::{count_map, NameMap};
use crate::mir::{MirInst, Operand};
use crate::text::push_str;

verus! {

/// One `i64` argument.
pub open spec fn arg1(a: Operand) -> Seq<char> {
    "i64 "@ + operand_text(a)
}

/// Two `i64` arguments.
pub open spec fn arg2(a: Operand, b: Operand) -> Seq<char> {
    arg1(a) + ", "@ + arg1(b)
}

/// Three `i64` arguments.
pub open spec fn arg3(a: Operand, b: Operand, c: Operand) -> Seq<char> {
    arg2(a, b) + ", "@ + arg1(c)
}

/// `  %<d> = call i64 @<f>(<args>)`
pub open spec fn result_call(d: Seq<char>, f: Seq<char>, args: Seq<char>) -> Seq<char> {
    def_line(d, "call i64 @"@ + f + "("@ + args + ")"@)
}

/// `  call void @<f>(<args>)`
pub open spec fn void_call(f: Seq<char>, args: Seq<char>) -> Seq<char> {
    "  call void @"@ + f + "("@ + args + ")\n"@
}

/// A call whose `i64` result is defined as `%<d>` and stored into the slot
/// of `d`, if it has one.
pub open spec fn kept_call(info: FunctionInfo, d: Seq<char>, f: Seq<char>, args: Seq<char>) -> Seq<char> {
    result_call(d, f, args) + store_if_local(info, d, "i64"@, d)
}

/// The read of a lock or thread handle: a local's slot loaded into a fresh
/// temporary named after it.
pub open spec fn handle_read(
    info: FunctionInfo,
    op: Operand,
    counts: Map<Seq<char>, u32>,
) -> (Seq<char>, Seq<char>, Map<Seq<char>, u32>) {
    slot_read(info, op, named_after(op, "_load"@), "i64"@, counts)
}

/// Threads, mutexes and reference-counted cells. A spawned thread runs
/// synchronously: its handle is the value of its first capture, and
/// joining it gives the handle back.
pub open spec fn thread_sync_text(
    inst: MirInst,
    info: FunctionInfo,
    counts: Map<Seq<char>, u32>,
) -> (Seq<char>, Map<Seq<char>, u32>) {
    match inst {
        MirInst::ThreadSpawn { dest, captures, .. } => {
            let d = dest.name@;
            let v = if captures@.len() > 0 { operand_text(captures@[0]) } else { "0"@ };
            (
                "  ; Phase 1: ThreadSpawn - body executed synchronously\n"@ + def_line(d, "add i64 "@ + v + ", 0"@)
                    + store_if_local(info, d, "i64"@, d),
                counts,
            )
        },
        MirInst::ThreadJoin { dest, handle } => {
            let (l, hv, c1) = handle_read(info, handle, counts);
            let tail = match dest {
                Some(p) => def_line(p.name@, "add i64 "@ + hv + ", 0"@) + store_if_local(info, p.name@, "i64"@, p.name@),
                None => Seq::empty(),
            };
            ("  ; Phase 1: ThreadJoin - handle is the result\n"@ + l + tail, c1)
        },
        MirInst::MutexNew { dest, initial_value } => (
            kept_call(info, dest.name@, "bmb_mutex_new"@, arg1(initial_value)),
            counts,
        ),
        MirInst::MutexLock { dest, mutex } => {
            let (l, mv, c1) = handle_read(info, mutex, counts);
            (l + kept_call(info, dest.name@, "bmb_mutex_lock"@, "i64 "@ + mv), c1)
        },
        MirInst::MutexUnlock { mutex, new_value } => {
            let (l, mv, c1) = handle_read(info, mutex, counts);
            (l + void_call("bmb_mutex_unlock"@, "i64 "@ + mv + ", "@ + arg1(new_value)), c1)
        },
        MirInst::MutexTryLock { dest, mutex } => {
            let (l, mv, c1) = handle_read(info, mutex, counts);
            (l + kept_call(info, dest.name@, "bmb_mutex_try_lock"@, "i64 "@ + mv), c1)
        },
        MirInst::MutexFree { mutex } => {
            let (l, mv, c1) = handle_read(info, mutex, counts);
            (l + void_call("bmb_mutex_free"@, "i64 "@ + mv), c1)
        },
        MirInst::ArcNew { dest, value } => (kept_call(info, dest.name@, "bmb_arc_new"@, arg1(value)), counts),
        MirInst::ArcClone { dest, arc } => (kept_call(info, dest.name@, "bmb_arc_clone"@, arg1(arc)), counts),
        MirInst::ArcGet { dest, arc } => (kept_call(info, dest.name@, "bmb_arc_get"@, arg1(arc)), counts),
        MirInst::ArcDrop { arc } => (void_call("bmb_arc_drop"@, arg1(arc)), counts),
        MirInst::ArcStrongCount { dest, arc } => (
            kept_call(info, dest.name@, "bmb_arc_strong_count"@, arg1(arc)),
            counts,
        ),
        _ => (Seq::empty(), counts),
    }
}

/// `  %<d>_ptr = inttoptr i64 <p> to ptr`
pub open spec fn int_ptr(d: Seq<char>, p: Operand) -> Seq<char> {
    def_line(d + "_ptr"@, "inttoptr i64 "@ + operand_text(p) + " to ptr"@)
}

/// An atomic read-modify-write of the cell `p` by `v`, its old value into
/// `d`.
pub open spec fn atomic_rmw(info: FunctionInfo, d: Seq<char>, p: Operand, op: Seq<char>, v: Operand) -> Seq<char> {
    int_ptr(d, p) + def_line(d, "atomicrmw "@ + op + " ptr %"@ + d + "_ptr, i64 "@ + operand_text(v) + " seq_cst, align 8"@)
        + store_if_local(info, d, "i64"@, d)
}

/// A new atomic cell: a heap word holding `value`, its address in `d`.
pub open spec fn atomic_new_text(info: FunctionInfo, d: Seq<char>, value: Operand) -> Seq<char> {
    def_line(d + "_ptr"@, "call ptr @malloc(i64 8)"@) + "  store atomic i64 "@ + operand_text(value) + ", ptr %"@ + d
        + "_ptr seq_cst, align 8\n"@ + def_line(d, "ptrtoint ptr %"@ + d + "_ptr to i64"@) + store_if_local(
        info,
        d,
        "i64"@,
        d,
    )
}

/// An atomic store of `value` into the cell `ptr`.
pub open spec fn atomic_store_text(ptr: Operand, value: Operand, counts: Map<Seq<char>, u32>) -> (Seq<char>, Map<Seq<char>, u32>) {
    let (n, c1) = fresh(counts, "atomic_store_ptr"@);
    (
        def_line(n, "inttoptr i64 "@ + operand_text(ptr) + " to ptr"@) + "  store atomic i64 "@ + operand_text(value)
            + ", ptr %"@ + n + " seq_cst, align 8\n"@,
        c1,
    )
}

/// An atomic compare-and-exchange on the cell `ptr`, the old value into
/// `d`.
pub open spec fn compare_exchange_text(info: FunctionInfo, d: Seq<char>, ptr: Operand, expected: Operand, new_value: Operand) -> Seq<char> {
    int_ptr(d, ptr) + def_line(
        d + "_result"@,
        "cmpxchg ptr %"@ + d + "_ptr, i64 "@ + operand_text(expected) + ", i64 "@ + operand_text(new_value)
            + " seq_cst seq_cst, align 8"@,
    ) + def_line(d, "extractvalue { i64, i1 } %"@ + d + "_result, 0"@) + store_if_local(info, d, "i64"@, d)
}

/// Atomic cells: a heap word read and written with sequentially
/// consistent atomic instructions.
pub open spec fn atomic_text(
    inst: MirInst,
    info: FunctionInfo,
    counts: Map<Seq<char>, u32>,
) -> (Seq<char>, Map<Seq<char>, u32>) {
    match inst {
        MirInst::AtomicNew { dest, value } => (atomic_new_text(info, dest.name@, value), counts),
        MirInst::AtomicLoad { dest, ptr } => {
            let d = dest.name@;
            (
                int_ptr(d, ptr) + def_line(d, "load atomic i64, ptr %"@ + d + "_ptr seq_cst, align 8"@)
                    + store_if_local(info, d, "i64"@, d),
                counts,
            )
        },
        MirInst::AtomicStore { ptr, value } => atomic_store_text(ptr, value, counts),
        MirInst::AtomicFetchAdd { dest, ptr, delta } => (atomic_rmw(info, dest.name@, ptr, "add"@, delta), counts),
        MirInst::AtomicFetchSub { dest, ptr, delta } => (atomic_rmw(info, dest.name@, ptr, "sub"@, delta), counts),
        MirInst::AtomicSwap { dest, ptr, new_value } => (atomic_rmw(info, dest.name@, ptr, "xchg"@, new_value), counts),
        MirInst::AtomicCompareExchange { dest, ptr, expected, new_value } => (
            compare_exchange_text(info, dest.name@, ptr, expected, new_value),
            counts,
        ),
        _ => (Seq::empty(), counts),
    }
}

/// `  %<d><suffix> = alloca i64, align 8`
pub open spec fn word_alloca(d: Seq<char>, suffix: Seq<char>) -> Seq<char> {
    def_line(d + suffix, "alloca i64, align 8"@)
}

/// A new channel: its two ends written by the runtime into stack words,
/// then loaded into `s` and `r`.
pub open spec fn channel_new_text(info: FunctionInfo, s: Seq<char>, r: Seq<char>, cap: Operand) -> Seq<char> {
    word_alloca(s, "_alloc"@) + word_alloca(r, "_alloc"@) + "  call void @bmb_channel_new(i64 "@ + operand_text(cap)
        + ", ptr %"@ + s + "_alloc, ptr %"@ + r + "_alloc)\n"@ + def_line(s, "load i64, ptr %"@ + s + "_alloc"@)
        + def_line(r, "load i64, ptr %"@ + r + "_alloc"@) + store_if_local(info, s, "i64"@, s) + store_if_local(
        info,
        r,
        "i64"@,
        r,
    )
}

/// A receive with a timeout: the received value, or -1 where none came.
pub open spec fn recv_timeout_text(info: FunctionInfo, d: Seq<char>, receiver: Operand, timeout: Operand) -> Seq<char> {
    word_alloca(d, "_alloc"@) + def_line(
        d + "_success"@,
        "call i64 @bmb_channel_recv_timeout("@ + arg2(receiver, timeout) + ", ptr %"@ + d + "_alloc)"@,
    ) + def_line(d + "_loaded"@, "load i64, ptr %"@ + d + "_alloc"@) + def_line(
        d + "_is_success"@,
        "icmp ne i64 %"@ + d + "_success, 0"@,
    ) + def_line(d, "select i1 %"@ + d + "_is_success, i64 %"@ + d + "_loaded, i64 -1"@) + store_if_local(
        info,
        d,
        "i64"@,
        d,
    )
}

/// A receive that tells a closed channel: the received value, or -1.
pub open spec fn recv_opt_text(info: FunctionInfo, d: Seq<char>, receiver: Operand) -> Seq<char> {
    def_line(d + ".ptr"@, "alloca i64"@) + def_line(
        d + ".success"@,
        "call i64 @bmb_channel_recv_opt("@ + arg1(receiver) + ", ptr %"@ + d + ".ptr)"@,
    ) + def_line(d + ".tmp"@, "load i64, ptr %"@ + d + ".ptr"@) + def_line(d + ".cond"@, "icmp eq i64 %"@ + d + ".success, 1"@)
        + def_line(d, "select i1 %"@ + d + ".cond, i64 %"@ + d + ".tmp, i64 -1"@) + store_if_local(info, d, "i64"@, d)
}

/// Channels, and blocking on a future.
pub open spec fn channel_text(
    inst: MirInst,
    info: FunctionInfo,
    counts: Map<Seq<char>, u32>,
) -> (Seq<char>, Map<Seq<char>, u32>) {
    match inst {
        MirInst::ChannelNew { sender_dest, receiver_dest, capacity } => (
            channel_new_text(info, sender_dest.name@, receiver_dest.name@, capacity),
            counts,
        ),
        MirInst::ChannelSend { sender, value } => (void_call("bmb_channel_send"@, arg2(sender, value)), counts),
        MirInst::ChannelRecv { dest, receiver } => (
            kept_call(info, dest.name@, "bmb_channel_recv"@, arg1(receiver)),
            counts,
        ),
        MirInst::ChannelTrySend { dest, sender, value } => (
            kept_call(info, dest.name@, "bmb_channel_try_send"@, arg2(sender, value)),
            counts,
        ),
        MirInst::ChannelTryRecv { dest, receiver } => {
            let d = dest.name@;
            (
                word_alloca(d, "_alloc"@) + def_line(
                    d + "_success"@,
                    "call i64 @bmb_channel_try_recv("@ + arg1(receiver) + ", ptr %"@ + d + "_alloc)"@,
                ) + def_line(d, "load i64, ptr %"@ + d + "_alloc"@) + store_if_local(info, d, "i64"@, d),
                counts,
            )
        },
        MirInst::ChannelRecvTimeout { dest, receiver, timeout_ms } => (
            recv_timeout_text(info, dest.name@, receiver, timeout_ms),
            counts,
        ),
        MirInst::BlockOn { dest, future } => (kept_call(info, dest.name@, "bmb_block_on"@, arg1(future)), counts),
        MirInst::ChannelSendTimeout { dest, sender, value, timeout_ms } => (
            kept_call(info, dest.name@, "bmb_channel_send_timeout"@, arg3(sender, value, timeout_ms)),
            counts,
        ),
        MirInst::ChannelClose { sender } => (void_call("bmb_channel_close"@, arg1(sender)), counts),
        MirInst::ChannelIsClosed { dest, receiver } => (
            kept_call(info, dest.name@, "bmb_channel_is_closed"@, arg1(receiver)),
            counts,
        ),
        MirInst::ChannelRecvOpt { dest, receiver } => (recv_opt_text(info, dest.name@, receiver), counts),
        MirInst::SenderClone { dest, sender } => (
            kept_call(info, dest.name@, "bmb_sender_clone"@, arg1(sender)),
            counts,
        ),
        _ => (Seq::empty(), counts),
    }
}

/// Read-write locks, barriers and condition variables.
pub open spec fn lock_text(inst: MirInst, info: FunctionInfo) -> Seq<char> {
    match inst {
        MirInst::RwLockNew { dest, initial_value } => kept_call(info, dest.name@, "bmb_rwlock_new"@, arg1(initial_value)),
        MirInst::RwLockRead { dest, rwlock } => kept_call(info, dest.name@, "bmb_rwlock_read"@, arg1(rwlock)),
        MirInst::RwLockReadUnlock { rwlock } => void_call("bmb_rwlock_read_unlock"@, arg1(rwlock)),
        MirInst::RwLockWrite { dest, rwlock } => kept_call(info, dest.name@, "bmb_rwlock_write"@, arg1(rwlock)),
        MirInst::RwLockWriteUnlock { rwlock, value } => void_call("bmb_rwlock_write_unlock"@, arg2(rwlock, value)),
        MirInst::BarrierNew { dest, count } => kept_call(info, dest.name@, "bmb_barrier_new"@, arg1(count)),
        MirInst::BarrierWait { dest, barrier } => kept_call(info, dest.name@, "bmb_barrier_wait"@, arg1(barrier)),
        MirInst::CondvarNew { dest } => kept_call(info, dest.name@, "bmb_condvar_new"@, Seq::empty()),
        MirInst::CondvarWait { dest, condvar, mutex } => kept_call(
            info,
            dest.name@,
            "bmb_condvar_wait"@,
            arg2(condvar, mutex),
        ),
        MirInst::CondvarNotifyOne { condvar } => void_call("bmb_condvar_notify_one"@, arg1(condvar)),
        MirInst::CondvarNotifyAll { condvar } => void_call("bmb_condvar_notify_all"@, arg1(condvar)),
        _ => Seq::empty(),
    }
}

/// Asynchronous files and sockets, thread pools and scopes. Their results
/// are defined as temporaries only, never stored into a slot.
pub open spec fn task_text(inst: MirInst) -> Seq<char> {
    match inst {
        MirInst::AsyncFileOpen { dest, path } => result_call(dest.name@, "bmb_async_file_open"@, arg1(path)),
        MirInst::AsyncFileRead { dest, file } => result_call(dest.name@, "bmb_async_file_read"@, arg1(file)),
        MirInst::AsyncFileWrite { file, content } => void_call("bmb_async_file_write"@, arg2(file, content)),
        MirInst::AsyncFileClose { file } => void_call("bmb_async_file_close"@, arg1(file)),
        MirInst::AsyncSocketConnect { dest, host, port } => result_call(
            dest.name@,
            "bmb_async_socket_connect"@,
            arg2(host, port),
        ),
        MirInst::AsyncSocketRead { dest, socket } => result_call(dest.name@, "bmb_async_socket_read"@, arg1(socket)),
        MirInst::AsyncSocketWrite { socket, content } => void_call("bmb_async_socket_write"@, arg2(socket, content)),
        MirInst::AsyncSocketClose { socket } => void_call("bmb_async_socket_close"@, arg1(socket)),
        MirInst::ThreadPoolNew { dest, size } => result_call(dest.name@, "bmb_thread_pool_new"@, arg1(size)),
        MirInst::ThreadPoolExecute { pool, task } => void_call("bmb_thread_pool_execute"@, arg2(pool, task)),
        MirInst::ThreadPoolJoin { pool } => void_call("bmb_thread_pool_join"@, arg1(pool)),
        MirInst::ThreadPoolShutdown { pool } => void_call("bmb_thread_pool_shutdown"@, arg1(pool)),
        MirInst::ScopeNew { dest } => result_call(dest.name@, "bmb_scope_new"@, Seq::empty()),
        MirInst::ScopeSpawn { scope, task } => void_call("bmb_scope_spawn"@, arg2(scope, task)),
        MirInst::ScopeWait { scope } => void_call("bmb_scope_wait"@, arg1(scope)),
        _ => Seq::empty(),
    }
}

/// The text of a concurrency instruction (any instruction outside the
/// groups above gives nothing), and the counters after it.
pub open spec fn concurrency_text(
    inst: MirInst,
    info: FunctionInfo,
    counts: Map<Seq<char>, u32>,
) -> (Seq<char>, Map<Seq<char>, u32>) {
    match inst {
        MirInst::ThreadSpawn { .. } | MirInst::ThreadJoin { .. } | MirInst::MutexNew { .. } | MirInst::MutexLock { .. }
        | MirInst::MutexUnlock { .. } | MirInst::MutexTryLock { .. } | MirInst::MutexFree { .. } | MirInst::ArcNew { .. }
        | MirInst::ArcClone { .. } | MirInst::ArcGet { .. } | MirInst::ArcDrop { .. } | MirInst::ArcStrongCount {
            ..
        } => thread_sync_text(inst, info, counts),
        MirInst::AtomicNew { .. } | MirInst::AtomicLoad { .. } | MirInst::AtomicStore { .. } | MirInst::AtomicFetchAdd {
            ..
        } | MirInst::AtomicFetchSub { .. } | MirInst::AtomicSwap { .. } | MirInst::AtomicCompareExchange {
            ..
        } => atomic_text(inst, info, counts),
        MirInst::RwLockNew { .. } | MirInst::RwLockRead { .. } | MirInst::RwLockReadUnlock { .. } | MirInst::RwLockWrite {
            ..
        } | MirInst::RwLockWriteUnlock { .. } | MirInst::BarrierNew { .. } | MirInst::BarrierWait { .. }
        | MirInst::CondvarNew { .. } | MirInst::CondvarWait { .. } | MirInst::CondvarNotifyOne { .. }
        | MirInst::CondvarNotifyAll { .. } => (lock_text(inst, info), counts),
        MirInst::AsyncFileOpen { .. } | MirInst::AsyncFileRead { .. } | MirInst::AsyncFileWrite { .. }
        | MirInst::AsyncFileClose { .. } | MirInst::AsyncSocketConnect { .. } | MirInst::AsyncSocketRead { .. }
        | MirInst::AsyncSocketWrite { .. } | MirInst::AsyncSocketClose { .. } | MirInst::ThreadPoolNew { .. }
        | MirInst::ThreadPoolExecute { .. } | MirInst::ThreadPoolJoin { .. } | MirInst::ThreadPoolShutdown { .. }
        | MirInst::ScopeNew { .. } | MirInst::ScopeSpawn { .. } | MirInst::ScopeWait { .. } => (task_text(inst), counts),
        _ => channel_text(inst, info, counts),
    }
}

/// One `i64` argument, as a new string.
fn arg1_str(cg: &TextCodeGen, a: &Operand) -> (r: String)
    ensures
        r@ == arg1(*a),
{
    let t = cg.format_operand(a);
    concat("i64 ", t.as_str())
}

/// Two `i64` arguments, as a new string.
fn arg2_str(cg: &TextCodeGen, a: &Operand, b: &Operand) -> (r: String)
    ensures
        r@ == arg2(*a, *b),
{
    let mut r = arg1_str(cg, a);
    push_str(&mut r, ", ");
    let t = arg1_str(cg, b);
    push_str(&mut r, t.as_str());
    assert(r@ =~= arg2(*a, *b));
    r
}

/// Three `i64` arguments, as a new string.
fn arg3_str(cg: &TextCodeGen, a: &Operand, b: &Operand, c: &Operand) -> (r: String)
    ensures
        r@ == arg3(*a, *b, *c),
{
    let mut r = arg2_str(cg, a, b);
    push_str(&mut r, ", ");
    let t = arg1_str(cg, c);
    push_str(&mut r, t.as_str());
    assert(r@ =~= arg3(*a, *b, *c));
    r
}

/// Appends a runtime call with an `i64` result.
fn emit_result_call(out: &mut String, d: &str, f: &str, args: &str)
    ensures
        final(out)@ == old(out)@ + result_call(d@, f@, args@),
{
    let mut rest = concat3("call i64 @", f, "(");
    push_str(&mut rest, args);
    push_str(&mut rest, ")");
    assert(rest@ =~= "call i64 @"@ + f@ + "("@ + args@ + ")"@);
    append_def(out, d, rest.as_str());
}

/// Appends a runtime call without a result.
fn emit_void_call(out: &mut String, f: &str, args: &str)
    ensures
        final(out)@ == old(out)@ + void_call(f@, args@),
{
    push_str(out, "  call void @");
    push_str(out, f);
    push_str(out, "(");
    push_str(out, args);
    push_str(out, ")\n");
    assert(final(out)@ =~= old(out)@ + void_call(f@, args@));
}

/// Appends `  %<d><suffix> = alloca i64, align 8`.
fn emit_word_alloca(out: &mut String, d: &str, suffix: &str)
    ensures
        final(out)@ == old(out)@ + word_alloca(d@, suffix@),
{
    let n = concat(d, suffix);
    append_def(out, n.as_str(), "alloca i64, align 8");
}

impl TextCodeGen {
    /// Appends a runtime call whose result is kept in `d`.
    fn emit_kept_call(&self, out: &mut String, d: &str, f: &str, args: &str, info: &FunctionInfo)
        ensures
            final(out)@ == old(out)@ + kept_call(*info, d@, f@, args@),
    {
        emit_result_call(out, d, f, args);
        self.emit_store_if_local(out, d, "i64", d, info);
    }

    /// Appends the read of a handle; gives the value's text.
    fn emit_handle_read(&self, out: &mut String, op: &Operand, info: &FunctionInfo, name_counts: &mut NameMap<u32>) -> (v: String)
        ensures
            final(out)@ == old(out)@ + handle_read(*info, *op, count_map(*old(name_counts))).0,
            v@ == handle_read(*info, *op, count_map(*old(name_counts))).1,
            count_map(*final(name_counts)) == handle_read(*info, *op, count_map(*old(name_counts))).2,
    {
        let base = named_after_str(op, "_load");
        self.emit_slot_read(out, op, base.as_str(), "i64", info, name_counts)
    }

    /// Appends a thread, mutex or reference-counted cell instruction.
    #[verifier::spinoff_prover]
    pub fn emit_thread_sync(&self, out: &mut String, inst: &MirInst, info: &FunctionInfo, name_counts: &mut NameMap<u32>)
        ensures
            final(out)@ == old(out)@ + thread_sync_text(*inst, *info, count_map(*old(name_counts))).0,
            count_map(*final(name_counts)) == thread_sync_text(*inst, *info, count_map(*old(name_counts))).1,
    {
        match inst {
            MirInst::ThreadSpawn { dest, captures, .. } => {
                let d = dest.name.as_str();
                push_str(out, "  ; Phase 1: ThreadSpawn - body executed synchronously\n");
                let v = if captures.len() > 0 { self.format_operand(&captures[0]) } else { "0".to_owned() };
                let r = concat3("add i64 ", v.as_str(), ", 0");
                append_def(out, d, r.as_str());
                self.emit_store_if_local(out, d, "i64", d, info);
            },
            MirInst::ThreadJoin { dest, handle } => {
                push_str(out, "  ; Phase 1: ThreadJoin - handle is the result\n");
                let hv = self.emit_handle_read(out, handle, info, name_counts);
                match dest {
                    Some(p) => {
                        let d = p.name.as_str();
                        let r = concat3("add i64 ", hv.as_str(), ", 0");
                        append_def(out, d, r.as_str());
                        self.emit_store_if_local(out, d, "i64", d, info);
                    },
                    None => {},
                }
            },
            MirInst::MutexNew { dest, initial_value } => {
                let a = arg1_str(self, initial_value);
                self.emit_kept_call(out, dest.name.as_str(), "bmb_mutex_new", a.as_str(), info);
            },
            MirInst::MutexLock { dest, mutex } => {
                let mv = self.emit_handle_read(out, mutex, info, name_counts);
                let a = concat("i64 ", mv.as_str());
                self.emit_kept_call(out, dest.name.as_str(), "bmb_mutex_lock", a.as_str(), info);
            },
            MirInst::MutexUnlock { mutex, new_value } => {
                let mv = self.emit_handle_read(out, mutex, info, name_counts);
                let mut a = concat3("i64 ", mv.as_str(), ", ");
                let b = arg1_str(self, new_value);
                push_str(&mut a, b.as_str());
                emit_void_call(out, "bmb_mutex_unlock", a.as_str());
            },
            MirInst::MutexTryLock { dest, mutex } => {
                let mv = self.emit_handle_read(out, mutex, info, name_counts);
                let a = concat("i64 ", mv.as_str());
                self.emit_kept_call(out, dest.name.as_str(), "bmb_mutex_try_lock", a.as_str(), info);
            },
            MirInst::MutexFree { mutex } => {
                let mv = self.emit_handle_read(out, mutex, info, name_counts);
                let a = concat("i64 ", mv.as_str());
                emit_void_call(out, "bmb_mutex_free", a.as_str());
            },
            MirInst::ArcNew { dest, value } => {
                let a = arg1_str(self, value);
                self.emit_kept_call(out, dest.name.as_str(), "bmb_arc_new", a.as_str(), info);
            },
            MirInst::ArcClone { dest, arc } => {
                let a = arg1_str(self, arc);
                self.emit_kept_call(out, dest.name.as_str(), "bmb_arc_clone", a.as_str(), info);
            },
            MirInst::ArcGet { dest, arc } => {
                let a = arg1_str(self, arc);
                self.emit_kept_call(out, dest.name.as_str(), "bmb_arc_get", a.as_str(), info);
            },
            MirInst::ArcDrop { arc } => {
                let a = arg1_str(self, arc);
                emit_void_call(out, "bmb_arc_drop", a.as_str());
            },
            MirInst::ArcStrongCount { dest, arc } => {
                let a = arg1_str(self, arc);
                self.emit_kept_call(out, dest.name.as_str(), "bmb_arc_strong_count", a.as_str(), info);
            },
            _ => {},
        }
        assert(final(out)@ =~= old(out)@ + thread_sync_text(*inst, *info, count_map(*old(name_counts))).0);
    }

    /// Appends `  %<d>_ptr = inttoptr i64 <p> to ptr`.
    fn emit_int_ptr(&self, out: &mut String, d: &str, p: &Operand)
        ensures
            final(out)@ == old(out)@ + int_ptr(d@, *p),
    {
        let n = concat(d, "_ptr");
        let v = self.format_operand(p);
        let r = concat3("inttoptr i64 ", v.as_str(), " to ptr");
        append_def(out, n.as_str(), r.as_str());
    }

    /// Appends an atomic read-modify-write.
    fn emit_atomic_rmw(&self, out: &mut String, d: &str, p: &Operand, op: &str, v: &Operand, info: &FunctionInfo)
        ensures
            final(out)@ == old(out)@ + atomic_rmw(*info, d@, *p, op@, *v),
    {
        self.emit_int_ptr(out, d, p);
        let mut r = concat3("atomicrmw ", op, " ptr %");
        push_str(&mut r, d);
        push_str(&mut r, "_ptr, i64 ");
        let t = self.format_operand(v);
        push_str(&mut r, t.as_str());
        push_str(&mut r, " seq_cst, align 8");
        assert(r@ =~= "atomicrmw "@ + op@ + " ptr %"@ + d@ + "_ptr, i64 "@ + operand_text(*v) + " seq_cst, align 8"@);
        append_def(out, d, r.as_str());
        self.emit_store_if_local(out, d, "i64", d, info);
        assert(final(out)@ =~= old(out)@ + atomic_rmw(*info, d@, *p, op@, *v));
    }

    /// Appends the creation of an atomic cell.
    fn emit_atomic_new(&self, out: &mut String, d: &str, value: &Operand, info: &FunctionInfo)
        ensures
            final(out)@ == old(out)@ + atomic_new_text(*info, d@, *value),
    {
        let n = concat(d, "_ptr");
        append_def(out, n.as_str(), "call ptr @malloc(i64 8)");
        push_str(out, "  store atomic i64 ");
        let v = self.format_operand(value);
        push_str(out, v.as_str());
        push_str(out, ", ptr %");
        push_str(out, d);
        push_str(out, "_ptr seq_cst, align 8\n");
        let r = concat3("ptrtoint ptr %", d, "_ptr to i64");
        append_def(out, d, r.as_str());
        self.emit_store_if_local(out, d, "i64", d, info);
        assert(final(out)@ =~= old(out)@ + atomic_new_text(*info, d@, *value));
    }

    /// Appends an atomic store.
    fn emit_atomic_store(&self, out: &mut String, ptr: &Operand, value: &Operand, name_counts: &mut NameMap<u32>)
        ensures
            final(out)@ == old(out)@ + atomic_store_text(*ptr, *value, count_map(*old(name_counts))).0,
            count_map(*final(name_counts)) == atomic_store_text(*ptr, *value, count_map(*old(name_counts))).1,
    {
        let n = self.unique_name("atomic_store_ptr", name_counts);
        let p = self.format_operand(ptr);
        let r = concat3("inttoptr i64 ", p.as_str(), " to ptr");
        append_def(out, n.as_str(), r.as_str());
        push_str(out, "  store atomic i64 ");
        let v = self.format_operand(value);
        push_str(out, v.as_str());
        push_str(out, ", ptr %");
        push_str(out, n.as_str());
        push_str(out, " seq_cst, align 8\n");
        assert(final(out)@ =~= old(out)@ + atomic_store_text(*ptr, *value, count_map(*old(name_counts))).0);
    }

    /// Appends an atomic compare-and-exchange.
    fn emit_compare_exchange(
        &self,
        out: &mut String,
        d: &str,
        ptr: &Operand,
        expected: &Operand,
        new_value: &Operand,
        info: &FunctionInfo,
    )
        ensures
            final(out)@ == old(out)@ + compare_exchange_text(*info, d@, *ptr, *expected, *new_value),
    {
        self.emit_int_ptr(out, d, ptr);
        let n = concat(d, "_result");
        let mut r = concat3("cmpxchg ptr %", d, "_ptr, i64 ");
        let e = self.format_operand(expected);
        push_str(&mut r, e.as_str());
        push_str(&mut r, ", i64 ");
        let v = self.format_operand(new_value);
        push_str(&mut r, v.as_str());
        push_str(&mut r, " seq_cst seq_cst, align 8");
        append_def(out, n.as_str(), r.as_str());
        let x = concat3("extractvalue { i64, i1 } %", d, "_result, 0");
        append_def(out, d, x.as_str());
        self.emit_store_if_local(out, d, "i64", d, info);
        assert(final(out)@ =~= old(out)@ + compare_exchange_text(*info, d@, *ptr, *expected, *new_value));
    }

    /// Appends an atomic cell instruction.
    #[verifier::spinoff_prover]
    pub fn emit_atomic(&self, out: &mut String, inst: &MirInst, info: &FunctionInfo, name_counts: &mut NameMap<u32>)
        ensures
            final(out)@ == old(out)@ + atomic_text(*inst, *info, count_map(*old(name_counts))).0,
            count_map(*final(name_counts)) == atomic_text(*inst, *info, count_map(*old(name_counts))).1,
    {
        match inst {
            MirInst::AtomicNew { dest, value } => self.emit_atomic_new(out, dest.name.as_str(), value, info),
            MirInst::AtomicLoad { dest, ptr } => {
                let d = dest.name.as_str();
                self.emit_int_ptr(out, d, ptr);
                let r = concat3("load atomic i64, ptr %", d, "_ptr seq_cst, align 8");
                append_def(out, d, r.as_str());
                self.emit_store_if_local(out, d, "i64", d, info);
            },
            MirInst::AtomicStore { ptr, value } => self.emit_atomic_store(out, ptr, value, name_counts),
            MirInst::AtomicFetchAdd { dest, ptr, delta } => {
                self.emit_atomic_rmw(out, dest.name.as_str(), ptr, "add", delta, info)
            },
            MirInst::AtomicFetchSub { dest, ptr, delta } => {
                self.emit_atomic_rmw(out, dest.name.as_str(), ptr, "sub", delta, info)
            },
            MirInst::AtomicSwap { dest, ptr, new_value } => {
                self.emit_atomic_rmw(out, dest.name.as_str(), ptr, "xchg", new_value, info)
            },
            MirInst::AtomicCompareExchange { dest, ptr, expected, new_value } => {
                self.emit_compare_exchange(out, dest.name.as_str(), ptr, expected, new_value, info)
            },
            _ => {},
        }
        assert(final(out)@ =~= old(out)@ + atomic_text(*inst, *info, count_map(*old(name_counts))).0);
    }

    /// Appends a channel instruction, or a block on a future.
    #[verifier::spinoff_prover]
    pub fn emit_channel(&self, out: &mut String, inst: &MirInst, info: &FunctionInfo, name_counts: &NameMap<u32>)
        ensures
            final(out)@ == old(out)@ + channel_text(*inst, *info, count_map(*name_counts)).0,
            channel_text(*inst, *info, count_map(*name_counts)).1 == count_map(*name_counts),
    {
        match inst {
            MirInst::ChannelNew { sender_dest, receiver_dest, capacity } => {
                self.emit_channel_new(out, sender_dest.name.as_str(), receiver_dest.name.as_str(), capacity, info)
            },
            MirInst::ChannelSend { sender, value } => {
                let a = arg2_str(self, sender, value);
                emit_void_call(out, "bmb_channel_send", a.as_str());
            },
            MirInst::ChannelRecv { dest, receiver } => {
                let a = arg1_str(self, receiver);
                self.emit_kept_call(out, dest.name.as_str(), "bmb_channel_recv", a.as_str(), info);
            },
            MirInst::ChannelTrySend { dest, sender, value } => {
                let a = arg2_str(self, sender, value);
                self.emit_kept_call(out, dest.name.as_str(), "bmb_channel_try_send", a.as_str(), info);
            },
            MirInst::ChannelTryRecv { dest, receiver } => {
                let d = dest.name.as_str();
                emit_word_alloca(out, d, "_alloc");
                let n = concat(d, "_success");
                let a = arg1_str(self, receiver);
                let mut r = concat3("call i64 @bmb_channel_try_recv(", a.as_str(), ", ptr %");
                push_str(&mut r, d);
                push_str(&mut r, "_alloc)");
                append_def(out, n.as_str(), r.as_str());
                let l = concat3("load i64, ptr %", d, "_alloc");
                append_def(out, d, l.as_str());
                self.emit_store_if_local(out, d, "i64", d, info);
            },
            MirInst::ChannelRecvTimeout { dest, receiver, timeout_ms } => {
                self.emit_recv_timeout(out, dest.name.as_str(), receiver, timeout_ms, info)
            },
            MirInst::BlockOn { dest, future } => {
                let a = arg1_str(self, future);
                self.emit_kept_call(out, dest.name.as_str(), "bmb_block_on", a.as_str(), info);
            },
            MirInst::ChannelSendTimeout { dest, sender, value, timeout_ms } => {
                let a = arg3_str(self, sender, value, timeout_ms);
                self.emit_kept_call(out, dest.name.as_str(), "bmb_channel_send_timeout", a.as_str(), info);
            },
            MirInst::ChannelClose { sender } => {
                let a = arg1_str(self, sender);
                emit_void_call(out, "bmb_channel_close", a.as_str());
            },
            MirInst::ChannelIsClosed { dest, receiver } => {
                let a = arg1_str(self, receiver);
                self.emit_kept_call(out, dest.name.as_str(), "bmb_channel_is_closed", a.as_str(), info);
            },
            MirInst::ChannelRecvOpt { dest, receiver } => self.emit_recv_opt(out, dest.name.as_str(), receiver, info),
            MirInst::SenderClone { dest, sender } => {
                let a = arg1_str(self, sender);
                self.emit_kept_call(out, dest.name.as_str(), "bmb_sender_clone", a.as_str(), info);
            },
            _ => {},
        }
        assert(final(out)@ =~= old(out)@ + channel_text(*inst, *info, count_map(*name_counts)).0);
    }

    /// Appends the creation of a channel.
    fn emit_channel_new(&self, out: &mut String, s: &str, r: &str, cap: &Operand, info: &FunctionInfo)
        ensures
            final(out)@ == old(out)@ + channel_new_text(*info, s@, r@, *cap),
    {
        emit_word_alloca(out, s, "_alloc");
        emit_word_alloca(out, r, "_alloc");
        push_str(out, "  call void @bmb_channel_new(i64 ");
        let c = self.format_operand(cap);
        push_str(out, c.as_str());
        push_str(out, ", ptr %");
        push_str(out, s);
        push_str(out, "_alloc, ptr %");
        push_str(out, r);
        push_str(out, "_alloc)\n");
        let ls = concat3("load i64, ptr %", s, "_alloc");
        append_def(out, s, ls.as_str());
        let lr = concat3("load i64, ptr %", r, "_alloc");
        append_def(out, r, lr.as_str());
        self.emit_store_if_local(out, s, "i64", s, info);
        self.emit_store_if_local(out, r, "i64", r, info);
        assert(final(out)@ =~= old(out)@ + channel_new_text(*info, s@, r@, *cap));
    }

    /// Appends a receive with a timeout.
    fn emit_recv_timeout(&self, out: &mut String, d: &str, receiver: &Operand, timeout: &Operand, info: &FunctionInfo)
        ensures
            final(out)@ == old(out)@ + recv_timeout_text(*info, d@, *receiver, *timeout),
    {
        emit_word_alloca(out, d, "_alloc");
        let n = concat(d, "_success");
        let a = arg2_str(self, receiver, timeout);
        let mut r = concat3("call i64 @bmb_channel_recv_timeout(", a.as_str(), ", ptr %");
        push_str(&mut r, d);
        push_str(&mut r, "_alloc)");
        append_def(out, n.as_str(), r.as_str());
        let nl = concat(d, "_loaded");
        let l = concat3("load i64, ptr %", d, "_alloc");
        append_def(out, nl.as_str(), l.as_str());
        let ns = concat(d, "_is_success");
        let c = concat3("icmp ne i64 %", d, "_success, 0");
        append_def(out, ns.as_str(), c.as_str());
        let mut sel = concat3("select i1 %", d, "_is_success, i64 %");
        push_str(&mut sel, d);
        push_str(&mut sel, "_loaded, i64 -1");
        append_def(out, d, sel.as_str());
        self.emit_store_if_local(out, d, "i64", d, info);
        assert(final(out)@ =~= old(out)@ + recv_timeout_text(*info, d@, *receiver, *timeout));
    }

    /// Appends a receive that tells a closed channel.
    fn emit_recv_opt(&self, out: &mut String, d: &str, receiver: &Operand, info: &FunctionInfo)
        ensures
            final(out)@ == old(out)@ + recv_opt_text(*info, d@, *receiver),
    {
        let np = concat(d, ".ptr");
        append_def(out, np.as_str(), "alloca i64");
        let ns = concat(d, ".success");
        let a = arg1_str(self, receiver);
        let mut r = concat3("call i64 @bmb_channel_recv_opt(", a.as_str(), ", ptr %");
        push_str(&mut r, d);
        push_str(&mut r, ".ptr)");
        append_def(out, ns.as_str(), r.as_str());
        let nt = concat(d, ".tmp");
        let l = concat3("load i64, ptr %", d, ".ptr");
        append_def(out, nt.as_str(), l.as_str());
        let nc = concat(d, ".cond");
        let c = concat3("icmp eq i64 %", d, ".success, 1");
        append_def(out, nc.as_str(), c.as_str());
        let mut sel = concat3("select i1 %", d, ".cond, i64 %");
        push_str(&mut sel, d);
        push_str(&mut sel, ".tmp, i64 -1");
        append_def(out, d, sel.as_str());
        self.emit_store_if_local(out, d, "i64", d, info);
        assert(final(out)@ =~= old(out)@ + recv_opt_text(*info, d@, *receiver));
    }

    /// Appends a read-write lock, barrier or condition variable
    /// instruction.
    #[verifier::spinoff_prover]
    pub fn emit_lock(&self, out: &mut String, inst: &MirInst, info: &FunctionInfo)
        ensures
            final(out)@ == old(out)@ + lock_text(*inst, *info),
    {
        match inst {
            MirInst::RwLockNew { dest, initial_value } => {
                let a = arg1_str(self, initial_value);
                self.emit_kept_call(out, dest.name.as_str(), "bmb_rwlock_new", a.as_str(), info);
            },
            MirInst::RwLockRead { dest, rwlock } => {
                let a = arg1_str(self, rwlock);
                self.emit_kept_call(out, dest.name.as_str(), "bmb_rwlock_read", a.as_str(), info);
            },
            MirInst::RwLockReadUnlock { rwlock } => {
                let a = arg1_str(self, rwlock);
                emit_void_call(out, "bmb_rwlock_read_unlock", a.as_str());
            },
            MirInst::RwLockWrite { dest, rwlock } => {
                let a = arg1_str(self, rwlock);
                self.emit_kept_call(out, dest.name.as_str(), "bmb_rwlock_write", a.as_str(), info);
            },
            MirInst::RwLockWriteUnlock { rwlock, value } => {
                let a = arg2_str(self, rwlock, value);
                emit_void_call(out, "bmb_rwlock_write_unlock", a.as_str());
            },
            MirInst::BarrierNew { dest, count } => {
                let a = arg1_str(self, count);
                self.emit_kept_call(out, dest.name.as_str(), "bmb_barrier_new", a.as_str(), info);
            },
            MirInst::BarrierWait { dest, barrier } => {
                let a = arg1_str(self, barrier);
                self.emit_kept_call(out, dest.name.as_str(), "bmb_barrier_wait", a.as_str(), info);
            },
            MirInst::CondvarNew { dest } => {
                proof {
                    reveal_strlit("");
                }
                self.emit_kept_call(out, dest.name.as_str(), "bmb_condvar_new", "", info);
            },
            MirInst::CondvarWait { dest, condvar, mutex } => {
                let a = arg2_str(self, condvar, mutex);
                self.emit_kept_call(out, dest.name.as_str(), "bmb_condvar_wait", a.as_str(), info);
            },
            MirInst::CondvarNotifyOne { condvar } => {
                let a = arg1_str(self, condvar);
                emit_void_call(out, "bmb_condvar_notify_one", a.as_str());
            },
            MirInst::CondvarNotifyAll { condvar } => {
                let a = arg1_str(self, condvar);
                emit_void_call(out, "bmb_condvar_notify_all", a.as_str());
            },
            _ => {},
        }
        assert(final(out)@ =~= old(out)@ + lock_text(*inst, *info));
    }

    /// Appends an asynchronous file or socket, thread pool or scope
    /// instruction.
    #[verifier::spinoff_prover]
    pub fn emit_task(&self, out: &mut String, inst: &MirInst)
        ensures
            final(out)@ == old(out)@ + task_text(*inst),
    {
        match inst {
            MirInst::AsyncFileOpen { dest, path } => {
                let a = arg1_str(self, path);
                emit_result_call(out, dest.name.as_str(), "bmb_async_file_open", a.as_str());
            },
            MirInst::AsyncFileRead { dest, file } => {
                let a = arg1_str(self, file);
                emit_result_call(out, dest.name.as_str(), "bmb_async_file_read", a.as_str());
            },
            MirInst::AsyncFileWrite { file, content } => {
                let a = arg2_str(self, file, content);
                emit_void_call(out, "bmb_async_file_write", a.as_str());
            },
            MirInst::AsyncFileClose { file } => {
                let a = arg1_str(self, file);
                emit_void_call(out, "bmb_async_file_close", a.as_str());
            },
            MirInst::AsyncSocketConnect { dest, host, port } => {
                let a = arg2_str(self, host, port);
                emit_result_call(out, dest.name.as_str(), "bmb_async_socket_connect", a.as_str());
            },
            MirInst::AsyncSocketRead { dest, socket } => {
                let a = arg1_str(self, socket);
                emit_result_call(out, dest.name.as_str(), "bmb_async_socket_read", a.as_str());
            },
            MirInst::AsyncSocketWrite { socket, content } => {
                let a = arg2_str(self, socket, content);
                emit_void_call(out, "bmb_async_socket_write", a.as_str());
            },
            MirInst::AsyncSocketClose { socket } => {
                let a = arg1_str(self, socket);
                emit_void_call(out, "bmb_async_socket_close", a.as_str());
            },
            MirInst::ThreadPoolNew { dest, size } => {
                let a = arg1_str(self, size);
                emit_result_call(out, dest.name.as_str(), "bmb_thread_pool_new", a.as_str());
            },
            MirInst::ThreadPoolExecute { pool, task } => {
                let a = arg2_str(self, pool, task);
                emit_void_call(out, "bmb_thread_pool_execute", a.as_str());
            },
            MirInst::ThreadPoolJoin { pool } => {
                let a = arg1_str(self, pool);
                emit_void_call(out, "bmb_thread_pool_join", a.as_str());
            },
            MirInst::ThreadPoolShutdown { pool } => {
                let a = arg1_str(self, pool);
                emit_void_call(out, "bmb_thread_pool_shutdown", a.as_str());
            },
            MirInst::ScopeNew { dest } => {
                proof {
                    reveal_strlit("");
                }
                emit_result_call(out, dest.name.as_str(), "bmb_scope_new", "");
            },
            MirInst::ScopeSpawn { scope, task } => {
                let a = arg2_str(self, scope, task);
                emit_void_call(out, "bmb_scope_spawn", a.as_str());
            },
            MirInst::ScopeWait { scope } => {
                let a = arg1_str(self, scope);
                emit_void_call(out, "bmb_scope_wait", a.as_str());
            },
            _ => {},
        }
        assert(final(out)@ =~= old(out)@ + task_text(*inst));
    }

    /// Appends a concurrency instruction.
    pub fn emit_concurrency(&self, out: &mut String, inst: &MirInst, info: &FunctionInfo, name_counts: &mut NameMap<u32>)
        ensures
            final(out)@ == old(out)@ + concurrency_text(*inst, *info, count_map(*old(name_counts))).0,
            count_map(*final(name_counts)) == concurrency_text(*inst, *info, count_map(*old(name_counts))).1,
    {
        match inst {
            MirInst::ThreadSpawn { .. } | MirInst::ThreadJoin { .. } | MirInst::MutexNew { .. } | MirInst::MutexLock {
                ..
            } | MirInst::MutexUnlock { .. } | MirInst::MutexTryLock { .. } | MirInst::MutexFree { .. }
            | MirInst::ArcNew { .. } | MirInst::ArcClone { .. } | MirInst::ArcGet { .. } | MirInst::ArcDrop { .. }
            | MirInst::ArcStrongCount { .. } => self.emit_thread_sync(out, inst, info, name_counts),
            MirInst::AtomicNew { .. } | MirInst::AtomicLoad { .. } | MirInst::AtomicStore { .. }
            | MirInst::AtomicFetchAdd { .. } | MirInst::AtomicFetchSub { .. } | MirInst::AtomicSwap { .. }
            | MirInst::AtomicCompareExchange { .. } => self.emit_atomic(out, inst, info, name_counts),
            MirInst::RwLockNew { .. } | MirInst::RwLockRead { .. } | MirInst::RwLockReadUnlock { .. }
            | MirInst::RwLockWrite { .. } | MirInst::RwLockWriteUnlock { .. } | MirInst::BarrierNew { .. }
            | MirInst::BarrierWait { .. } | MirInst::CondvarNew { .. } | MirInst::CondvarWait { .. }
            | MirInst::CondvarNotifyOne { .. } | MirInst::CondvarNotifyAll { .. } => self.emit_lock(out, inst, info),
            MirInst::AsyncFileOpen { .. } | MirInst::AsyncFileRead { .. } | MirInst::AsyncFileWrite { .. }
            | MirInst::AsyncFileClose { .. } | MirInst::AsyncSocketConnect { .. } | MirInst::AsyncSocketRead { .. }
            | MirInst::AsyncSocketWrite { .. } | MirInst::AsyncSocketClose { .. } | MirInst::ThreadPoolNew { .. }
            | MirInst::ThreadPoolExecute { .. } | MirInst::ThreadPoolJoin { .. } | MirInst::ThreadPoolShutdown {
                ..
            } | MirInst::ScopeNew { .. } | MirInst::ScopeSpawn { .. } | MirInst::ScopeWait { .. } => self.emit_task(out, inst),
            _ => self.emit_channel(out, inst, info, name_counts),
        }
    }
}

} // verus!
