use bmb::codegen::llvm_text::TextCodeGen;
use bmb::mir::{BasicBlock, Constant, MirBinOp, MirFunction, MirInst, MirProgram, MirType, Operand, Place, Terminator};

fn func(name: &str, params: Vec<(String, MirType)>, ret_ty: MirType, locals: Vec<(String, MirType)>, blocks: Vec<BasicBlock>) -> MirFunction {
    MirFunction {
        name: name.to_string(),
        params,
        ret_ty,
        locals,
        blocks,
        is_pure: false,
        is_const: false,
        always_inline: false,
        inline_hint: false,
        is_memory_free: false,
    }
}

fn place(n: &str) -> Operand {
    Operand::Place(Place::new(n))
}

fn lit(v: i64) -> Operand {
    Operand::Constant(Constant::Int(v))
}

fn param(n: &str, t: MirType) -> (String, MirType) {
    (n.to_string(), t)
}

/// The IR of one function of one block.
fn ir_of(params: Vec<(String, MirType)>, locals: Vec<(String, MirType)>, insts: Vec<MirInst>) -> String {
    let f = func(
        "f",
        params,
        MirType::Unit,
        locals,
        vec![BasicBlock { label: "entry".to_string(), instructions: insts, terminator: Terminator::Return(None) }],
    );
    let program = MirProgram { functions: vec![f], extern_fns: vec![], struct_defs: vec![] };
    TextCodeGen::new("linux").generate(&program).unwrap()
}

fn lines(parts: &[&str]) -> String {
    parts.concat()
}

#[test]
fn mutex_handles_in_slots_are_loaded_under_fresh_names() {
    let ir = ir_of(
        vec![],
        vec![param("m", MirType::I64), param("g", MirType::I64)],
        vec![
            MirInst::MutexNew { dest: Place::new("m"), initial_value: lit(0) },
            MirInst::MutexLock { dest: Place::new("g"), mutex: place("m") },
            MirInst::MutexUnlock { mutex: place("m"), new_value: lit(5) },
            MirInst::MutexFree { mutex: place("m") },
        ],
    );
    let expected = lines(&[
        "  %m = call i64 @bmb_mutex_new(i64 0)\n",
        "  store i64 %m, ptr %m.addr\n",
        "  %m_load = load i64, ptr %m.addr\n",
        "  %g = call i64 @bmb_mutex_lock(i64 %m_load)\n",
        "  store i64 %g, ptr %g.addr\n",
        "  %m_load_1 = load i64, ptr %m.addr\n",
        "  call void @bmb_mutex_unlock(i64 %m_load_1, i64 5)\n",
        "  %m_load_2 = load i64, ptr %m.addr\n",
        "  call void @bmb_mutex_free(i64 %m_load_2)\n",
    ]);
    assert!(ir.contains(&expected), "got:\n{}", ir);
}

#[test]
fn atomics_use_sequentially_consistent_instructions() {
    let ir = ir_of(
        vec![],
        vec![],
        vec![
            MirInst::AtomicNew { dest: Place::new("_t0"), value: lit(1) },
            MirInst::AtomicFetchAdd { dest: Place::new("_t1"), ptr: place("_t0"), delta: lit(2) },
            MirInst::AtomicStore { ptr: place("_t0"), value: lit(3) },
            MirInst::AtomicCompareExchange { dest: Place::new("_t2"), ptr: place("_t0"), expected: lit(3), new_value: lit(4) },
            MirInst::AtomicStore { ptr: place("_t0"), value: lit(5) },
        ],
    );
    let expected = lines(&[
        "  %_t0_ptr = call ptr @malloc(i64 8)\n",
        "  store atomic i64 1, ptr %_t0_ptr seq_cst, align 8\n",
        "  %_t0 = ptrtoint ptr %_t0_ptr to i64\n",
        "  %_t1_ptr = inttoptr i64 %_t0 to ptr\n",
        "  %_t1 = atomicrmw add ptr %_t1_ptr, i64 2 seq_cst, align 8\n",
        "  %atomic_store_ptr = inttoptr i64 %_t0 to ptr\n",
        "  store atomic i64 3, ptr %atomic_store_ptr seq_cst, align 8\n",
        "  %_t2_ptr = inttoptr i64 %_t0 to ptr\n",
        "  %_t2_result = cmpxchg ptr %_t2_ptr, i64 3, i64 4 seq_cst seq_cst, align 8\n",
        "  %_t2 = extractvalue { i64, i1 } %_t2_result, 0\n",
        "  %atomic_store_ptr_1 = inttoptr i64 %_t0 to ptr\n",
        "  store atomic i64 5, ptr %atomic_store_ptr_1 seq_cst, align 8\n",
    ]);
    assert!(ir.contains(&expected), "got:\n{}", ir);
}

#[test]
fn channel_receives_give_minus_one_when_nothing_came() {
    let ir = ir_of(
        vec![],
        vec![],
        vec![
            MirInst::ChannelNew { sender_dest: Place::new("_s"), receiver_dest: Place::new("_r"), capacity: lit(4) },
            MirInst::ChannelSend { sender: place("_s"), value: lit(7) },
            MirInst::ChannelRecvTimeout { dest: Place::new("_t0"), receiver: place("_r"), timeout_ms: lit(10) },
            MirInst::ChannelRecvOpt { dest: Place::new("_t1"), receiver: place("_r") },
        ],
    );
    let expected = lines(&[
        "  %_s_alloc = alloca i64, align 8\n",
        "  %_r_alloc = alloca i64, align 8\n",
        "  call void @bmb_channel_new(i64 4, ptr %_s_alloc, ptr %_r_alloc)\n",
        "  %_s = load i64, ptr %_s_alloc\n",
        "  %_r = load i64, ptr %_r_alloc\n",
        "  call void @bmb_channel_send(i64 %_s, i64 7)\n",
        "  %_t0_alloc = alloca i64, align 8\n",
        "  %_t0_success = call i64 @bmb_channel_recv_timeout(i64 %_r, i64 10, ptr %_t0_alloc)\n",
        "  %_t0_loaded = load i64, ptr %_t0_alloc\n",
        "  %_t0_is_success = icmp ne i64 %_t0_success, 0\n",
        "  %_t0 = select i1 %_t0_is_success, i64 %_t0_loaded, i64 -1\n",
        "  %_t1.ptr = alloca i64\n",
        "  %_t1.success = call i64 @bmb_channel_recv_opt(i64 %_r, ptr %_t1.ptr)\n",
        "  %_t1.tmp = load i64, ptr %_t1.ptr\n",
        "  %_t1.cond = icmp eq i64 %_t1.success, 1\n",
        "  %_t1 = select i1 %_t1.cond, i64 %_t1.tmp, i64 -1\n",
    ]);
    assert!(ir.contains(&expected), "got:\n{}", ir);
}

#[test]
fn a_spawned_thread_runs_synchronously_and_joining_gives_its_value() {
    let ir = ir_of(
        vec![],
        vec![],
        vec![
            MirInst::ThreadSpawn { dest: Place::new("_h"), func: "work".to_string(), captures: vec![lit(42)] },
            MirInst::ThreadJoin { dest: Some(Place::new("_t0")), handle: place("_h") },
            MirInst::ThreadSpawn { dest: Place::new("_e"), func: "idle".to_string(), captures: vec![] },
        ],
    );
    let expected = lines(&[
        "  ; Phase 1: ThreadSpawn - body executed synchronously\n",
        "  %_h = add i64 42, 0\n",
        "  ; Phase 1: ThreadJoin - handle is the result\n",
        "  %_t0 = add i64 %_h, 0\n",
        "  ; Phase 1: ThreadSpawn - body executed synchronously\n",
        "  %_e = add i64 0, 0\n",
    ]);
    assert!(ir.contains(&expected), "got:\n{}", ir);
}

#[test]
fn scopes_pools_and_condition_variables_call_the_runtime() {
    let ir = ir_of(
        vec![],
        vec![param("cv", MirType::I64)],
        vec![
            MirInst::ScopeNew { dest: Place::new("_sc") },
            MirInst::ScopeSpawn { scope: place("_sc"), task: lit(1) },
            MirInst::ScopeWait { scope: place("_sc") },
            MirInst::ThreadPoolNew { dest: Place::new("_p"), size: lit(4) },
            MirInst::ThreadPoolShutdown { pool: place("_p") },
            MirInst::CondvarNew { dest: Place::new("cv") },
            MirInst::CondvarNotifyAll { condvar: place("cv") },
            MirInst::ArcDrop { arc: lit(9) },
        ],
    );
    let expected = lines(&[
        "  %_sc = call i64 @bmb_scope_new()\n",
        "  call void @bmb_scope_spawn(i64 %_sc, i64 1)\n",
        "  call void @bmb_scope_wait(i64 %_sc)\n",
        "  %_p = call i64 @bmb_thread_pool_new(i64 4)\n",
        "  call void @bmb_thread_pool_shutdown(i64 %_p)\n",
        "  %cv = call i64 @bmb_condvar_new()\n",
        "  store i64 %cv, ptr %cv.addr\n",
        "  call void @bmb_condvar_notify_all(i64 %cv)\n",
        "  call void @bmb_arc_drop(i64 9)\n",
    ]);
    assert!(ir.contains(&expected), "got:\n{}", ir);
}

#[test]
fn integer_select_compares_with_icmp() {
    let ir = ir_of(
        vec![param("a", MirType::I64), param("b", MirType::I64)],
        vec![],
        vec![MirInst::Select {
            dest: Place::new("_t0"),
            cond_op: MirBinOp::Lt,
            cond_lhs: place("a"),
            cond_rhs: place("b"),
            true_val: place("a"),
            false_val: place("b"),
        }],
    );
    let expected = lines(&["  %_t0_cond = icmp slt i64 %a, %b\n", "  %_t0 = select i1 %_t0_cond, i64 %a, i64 %b\n"]);
    assert!(ir.contains(&expected), "got:\n{}", ir);
}

#[test]
fn string_select_compares_through_the_runtime() {
    let ir = ir_of(
        vec![param("s", MirType::String)],
        vec![],
        vec![
            MirInst::Const { dest: Place::new("_k"), value: Constant::String("hi".to_string()) },
            MirInst::Select {
                dest: Place::new("_t0"),
                cond_op: MirBinOp::Eq,
                cond_lhs: place("s"),
                cond_rhs: Operand::Constant(Constant::String("hi".to_string())),
                true_val: lit(1),
                false_val: lit(0),
            },
        ],
    );
    let expected = lines(&[
        "  %_t0_cond.i64 = call i64 @bmb_string_eq(ptr %s, ptr @.str.0.bmb)\n",
        "  %_t0_cond = icmp ne i64 %_t0_cond.i64, 0\n",
        "  %_t0 = select i1 %_t0_cond, i64 1, i64 0\n",
    ]);
    assert!(ir.contains(&expected), "got:\n{}", ir);
}

#[test]
fn select_of_a_narrow_local_sign_extends_it() {
    let ir = ir_of(
        vec![],
        vec![param("n", MirType::I32)],
        vec![
            MirInst::Const { dest: Place::new("n"), value: Constant::Int(3) },
            MirInst::Select {
                dest: Place::new("_t0"),
                cond_op: MirBinOp::Gt,
                cond_lhs: place("n"),
                cond_rhs: lit(0),
                true_val: place("n"),
                false_val: lit(0),
            },
        ],
    );
    let expected = lines(&[
        "  %_t0_cond.lhs = load i64, ptr %n.addr\n",
        "  %_t0_cond = icmp sgt i64 %_t0_cond.lhs, 0\n",
        "  %_t0_sel_true.i32 = load i32, ptr %n.addr\n",
        "  %_t0_sel_true = sext i32 %_t0_sel_true.i32 to i64\n",
        "  %_t0 = select i1 %_t0_cond, i64 %_t0_sel_true, i64 0\n",
    ]);
    assert!(ir.contains(&expected), "got:\n{}", ir);
}

#[test]
fn struct_values_escape_when_returned_passed_copied_or_merged() {
    let init = |d: &str| MirInst::StructInit { dest: Place::new(d), struct_name: "P".to_string(), fields: vec![] };
    let f = func(
        "f",
        vec![],
        MirType::I64,
        vec![],
        vec![
            BasicBlock {
                label: "entry".to_string(),
                instructions: vec![
                    init("a"),
                    init("b"),
                    init("c"),
                    init("d"),
                    init("kept"),
                    MirInst::Call { dest: None, func: "use_it".to_string(), args: vec![place("b"), place("x")], is_tail: false },
                    MirInst::Copy { dest: Place::new("y"), src: Place::new("c") },
                    MirInst::Copy { dest: Place::new("z"), src: Place::new("c") },
                ],
                terminator: Terminator::Goto("next".to_string()),
            },
            BasicBlock {
                label: "next".to_string(),
                instructions: vec![MirInst::Phi {
                    dest: Place::new("m"),
                    values: vec![(place("d"), "entry".to_string()), (lit(1), "entry".to_string())],
                }],
                terminator: Terminator::Return(Some(place("a"))),
            },
        ],
    );
    let escaped = TextCodeGen::new("linux").collect_escaped_structs(&f);
    assert_eq!(escaped, vec!["b".to_string(), "c".to_string(), "a".to_string(), "d".to_string()]);
}
