use bmb::codegen::llvm_text::TextCodeGen;
use bmb::mir::{
    BasicBlock, Constant, FloatConst, MirFunction, MirInst, MirProgram, MirType, Operand, Place, Terminator,
};

fn func(name: &str, params: Vec<(String, MirType)>, ret_ty: MirType, locals: Vec<(String, MirType)>, blocks: Vec<BasicBlock>) -> MirFunction {
    MirFunction {
        name: name.to_string(),
        params,
        ret_ty,
        locals,
        blocks,
        is_pure: false,
        is_const: false,
        always_inline: false,
        inline_hint: false,
        is_memory_free: false,
    }
}

fn place(n: &str) -> Operand {
    Operand::Place(Place::new(n))
}

fn lit(v: i64) -> Operand {
    Operand::Constant(Constant::Int(v))
}

fn float(f: f64) -> Operand {
    Operand::Constant(Constant::Float(FloatConst::new(f.to_bits(), &format!("{:.6e}", f), &format!("{:e}", f))))
}

fn call(dest: Option<&str>, name: &str, args: Vec<Operand>) -> MirInst {
    MirInst::Call { dest: dest.map(Place::new), func: name.to_string(), args, is_tail: false }
}

fn param(n: &str, t: MirType) -> (String, MirType) {
    (n.to_string(), t)
}

/// The IR of one function of one block.
fn ir_of(params: Vec<(String, MirType)>, ret_ty: MirType, locals: Vec<(String, MirType)>, insts: Vec<MirInst>, ret: Option<Operand>) -> String {
    let f = func("f", params, ret_ty, locals, vec![BasicBlock { label: "entry".to_string(), instructions: insts, terminator: Terminator::Return(ret) }]);
    let program = MirProgram { functions: vec![f], extern_fns: vec![], struct_defs: vec![] };
    TextCodeGen::new("linux").generate(&program).unwrap()
}

fn lines(parts: &[&str]) -> String {
    parts.concat()
}

#[test]
fn square_root_of_a_local_integer_widens_it_first() {
    let ir = ir_of(
        vec![],
        MirType::F64,
        vec![param("x", MirType::I64), param("r", MirType::F64)],
        vec![
            MirInst::Const { dest: Place::new("x"), value: Constant::Int(9) },
            call(Some("r"), "sqrt", vec![place("x")]),
        ],
        Some(place("r")),
    );
    let expected = lines(&[
        "  %x.sqrt.arg = load i64, ptr %x.addr\n",
        "  %r.sqrt.conv = sitofp i64 %x.sqrt.arg to double\n",
        "  %r.sqrt = call double @llvm.sqrt.f64(double %r.sqrt.conv)\n",
        "  store double %r.sqrt, ptr %r.addr\n",
    ]);
    assert!(ir.contains(&expected), "got:\n{}", ir);
}

#[test]
fn narrow_integer_to_double_is_sign_extended_first() {
    let ir = ir_of(vec![param("n", MirType::I32)], MirType::F64, vec![], vec![call(Some("_t0"), "i64_to_f64", vec![place("n")])], Some(place("_t0")));
    assert!(ir.contains("  %n_sext = sext i32 %n to i64\n  %_t0 = sitofp i64 %n_sext to double\n"), "got:\n{}", ir);
}

#[test]
fn conversions_use_one_instruction() {
    let cases = [
        ("f64_to_i64", MirType::F64, "  %_t0 = fptosi double %x to i64\n"),
        ("i32_to_f64", MirType::I32, "  %_t0 = sitofp i32 %x to double\n"),
        ("i32_to_i64", MirType::I32, "  %_t0 = sext i32 %x to i64\n"),
        ("i64_to_i32", MirType::I64, "  %_t0 = trunc i64 %x to i32\n"),
    ];
    for (name, t, expected) in cases {
        let ir = ir_of(vec![param("x", t)], MirType::Unit, vec![], vec![call(Some("_t0"), name, vec![place("x")])], None);
        assert!(ir.contains(expected), "{}: got:\n{}", name, ir);
    }
}

#[test]
fn boxes_are_numbered_per_function() {
    let ir = ir_of(
        vec![],
        MirType::Unit,
        vec![],
        vec![call(Some("_t0"), "box_new_i64", vec![lit(42)]), call(Some("_t1"), "box_new_i64", vec![lit(7)])],
        None,
    );
    let expected = lines(&[
        "  %box.ptr.0 = call ptr @malloc(i64 8)\n",
        "  store i64 42, ptr %box.ptr.0\n",
        "  %_t0 = ptrtoint ptr %box.ptr.0 to i64\n",
        "  %box.ptr.1 = call ptr @malloc(i64 8)\n",
        "  store i64 7, ptr %box.ptr.1\n",
        "  %_t1 = ptrtoint ptr %box.ptr.1 to i64\n",
    ]);
    assert!(ir.contains(&expected), "got:\n{}", ir);
}

#[test]
fn malloc_of_a_narrow_size_widens_it() {
    let ir = ir_of(vec![param("n", MirType::I32)], MirType::Unit, vec![], vec![call(Some("_t0"), "malloc", vec![place("n")])], None);
    let expected = lines(&[
        "  %n.malloc.sext = sext i32 %n to i64\n",
        "  %malloc.ptr.0 = call ptr @malloc(i64 %n.malloc.sext)\n",
        "  %_t0 = ptrtoint ptr %malloc.ptr.0 to i64\n",
    ]);
    assert!(ir.contains(&expected), "got:\n{}", ir);
}

#[test]
fn free_converts_integers_to_pointers() {
    let ir = ir_of(
        vec![param("p", MirType::I64), param("s", MirType::String)],
        MirType::Unit,
        vec![],
        vec![call(None, "free", vec![place("p")]), call(None, "box_free_i64", vec![place("s")])],
        None,
    );
    let expected = lines(&[
        "  %free_ptr.0 = inttoptr i64 %p to ptr\n",
        "  call void @free(ptr %free_ptr.0)\n",
        "  call void @free(ptr %s)\n",
    ]);
    assert!(ir.contains(&expected), "got:\n{}", ir);
}

#[test]
fn stores_and_loads_through_integer_addresses() {
    let ir = ir_of(
        vec![param("p", MirType::I64), param("v", MirType::I32)],
        MirType::Unit,
        vec![],
        vec![
            call(None, "store_i64", vec![place("p"), place("v")]),
            call(Some("_t0"), "load_i64", vec![place("p")]),
            call(None, "store_f64", vec![place("p"), float(2.5)]),
            call(Some("_t1"), "load_f64", vec![place("p")]),
        ],
        None,
    );
    let expected = lines(&[
        "  %v.store.ext.0 = sext i32 %v to i64\n",
        "  %store_ptr.0 = inttoptr i64 %p to ptr\n",
        "  store i64 %v.store.ext.0, ptr %store_ptr.0\n",
        "  %load_ptr.0 = inttoptr i64 %p to ptr\n",
        "  %_t0 = load i64, ptr %load_ptr.0\n",
        "  %store_f64_ptr.0 = inttoptr i64 %p to ptr\n",
        "  store double 2.5e0, ptr %store_f64_ptr.0\n",
        "  %load_f64_ptr.0 = inttoptr i64 %p to ptr\n",
        "  %_t1 = load double, ptr %load_f64_ptr.0\n",
    ]);
    assert!(ir.contains(&expected), "got:\n{}", ir);
}

#[test]
fn loads_into_locals_go_through_their_slots() {
    let ir = ir_of(
        vec![param("p", MirType::I64)],
        MirType::F64,
        vec![param("r", MirType::F64)],
        vec![call(Some("r"), "load_f64", vec![place("p")])],
        Some(place("r")),
    );
    let expected = lines(&[
        "  %load_f64_ptr.0 = inttoptr i64 %p to ptr\n",
        "  %r.load_f64.0 = load double, ptr %load_f64_ptr.0\n",
        "  store double %r.load_f64.0, ptr %r.addr\n",
    ]);
    assert!(ir.contains(&expected), "got:\n{}", ir);
}

#[test]
fn vector_builtins_on_a_local_vector_are_expanded_inline() {
    let ir = ir_of(
        vec![],
        MirType::I64,
        vec![param("v", MirType::I64), param("n", MirType::I64), param("x", MirType::I64)],
        vec![
            call(Some("v"), "vec_new", vec![]),
            call(None, "vec_push", vec![place("v"), lit(5)]),
            call(Some("n"), "vec_len", vec![place("v")]),
            call(Some("x"), "vec_pop", vec![place("v")]),
            call(None, "vec_free", vec![place("v")]),
        ],
        Some(place("x")),
    );
    let expected = lines(&[
        "  %vec.header.0 = call ptr @malloc(i64 80)\n",
        "  store i64 8, ptr %vec.header.0\n",
        "  %vec.init.len.0 = getelementptr i64, ptr %vec.header.0, i64 1\n",
        "  store i64 0, ptr %vec.init.len.0\n",
        "  %vec.conv.0 = ptrtoint ptr %vec.header.0 to i64\n",
        "  store i64 %vec.conv.0, ptr %v.addr\n",
        "  %vp.vec.0 = load i64, ptr %v.addr\n",
        "  call void @bmb_vec_push(i64 %vp.vec.0, i64 5)\n",
        "  %vec.len.arg.0 = load i64, ptr %v.addr\n",
        "  %vec.len.header.0 = inttoptr i64 %vec.len.arg.0 to ptr\n",
        "  %vec.len.ptr.0 = getelementptr i64, ptr %vec.len.header.0, i64 1\n",
        "  %vec.len.val.0 = load i64, ptr %vec.len.ptr.0\n",
        "  store i64 %vec.len.val.0, ptr %n.addr\n",
        "  %vpop.vec.0 = load i64, ptr %v.addr\n",
        "  %vpop.header.0 = inttoptr i64 %vpop.vec.0 to ptr\n",
        "  %vpop.len.ptr.0 = getelementptr i64, ptr %vpop.header.0, i64 1\n",
        "  %vpop.len.0 = load i64, ptr %vpop.len.ptr.0\n",
        "  %vpop.last_off.0 = add i64 %vpop.len.0, 1\n",
        "  %vpop.elem.0 = getelementptr i64, ptr %vpop.header.0, i64 %vpop.last_off.0\n",
        "  %vpop.newlen.0 = sub i64 %vpop.len.0, 1\n",
        "  %vpop.val.0 = load i64, ptr %vpop.elem.0\n",
        "  store i64 %vpop.newlen.0, ptr %vpop.len.ptr.0\n",
        "  store i64 %vpop.val.0, ptr %x.addr\n",
        "  %vfree.vec.0 = load i64, ptr %v.addr\n",
        "  %vfree.header.0 = inttoptr i64 %vfree.vec.0 to ptr\n",
        "  call void @free(ptr %vfree.header.0)\n",
    ]);
    assert!(ir.contains(&expected), "got:\n{}", ir);
}

#[test]
fn vector_element_read_with_a_narrow_index_sign_extends_it() {
    let ir = ir_of(
        vec![param("v", MirType::I64), param("i", MirType::I32)],
        MirType::I64,
        vec![],
        vec![call(Some("_t0"), "vec_get", vec![place("v"), place("i")])],
        Some(place("_t0")),
    );
    let expected = lines(&[
        "  %vec.get.idx.sext.0 = sext i32 %i to i64\n",
        "  %vec.get.header.0 = inttoptr i64 %v to ptr\n",
        "  %vec.get.off.0 = add i64 %vec.get.idx.sext.0, 2\n",
        "  %vec.get.elem.0 = getelementptr i64, ptr %vec.get.header.0, i64 %vec.get.off.0\n",
        "  %_t0 = load i64, ptr %vec.get.elem.0\n",
    ]);
    assert!(ir.contains(&expected), "got:\n{}", ir);
}

#[test]
fn vector_with_capacity_and_set_use_the_inline_layout() {
    let ir = ir_of(
        vec![param("c", MirType::I64)],
        MirType::I64,
        vec![],
        vec![
            call(Some("_t0"), "vec_with_capacity", vec![place("c")]),
            call(None, "vec_set", vec![place("_t0"), lit(1), lit(7)]),
            call(Some("_t1"), "vec_cap", vec![place("_t0")]),
        ],
        Some(place("_t1")),
    );
    let expected = lines(&[
        "  %vec.wcap.total.0 = add i64 %c, 2\n",
        "  %vec.wcap.size.0 = mul i64 %vec.wcap.total.0, 8\n",
        "  %vec.wcap.header.0 = call ptr @malloc(i64 %vec.wcap.size.0)\n",
        "  store i64 %c, ptr %vec.wcap.header.0\n",
        "  %vec.wcap.len.0 = getelementptr i64, ptr %vec.wcap.header.0, i64 1\n",
        "  store i64 0, ptr %vec.wcap.len.0\n",
        "  %_t0 = ptrtoint ptr %vec.wcap.header.0 to i64\n",
        "  %vec.set.header.0 = inttoptr i64 %_t0 to ptr\n",
        "  %vec.set.off.0 = add i64 1, 2\n",
        "  %vec.set.elem.0 = getelementptr i64, ptr %vec.set.header.0, i64 %vec.set.off.0\n",
        "  store i64 7, ptr %vec.set.elem.0\n",
        "  %vec.cap.header.0 = inttoptr i64 %_t0 to ptr\n",
        "  %vec.cap.ptr.0 = getelementptr i64, ptr %vec.cap.header.0, i64 0\n",
        "  %_t1 = load i64, ptr %vec.cap.ptr.0\n",
    ]);
    assert!(ir.contains(&expected), "got:\n{}", ir);
}

#[test]
fn string_length_and_byte_access_read_the_string_struct() {
    let ir = ir_of(
        vec![param("s", MirType::String)],
        MirType::I64,
        vec![],
        vec![
            call(Some("_t0"), "len", vec![place("s")]),
            call(Some("_t1"), "char_at", vec![place("s"), lit(2)]),
        ],
        Some(place("_t1")),
    );
    let expected = lines(&[
        "  %strlen.len_ptr.0 = getelementptr {ptr, i64, i64}, ptr %s, i32 0, i32 1\n",
        "  %_t0 = load i64, ptr %strlen.len_ptr.0\n",
        "  %charat.data_ptr.0 = getelementptr {ptr, i64, i64}, ptr %s, i32 0, i32 0\n",
        "  %charat.data.0 = load ptr, ptr %charat.data_ptr.0\n",
        "  %charat.char_ptr.0 = getelementptr i8, ptr %charat.data.0, i64 2\n",
        "  %charat.byte.0 = load i8, ptr %charat.char_ptr.0\n",
        "  %_t1 = zext i8 %charat.byte.0 to i64\n",
    ]);
    assert!(ir.contains(&expected), "got:\n{}", ir);
}
