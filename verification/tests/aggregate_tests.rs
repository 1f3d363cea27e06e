use bmb::codegen::llvm_text::TextCodeGen;
use bmb::mir::{
    BasicBlock, Constant, FloatConst, MirFunction, MirInst, MirProgram, MirType, Operand, Place, Terminator,
};

fn func(name: &str, params: Vec<(String, MirType)>, ret_ty: MirType, locals: Vec<(String, MirType)>, blocks: Vec<BasicBlock>) -> MirFunction {
    MirFunction {
        name: name.to_string(),
        params,
        ret_ty,
        locals,
        blocks,
        is_pure: false,
        is_const: false,
        always_inline: false,
        inline_hint: false,
        is_memory_free: false,
    }
}

fn block(label: &str, instructions: Vec<MirInst>, terminator: Terminator) -> BasicBlock {
    BasicBlock { label: label.to_string(), instructions, terminator }
}

fn lit(v: i64) -> Operand {
    Operand::Constant(Constant::Int(v))
}

fn lines(parts: &[&str]) -> String {
    parts.concat()
}

fn place(n: &str) -> Operand {
    Operand::Place(Place::new(n))
}

fn point_defs() -> Vec<(String, Vec<(String, MirType)>)> {
    vec![("Point".to_string(), vec![("x".to_string(), MirType::I64), ("y".to_string(), MirType::I64)])]
}

fn struct_of(name: &str, n: usize) -> MirType {
    MirType::Struct {
        name: name.to_string(),
        fields: (0..n).map(|i| (format!("f{}", i), Box::new(MirType::I64))).collect(),
    }
}

fn generate(functions: Vec<MirFunction>, struct_defs: Vec<(String, Vec<(String, MirType)>)>) -> String {
    let program = MirProgram { functions, extern_fns: vec![], struct_defs };
    TextCodeGen::new("linux").generate(&program).unwrap()
}

fn point_init(dest: &str) -> MirInst {
    MirInst::StructInit {
        dest: Place::new(dest),
        struct_name: "Point".to_string(),
        fields: vec![("x".to_string(), lit(1)), ("y".to_string(), lit(2))],
    }
}

#[test]
fn local_struct_lives_on_the_stack_and_fields_are_read_back() {
    let f = func(
        "mk",
        vec![],
        MirType::I64,
        vec![],
        vec![block(
            "entry",
            vec![
                point_init("p"),
                MirInst::FieldAccess {
                    dest: Place::new("_t0"),
                    base: Place::new("p"),
                    field: "y".to_string(),
                    field_index: 1,
                    struct_name: "Point".to_string(),
                },
            ],
            Terminator::Return(Some(place("_t0"))),
        )],
    );
    let ir = generate(vec![f], point_defs());
    let expected = lines(&[
        "  ; struct Point init with 2 fields (stack - local only)\n",
        "  %p = alloca %struct.Point, align 8\n",
        "  ; field x = 1\n",
        "  %p_f0 = getelementptr %struct.Point, ptr %p, i32 0, i32 0\n",
        "  store i64 1, ptr %p_f0\n",
        "  ; field y = 2\n",
        "  %p_f1 = getelementptr %struct.Point, ptr %p, i32 0, i32 1\n",
        "  store i64 2, ptr %p_f1\n",
        "  ; field access .y[1] from %p (Point)\n",
        "  %_t0_ptr = getelementptr %struct.Point, ptr %p, i32 0, i32 1\n",
        "  %_t0 = load i64, ptr %_t0_ptr\n",
    ]);
    assert!(ir.contains(&expected), "got:\n{}", ir);
}

#[test]
fn returned_struct_of_two_fields_is_built_on_the_stack() {
    let f = func(
        "mk",
        vec![],
        struct_of("Point", 2),
        vec![],
        vec![block("entry", vec![point_init("s")], Terminator::Return(Some(place("s"))))],
    );
    let ir = generate(vec![f], point_defs());
    assert!(ir.contains("  ; struct Point init with 2 fields (stack - small struct return)\n  %s = alloca %struct.Point, align 8\n"), "got:\n{}", ir);
}

#[test]
fn returned_struct_of_three_fields_is_built_in_the_callers_slot() {
    let f = func(
        "mk",
        vec![],
        struct_of("Point", 3),
        vec![],
        vec![block("entry", vec![point_init("s")], Terminator::Return(Some(place("s"))))],
    );
    let ir = generate(vec![f], point_defs());
    assert!(ir.contains("  ; struct Point init with 2 fields (sret - caller allocated)\n  %s = bitcast ptr %_sret to ptr\n"), "got:\n{}", ir);
}

#[test]
fn struct_returned_through_a_phi_is_built_in_the_callers_slot() {
    let f = func(
        "mk",
        vec![("c".to_string(), MirType::Bool)],
        struct_of("Point", 3),
        vec![],
        vec![
            block(
                "entry",
                vec![point_init("s")],
                Terminator::Branch { cond: place("c"), then_label: "a".to_string(), else_label: "b".to_string() },
            ),
            block("a", vec![], Terminator::Goto("b".to_string())),
            block(
                "b",
                vec![MirInst::Phi { dest: Place::new("r"), values: vec![(place("s"), "entry".to_string()), (place("s"), "a".to_string())] }],
                Terminator::Return(Some(place("r"))),
            ),
        ],
    );
    let ir = generate(vec![f], point_defs());
    assert!(ir.contains("(sret - caller allocated)\n  %s = bitcast ptr %_sret to ptr\n"), "got:\n{}", ir);
}

#[test]
fn struct_passed_to_a_call_is_built_on_the_heap() {
    let f = func(
        "mk",
        vec![],
        MirType::Unit,
        vec![],
        vec![block(
            "entry",
            vec![
                point_init("s"),
                MirInst::Call { dest: None, func: "consume".to_string(), args: vec![place("s")], is_tail: false },
            ],
            Terminator::Return(None),
        )],
    );
    let ir = generate(vec![f], point_defs());
    assert!(ir.contains("  ; struct Point init with 2 fields (heap - escapes)\n  %s = call ptr @malloc(i64 16)\n"), "got:\n{}", ir);
}

#[test]
fn repeated_field_stores_get_numbered_temporaries() {
    let store = |v: i64| MirInst::FieldStore {
        base: Place::new("p"),
        field: "x".to_string(),
        field_index: 0,
        struct_name: "Point".to_string(),
        value: lit(v),
    };
    let f = func(
        "set",
        vec![("p".to_string(), MirType::StructPtr("Point".to_string()))],
        MirType::Unit,
        vec![],
        vec![block("entry", vec![store(5), store(7)], Terminator::Return(None))],
    );
    let ir = generate(vec![f], point_defs());
    let expected = lines(&[
        "  ; field store .x[0] (Point) = 5\n",
        "  %p_f0_ptr = getelementptr %struct.Point, ptr %p, i32 0, i32 0\n",
        "  store i64 5, ptr %p_f0_ptr\n",
        "  ; field store .x[0] (Point) = 7\n",
        "  %p_f0_ptr.1 = getelementptr %struct.Point, ptr %p, i32 0, i32 0\n",
        "  store i64 7, ptr %p_f0_ptr.1\n",
    ]);
    assert!(ir.contains(&expected), "got:\n{}", ir);
}

#[test]
fn narrow_value_stored_into_wide_field_is_widened() {
    let f = func(
        "set",
        vec![("p".to_string(), MirType::StructPtr("Point".to_string())), ("v".to_string(), MirType::I32)],
        MirType::Unit,
        vec![],
        vec![block(
            "entry",
            vec![MirInst::FieldStore {
                base: Place::new("p"),
                field: "y".to_string(),
                field_index: 1,
                struct_name: "Point".to_string(),
                value: place("v"),
            }],
            Terminator::Return(None),
        )],
    );
    let ir = generate(vec![f], point_defs());
    let expected = lines(&[
        "  %p_f1_sext = sext i32 %v to i64\n",
        "  ; field store .y[1] (Point) = %p_f1_sext\n",
        "  %p_f1_ptr = getelementptr %struct.Point, ptr %p, i32 0, i32 1\n",
        "  store i64 %p_f1_sext, ptr %p_f1_ptr\n",
    ]);
    assert!(ir.contains(&expected), "got:\n{}", ir);
}

#[test]
fn enum_variant_stores_discriminant_then_arguments() {
    let f = func(
        "red",
        vec![],
        MirType::Unit,
        vec![],
        vec![block(
            "entry",
            vec![MirInst::EnumVariant {
                dest: Place::new("e"),
                enum_name: "Color".to_string(),
                variant: "Red".to_string(),
                args: vec![lit(7)],
            }],
            Terminator::Return(None),
        )],
    );
    let ir = generate(vec![f], vec![]);
    // 'R' * 1 + 'e' * 2 + 'd' * 3 = 82 + 202 + 300
    let expected = lines(&[
        "  ; enum Color::Red with 1 args\n",
        "  %e = alloca i64, i32 2\n",
        "  %e_disc = getelementptr i64, ptr %e, i32 0\n",
        "  store i64 584, ptr %e_disc\n",
        "  %e_a0 = getelementptr i64, ptr %e, i32 1\n",
        "  store i64 7, ptr %e_a0\n",
    ]);
    assert!(ir.contains(&expected), "got:\n{}", ir);
}

#[test]
fn tuple_is_built_by_insertions_and_read_by_extraction() {
    let f = func(
        "pair",
        vec![("a".to_string(), MirType::I32)],
        MirType::I64,
        vec![],
        vec![block(
            "entry",
            vec![
                MirInst::TupleInit {
                    dest: Place::new("t"),
                    elements: vec![(MirType::I64, place("a")), (MirType::I64, lit(3))],
                },
                MirInst::TupleExtract {
                    dest: Place::new("_t1"),
                    tuple: Place::new("t"),
                    index: 1,
                    element_type: MirType::I64,
                },
            ],
            Terminator::Return(Some(place("_t1"))),
        )],
    );
    let ir = generate(vec![f], vec![]);
    let expected = lines(&[
        "  %t_tuple_sext0 = sext i32 %a to i64\n",
        "  %t_0 = insertvalue { i64, i64 } undef, i64 %t_tuple_sext0, 0\n",
        "  %t = insertvalue { i64, i64 } %t_0, i64 3, 1\n",
        "  %_t1 = extractvalue { i64, i64 } %t, 1\n",
    ]);
    assert!(ir.contains(&expected), "got:\n{}", ir);
}

#[test]
fn single_element_tuple_is_aliased() {
    let f = func(
        "one",
        vec![],
        MirType::Unit,
        vec![],
        vec![block(
            "entry",
            vec![MirInst::TupleInit { dest: Place::new("t"), elements: vec![(MirType::I64, lit(1))] }],
            Terminator::Return(None),
        )],
    );
    let ir = generate(vec![f], vec![]);
    let expected = lines(&[
        "  %t_0 = insertvalue { i64 } undef, i64 1, 0\n",
        "  %t = insertvalue { i64 } %t_0, i64 0, 0 ; alias\n",
    ]);
    assert!(ir.contains(&expected), "got:\n{}", ir);
}

#[test]
fn empty_tuple_is_a_placeholder() {
    let f = func(
        "unit",
        vec![],
        MirType::Unit,
        vec![],
        vec![block("entry", vec![MirInst::TupleInit { dest: Place::new("t"), elements: vec![] }], Terminator::Return(None))],
    );
    let ir = generate(vec![f], vec![]);
    assert!(ir.contains("  %t = insertvalue {  } undef, i64 0, 0\n"), "got:\n{}", ir);
}

#[test]
fn index_stores_are_numbered_per_array() {
    let store = |v: i64| MirInst::IndexStore {
        array: Place::new("arr"),
        index: place("i"),
        value: lit(v),
        element_type: MirType::I64,
    };
    let f = func(
        "fill",
        vec![("arr".to_string(), MirType::Ptr(Box::new(MirType::I64))), ("i".to_string(), MirType::I64)],
        MirType::Unit,
        vec![],
        vec![block("entry", vec![store(9), store(8)], Terminator::Return(None))],
    );
    let ir = generate(vec![f], vec![]);
    let expected = lines(&[
        "  ; index store %arr[%i] = 9\n",
        "  %arr_idx_ptr.0 = getelementptr i64, ptr %arr, i64 %i\n",
        "  store i64 9, ptr %arr_idx_ptr.0\n",
        "  ; index store %arr[%i] = 8\n",
        "  %arr_idx_ptr.1 = getelementptr i64, ptr %arr, i64 %i\n",
        "  store i64 8, ptr %arr_idx_ptr.1\n",
    ]);
    assert!(ir.contains(&expected), "got:\n{}", ir);
}

#[test]
fn narrow_index_is_sign_extended() {
    let f = func(
        "get",
        vec![("arr".to_string(), MirType::Ptr(Box::new(MirType::I64))), ("j".to_string(), MirType::I32)],
        MirType::I64,
        vec![],
        vec![block(
            "entry",
            vec![MirInst::IndexLoad {
                dest: Place::new("_t0"),
                array: Place::new("arr"),
                index: place("j"),
                element_type: MirType::I64,
            }],
            Terminator::Return(Some(place("_t0"))),
        )],
    );
    let ir = generate(vec![f], vec![]);
    let expected = lines(&[
        "  %_t0_idx_sext = sext i32 %j to i64\n",
        "  ; index load %arr[%_t0_idx_sext]\n",
        "  %_t0_ptr = getelementptr i64, ptr %arr, i64 %_t0_idx_sext\n",
        "  %_t0 = load i64, ptr %_t0_ptr\n",
    ]);
    assert!(ir.contains(&expected), "got:\n{}", ir);
}

#[test]
fn struct_array_elements_are_copied() {
    let f = func(
        "pts",
        vec![("a".to_string(), MirType::StructPtr("Point".to_string()))],
        MirType::Unit,
        vec![],
        vec![block(
            "entry",
            vec![MirInst::ArrayInit { dest: Place::new("arr"), element_type: struct_of("Point", 2), elements: vec![place("a")] }],
            Terminator::Return(None),
        )],
    );
    let ir = generate(vec![f], point_defs());
    let expected = lines(&[
        "  ; struct array init with 1 elements of type %struct.Point\n",
        "  %arr = alloca %struct.Point, i32 1\n",
        "  %arr_e0 = getelementptr %struct.Point, ptr %arr, i32 0\n",
        "  call void @llvm.memcpy.p0.p0.i64(ptr %arr_e0, ptr %a, i64 16, i1 false)\n",
    ]);
    assert!(ir.contains(&expected), "got:\n{}", ir);
}

fn zeros_program(n: usize) -> String {
    let mut elements: Vec<Operand> = (0..n).map(|_| lit(0)).collect();
    if n > 1 {
        elements[1] = Operand::Constant(Constant::Float(FloatConst::new(0x8000_0000_0000_0000, "-0.000000e0", "-0e0")));
    }
    let f = func(
        "zeros",
        vec![],
        MirType::Unit,
        vec![],
        vec![block(
            "entry",
            vec![MirInst::ArrayInit { dest: Place::new("z"), element_type: MirType::I64, elements }],
            Terminator::Return(None),
        )],
    );
    generate(vec![f], vec![])
}

#[test]
fn large_zero_arrays_are_filled_by_memset() {
    let ir = zeros_program(64);
    let expected = lines(&[
        "  ; array init with 64 elements of type i64\n",
        "  %z = alloca i64, i32 64\n",
        "  ; optimized: memset for 64 zero elements (512 bytes)\n",
        "  call void @llvm.memset.p0.i64(ptr %z, i8 0, i64 512, i1 false)\n",
    ]);
    assert!(ir.contains(&expected), "got:\n{}", ir);
    let ir = zeros_program(63);
    assert!(!ir.contains("optimized: memset"));
    assert!(ir.contains("  %z_e62 = getelementptr i64, ptr %z, i32 62\n  store i64 0, ptr %z_e62\n"), "got:\n{}", ir);
}

#[test]
fn empty_array_keeps_one_slot() {
    let ir = zeros_program(0);
    assert!(ir.contains("  ; array init with 0 elements of type i64\n  %z = alloca i64, i32 1\n"), "got:\n{}", ir);
}

#[test]
fn stores_through_pointers_load_locals_first() {
    let f = func(
        "put",
        vec![("p".to_string(), MirType::Ptr(Box::new(MirType::I64)))],
        MirType::Unit,
        vec![("v".to_string(), MirType::I64)],
        vec![block(
            "entry",
            vec![
                MirInst::Const { dest: Place::new("v"), value: Constant::Int(4) },
                MirInst::PtrStore { ptr: place("p"), value: place("v"), element_type: MirType::I64 },
            ],
            Terminator::Return(None),
        )],
    );
    let ir = generate(vec![f], vec![]);
    assert!(ir.contains("  %v_val_load = load i64, ptr %v.addr\n  store i64 %v_val_load, ptr %p\n"), "got:\n{}", ir);
}

#[test]
fn pointer_offsets_step_by_whole_structs() {
    let f = func(
        "nth",
        vec![("p".to_string(), MirType::StructPtr("Body".to_string())), ("k".to_string(), MirType::I64)],
        MirType::StructPtr("Body".to_string()),
        vec![],
        vec![block(
            "entry",
            vec![MirInst::PtrOffset {
                dest: Place::new("_t0"),
                ptr: place("p"),
                offset: place("k"),
                element_type: MirType::StructPtr("Body".to_string()),
            }],
            Terminator::Return(Some(place("_t0"))),
        )],
    );
    let ir = generate(vec![f], vec![]);
    assert!(ir.contains("  %_t0 = getelementptr inbounds %struct.Body, ptr %p, i64 %k\n"), "got:\n{}", ir);
}
