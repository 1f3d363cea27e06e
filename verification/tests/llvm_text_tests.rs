use bmb::codegen::llvm_text::TextCodeGen;
use bmb::codegen::names::NameMap;
use bmb::mir::{
    BasicBlock, Constant, FloatConst, MirBinOp, MirFunction, MirInst, MirProgram, MirType, Operand,
    Place, Terminator,
};

/// A float constant as the front end builds it: its bits and its
/// scientific-notation rendering.
fn float_const(f: f64) -> Constant {
    Constant::Float(FloatConst::new(f.to_bits(), &format!("{:.6e}", f), &format!("{:e}", f)))
}

#[test]
fn test_escape_string_special_chars() {
    let cg = TextCodeGen::new("linux");
    // Backslash
    assert_eq!(cg.escape_string_for_llvm("a\\b"), "a\\5Cb");
    // Double-quote
    assert_eq!(cg.escape_string_for_llvm("say \"hi\""), "say \\22hi\\22");
    // Newline
    assert_eq!(cg.escape_string_for_llvm("line1\nline2"), "line1\\0Aline2");
    // Carriage return
    assert_eq!(cg.escape_string_for_llvm("cr\rhere"), "cr\\0Dhere");
    // Tab
    assert_eq!(cg.escape_string_for_llvm("col1\tcol2"), "col1\\09col2");
    // Plain ASCII passthrough
    assert_eq!(cg.escape_string_for_llvm("hello"), "hello");
}

#[test]
fn test_mir_type_to_llvm_all_variants() {
    let cg = TextCodeGen::new("linux");
    assert_eq!(cg.mir_type_to_llvm(&MirType::I32), "i32");
    assert_eq!(cg.mir_type_to_llvm(&MirType::I64), "i64");
    assert_eq!(cg.mir_type_to_llvm(&MirType::U32), "i32");
    assert_eq!(cg.mir_type_to_llvm(&MirType::U64), "i64");
    assert_eq!(cg.mir_type_to_llvm(&MirType::F64), "double");
    assert_eq!(cg.mir_type_to_llvm(&MirType::Bool), "i1");
    assert_eq!(cg.mir_type_to_llvm(&MirType::String), "ptr");
    assert_eq!(cg.mir_type_to_llvm(&MirType::Unit), "void");
    assert_eq!(cg.mir_type_to_llvm(&MirType::Char), "i32");
    assert_eq!(cg.mir_type_to_llvm(&MirType::StructPtr("Foo".to_string())), "ptr");
    assert_eq!(cg.mir_type_to_llvm(&MirType::Ptr(Box::new(MirType::I64))), "ptr");
    assert_eq!(cg.mir_type_to_llvm(&MirType::Tuple(vec![Box::new(MirType::I64)])), "ptr");
    assert_eq!(cg.mir_type_to_llvm(&MirType::Array {
        element_type: Box::new(MirType::I64),
        size: Some(10),
    }), "ptr");
    assert_eq!(cg.mir_type_to_llvm(&MirType::Enum {
        name: "Color".to_string(),
        variants: vec![],
    }), "ptr");
    assert_eq!(cg.mir_type_to_llvm(&MirType::Struct {
        name: "Point".to_string(),
        fields: vec![],
    }), "ptr");
}

#[test]
fn test_constant_type_all_variants() {
    let cg = TextCodeGen::new("linux");
    assert_eq!(cg.constant_type(&Constant::Int(42)), "i64");
    assert_eq!(cg.constant_type(&float_const(1.23)), "double");
    assert_eq!(cg.constant_type(&Constant::Bool(true)), "i1");
    assert_eq!(cg.constant_type(&Constant::String("hi".to_string())), "ptr");
    assert_eq!(cg.constant_type(&Constant::Char('A')), "i32");
    assert_eq!(cg.constant_type(&Constant::Unit), "i8");
}

#[test]
fn test_format_constant_special_floats() {
    let cg = TextCodeGen::new("linux");
    // NaN
    assert_eq!(cg.format_constant(&float_const(f64::NAN)), "0x7FF8000000000000");
    // Positive infinity
    assert_eq!(cg.format_constant(&float_const(f64::INFINITY)), "0x7FF0000000000000");
    // Negative infinity
    assert_eq!(cg.format_constant(&float_const(f64::NEG_INFINITY)), "0xFFF0000000000000");
    // Normal float
    assert_eq!(cg.format_constant(&float_const(4.0)), "4.000000e0");
    // Bool
    assert_eq!(cg.format_constant(&Constant::Bool(true)), "1");
    assert_eq!(cg.format_constant(&Constant::Bool(false)), "0");
    // Unit
    assert_eq!(cg.format_constant(&Constant::Unit), "0");
    // Char
    assert_eq!(cg.format_constant(&Constant::Char('A')), "65");
}

#[test]
fn test_get_cast_instruction_integer_widening() {
    let cg = TextCodeGen::new("linux");
    // Signed widening
    assert_eq!(cg.get_cast_instruction(&MirType::I32, &MirType::I64), "sext");
    assert_eq!(cg.get_cast_instruction(&MirType::Char, &MirType::I64), "sext");
    // Unsigned widening
    assert_eq!(cg.get_cast_instruction(&MirType::U32, &MirType::I64), "zext");
    assert_eq!(cg.get_cast_instruction(&MirType::Bool, &MirType::I64), "zext");
    assert_eq!(cg.get_cast_instruction(&MirType::Bool, &MirType::I32), "zext");
}

#[test]
fn test_get_cast_instruction_integer_narrowing() {
    let cg = TextCodeGen::new("linux");
    assert_eq!(cg.get_cast_instruction(&MirType::I64, &MirType::I32), "trunc");
    assert_eq!(cg.get_cast_instruction(&MirType::U64, &MirType::I32), "trunc");
    assert_eq!(cg.get_cast_instruction(&MirType::I64, &MirType::Char), "trunc");
    assert_eq!(cg.get_cast_instruction(&MirType::I32, &MirType::Char), "trunc");
}

#[test]
fn test_get_cast_instruction_float_conversions() {
    let cg = TextCodeGen::new("linux");
    // Integer to float
    assert_eq!(cg.get_cast_instruction(&MirType::I64, &MirType::F64), "sitofp");
    assert_eq!(cg.get_cast_instruction(&MirType::I32, &MirType::F64), "sitofp");
    assert_eq!(cg.get_cast_instruction(&MirType::U64, &MirType::F64), "uitofp");
    // Float to integer
    assert_eq!(cg.get_cast_instruction(&MirType::F64, &MirType::I64), "fptosi");
    assert_eq!(cg.get_cast_instruction(&MirType::F64, &MirType::I32), "fptosi");
    assert_eq!(cg.get_cast_instruction(&MirType::F64, &MirType::U64), "fptoui");
}

#[test]
fn test_get_cast_instruction_same_size_signedness() {
    let cg = TextCodeGen::new("linux");
    assert_eq!(cg.get_cast_instruction(&MirType::I32, &MirType::U32), "bitcast");
    assert_eq!(cg.get_cast_instruction(&MirType::U32, &MirType::I32), "bitcast");
    assert_eq!(cg.get_cast_instruction(&MirType::I64, &MirType::U64), "bitcast");
    assert_eq!(cg.get_cast_instruction(&MirType::U64, &MirType::I64), "bitcast");
}

#[test]
fn test_get_cast_instruction_pointer_conversions() {
    let cg = TextCodeGen::new("linux");
    assert_eq!(cg.get_cast_instruction(&MirType::StructPtr("Foo".to_string()), &MirType::I64), "ptrtoint");
    assert_eq!(cg.get_cast_instruction(&MirType::I64, &MirType::StructPtr("Bar".to_string())), "inttoptr");
    assert_eq!(cg.get_cast_instruction(&MirType::Ptr(Box::new(MirType::I64)), &MirType::I64), "ptrtoint");
    assert_eq!(cg.get_cast_instruction(&MirType::I64, &MirType::Ptr(Box::new(MirType::I64))), "inttoptr");
}

#[test]
fn test_binop_to_llvm_wrapping_arithmetic() {
    let cg = TextCodeGen::new("linux");
    // Wrapping ops should NOT have nsw flag
    let (inst, preserves) = cg.binop_to_llvm(MirBinOp::AddWrap);
    assert_eq!(inst, "add");
    assert!(preserves);
    let (inst, _) = cg.binop_to_llvm(MirBinOp::SubWrap);
    assert_eq!(inst, "sub");
    let (inst, _) = cg.binop_to_llvm(MirBinOp::MulWrap);
    assert_eq!(inst, "mul");
}

#[test]
fn test_binop_to_llvm_float_fast_math() {
    let cg = TextCodeGen::new("linux");
    let (inst, preserves) = cg.binop_to_llvm(MirBinOp::FAdd);
    assert_eq!(inst, "fadd fast");
    assert!(preserves);
    let (inst, _) = cg.binop_to_llvm(MirBinOp::FSub);
    assert_eq!(inst, "fsub fast");
    let (inst, _) = cg.binop_to_llvm(MirBinOp::FMul);
    assert_eq!(inst, "fmul fast");
    let (inst, _) = cg.binop_to_llvm(MirBinOp::FDiv);
    assert_eq!(inst, "fdiv fast");
}

#[test]
fn test_binop_to_llvm_comparisons_return_i1() {
    let cg = TextCodeGen::new("linux");
    // All comparisons should NOT preserve operand type (they return i1)
    for op in [MirBinOp::Eq, MirBinOp::Ne, MirBinOp::Lt, MirBinOp::Gt,
               MirBinOp::Le, MirBinOp::Ge] {
        let (_, preserves) = cg.binop_to_llvm(op);
        assert!(!preserves, "{:?} should return i1 (preserves_operand_type=false)", op);
    }
    // Float comparisons
    for op in [MirBinOp::FEq, MirBinOp::FNe, MirBinOp::FLt, MirBinOp::FGt,
               MirBinOp::FLe, MirBinOp::FGe] {
        let (_, preserves) = cg.binop_to_llvm(op);
        assert!(!preserves, "{:?} should return i1 (preserves_operand_type=false)", op);
    }
}

#[test]
fn test_infer_call_return_type_builtins() {
    let cg = TextCodeGen::new("linux");
    let dummy_func = MirFunction {
        name: "test".to_string(),
        params: vec![],
        ret_ty: MirType::I64,
        locals: vec![],
        blocks: vec![],
        is_pure: false,
        is_const: false,
        always_inline: false,
        inline_hint: false,
        is_memory_free: false,
    };
    // Void returns
    assert_eq!(cg.infer_call_return_type("println", &dummy_func), "void");
    assert_eq!(cg.infer_call_return_type("print", &dummy_func), "void");
    assert_eq!(cg.infer_call_return_type("assert", &dummy_func), "void");
    // i64 returns
    assert_eq!(cg.infer_call_return_type("read_int", &dummy_func), "i64");
    assert_eq!(cg.infer_call_return_type("len", &dummy_func), "i64");
    assert_eq!(cg.infer_call_return_type("bmb_time_ns", &dummy_func), "i64");
    // double returns
    assert_eq!(cg.infer_call_return_type("sqrt", &dummy_func), "double");
    assert_eq!(cg.infer_call_return_type("i64_to_f64", &dummy_func), "double");
    // ptr returns
    assert_eq!(cg.infer_call_return_type("bmb_read_file", &dummy_func), "ptr");
    assert_eq!(cg.infer_call_return_type("sb_build", &dummy_func), "ptr");
    assert_eq!(cg.infer_call_return_type("chr", &dummy_func), "ptr");
    // Unknown function defaults to i64
    assert_eq!(cg.infer_call_return_type("unknown_fn", &dummy_func), "i64");
}

#[test]
fn test_collect_string_constants_dedup() {
    // Same string used twice should only create one global
    let program = MirProgram {
        functions: vec![MirFunction {
            name: "greet".to_string(),
            params: vec![],
            ret_ty: MirType::String,
            locals: vec![],
            blocks: vec![BasicBlock {
                label: "entry".to_string(),
                instructions: vec![
                    MirInst::Const {
                        dest: Place::new("_t0"),
                        value: Constant::String("hello".to_string()),
                    },
                    MirInst::Const {
                        dest: Place::new("_t1"),
                        value: Constant::String("hello".to_string()),
                    },
                ],
                terminator: Terminator::Return(Some(Operand::Place(Place::new("_t0")))),
            }],
            is_pure: false,
            is_const: false,
            always_inline: false,
            inline_hint: false,
            is_memory_free: false,
        }],
        extern_fns: vec![],
        struct_defs: Vec::new(),
    };
    let cg = TextCodeGen::new("linux");
    let table = cg.collect_string_constants(&program);
    assert_eq!(table.len(), 1, "duplicate strings should be deduplicated");
    assert!(table.contains_key("hello"));
}

#[test]
fn test_collect_string_constants_from_call_args() {
    // String constant in call arguments should be collected
    let program = MirProgram {
        functions: vec![MirFunction {
            name: "test".to_string(),
            params: vec![],
            ret_ty: MirType::Unit,
            locals: vec![],
            blocks: vec![BasicBlock {
                label: "entry".to_string(),
                instructions: vec![
                    MirInst::Call {
                        dest: None,
                        func: "println".to_string(),
                        args: vec![Operand::Constant(Constant::String("world".to_string()))],
                        is_tail: false,
                    },
                ],
                terminator: Terminator::Return(None),
            }],
            is_pure: false,
            is_const: false,
            always_inline: false,
            inline_hint: false,
            is_memory_free: false,
        }],
        extern_fns: vec![],
        struct_defs: Vec::new(),
    };
    let cg = TextCodeGen::new("linux");
    let table = cg.collect_string_constants(&program);
    assert!(table.contains_key("world"), "string in call args should be collected");
}

#[test]
fn test_collect_string_constants_multiple_unique() {
    let program = MirProgram {
        functions: vec![MirFunction {
            name: "test".to_string(),
            params: vec![],
            ret_ty: MirType::Unit,
            locals: vec![],
            blocks: vec![BasicBlock {
                label: "entry".to_string(),
                instructions: vec![
                    MirInst::Const {
                        dest: Place::new("_t0"),
                        value: Constant::String("alpha".to_string()),
                    },
                    MirInst::Const {
                        dest: Place::new("_t1"),
                        value: Constant::String("beta".to_string()),
                    },
                    MirInst::Const {
                        dest: Place::new("_t2"),
                        value: Constant::String("gamma".to_string()),
                    },
                ],
                terminator: Terminator::Return(None),
            }],
            is_pure: false,
            is_const: false,
            always_inline: false,
            inline_hint: false,
            is_memory_free: false,
        }],
        extern_fns: vec![],
        struct_defs: Vec::new(),
    };
    let cg = TextCodeGen::new("linux");
    let table = cg.collect_string_constants(&program);
    assert_eq!(table.len(), 3, "should collect 3 unique strings");
    assert!(table.contains_key("alpha"));
    assert!(table.contains_key("beta"));
    assert!(table.contains_key("gamma"));
}

#[test]
fn test_is_string_operand_constant() {
    let func = MirFunction {
        name: "test".to_string(),
        params: vec![],
        ret_ty: MirType::Unit,
        locals: vec![],
        blocks: vec![],
        is_pure: false,
        is_const: false,
        always_inline: false,
        inline_hint: false,
        is_memory_free: false,
    };
    // String constant should be detected
    assert!(TextCodeGen::is_string_operand(
        &Operand::Constant(Constant::String("test".to_string())), &func));
    // Non-string constant should not
    assert!(!TextCodeGen::is_string_operand(
        &Operand::Constant(Constant::Int(42)), &func));
}

#[test]
fn test_is_string_operand_param() {
    let func = MirFunction {
        name: "test".to_string(),
        params: vec![
            ("s".to_string(), MirType::String),
            ("n".to_string(), MirType::I64),
        ],
        ret_ty: MirType::Unit,
        locals: vec![],
        blocks: vec![],
        is_pure: false,
        is_const: false,
        always_inline: false,
        inline_hint: false,
        is_memory_free: false,
    };
    // String param should be detected
    assert!(TextCodeGen::is_string_operand(
        &Operand::Place(Place::new("s")), &func));
    // Non-string param should not
    assert!(!TextCodeGen::is_string_operand(
        &Operand::Place(Place::new("n")), &func));
}

#[test]
fn test_is_string_operand_local() {
    let func = MirFunction {
        name: "test".to_string(),
        params: vec![],
        ret_ty: MirType::Unit,
        locals: vec![
            ("msg".to_string(), MirType::String),
            ("count".to_string(), MirType::I64),
        ],
        blocks: vec![],
        is_pure: false,
        is_const: false,
        always_inline: false,
        inline_hint: false,
        is_memory_free: false,
    };
    assert!(TextCodeGen::is_string_operand(
        &Operand::Place(Place::new("msg")), &func));
    assert!(!TextCodeGen::is_string_operand(
        &Operand::Place(Place::new("count")), &func));
}

#[test]
fn test_unique_name_first_use() {
    let codegen = TextCodeGen::new("linux");
    let mut counts = NameMap::new();
    let name = codegen.unique_name("temp", &mut counts);
    assert_eq!(name, "temp");
}

#[test]
fn test_unique_name_second_use_gets_suffix() {
    let codegen = TextCodeGen::new("linux");
    let mut counts = NameMap::new();
    let _ = codegen.unique_name("temp", &mut counts);
    let name2 = codegen.unique_name("temp", &mut counts);
    assert_eq!(name2, "temp_1");
}

#[test]
fn test_unique_name_third_use() {
    let codegen = TextCodeGen::new("linux");
    let mut counts = NameMap::new();
    let _ = codegen.unique_name("x", &mut counts);
    let _ = codegen.unique_name("x", &mut counts);
    let name3 = codegen.unique_name("x", &mut counts);
    assert_eq!(name3, "x_2");
}

#[test]
fn test_unique_name_different_names_independent() {
    let codegen = TextCodeGen::new("linux");
    let mut counts = NameMap::new();
    let a = codegen.unique_name("a", &mut counts);
    let b = codegen.unique_name("b", &mut counts);
    assert_eq!(a, "a");
    assert_eq!(b, "b");
}

#[test]
fn test_binop_to_llvm_integer_arithmetic_nsw() {
    let codegen = TextCodeGen::new("linux");
    assert_eq!(codegen.binop_to_llvm(MirBinOp::Add), ("add nsw", true));
    assert_eq!(codegen.binop_to_llvm(MirBinOp::Sub), ("sub nsw", true));
    assert_eq!(codegen.binop_to_llvm(MirBinOp::Mul), ("mul nsw", true));
}

#[test]
fn test_binop_to_llvm_div_mod_no_nsw() {
    let codegen = TextCodeGen::new("linux");
    assert_eq!(codegen.binop_to_llvm(MirBinOp::Div), ("sdiv", true));
    assert_eq!(codegen.binop_to_llvm(MirBinOp::Mod), ("srem", true));
}

#[test]
fn test_binop_to_llvm_checked_and_saturating() {
    let codegen = TextCodeGen::new("linux");
    // Checked — currently same as wrapping (no nsw)
    assert_eq!(codegen.binop_to_llvm(MirBinOp::AddChecked), ("add", true));
    assert_eq!(codegen.binop_to_llvm(MirBinOp::SubChecked), ("sub", true));
    assert_eq!(codegen.binop_to_llvm(MirBinOp::MulChecked), ("mul", true));
    // Saturating — currently same as wrapping
    assert_eq!(codegen.binop_to_llvm(MirBinOp::AddSat), ("add", true));
    assert_eq!(codegen.binop_to_llvm(MirBinOp::SubSat), ("sub", true));
    assert_eq!(codegen.binop_to_llvm(MirBinOp::MulSat), ("mul", true));
}

#[test]
fn test_binop_to_llvm_shift_operators() {
    let codegen = TextCodeGen::new("linux");
    assert_eq!(codegen.binop_to_llvm(MirBinOp::Shl), ("shl", true));
    assert_eq!(codegen.binop_to_llvm(MirBinOp::Shr), ("ashr", true));
}

#[test]
fn test_binop_to_llvm_bitwise_preserves_type() {
    let codegen = TextCodeGen::new("linux");
    let (_, band_preserves) = codegen.binop_to_llvm(MirBinOp::Band);
    let (_, bor_preserves) = codegen.binop_to_llvm(MirBinOp::Bor);
    let (_, bxor_preserves) = codegen.binop_to_llvm(MirBinOp::Bxor);
    assert!(band_preserves);
    assert!(bor_preserves);
    assert!(bxor_preserves);
}

#[test]
fn test_binop_to_llvm_logical_returns_i1() {
    let codegen = TextCodeGen::new("linux");
    let (_, and_preserves) = codegen.binop_to_llvm(MirBinOp::And);
    let (_, or_preserves) = codegen.binop_to_llvm(MirBinOp::Or);
    assert!(!and_preserves);
    assert!(!or_preserves);
}

#[test]
fn test_binop_to_llvm_float_comparison_returns_i1() {
    let codegen = TextCodeGen::new("linux");
    assert_eq!(codegen.binop_to_llvm(MirBinOp::FEq), ("fcmp oeq", false));
    assert_eq!(codegen.binop_to_llvm(MirBinOp::FNe), ("fcmp one", false));
    assert_eq!(codegen.binop_to_llvm(MirBinOp::FLt), ("fcmp olt", false));
    assert_eq!(codegen.binop_to_llvm(MirBinOp::FGt), ("fcmp ogt", false));
    assert_eq!(codegen.binop_to_llvm(MirBinOp::FLe), ("fcmp ole", false));
    assert_eq!(codegen.binop_to_llvm(MirBinOp::FGe), ("fcmp oge", false));
}

#[test]
fn test_binop_to_llvm_implies() {
    let codegen = TextCodeGen::new("linux");
    assert_eq!(codegen.binop_to_llvm(MirBinOp::Implies), ("or", false));
}

#[test]
fn test_format_constant_int() {
    let codegen = TextCodeGen::new("linux");
    assert_eq!(codegen.format_constant(&Constant::Int(42)), "42");
    assert_eq!(codegen.format_constant(&Constant::Int(-1)), "-1");
    assert_eq!(codegen.format_constant(&Constant::Int(0)), "0");
}

#[test]
fn test_format_constant_bool() {
    let codegen = TextCodeGen::new("linux");
    assert_eq!(codegen.format_constant(&Constant::Bool(true)), "1");
    assert_eq!(codegen.format_constant(&Constant::Bool(false)), "0");
}

#[test]
fn test_format_constant_unit() {
    let codegen = TextCodeGen::new("linux");
    assert_eq!(codegen.format_constant(&Constant::Unit), "0");
}

#[test]
fn test_format_constant_char() {
    let codegen = TextCodeGen::new("linux");
    assert_eq!(codegen.format_constant(&Constant::Char('A')), "65");
    assert_eq!(codegen.format_constant(&Constant::Char('\0')), "0");
}

#[test]
fn test_format_constant_string() {
    let codegen = TextCodeGen::new("linux");
    assert_eq!(codegen.format_constant(&Constant::String("hello".to_string())), "\"hello\"");
}

#[test]
fn test_format_constant_float_normal() {
    let codegen = TextCodeGen::new("linux");
    let result = codegen.format_constant(&float_const(4.0));
    assert!(result.contains("4"), "Expected float representation, got {}", result);
    assert!(result.contains("e"), "Expected scientific notation, got {}", result);
}

#[test]
fn test_format_constant_float_nan() {
    let codegen = TextCodeGen::new("linux");
    assert_eq!(codegen.format_constant(&float_const(f64::NAN)), "0x7FF8000000000000");
}

#[test]
fn test_format_constant_float_positive_infinity() {
    let codegen = TextCodeGen::new("linux");
    assert_eq!(codegen.format_constant(&float_const(f64::INFINITY)), "0x7FF0000000000000");
}

#[test]
fn test_format_constant_float_negative_infinity() {
    let codegen = TextCodeGen::new("linux");
    assert_eq!(codegen.format_constant(&float_const(f64::NEG_INFINITY)), "0xFFF0000000000000");
}

#[test]
fn test_format_operand_place() {
    let codegen = TextCodeGen::new("linux");
    assert_eq!(codegen.format_operand(&Operand::Place(Place::new("x"))), "%x");
}

#[test]
fn test_format_operand_constant_int() {
    let codegen = TextCodeGen::new("linux");
    assert_eq!(codegen.format_operand(&Operand::Constant(Constant::Int(99))), "99");
}

#[test]
fn test_format_operand_constant_bool() {
    let codegen = TextCodeGen::new("linux");
    assert_eq!(codegen.format_operand(&Operand::Constant(Constant::Bool(true))), "1");
}

#[test]
fn test_escape_string_printable_ascii() {
    let codegen = TextCodeGen::new("linux");
    assert_eq!(codegen.escape_string_for_llvm("hello"), "hello");
}

#[test]
fn test_escape_string_backslash() {
    let codegen = TextCodeGen::new("linux");
    assert_eq!(codegen.escape_string_for_llvm("a\\b"), "a\\5Cb");
}

#[test]
fn test_escape_string_double_quote() {
    let codegen = TextCodeGen::new("linux");
    assert_eq!(codegen.escape_string_for_llvm("say \"hi\""), "say \\22hi\\22");
}

#[test]
fn test_escape_string_newline() {
    let codegen = TextCodeGen::new("linux");
    assert_eq!(codegen.escape_string_for_llvm("a\nb"), "a\\0Ab");
}

#[test]
fn test_escape_string_carriage_return() {
    let codegen = TextCodeGen::new("linux");
    assert_eq!(codegen.escape_string_for_llvm("a\rb"), "a\\0Db");
}

#[test]
fn test_escape_string_tab() {
    let codegen = TextCodeGen::new("linux");
    assert_eq!(codegen.escape_string_for_llvm("a\tb"), "a\\09b");
}

#[test]
fn test_escape_string_null_byte() {
    let codegen = TextCodeGen::new("linux");
    assert_eq!(codegen.escape_string_for_llvm("a\0b"), "a\\00b");
}

#[test]
fn test_escape_string_empty() {
    let codegen = TextCodeGen::new("linux");
    assert_eq!(codegen.escape_string_for_llvm(""), "");
}

#[test]
fn test_constant_type_int() {
    let codegen = TextCodeGen::new("linux");
    assert_eq!(codegen.constant_type(&Constant::Int(0)), "i64");
}

#[test]
fn test_constant_type_float() {
    let codegen = TextCodeGen::new("linux");
    assert_eq!(codegen.constant_type(&float_const(1.0)), "double");
}

#[test]
fn test_constant_type_bool() {
    let codegen = TextCodeGen::new("linux");
    assert_eq!(codegen.constant_type(&Constant::Bool(false)), "i1");
}

#[test]
fn test_constant_type_string() {
    let codegen = TextCodeGen::new("linux");
    assert_eq!(codegen.constant_type(&Constant::String("hi".to_string())), "ptr");
}

#[test]
fn test_constant_type_char() {
    let codegen = TextCodeGen::new("linux");
    assert_eq!(codegen.constant_type(&Constant::Char('a')), "i32");
}

#[test]
fn test_constant_type_unit() {
    let codegen = TextCodeGen::new("linux");
    assert_eq!(codegen.constant_type(&Constant::Unit), "i8");
}

#[test]
fn test_infer_place_type_from_param() {
    let codegen = TextCodeGen::new("linux");
    let func = MirFunction {
        name: "test".to_string(),
        params: vec![("x".to_string(), MirType::F64)],
        ret_ty: MirType::I64,
        locals: vec![],
        blocks: vec![],
        is_pure: false,
        is_const: false,
        always_inline: false,
        inline_hint: false,
        is_memory_free: false,
    };
    assert_eq!(codegen.infer_place_type(&Place::new("x"), &func), "double");
}

#[test]
fn test_infer_place_type_from_local() {
    let codegen = TextCodeGen::new("linux");
    let func = MirFunction {
        name: "test".to_string(),
        params: vec![],
        ret_ty: MirType::I64,
        locals: vec![("tmp".to_string(), MirType::Bool)],
        blocks: vec![],
        is_pure: false,
        is_const: false,
        always_inline: false,
        inline_hint: false,
        is_memory_free: false,
    };
    assert_eq!(codegen.infer_place_type(&Place::new("tmp"), &func), "i1");
}

#[test]
fn test_infer_place_type_default_i64() {
    let codegen = TextCodeGen::new("linux");
    let func = MirFunction {
        name: "test".to_string(),
        params: vec![],
        ret_ty: MirType::I64,
        locals: vec![],
        blocks: vec![],
        is_pure: false,
        is_const: false,
        always_inline: false,
        inline_hint: false,
        is_memory_free: false,
    };
    assert_eq!(codegen.infer_place_type(&Place::new("unknown"), &func), "i64");
}

#[test]
fn test_infer_operand_type_constant() {
    let codegen = TextCodeGen::new("linux");
    let func = MirFunction {
        name: "test".to_string(),
        params: vec![],
        ret_ty: MirType::I64,
        locals: vec![],
        blocks: vec![],
        is_pure: false,
        is_const: false,
        always_inline: false,
        inline_hint: false,
        is_memory_free: false,
    };
    assert_eq!(codegen.infer_operand_type(&Operand::Constant(float_const(1.0)), &func), "double");
}

#[test]
fn test_infer_operand_type_place_param() {
    let codegen = TextCodeGen::new("linux");
    let func = MirFunction {
        name: "test".to_string(),
        params: vec![("y".to_string(), MirType::String)],
        ret_ty: MirType::I64,
        locals: vec![],
        blocks: vec![],
        is_pure: false,
        is_const: false,
        always_inline: false,
        inline_hint: false,
        is_memory_free: false,
    };
    assert_eq!(codegen.infer_operand_type(&Operand::Place(Place::new("y")), &func), "ptr");
}

#[test]
fn test_infer_call_return_type_void() {
    let codegen = TextCodeGen::new("linux");
    let func = MirFunction {
        name: "test".to_string(),
        params: vec![],
        ret_ty: MirType::I64,
        locals: vec![],
        blocks: vec![],
        is_pure: false,
        is_const: false,
        always_inline: false,
        inline_hint: false,
        is_memory_free: false,
    };
    assert_eq!(codegen.infer_call_return_type("println", &func), "void");
    assert_eq!(codegen.infer_call_return_type("print", &func), "void");
    assert_eq!(codegen.infer_call_return_type("assert", &func), "void");
}

#[test]
fn test_infer_call_return_type_i64() {
    let codegen = TextCodeGen::new("linux");
    let func = MirFunction {
        name: "test".to_string(),
        params: vec![],
        ret_ty: MirType::I64,
        locals: vec![],
        blocks: vec![],
        is_pure: false,
        is_const: false,
        always_inline: false,
        inline_hint: false,
        is_memory_free: false,
    };
    assert_eq!(codegen.infer_call_return_type("read_int", &func), "i64");
    assert_eq!(codegen.infer_call_return_type("bmb_abs", &func), "i64");
    assert_eq!(codegen.infer_call_return_type("bmb_string_len", &func), "i64");
}

#[test]
fn test_infer_call_return_type_double() {
    let codegen = TextCodeGen::new("linux");
    let func = MirFunction {
        name: "test".to_string(),
        params: vec![],
        ret_ty: MirType::I64,
        locals: vec![],
        blocks: vec![],
        is_pure: false,
        is_const: false,
        always_inline: false,
        inline_hint: false,
        is_memory_free: false,
    };
    assert_eq!(codegen.infer_call_return_type("sqrt", &func), "double");
    assert_eq!(codegen.infer_call_return_type("i64_to_f64", &func), "double");
}

#[test]
fn test_infer_call_return_type_ptr() {
    let codegen = TextCodeGen::new("linux");
    let func = MirFunction {
        name: "test".to_string(),
        params: vec![],
        ret_ty: MirType::I64,
        locals: vec![],
        blocks: vec![],
        is_pure: false,
        is_const: false,
        always_inline: false,
        inline_hint: false,
        is_memory_free: false,
    };
    assert_eq!(codegen.infer_call_return_type("bmb_string_concat", &func), "ptr");
}
