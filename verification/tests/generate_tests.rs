use bmb::codegen::llvm_text::TextCodeGen;
use bmb::mir::{
    BasicBlock, Constant, MirBinOp, MirExternFn, MirFunction, MirInst, MirProgram, MirType, MirUnaryOp,
    Operand, Place, Terminator,
};

#[test]
fn test_simple_add_function() {
    let program = MirProgram {
        functions: vec![MirFunction {
            name: "add".to_string(),
            params: vec![
                ("a".to_string(), MirType::I64),
                ("b".to_string(), MirType::I64),
            ],
            ret_ty: MirType::I64,
            locals: vec![],
            blocks: vec![BasicBlock {
                label: "entry".to_string(),
                instructions: vec![MirInst::BinOp {
                    dest: Place::new("_t0"),
                    op: MirBinOp::Add,
                    lhs: Operand::Place(Place::new("a")),
                    rhs: Operand::Place(Place::new("b")),
                }],
                terminator: Terminator::Return(Some(Operand::Place(Place::new("_t0")))),
            }],
            is_pure: false,
            is_const: false,
            always_inline: false,
            inline_hint: false,
            is_memory_free: false,
        }],
        extern_fns: vec![],
        struct_defs: Vec::new(),
    };

    let codegen = TextCodeGen::new("linux");
    let ir = codegen.generate(&program).unwrap();

    assert!(ir.contains("define i64 @add(i64 %a, i64 %b)"));
    assert!(ir.contains("%_t0 = add nsw i64 %a, %b"));  // nsw for optimization
    assert!(ir.contains("ret i64 %_t0"));
}

#[test]
fn test_with_target_custom_triple() {
    let cg = TextCodeGen::with_target("aarch64-unknown-linux-gnu");
    let program = MirProgram {
        functions: vec![MirFunction {
            name: "noop".to_string(),
            params: vec![],
            ret_ty: MirType::Unit,
            locals: vec![],
            blocks: vec![BasicBlock {
                label: "entry".to_string(),
                instructions: vec![],
                terminator: Terminator::Return(None),
            }],
            is_pure: false,
            is_const: false,
            always_inline: false,
            inline_hint: false,
            is_memory_free: false,
        }],
        extern_fns: vec![],
        struct_defs: Vec::new(),
    };
    let ir = cg.generate(&program).unwrap();
    assert!(ir.contains("target triple = \"aarch64-unknown-linux-gnu\""),
            "custom target triple missing");
}

#[test]
fn test_always_inline_function_attributes() {
    let program = MirProgram {
        functions: vec![MirFunction {
            name: "tiny".to_string(),
            params: vec![("x".to_string(), MirType::I64)],
            ret_ty: MirType::I64,
            locals: vec![],
            blocks: vec![BasicBlock {
                label: "entry".to_string(),
                instructions: vec![],
                terminator: Terminator::Return(Some(Operand::Place(Place::new("x")))),
            }],
            is_pure: false,
            is_const: false,
            always_inline: true,
            inline_hint: false,
            is_memory_free: false,
        }],
        extern_fns: vec![],
        struct_defs: Vec::new(),
    };
    let cg = TextCodeGen::new("linux");
    let ir = cg.generate(&program).unwrap();
    assert!(ir.contains("alwaysinline"), "always_inline function should have alwaysinline attribute");
    assert!(ir.contains("private "), "always_inline function should have private linkage");
}

#[test]
fn test_memory_free_function_attributes() {
    let program = MirProgram {
        functions: vec![MirFunction {
            name: "pure_add".to_string(),
            params: vec![
                ("a".to_string(), MirType::I64),
                ("b".to_string(), MirType::I64),
            ],
            ret_ty: MirType::I64,
            locals: vec![],
            blocks: vec![BasicBlock {
                label: "entry".to_string(),
                instructions: vec![MirInst::BinOp {
                    dest: Place::new("_t0"),
                    op: MirBinOp::Add,
                    lhs: Operand::Place(Place::new("a")),
                    rhs: Operand::Place(Place::new("b")),
                }],
                terminator: Terminator::Return(Some(Operand::Place(Place::new("_t0")))),
            }],
            is_pure: false,
            is_const: false,
            always_inline: false,
            inline_hint: false,
            is_memory_free: true,
        }],
        extern_fns: vec![],
        struct_defs: Vec::new(),
    };
    let cg = TextCodeGen::new("linux");
    let ir = cg.generate(&program).unwrap();
    assert!(ir.contains("memory(none)"), "memory-free function should have memory(none) attribute");
}

#[test]
fn test_struct_type_definitions_emitted() {
    let mut struct_defs = Vec::new();
    struct_defs.push(("Point".to_string(), vec![
        ("x".to_string(), MirType::I64),
        ("y".to_string(), MirType::I64),
    ]));
    let program = MirProgram {
        functions: vec![],
        extern_fns: vec![],
        struct_defs,
    };
    let cg = TextCodeGen::new("linux");
    let ir = cg.generate(&program).unwrap();
    assert!(ir.contains("%struct.Point = type { i64, i64 }"),
            "struct type definition should be emitted, got:\n{}", ir);
}

#[test]
fn test_main_function_renamed_to_bmb_user_main() {
    let program = MirProgram {
        functions: vec![MirFunction {
            name: "main".to_string(),
            params: vec![],
            ret_ty: MirType::I64,
            locals: vec![],
            blocks: vec![BasicBlock {
                label: "entry".to_string(),
                instructions: vec![],
                terminator: Terminator::Return(Some(Operand::Constant(Constant::Int(0)))),
            }],
            is_pure: false,
            is_const: false,
            always_inline: false,
            inline_hint: false,
            is_memory_free: false,
        }],
        extern_fns: vec![],
        struct_defs: Vec::new(),
    };
    let cg = TextCodeGen::new("linux");
    let ir = cg.generate(&program).unwrap();
    assert!(ir.contains("@bmb_user_main"), "main should be renamed to bmb_user_main");
    assert!(!ir.contains("@main("), "should not emit @main( directly");
}

#[test]
fn test_struct_mixed_field_types() {
    // Struct with i64, f64, and bool fields
    let mut struct_defs = Vec::new();
    struct_defs.push(("Entity".to_string(), vec![
        ("id".to_string(), MirType::I64),
        ("score".to_string(), MirType::F64),
        ("active".to_string(), MirType::Bool),
    ]));
    let program = MirProgram {
        functions: vec![],
        extern_fns: vec![],
        struct_defs,
    };
    let cg = TextCodeGen::new("linux");
    let ir = cg.generate(&program).unwrap();
    assert!(ir.contains("%struct.Entity = type { i64, double, i1 }"),
            "mixed-type struct definition should be emitted, got:\n{}", ir);
}

#[test]
fn test_multiple_struct_definitions() {
    let mut struct_defs = Vec::new();
    struct_defs.push(("Point".to_string(), vec![
        ("x".to_string(), MirType::I64),
        ("y".to_string(), MirType::I64),
    ]));
    struct_defs.push(("Rect".to_string(), vec![
        ("w".to_string(), MirType::I64),
        ("h".to_string(), MirType::I64),
        ("x".to_string(), MirType::I64),
        ("y".to_string(), MirType::I64),
    ]));
    let program = MirProgram {
        functions: vec![],
        extern_fns: vec![],
        struct_defs,
    };
    let cg = TextCodeGen::new("linux");
    let ir = cg.generate(&program).unwrap();
    assert!(ir.contains("%struct.Point"), "Point struct type should be emitted");
    assert!(ir.contains("%struct.Rect"), "Rect struct type should be emitted");
    // Verify both have correct field counts
    assert!(ir.contains("type { i64, i64 }"), "Point should have 2 i64 fields");
    assert!(ir.contains("type { i64, i64, i64, i64 }"), "Rect should have 4 i64 fields");
}

#[test]
fn test_unary_neg_mir_codegen() {
    // Test integer negation via direct MIR
    let program = MirProgram {
        functions: vec![MirFunction {
            name: "neg".to_string(),
            params: vec![("x".to_string(), MirType::I64)],
            ret_ty: MirType::I64,
            locals: vec![],
            blocks: vec![BasicBlock {
                label: "entry".to_string(),
                instructions: vec![MirInst::UnaryOp {
                    dest: Place::new("_t0"),
                    op: MirUnaryOp::Neg,
                    src: Operand::Place(Place::new("x")),
                }],
                terminator: Terminator::Return(Some(Operand::Place(Place::new("_t0")))),
            }],
            is_pure: false,
            is_const: false,
            always_inline: false,
            inline_hint: false,
            is_memory_free: false,
        }],
        extern_fns: vec![],
        struct_defs: Vec::new(),
    };
    let cg = TextCodeGen::new("linux");
    let ir = cg.generate(&program).unwrap();
    assert!(ir.contains("sub i64 0,"), "Neg should emit sub 0, x");
}

#[test]
fn test_unary_not_mir_codegen() {
    // Test boolean NOT via direct MIR
    let program = MirProgram {
        functions: vec![MirFunction {
            name: "not_fn".to_string(),
            params: vec![("b".to_string(), MirType::Bool)],
            ret_ty: MirType::Bool,
            locals: vec![],
            blocks: vec![BasicBlock {
                label: "entry".to_string(),
                instructions: vec![MirInst::UnaryOp {
                    dest: Place::new("_t0"),
                    op: MirUnaryOp::Not,
                    src: Operand::Place(Place::new("b")),
                }],
                terminator: Terminator::Return(Some(Operand::Place(Place::new("_t0")))),
            }],
            is_pure: false,
            is_const: false,
            always_inline: false,
            inline_hint: false,
            is_memory_free: false,
        }],
        extern_fns: vec![],
        struct_defs: Vec::new(),
    };
    let cg = TextCodeGen::new("linux");
    let ir = cg.generate(&program).unwrap();
    assert!(ir.contains("xor i1"), "Not should emit xor i1 x, 1");
}

#[test]
fn test_unary_bnot_mir_codegen() {
    // Test bitwise NOT via direct MIR
    let program = MirProgram {
        functions: vec![MirFunction {
            name: "bnot_fn".to_string(),
            params: vec![("x".to_string(), MirType::I64)],
            ret_ty: MirType::I64,
            locals: vec![],
            blocks: vec![BasicBlock {
                label: "entry".to_string(),
                instructions: vec![MirInst::UnaryOp {
                    dest: Place::new("_t0"),
                    op: MirUnaryOp::Bnot,
                    src: Operand::Place(Place::new("x")),
                }],
                terminator: Terminator::Return(Some(Operand::Place(Place::new("_t0")))),
            }],
            is_pure: false,
            is_const: false,
            always_inline: false,
            inline_hint: false,
            is_memory_free: false,
        }],
        extern_fns: vec![],
        struct_defs: Vec::new(),
    };
    let cg = TextCodeGen::new("linux");
    let ir = cg.generate(&program).unwrap();
    assert!(ir.contains("xor i64"), "Bnot should emit xor i64 x, -1");
    assert!(ir.contains("-1"), "Bnot should use -1 as mask");
}

#[test]
fn test_unary_fneg_mir_codegen() {
    // Test float negation via direct MIR
    let program = MirProgram {
        functions: vec![MirFunction {
            name: "fneg".to_string(),
            params: vec![("x".to_string(), MirType::F64)],
            ret_ty: MirType::F64,
            locals: vec![],
            blocks: vec![BasicBlock {
                label: "entry".to_string(),
                instructions: vec![MirInst::UnaryOp {
                    dest: Place::new("_t0"),
                    op: MirUnaryOp::FNeg,
                    src: Operand::Place(Place::new("x")),
                }],
                terminator: Terminator::Return(Some(Operand::Place(Place::new("_t0")))),
            }],
            is_pure: false,
            is_const: false,
            always_inline: false,
            inline_hint: false,
            is_memory_free: false,
        }],
        extern_fns: vec![],
        struct_defs: Vec::new(),
    };
    let cg = TextCodeGen::new("linux");
    let ir = cg.generate(&program).unwrap();
    assert!(ir.contains("fsub fast"), "FNeg should emit fsub fast 0.0, x");
}

#[test]
fn test_pure_function_attributes() {
    let program = MirProgram {
        functions: vec![MirFunction {
            name: "pure_fn".to_string(),
            params: vec![("x".to_string(), MirType::I64)],
            ret_ty: MirType::I64,
            locals: vec![],
            blocks: vec![BasicBlock {
                label: "entry".to_string(),
                instructions: vec![],
                terminator: Terminator::Return(Some(Operand::Place(Place::new("x")))),
            }],
            is_pure: true,
            is_const: false,
            always_inline: false,
            inline_hint: false,
            is_memory_free: false,
        }],
        extern_fns: vec![],
        struct_defs: Vec::new(),
    };
    let cg = TextCodeGen::new("linux");
    let ir = cg.generate(&program).unwrap();
    // Pure functions should have readnone or readonly attribute
    assert!(ir.contains("readnone") || ir.contains("readonly") || ir.contains("memory(none)") || ir.contains("pure"),
            "pure function should have optimization attribute, got:\n{}", ir);
}

#[test]
fn test_inline_hint_function_attributes() {
    let program = MirProgram {
        functions: vec![MirFunction {
            name: "hinted".to_string(),
            params: vec![("x".to_string(), MirType::I64)],
            ret_ty: MirType::I64,
            locals: vec![],
            blocks: vec![BasicBlock {
                label: "entry".to_string(),
                instructions: vec![],
                terminator: Terminator::Return(Some(Operand::Place(Place::new("x")))),
            }],
            is_pure: false,
            is_const: false,
            always_inline: false,
            inline_hint: true,
            is_memory_free: false,
        }],
        extern_fns: vec![],
        struct_defs: Vec::new(),
    };
    let cg = TextCodeGen::new("linux");
    let ir = cg.generate(&program).unwrap();
    // Inline hint should have inlinehint attribute
    assert!(ir.contains("inlinehint"), "inline_hint function should have inlinehint attribute, got:\n{}", ir);
}

#[test]
fn test_const_function_attributes() {
    let program = MirProgram {
        functions: vec![MirFunction {
            name: "const_fn".to_string(),
            params: vec![],
            ret_ty: MirType::I64,
            locals: vec![],
            blocks: vec![BasicBlock {
                label: "entry".to_string(),
                instructions: vec![],
                terminator: Terminator::Return(Some(Operand::Constant(Constant::Int(42)))),
            }],
            is_pure: false,
            is_const: true,
            always_inline: false,
            inline_hint: false,
            is_memory_free: false,
        }],
        extern_fns: vec![],
        struct_defs: Vec::new(),
    };
    let cg = TextCodeGen::new("linux");
    let ir = cg.generate(&program).unwrap();
    assert!(ir.contains("@const_fn"), "const function should be emitted");
    assert!(ir.contains("ret i64 42"), "const function should return constant");
}

#[test]
fn test_extern_fn_declarations() {
    
    let program = MirProgram {
        functions: vec![],
        extern_fns: vec![MirExternFn {
            module: "env".to_string(),
            name: "ext_add".to_string(),
            params: vec![MirType::I64, MirType::I64],
            ret_ty: MirType::I64,
        }],
        struct_defs: Vec::new(),
    };
    let cg = TextCodeGen::new("linux");
    let ir = cg.generate(&program).unwrap();
    assert!(ir.contains("ext_add") || ir.contains("declare"),
            "extern function should appear in IR");
}

#[test]
fn test_mir_cast_i64_to_f64_codegen() {
    // Cast from i64 to f64 should produce sitofp
    let program = MirProgram {
        functions: vec![MirFunction {
            name: "to_f64".to_string(),
            params: vec![("x".to_string(), MirType::I64)],
            ret_ty: MirType::F64,
            locals: vec![],
            blocks: vec![BasicBlock {
                label: "entry".to_string(),
                instructions: vec![MirInst::Cast {
                    dest: Place::new("_t0"),
                    src: Operand::Place(Place::new("x")),
                    from_ty: MirType::I64,
                    to_ty: MirType::F64,
                }],
                terminator: Terminator::Return(Some(Operand::Place(Place::new("_t0")))),
            }],
            is_pure: false,
            is_const: false,
            always_inline: false,
            inline_hint: false,
            is_memory_free: false,
        }],
        extern_fns: vec![],
        struct_defs: Vec::new(),
    };
    let cg = TextCodeGen::new("linux");
    let ir = cg.generate(&program).unwrap();
    assert!(ir.contains("sitofp i64"), "i64 to f64 cast should emit sitofp");
    assert!(ir.contains("to double"), "cast target should be double");
}

#[test]
fn test_mir_cast_f64_to_i64_codegen() {
    let program = MirProgram {
        functions: vec![MirFunction {
            name: "to_i64".to_string(),
            params: vec![("x".to_string(), MirType::F64)],
            ret_ty: MirType::I64,
            locals: vec![],
            blocks: vec![BasicBlock {
                label: "entry".to_string(),
                instructions: vec![MirInst::Cast {
                    dest: Place::new("_t0"),
                    src: Operand::Place(Place::new("x")),
                    from_ty: MirType::F64,
                    to_ty: MirType::I64,
                }],
                terminator: Terminator::Return(Some(Operand::Place(Place::new("_t0")))),
            }],
            is_pure: false,
            is_const: false,
            always_inline: false,
            inline_hint: false,
            is_memory_free: false,
        }],
        extern_fns: vec![],
        struct_defs: Vec::new(),
    };
    let cg = TextCodeGen::new("linux");
    let ir = cg.generate(&program).unwrap();
    assert!(ir.contains("fptosi double"), "f64 to i64 cast should emit fptosi");
    assert!(ir.contains("to i64"), "cast target should be i64");
}

#[test]
fn test_mir_cast_i32_to_i64_codegen() {
    let program = MirProgram {
        functions: vec![MirFunction {
            name: "widen".to_string(),
            params: vec![("x".to_string(), MirType::I32)],
            ret_ty: MirType::I64,
            locals: vec![],
            blocks: vec![BasicBlock {
                label: "entry".to_string(),
                instructions: vec![MirInst::Cast {
                    dest: Place::new("_t0"),
                    src: Operand::Place(Place::new("x")),
                    from_ty: MirType::I32,
                    to_ty: MirType::I64,
                }],
                terminator: Terminator::Return(Some(Operand::Place(Place::new("_t0")))),
            }],
            is_pure: false,
            is_const: false,
            always_inline: false,
            inline_hint: false,
            is_memory_free: false,
        }],
        extern_fns: vec![],
        struct_defs: Vec::new(),
    };
    let cg = TextCodeGen::new("linux");
    let ir = cg.generate(&program).unwrap();
    assert!(ir.contains("sext i32"), "i32 to i64 cast should emit sext");
    assert!(ir.contains("to i64"), "cast target should be i64");
}

#[test]
fn test_mir_copy_instruction_codegen() {
    // Copy instruction should generate a simple assignment
    let program = MirProgram {
        functions: vec![MirFunction {
            name: "copy_fn".to_string(),
            params: vec![("x".to_string(), MirType::I64)],
            ret_ty: MirType::I64,
            locals: vec![],
            blocks: vec![BasicBlock {
                label: "entry".to_string(),
                instructions: vec![MirInst::Copy {
                    dest: Place::new("_t0"),
                    src: Place::new("x"),
                }],
                terminator: Terminator::Return(Some(Operand::Place(Place::new("_t0")))),
            }],
            is_pure: false,
            is_const: false,
            always_inline: false,
            inline_hint: false,
            is_memory_free: false,
        }],
        extern_fns: vec![],
        struct_defs: Vec::new(),
    };
    let cg = TextCodeGen::new("linux");
    let ir = cg.generate(&program).unwrap();
    assert!(ir.contains("@copy_fn"), "function should be emitted");
    assert!(ir.contains("ret i64"), "should return copied value");
}

#[test]
fn test_mir_const_string_global() {
    // String constant should generate @.str global
    let program = MirProgram {
        functions: vec![MirFunction {
            name: "greet".to_string(),
            params: vec![],
            ret_ty: MirType::String,
            locals: vec![],
            blocks: vec![BasicBlock {
                label: "entry".to_string(),
                instructions: vec![MirInst::Const {
                    dest: Place::new("_t0"),
                    value: Constant::String("hello world".to_string()),
                }],
                terminator: Terminator::Return(Some(Operand::Place(Place::new("_t0")))),
            }],
            is_pure: false,
            is_const: false,
            always_inline: false,
            inline_hint: false,
            is_memory_free: false,
        }],
        extern_fns: vec![],
        struct_defs: Vec::new(),
    };
    let cg = TextCodeGen::new("linux");
    let ir = cg.generate(&program).unwrap();
    assert!(ir.contains("@.str"), "string global should be emitted");
    assert!(ir.contains("hello world"), "string content should appear in global");
}

#[test]
fn test_mir_multi_block_branch() {
    // Test Terminator::Branch with multiple blocks
    let program = MirProgram {
        functions: vec![MirFunction {
            name: "branch_fn".to_string(),
            params: vec![("x".to_string(), MirType::I64)],
            ret_ty: MirType::I64,
            locals: vec![],
            blocks: vec![
                BasicBlock {
                    label: "entry".to_string(),
                    instructions: vec![MirInst::BinOp {
                        dest: Place::new("_cond"),
                        op: MirBinOp::Gt,
                        lhs: Operand::Place(Place::new("x")),
                        rhs: Operand::Constant(Constant::Int(0)),
                    }],
                    terminator: Terminator::Branch {
                        cond: Operand::Place(Place::new("_cond")),
                        then_label: "then".to_string(),
                        else_label: "else_".to_string(),
                    },
                },
                BasicBlock {
                    label: "then".to_string(),
                    instructions: vec![],
                    terminator: Terminator::Return(Some(Operand::Constant(Constant::Int(1)))),
                },
                BasicBlock {
                    label: "else_".to_string(),
                    instructions: vec![],
                    terminator: Terminator::Return(Some(Operand::Constant(Constant::Int(0)))),
                },
            ],
            is_pure: false,
            is_const: false,
            always_inline: false,
            inline_hint: false,
            is_memory_free: false,
        }],
        extern_fns: vec![],
        struct_defs: Vec::new(),
    };
    let cg = TextCodeGen::new("linux");
    let ir = cg.generate(&program).unwrap();
    assert!(ir.contains("br i1"), "conditional branch should emit br i1");
    assert!(ir.contains("bb_then"), "then block label should appear");
    assert!(ir.contains("bb_else_"), "else block label should appear");
    assert!(ir.contains("ret i64 1"), "then block should return 1");
    assert!(ir.contains("ret i64 0"), "else block should return 0");
}

#[test]
fn test_mir_goto_terminator() {
    // Test Terminator::Goto (unconditional jump)
    let program = MirProgram {
        functions: vec![MirFunction {
            name: "goto_fn".to_string(),
            params: vec![],
            ret_ty: MirType::I64,
            locals: vec![],
            blocks: vec![
                BasicBlock {
                    label: "entry".to_string(),
                    instructions: vec![],
                    terminator: Terminator::Goto("exit".to_string()),
                },
                BasicBlock {
                    label: "exit".to_string(),
                    instructions: vec![],
                    terminator: Terminator::Return(Some(Operand::Constant(Constant::Int(42)))),
                },
            ],
            is_pure: false,
            is_const: false,
            always_inline: false,
            inline_hint: false,
            is_memory_free: false,
        }],
        extern_fns: vec![],
        struct_defs: Vec::new(),
    };
    let cg = TextCodeGen::new("linux");
    let ir = cg.generate(&program).unwrap();
    assert!(ir.contains("br label %bb_exit"), "Goto should emit unconditional branch to bb_exit");
}

#[test]
fn test_mir_switch_terminator() {
    // Test Terminator::Switch
    let program = MirProgram {
        functions: vec![MirFunction {
            name: "switch_fn".to_string(),
            params: vec![("x".to_string(), MirType::I64)],
            ret_ty: MirType::I64,
            locals: vec![],
            blocks: vec![
                BasicBlock {
                    label: "entry".to_string(),
                    instructions: vec![],
                    terminator: Terminator::Switch {
                        discriminant: Operand::Place(Place::new("x")),
                        cases: vec![
                            (0, "case0".to_string()),
                            (1, "case1".to_string()),
                        ],
                        default: "default".to_string(),
                    },
                },
                BasicBlock {
                    label: "case0".to_string(),
                    instructions: vec![],
                    terminator: Terminator::Return(Some(Operand::Constant(Constant::Int(10)))),
                },
                BasicBlock {
                    label: "case1".to_string(),
                    instructions: vec![],
                    terminator: Terminator::Return(Some(Operand::Constant(Constant::Int(20)))),
                },
                BasicBlock {
                    label: "default".to_string(),
                    instructions: vec![],
                    terminator: Terminator::Return(Some(Operand::Constant(Constant::Int(0)))),
                },
            ],
            is_pure: false,
            is_const: false,
            always_inline: false,
            inline_hint: false,
            is_memory_free: false,
        }],
        extern_fns: vec![],
        struct_defs: Vec::new(),
    };
    let cg = TextCodeGen::new("linux");
    let ir = cg.generate(&program).unwrap();
    assert!(ir.contains("switch i64"), "Switch should emit switch instruction");
    assert!(ir.contains("i64 0, label %bb_case0"), "switch case 0 should be present");
    assert!(ir.contains("i64 1, label %bb_case1"), "switch case 1 should be present");
    assert!(ir.contains("label %bb_default"), "default case should be present");
}

#[test]
fn test_codegen_new() {
    let cg = TextCodeGen::new("linux");
    // Just verify it can be created
    let program = MirProgram {
        functions: vec![],
        extern_fns: vec![],
        struct_defs: Vec::new(),
    };
    let ir = cg.generate(&program).unwrap();
    // Should contain module header at minimum
    assert!(ir.contains("target"));
}

#[test]
fn test_empty_program_codegen() {
    let program = MirProgram {
        functions: vec![],
        extern_fns: vec![],
        struct_defs: Vec::new(),
    };
    let cg = TextCodeGen::new("linux");
    let ir = cg.generate(&program).unwrap();
    assert!(ir.contains("target triple"), "empty program should still have module header");
    assert!(!ir.contains("define "), "empty program should have no function definitions");
}

#[test]
fn test_mir_array_alloc_codegen() {
    // ArrayAlloc should produce alloca with array type
    let program = MirProgram {
        functions: vec![MirFunction {
            name: "alloc_arr".to_string(),
            params: vec![],
            ret_ty: MirType::I64,
            locals: vec![],
            blocks: vec![BasicBlock {
                label: "entry".to_string(),
                instructions: vec![MirInst::ArrayAlloc {
                    dest: Place::new("buf"),
                    element_type: MirType::I64,
                    size: 16,
                }],
                terminator: Terminator::Return(Some(Operand::Constant(Constant::Int(0)))),
            }],
            is_pure: false,
            is_const: false,
            always_inline: false,
            inline_hint: false,
            is_memory_free: false,
        }],
        extern_fns: vec![],
        struct_defs: Vec::new(),
    };
    let cg = TextCodeGen::new("linux");
    let ir = cg.generate(&program).unwrap();
    assert!(ir.contains("alloca [16 x i64]"), "ArrayAlloc should emit alloca with array type, got:\n{}", ir);
}

#[test]
fn test_mir_ptr_load_codegen() {
    // PtrLoad should produce load through pointer
    let program = MirProgram {
        functions: vec![MirFunction {
            name: "deref".to_string(),
            params: vec![("p".to_string(), MirType::Ptr(Box::new(MirType::I64)))],
            ret_ty: MirType::I64,
            locals: vec![],
            blocks: vec![BasicBlock {
                label: "entry".to_string(),
                instructions: vec![MirInst::PtrLoad {
                    dest: Place::new("_t0"),
                    ptr: Operand::Place(Place::new("p")),
                    element_type: MirType::I64,
                }],
                terminator: Terminator::Return(Some(Operand::Place(Place::new("_t0")))),
            }],
            is_pure: false,
            is_const: false,
            always_inline: false,
            inline_hint: false,
            is_memory_free: false,
        }],
        extern_fns: vec![],
        struct_defs: Vec::new(),
    };
    let cg = TextCodeGen::new("linux");
    let ir = cg.generate(&program).unwrap();
    assert!(ir.contains("load i64, ptr"), "PtrLoad should emit load i64, ptr");
}

#[test]
fn test_mir_ptr_store_codegen() {
    // PtrStore should produce store through pointer
    let program = MirProgram {
        functions: vec![MirFunction {
            name: "store_fn".to_string(),
            params: vec![
                ("p".to_string(), MirType::Ptr(Box::new(MirType::I64))),
                ("v".to_string(), MirType::I64),
            ],
            ret_ty: MirType::Unit,
            locals: vec![],
            blocks: vec![BasicBlock {
                label: "entry".to_string(),
                instructions: vec![MirInst::PtrStore {
                    ptr: Operand::Place(Place::new("p")),
                    value: Operand::Place(Place::new("v")),
                    element_type: MirType::I64,
                }],
                terminator: Terminator::Return(None),
            }],
            is_pure: false,
            is_const: false,
            always_inline: false,
            inline_hint: false,
            is_memory_free: false,
        }],
        extern_fns: vec![],
        struct_defs: Vec::new(),
    };
    let cg = TextCodeGen::new("linux");
    let ir = cg.generate(&program).unwrap();
    assert!(ir.contains("store i64"), "PtrStore should emit store i64");
    assert!(ir.contains("ret void"), "unit function should ret void");
}

#[test]
fn test_mir_ptr_offset_codegen() {
    // PtrOffset should produce GEP instruction
    let program = MirProgram {
        functions: vec![MirFunction {
            name: "offset_fn".to_string(),
            params: vec![
                ("p".to_string(), MirType::Ptr(Box::new(MirType::I64))),
                ("idx".to_string(), MirType::I64),
            ],
            ret_ty: MirType::Ptr(Box::new(MirType::I64)),
            locals: vec![],
            blocks: vec![BasicBlock {
                label: "entry".to_string(),
                instructions: vec![MirInst::PtrOffset {
                    dest: Place::new("_t0"),
                    ptr: Operand::Place(Place::new("p")),
                    offset: Operand::Place(Place::new("idx")),
                    element_type: MirType::I64,
                }],
                terminator: Terminator::Return(Some(Operand::Place(Place::new("_t0")))),
            }],
            is_pure: false,
            is_const: false,
            always_inline: false,
            inline_hint: false,
            is_memory_free: false,
        }],
        extern_fns: vec![],
        struct_defs: Vec::new(),
    };
    let cg = TextCodeGen::new("linux");
    let ir = cg.generate(&program).unwrap();
    assert!(ir.contains("getelementptr inbounds i64"), "PtrOffset should emit GEP inbounds");
}

#[test]
fn test_mir_array_init_codegen() {
    // Direct MIR: ArrayInit should produce alloca + GEP + store sequence
    let program = MirProgram {
        functions: vec![MirFunction {
            name: "make_arr".to_string(),
            params: vec![],
            ret_ty: MirType::I64,
            locals: vec![],
            blocks: vec![BasicBlock {
                label: "entry".to_string(),
                instructions: vec![MirInst::ArrayInit {
                    dest: Place::new("arr"),
                    element_type: MirType::I64,
                    elements: vec![
                        Operand::Constant(Constant::Int(10)),
                        Operand::Constant(Constant::Int(20)),
                        Operand::Constant(Constant::Int(30)),
                    ],
                }],
                terminator: Terminator::Return(Some(Operand::Constant(Constant::Int(0)))),
            }],
            is_pure: false,
            is_const: false,
            always_inline: false,
            inline_hint: false,
            is_memory_free: false,
        }],
        extern_fns: vec![],
        struct_defs: Vec::new(),
    };
    let cg = TextCodeGen::new("linux");
    let ir = cg.generate(&program).unwrap();
    assert!(ir.contains("alloca i64"), "ArrayInit should allocate on stack");
    assert!(ir.contains("getelementptr"), "ArrayInit should GEP to elements");
    assert!(ir.contains("store i64"), "ArrayInit should store elements");
}

#[test]
fn test_mir_index_load_codegen() {
    // IndexLoad should produce GEP + load
    let program = MirProgram {
        functions: vec![MirFunction {
            name: "load_elem".to_string(),
            params: vec![("arr".to_string(), MirType::Ptr(Box::new(MirType::I64)))],
            ret_ty: MirType::I64,
            locals: vec![],
            blocks: vec![BasicBlock {
                label: "entry".to_string(),
                instructions: vec![MirInst::IndexLoad {
                    dest: Place::new("_t0"),
                    array: Place::new("arr"),
                    index: Operand::Constant(Constant::Int(2)),
                    element_type: MirType::I64,
                }],
                terminator: Terminator::Return(Some(Operand::Place(Place::new("_t0")))),
            }],
            is_pure: false,
            is_const: false,
            always_inline: false,
            inline_hint: false,
            is_memory_free: false,
        }],
        extern_fns: vec![],
        struct_defs: Vec::new(),
    };
    let cg = TextCodeGen::new("linux");
    let ir = cg.generate(&program).unwrap();
    assert!(ir.contains("getelementptr"), "IndexLoad should emit GEP");
    assert!(ir.contains("load i64"), "IndexLoad should emit load");
}
