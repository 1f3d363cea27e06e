use bmb::ast::{Attribute, Expr, Span, Spanned};
use bmb::codegen::llvm_text::TextCodeGen;
use bmb::codegen::names::NameMap;
use bmb::codegen::stub::{CodeGen, CodeGenError};
use bmb::derive::{extract_derive_traits, DeriveTrait};
use bmb::diagnostics::find_patterns;
use bmb::error::{CompileError, CompileWarning};
use bmb::mir::{
    BasicBlock, Constant, MirBinOp, MirFunction, MirInst, MirProgram, MirType, Operand, Place, Terminator,
};

fn func(name: &str, params: Vec<(String, MirType)>, ret_ty: MirType, locals: Vec<(String, MirType)>, blocks: Vec<BasicBlock>) -> MirFunction {
    MirFunction {
        name: name.to_string(),
        params,
        ret_ty,
        locals,
        blocks,
        is_pure: false,
        is_const: false,
        always_inline: false,
        inline_hint: false,
        is_memory_free: false,
    }
}

fn block(label: &str, instructions: Vec<MirInst>, terminator: Terminator) -> BasicBlock {
    BasicBlock { label: label.to_string(), instructions, terminator }
}

fn program(functions: Vec<MirFunction>) -> MirProgram {
    MirProgram { functions, extern_fns: vec![], struct_defs: vec![] }
}

fn place(n: &str) -> Operand {
    Operand::Place(Place::new(n))
}

fn struct_ty(n: usize) -> MirType {
    MirType::Struct {
        name: "S".to_string(),
        fields: (0..n).map(|i| (format!("f{}", i), Box::new(MirType::I64))).collect(),
    }
}

/// Decodes the text of an LLVM string constant back to bytes.
fn unescape(s: &str) -> Vec<u8> {
    let b = s.as_bytes();
    let mut out = Vec::new();
    let mut i = 0;
    while i < b.len() {
        if b[i] == b'\\' && i + 2 < b.len() + 0 && i + 2 <= b.len() - 1 {
            let h = u8::from_str_radix(std::str::from_utf8(&b[i + 1..i + 3]).unwrap(), 16).unwrap();
            out.push(h);
            i += 3;
        } else {
            out.push(b[i]);
            i += 1;
        }
    }
    out
}

#[test]
fn escape_decodes_back_to_the_bytes() {
    let cg = TextCodeGen::new("linux");
    for s in ["plain", "a\"b\\c", "line\nbreak\ttab\r", "\u{0}nul", "héllo wörld", ""] {
        let e = cg.escape_string_for_llvm(s);
        assert_eq!(unescape(&e), s.as_bytes().to_vec(), "escaping {:?} gave {:?}", s, e);
    }
    assert_eq!(cg.escape_string_for_llvm("é"), "\\C3\\A9");
}

#[test]
fn unique_names_count_up_per_name() {
    let cg = TextCodeGen::new("linux");
    let mut counts = NameMap::new();
    let names: Vec<String> = (0..4).map(|_| cg.unique_name("t", &mut counts)).collect();
    assert_eq!(names, vec!["t", "t_1", "t_2", "t_3"]);
    assert_eq!(cg.unique_name("u", &mut counts), "u");
    assert_eq!(cg.unique_name("t", &mut counts), "t_4");
}

#[test]
fn string_table_gives_one_global_per_distinct_string() {
    let f = func(
        "f",
        vec![],
        MirType::Unit,
        vec![],
        vec![block(
            "entry",
            vec![
                MirInst::Const { dest: Place::new("a"), value: Constant::String("x".to_string()) },
                MirInst::Const { dest: Place::new("b"), value: Constant::String("y".to_string()) },
                MirInst::Const { dest: Place::new("c"), value: Constant::String("x".to_string()) },
            ],
            Terminator::Return(Some(Operand::Constant(Constant::String("z".to_string())))),
        )],
    );
    let cg = TextCodeGen::new("linux");
    let table = cg.collect_string_constants(&program(vec![f]));
    assert_eq!(table.len(), 3);
    assert_eq!(table.get("x").unwrap(), ".str.0");
    assert_eq!(table.get("y").unwrap(), ".str.1");
    assert_eq!(table.get("z").unwrap(), ".str.2");
    assert!(!table.contains_key("w"));
}

#[test]
fn string_globals_are_emitted_in_table_order() {
    let f = func(
        "greet",
        vec![],
        MirType::String,
        vec![],
        vec![block(
            "entry",
            vec![MirInst::Const { dest: Place::new("_t0"), value: Constant::String("hi\n".to_string()) }],
            Terminator::Return(Some(place("_t0"))),
        )],
    );
    let ir = TextCodeGen::new("linux").generate(&program(vec![f])).unwrap();
    assert!(ir.contains("@.str.0 = private unnamed_addr constant [4 x i8] c\"hi\\0A\\00\"\n"));
    assert!(ir.contains("@.str.0.bmb = private unnamed_addr global %BmbString { ptr @.str.0, i64 3, i64 3 }\n"));
    assert!(ir.contains("  %_t0 = getelementptr %BmbString, ptr @.str.0.bmb, i32 0\n"));
}

#[test]
fn derive_attributes_add_up() {
    let attr = |names: &[&str]| Attribute::WithArgs {
        name: Spanned::new("derive".to_string(), Span::new(0, 6)),
        args: names.iter().map(|n| Spanned::new(Expr::Var(n.to_string()), Span::new(0, 1))).collect(),
        span: Span::new(0, 10),
    };
    let a = attr(&["Debug", "Hash"]);
    let b = attr(&["Clone", "Nope", "Debug"]);
    let both = extract_derive_traits(&[a.clone(), b.clone()]);
    let mut sep = extract_derive_traits(&[a]);
    sep.extend(extract_derive_traits(&[b]));
    assert_eq!(both, sep);
    assert_eq!(both, vec![DeriveTrait::Debug, DeriveTrait::Hash, DeriveTrait::Clone, DeriveTrait::Debug]);
}

#[test]
fn error_display_ends_with_the_message() {
    let sp = Span::new(3, 7);
    let errors = vec![
        CompileError::lexer("m1", sp),
        CompileError::parser("m2", sp),
        CompileError::type_error("m3", sp),
        CompileError::io_error("m4"),
        CompileError::parse_error("m5"),
        CompileError::resolve_error("m6"),
        CompileError::resolve_error_at("m7", sp),
    ];
    for e in &errors {
        assert!(e.display_string().ends_with(&format!(": {}", e.message())));
    }
    assert_eq!(errors[0].display_string(), "Lexer error at Span { start: 3, end: 7 }: m1");
    assert_eq!(errors[3].display_string(), "IO error: m4");
    assert_eq!(errors[6].display_string(), "Resolution error at 3..7: m7");
    assert_eq!(errors[5].display_string(), "Resolution error: m6");
}

#[test]
fn warning_display_is_kind_then_message() {
    let w = CompileWarning::int_division_truncation(7, 2, Span::new(0, 1));
    assert_eq!(w.display_string(), format!("warning[{}]: {}", w.kind(), w.message()));
    assert_eq!(w.message(), "integer division `7 / 2` truncates to `3`");
    let w = CompileWarning::int_division_truncation(-7, 2, Span::new(0, 1));
    assert!(w.message().ends_with("truncates to `-3`"));
    assert!(!CompileWarning::int_division_truncation(1, 0, Span::new(0, 1)).message_is_defined());
    assert!(!CompileWarning::unreachable_pattern("m", Span::new(0, 1), usize::MAX).message_is_defined());
}

#[test]
fn calls_map_runtime_names_and_coerce_arguments() {
    let callee = func(
        "narrow",
        vec![("n".to_string(), MirType::I32)],
        MirType::I64,
        vec![],
        vec![block("entry", vec![], Terminator::Return(Some(Operand::Constant(Constant::Int(0)))))],
    );
    let caller = func(
        "caller",
        vec![("x".to_string(), MirType::I64)],
        MirType::I64,
        vec![],
        vec![block(
            "entry",
            vec![
                MirInst::Call { dest: Some(Place::new("a")), func: "narrow".to_string(), args: vec![place("x")], is_tail: false },
                MirInst::Call { dest: Some(Place::new("b")), func: "abs".to_string(), args: vec![place("a")], is_tail: true },
                MirInst::Call { dest: None, func: "println".to_string(), args: vec![place("b")], is_tail: false },
            ],
            Terminator::Return(Some(place("b"))),
        )],
    );
    let ir = TextCodeGen::new("linux").generate(&program(vec![callee, caller])).unwrap();
    assert!(ir.contains("  %a.arg0.trunc = trunc i64 %x to i32\n  %a = call i64 @narrow(i32 %a.arg0.trunc)\n"), "{}", ir);
    assert!(ir.contains("  %b = tail call i64 @bmb_abs(i64 %a)\n"), "{}", ir);
    assert!(ir.contains("  call void @println(i64 %b)\n"), "{}", ir);
}

#[test]
fn struct_results_use_registers_or_the_callers_slot() {
    let small = func(
        "mk2",
        vec![("p".to_string(), MirType::I64)],
        struct_ty(2),
        vec![],
        vec![block("entry", vec![], Terminator::Return(Some(place("p"))))],
    );
    let big = func(
        "mk3",
        vec![("p".to_string(), MirType::I64)],
        struct_ty(3),
        vec![],
        vec![block("entry", vec![], Terminator::Return(Some(place("p"))))],
    );
    let user = func(
        "user",
        vec![("q".to_string(), MirType::I64)],
        MirType::I64,
        vec![],
        vec![block(
            "entry",
            vec![
                MirInst::Call { dest: Some(Place::new("s")), func: "mk2".to_string(), args: vec![place("q")], is_tail: false },
                MirInst::Call { dest: Some(Place::new("t")), func: "mk3".to_string(), args: vec![place("q")], is_tail: false },
            ],
            Terminator::Return(Some(place("q"))),
        )],
    );
    let ir = TextCodeGen::new("linux").generate(&program(vec![small, big, user])).unwrap();
    assert!(ir.contains("define {i64, i64} @mk2(i64 %p) nounwind willreturn mustprogress {\n"), "{}", ir);
    assert!(ir.contains("  %_agg_v1.entry = insertvalue {i64, i64} %_agg_v0.entry, i64 %_agg_f1.entry, 1\n  ret {i64, i64} %_agg_v1.entry\n"), "{}", ir);
    assert!(ir.contains("define void @mk3(ptr noalias sret(i8) %_sret, i64 %p)"), "{}", ir);
    assert!(ir.contains("  ; sret return - copy 3 fields from %p to %_sret\n"), "{}", ir);
    assert!(ir.contains("  store i64 %_sret_f2.entry.load, ptr %_sret_gep_dst.2.entry\n  ret void\n"), "{}", ir);
    assert!(ir.contains("  %s.agg = call {i64, i64} @mk2(i64 %q)\n  %s.ptr = alloca i64, i32 2\n"), "{}", ir);
    assert!(ir.contains("  %t.sret = alloca i64, i32 3\n  call void @mk3(ptr noalias sret(i8) %t.sret, i64 %q)\n  %t = bitcast ptr %t.sret to ptr\n"), "{}", ir);
}

#[test]
fn locals_live_in_stack_slots_and_narrow_values_widen() {
    let f = func(
        "f",
        vec![("n".to_string(), MirType::I32)],
        MirType::I64,
        vec![("acc".to_string(), MirType::I64)],
        vec![
            block(
                "entry",
                vec![MirInst::Const { dest: Place::new("acc"), value: Constant::Int(5) }],
                Terminator::Branch { cond: Operand::Constant(Constant::Bool(true)), then_label: "a".to_string(), else_label: "b".to_string() },
            ),
            block("a", vec![], Terminator::Goto("join".to_string())),
            block("b", vec![], Terminator::Goto("join".to_string())),
            block(
                "join",
                vec![MirInst::Phi {
                    dest: Place::new("r"),
                    values: vec![(place("n"), "a".to_string()), (place("acc"), "b".to_string())],
                }],
                Terminator::Return(Some(place("r"))),
            ),
        ],
    );
    let ir = TextCodeGen::new("linux").generate(&program(vec![f])).unwrap();
    assert!(ir.contains("alloca_entry:\n  %acc.addr = alloca i64\n  br label %bb_entry\n"), "{}", ir);
    assert!(ir.contains("  store i64 5, ptr %acc.addr\n"), "{}", ir);
    assert!(ir.contains("bb_a:\n  %_phi_sext_0 = sext i32 %n to i64\n  br label %bb_join\n"), "{}", ir);
    assert!(ir.contains("bb_b:\n  %acc.phi.b = load i64, ptr %acc.addr\n  br label %bb_join\n"), "{}", ir);
    assert!(ir.contains("  %r = phi i64 [ %_phi_sext_0, %bb_a ], [ %acc.phi.b, %bb_b ]\n"), "{}", ir);
    assert!(ir.contains("  ret i64 %r\n"), "{}", ir);
}

#[test]
fn string_comparison_calls_the_runtime() {
    let f = func(
        "same",
        vec![("s".to_string(), MirType::String)],
        MirType::Bool,
        vec![],
        vec![block(
            "entry",
            vec![MirInst::BinOp {
                dest: Place::new("_t0"),
                op: MirBinOp::Eq,
                lhs: place("s"),
                rhs: Operand::Constant(Constant::String("k".to_string())),
            }],
            Terminator::Return(Some(place("_t0"))),
        )],
    );
    let ir = TextCodeGen::new("linux").generate(&program(vec![f])).unwrap();
    assert!(ir.contains("define i1 @same(ptr nocapture readonly %s)"), "{}", ir);
    assert!(ir.contains("  %_t0.i64 = call i64 @bmb_string_eq(ptr %s, ptr @.str.0.bmb)\n  %_t0 = icmp ne i64 %_t0.i64, 0\n"), "{}", ir);
}

#[test]
fn structs_are_emitted_sorted_by_name() {
    let p = MirProgram {
        functions: vec![],
        extern_fns: vec![],
        struct_defs: vec![
            ("Zed".to_string(), vec![("a".to_string(), MirType::Bool)]),
            ("Alpha".to_string(), vec![("b".to_string(), MirType::F64), ("c".to_string(), MirType::I32)]),
        ],
    };
    let ir = TextCodeGen::new("linux").generate(&p).unwrap();
    assert!(ir.contains("; Struct type definitions\n%struct.Alpha = type { double, i32 }\n%struct.Zed = type { i1 }\n\n"), "{}", ir);
}

#[test]
fn module_header_names_the_target() {
    let ir = TextCodeGen::with_target("aarch64-apple-darwin").generate(&program(vec![])).unwrap();
    assert!(ir.starts_with("; ModuleID = bmb_program\ntarget datalayout = \"e-m:o-i64:64-i128:128-n32:64-S128-Fn32\"\ntarget triple = \"aarch64-apple-darwin\"\n\n"));
    assert_eq!(TextCodeGen::default_target_triple_for("windows"), "x86_64-pc-windows-msvc");
    assert_eq!(TextCodeGen::default_target_triple_for("freebsd"), "x86_64-unknown-linux-gnu");
}

#[test]
fn struct_escape_analysis() {
    let f = func(
        "f",
        vec![],
        MirType::Unit,
        vec![],
        vec![block(
            "entry",
            vec![
                MirInst::Copy { dest: Place::new("b"), src: Place::new("a") },
                MirInst::Call { dest: None, func: "g".to_string(), args: vec![place("c")], is_tail: false },
            ],
            Terminator::Return(Some(place("d"))),
        )],
    );
    let cg = TextCodeGen::new("linux");
    assert!(cg.check_struct_escapes(&f, "a"));
    assert!(cg.check_struct_escapes(&f, "c"));
    assert!(cg.check_struct_escapes(&f, "d"));
    assert!(!cg.check_struct_escapes(&f, "b"));
}

#[test]
fn stub_codegen_is_never_available() {
    let g = CodeGen::new();
    let p = program(vec![]);
    assert!(matches!(g.compile(&p, "out.o"), Err(CodeGenError::LlvmNotAvailable)));
    assert!(matches!(g.generate_ir(&p), Err(CodeGenError::LlvmNotAvailable)));
    assert_eq!(
        CodeGenError::LlvmNotAvailable.message(),
        "LLVM code generation is not available. Build with --features llvm"
    );
    assert_eq!(CodeGenError::LlvmError("boom".to_string()).message(), "LLVM error: boom");
    let d = CodeGen::default();
    assert!(matches!(d.generate_ir(&p), Err(CodeGenError::LlvmNotAvailable)));
}

#[test]
fn patterns_match_case_insensitively() {
    let found = find_patterns("parser", "Unrecognized TOKEN `Some`");
    assert!(found.iter().any(|p| p.id == "option_type"));
    assert!(find_patterns("type", "nothing relevant here at all").is_empty());
}

#[test]
fn constants_are_written_exactly() {
    let cg = TextCodeGen::new("linux");
    assert_eq!(cg.format_constant(&Constant::Int(i64::MIN)), "-9223372036854775808");
    assert_eq!(cg.format_constant(&Constant::Char('\u{10FFFF}')), "1114111");
}

#[test]
fn error_machine_line_without_matching_patterns_has_six_fields() {
    let line = bmb::report::error_machine_line("dir\\a.bmb", &CompileError::io_error("disk \"full\"\nnow"));
    assert_eq!(
        line,
        "{\"type\":\"error\",\"kind\":\"io\",\"file\":\"dir\\\\a.bmb\",\"start\":0,\"end\":0,\"message\":\"disk \\\"full\\\"\\nnow\"}"
    );
}

#[test]
fn error_machine_line_carries_the_suggestions_of_matching_patterns() {
    let e = CompileError::parser("unknown type Option<i64>", Span::new(3, 9));
    let line = bmb::report::error_machine_line("m.bmb", &e);
    let found = find_patterns("parser", "unknown type Option<i64>");
    assert!(!found.is_empty());
    let list: Vec<String> = found.iter().map(|p| format!("\"{}\"", p.suggestion.replace('\\', "\\\\").replace('"', "\\\"").replace('\n', "\\n"))).collect();
    let expected = format!(
        "{{\"type\":\"error\",\"kind\":\"parser\",\"file\":\"m.bmb\",\"start\":3,\"end\":9,\"message\":\"unknown type Option<i64>\",\"suggestions\":[{}]}}",
        list.join(",")
    );
    assert_eq!(line, expected);
    assert!(line.contains("\"suggestions\":[\"BMB uses T? for nullable types, not Option<T>.\""));
}

#[test]
fn every_warning_kind_has_its_own_tag() {
    let s = Span::new(0, 1);
    let ws = vec![
        CompileWarning::unreachable_pattern("m", s, 0),
        CompileWarning::unused_binding("x", s),
        CompileWarning::redundant_pattern("m", s),
        CompileWarning::integer_range_overflow("m", s),
        CompileWarning::generic("m", None),
        CompileWarning::guarded_non_exhaustive(s),
        CompileWarning::unused_mut("x", s),
        CompileWarning::unreachable_code(s),
        CompileWarning::unused_import("x", s),
        CompileWarning::unused_function("x", s),
        CompileWarning::unused_type("x", s),
        CompileWarning::unused_enum("x", s),
        CompileWarning::shadow_binding("x", s, s),
        CompileWarning::unused_trait("x", s),
        CompileWarning::duplicate_function("x", s, s),
        CompileWarning::missing_postcondition("x", s),
        CompileWarning::semantic_duplication("x", "y", s),
        CompileWarning::trivial_contract("x", "pre", s),
        CompileWarning::single_arm_match(s),
        CompileWarning::redundant_cast("i64", s),
        CompileWarning::constant_condition(true, "if", s),
        CompileWarning::self_comparison("x", "==", s),
        CompileWarning::redundant_bool_comparison(true, s),
        CompileWarning::duplicate_match_arm("_", s),
        CompileWarning::int_division_truncation(7, 2, s),
        CompileWarning::unused_return_value("f", s),
        CompileWarning::non_snake_case_function("F", "f", s),
        CompileWarning::non_pascal_case_type("t", "T", "struct", s),
        CompileWarning::identity_operation("x + 0", s),
        CompileWarning::negated_if_condition(s),
    ];
    for i in 0..ws.len() {
        for j in 0..ws.len() {
            assert_eq!(ws[i].kind() == ws[j].kind(), i == j, "{} {}", ws[i].kind(), ws[j].kind());
        }
    }
    assert_eq!(ws[4].kind(), "warning");
    assert_eq!(ws[26].kind(), "non_snake_case");
}
