//! The table of diagnostic patterns. Triggers must match the text of
//! actual compiler error messages, not source code.

use vstd::prelude::*;

use super::{DiagPattern, DiagPatternSpec};

verus! {

/// The number of diagnostic patterns.
pub const PATTERN_COUNT: usize = 36;

/// The diagnostic pattern at position `i` of the table.
pub open spec fn pattern_at(i: int) -> DiagPatternSpec {
        if i == 0 { DiagPatternSpec {
            id: "option_type"@,
            kind: ""@,
            triggers: seq!["Option<"@, "Option::"@, "Some("@, "token `some`"@, "token `none`"@, "unknown type `option`"@],
            suggestion: "BMB uses T? for nullable types, not Option<T>."@,
            example_wrong: "let x: Option<i64> = Some(42);"@,
            example_correct: "let x: i64? = 42;"@,
        } } else
        if i == 1 { DiagPatternSpec {
            id: "function_name_reserved"@,
            kind: ""@,
            triggers: seq!["invalid redefinition of function"@, "redefinition of '"@],
            suggestion: "This function name conflicts with a BMB built-in. Use a different name (e.g., 'clamp_val' instead of 'clamp', which is reserved)."@,
            example_wrong: "fn clamp(x: i64, lo: i64, hi: i64) -> i64 = ...;"@,
            example_correct: "fn clamp_val(x: i64, lo: i64, hi: i64) -> i64 = ...;"@,
        } } else
        if i == 2 { DiagPatternSpec {
            id: "vec_generic"@,
            kind: ""@,
            triggers: seq!["Vec<"@, "Vec::new"@, "vec!"@, "token `new`"@, "unknown type `vec`"@],
            suggestion: "BMB vectors use free functions: vec_new(), vec_push(v, val), vec_get(v, idx), vec_len(v), vec_free(v). Handle type is i64."@,
            example_wrong: "let v: Vec<i64> = Vec::new();\nv.push(42);"@,
            example_correct: "let v: i64 = vec_new();\nvec_push(v, 42);"@,
        } } else
        if i == 3 { DiagPatternSpec {
            id: "method_call"@,
            kind: ""@,
            triggers: seq![".len()"@, ".push("@, ".pop("@, ".get("@, ".set("@, ".contains("@],
            suggestion: "BMB uses free functions, not method calls. Use func(obj, args) instead of obj.func(args)."@,
            example_wrong: "arr.len()"@,
            example_correct: "vec_len(arr)"@,
        } } else
        if i == 4 { DiagPatternSpec {
            id: "println_macro"@,
            kind: ""@,
            triggers: seq!["println!"@, "print!"@, "eprintln!"@, "format!"@],
            suggestion: "BMB uses println(num) or println_str(\"text\"), not Rust macros."@,
            example_wrong: "println!(\"value: {}\", x);"@,
            example_correct: "println(x);\nprintln_str(\"text\");"@,
        } } else
        if i == 5 { DiagPatternSpec {
            id: "string_type"@,
            kind: ""@,
            triggers: seq!["String::"@, "String::from"@, "&String"@, ".to_string()"@, ".as_str()"@],
            suggestion: "BMB uses &str for strings. No String type."@,
            example_wrong: "let s: String = String::from(\"hello\");"@,
            example_correct: "let s: &str = \"hello\";"@,
        } } else
        if i == 6 { DiagPatternSpec {
            id: "type_annotation"@,
            kind: "type"@,
            triggers: seq!["cannot infer"@, "type mismatch"@],
            suggestion: "BMB supports type inference but some complex expressions may need explicit annotations. Add ': Type' to the let binding."@,
            example_wrong: "let x = complex_expr();  // type ambiguous"@,
            example_correct: "let x: i64 = complex_expr();"@,
        } } else
        if i == 7 { DiagPatternSpec {
            id: "fn_return_expr"@,
            kind: "parser"@,
            triggers: seq!["expected `=`"@, "expected `{`"@, "function body"@],
            suggestion: "BMB functions use '= expr;' for expression bodies or '= { ... };' for block bodies."@,
            example_wrong: "fn add(a: i64, b: i64) -> i64 { a + b }"@,
            example_correct: "fn add(a: i64, b: i64) -> i64 = a + b;"@,
        } } else
        if i == 8 { DiagPatternSpec {
            id: "bitwise_ops"@,
            kind: ""@,
            triggers: seq!["bitwise"@, "bit and"@, "bit or"@],
            suggestion: "BMB uses 'band', 'bor', 'bxor' for bitwise operations, not &, |, ^."@,
            example_wrong: "let x: i64 = a & b;"@,
            example_correct: "let x: i64 = a band b;"@,
        } } else
        if i == 9 { DiagPatternSpec {
            id: "impl_block"@,
            kind: "parser"@,
            triggers: seq!["`impl`"@, "impl block"@, "token `impl`"@],
            suggestion: "BMB has no impl blocks. Define free functions instead."@,
            example_wrong: "impl Foo {\n    fn bar(&self) -> i64 { ... }\n}"@,
            example_correct: "fn foo_bar(self: &Foo) -> i64 = ...;"@,
        } } else
        if i == 10 { DiagPatternSpec {
            id: "trait_def"@,
            kind: "parser"@,
            triggers: seq!["`trait`"@, "trait definition"@, "token `trait`"@],
            suggestion: "BMB traits use 'trait Name { fn method(self: &Self) -> Type; }' syntax."@,
            example_wrong: "trait Foo {\n    fn bar(&self) -> i64;\n}"@,
            example_correct: "trait Foo {\n    fn bar(self: &Self) -> i64;\n}"@,
        } } else
        if i == 11 { DiagPatternSpec {
            id: "tuple_destruct"@,
            kind: ""@,
            triggers: seq!["let ("@, "destructur"@, "tuple"@],
            suggestion: "Tuple destructuring `let (a, b) = expr;` WORKS inside a block { ... }.\nIf it fails, ensure it is inside a function block body, not in expression position."@,
            example_wrong: "fn f() -> i64 = let (a, b) = pair;  // expression position — fails"@,
            example_correct: "fn f() -> i64 = { let (a, b) = pair; a + b };  // block — works"@,
        } } else
        if i == 12 { DiagPatternSpec {
            id: "match_wildcard"@,
            kind: ""@,
            triggers: seq!["_ ->"@, "wildcard"@],
            suggestion: "BMB match uses `=>` arrow (not `->`). The `_` wildcard works: `match x { 1 => a, _ => b }`."@,
            example_wrong: "match x { 1 -> a, _ -> b }"@,
            example_correct: "match x { 1 => a, _ => b }"@,
        } } else
        if i == 13 { DiagPatternSpec {
            id: "static_method"@,
            kind: ""@,
            triggers: seq!["::new("@, "::from("@, "::default("@, "::with_capacity("@],
            suggestion: "BMB has no static methods or associated functions. Use free functions."@,
            example_wrong: "let v = Vec::new();"@,
            example_correct: "let v: i64 = vec_new();"@,
        } } else
        if i == 14 { DiagPatternSpec {
            id: "io_functions"@,
            kind: ""@,
            triggers: seq!["io::stdin"@, "read_line"@, "std::io"@, "BufRead"@],
            suggestion: "BMB uses read_int() to read from stdin. No std::io."@,
            example_wrong: "let mut input = String::new();\nstd::io::stdin().read_line(&mut input);"@,
            example_correct: "let n: i64 = read_int();"@,
        } } else
        if i == 15 { DiagPatternSpec {
            id: "array_syntax"@,
            kind: ""@,
            triggers: seq!["[i64;"@, "&[i64]"@, "array literal"@],
            suggestion: "BMB uses vec_new()/vec_push()/vec_get() for dynamic arrays."@,
            example_wrong: "let arr: [i64; 5] = [1, 2, 3, 4, 5];"@,
            example_correct: "let arr: i64 = vec_new();\nvec_push(arr, 1);\nvec_push(arr, 2);"@,
        } } else
        if i == 16 { DiagPatternSpec {
            id: "use_import"@,
            kind: "parser"@,
            triggers: seq!["`use`"@, "use std"@, "use crate"@, "token `use`"@],
            suggestion: "BMB uses 'import' instead of Rust's 'use'. Standard functions are built-in."@,
            example_wrong: "use std::collections::HashMap;"@,
            example_correct: "// No import needed - vec_new(), println(), read_int() are built-in"@,
        } } else
        if i == 17 { DiagPatternSpec {
            id: "void_return_used"@,
            kind: "type"@,
            triggers: seq!["expected i64, got ()"@, "expected f64, got ()"@, "expected bool, got ()"@],
            suggestion: "println/print/vec_push/vec_set/vec_free return () not i64. Wrap in a block: { println(x); 0 }"@,
            example_wrong: "fn main() -> i64 = println(42);"@,
            example_correct: "fn main() -> i64 = { println(42); 0 };"@,
        } } else
        if i == 18 { DiagPatternSpec {
            id: "unit_to_value"@,
            kind: "type"@,
            triggers: seq!["expected (), got i64"@, "expected (), got f64"@],
            suggestion: "Block body returns () by default. If you need to return a value, use = expr; syntax or ensure the last expression matches the return type."@,
            example_wrong: "fn foo() { 42 }"@,
            example_correct: "fn foo() -> i64 = 42;"@,
        } } else
        if i == 19 { DiagPatternSpec {
            id: "nullable_type_mismatch"@,
            kind: "type"@,
            triggers: seq!["got i64?"@, "got f64?"@, "got bool?"@, "expected i64, got i64?"@, "expected f64, got f64?"@],
            suggestion: "Cannot use T? where T is expected. Use plain T if value is always present, or match to extract the value."@,
            example_wrong: "let x: i64? = 42;\nprintln(x);  // error: expected i64, got i64?"@,
            example_correct: "let x: i64 = 42;\nprintln(x);  // or: match x { some(v) => println(v), none => () };"@,
        } } else
        if i == 20 { DiagPatternSpec {
            id: "underscore_pattern"@,
            kind: "parser"@,
            triggers: seq!["`_`"@, "Unrecognized token `_`"@, "token `_`"@],
            suggestion: "BMB does not support underscore _ patterns. Use a named variable or else clause."@,
            example_wrong: "let _ = foo();"@,
            example_correct: "let _unused: i64 = foo();"@,
        } } else
        if i == 21 { DiagPatternSpec {
            id: "missing_semicolon_eof"@,
            kind: "parser"@,
            triggers: seq!["Unrecognized EOF"@, "Expected one of \";\""@],
            suggestion: "BMB top-level definitions (fn, struct) must end with ';'. Block expressions end with '};'."@,
            example_wrong: "fn main() -> i64 = { 0 }"@,
            example_correct: "fn main() -> i64 = { 0 };"@,
        } } else
        if i == 22 { DiagPatternSpec {
            id: "missing_semicolon_block"@,
            kind: "parser"@,
            triggers: seq!["expected `}`"@, "expected `;`"@],
            suggestion: "BMB blocks must end with a semicolon after while/if/for. Use: while cond { body; };"@,
            example_wrong: "while i < n { set i = i + 1; }"@,
            example_correct: "while i < n { set i = i + 1; };"@,
        } } else
        if i == 23 { DiagPatternSpec {
            id: "missing_else"@,
            kind: "parser"@,
            triggers: seq!["Expected one of \"else\""@],
            suggestion: "BMB if-expressions used as values require an else branch."@,
            example_wrong: "let x: i64 = if cond { 1 };"@,
            example_correct: "let x: i64 = if cond { 1 } else { 0 };"@,
        } } else
        if i == 24 { DiagPatternSpec {
            id: "bool_operators"@,
            kind: "parser"@,
            triggers: seq!["Unrecognized token `|`"@, "Unrecognized token `&`"@],
            suggestion: "BMB does not support single '|' or '&' as operators.\nFor BITWISE operators: 'a | b' → 'a bor b',  'a & b' → 'a band b',  'a ^ b' → 'a bxor b'\nNote: '||' and '&&' DO work in BMB for boolean OR/AND (no change needed for those)."@,
            example_wrong: "let bit: i64 = n & 1;\nlet masked: i64 = a | b;"@,
            example_correct: "let bit: i64 = n band 1;\nlet masked: i64 = a bor b;"@,
        } } else
        if i == 25 { DiagPatternSpec {
            id: "closure_lambda"@,
            kind: "parser"@,
            triggers: seq!["`|`"@, "closure"@, "lambda"@, "token `|`"@],
            suggestion: "BMB has no closures or lambdas. Use named functions instead."@,
            example_wrong: "let f = |x| x + 1;"@,
            example_correct: "fn add_one(x: i64) -> i64 = x + 1;"@,
        } } else
        if i == 26 { DiagPatternSpec {
            id: "mutable_param"@,
            kind: ""@,
            triggers: seq!["&mut"@],
            suggestion: "BMB function parameters are immutable. Copy to a local mut variable."@,
            example_wrong: "fn foo(mut x: i64) -> i64 = { x = x + 1; x };"@,
            example_correct: "fn foo(x: i64) -> i64 = { let mut local: i64 = x; set local = local + 1; local };"@,
        } } else
        if i == 27 { DiagPatternSpec {
            id: "print_string_fn"@,
            kind: "type"@,
            triggers: seq!["expected &str, got i64"@, "expected i64, got &str"@],
            suggestion: "BMB has separate print functions: println(i64) for numbers, println_str(&str) for strings."@,
            example_wrong: "println(\"hello\");"@,
            example_correct: "println_str(\"hello\");\nprintln(42);"@,
        } } else
        if i == 28 { DiagPatternSpec {
            id: "if_without_else_unit"@,
            kind: "type"@,
            triggers: seq!["if expression without else"@, "branch types do not match"@],
            suggestion: "BMB `if cond { body }` without else returns (). This works fine for statements.\nIf used as a VALUE (assigned to a variable), add else: `if cond { expr } else { default }`."@,
            example_wrong: "let x: i64 = if cond { 42 };  // if-as-value requires else"@,
            example_correct: "let x: i64 = if cond { 42 } else { 0 };\nif cond { do_side_effect() };  // side-effect only — no else needed"@,
        } } else
        if i == 29 { DiagPatternSpec {
            id: "iterator_methods"@,
            kind: ""@,
            triggers: seq![".iter()"@, ".map("@, ".filter("@, ".collect("@, ".enumerate("@, ".zip("@],
            suggestion: "BMB has no iterators or functional methods. Use while/for loops with vec_get/vec_len."@,
            example_wrong: "let sum: i64 = arr.iter().sum();"@,
            example_correct: "let mut sum: i64 = 0;\nfor i in 0..vec_len(arr) {\n    sum = sum + vec_get(arr, i);\n};"@,
        } } else
        if i == 30 { DiagPatternSpec {
            id: "type_cast"@,
            kind: ""@,
            triggers: seq![" as "@, "as usize"@, "as i64"@, "as i32"@],
            suggestion: "BMB has no type casting with 'as'. All integers are i64."@,
            example_wrong: "let idx = n as usize;"@,
            example_correct: "let idx: i64 = n;  // All integers are i64"@,
        } } else
        if i == 31 { DiagPatternSpec {
            id: "missing_return_type"@,
            kind: "parser"@,
            triggers: seq!["Expected one of \"->\""@, "expected `->`"@],
            suggestion: "BMB requires explicit return type for all functions. For void-like functions, return i64 and return 0."@,
            example_wrong: "fn do_stuff(x: i64) = { println(x); };"@,
            example_correct: "fn do_stuff(x: i64) -> i64 = { println(x); 0 };"@,
        } } else
        if i == 32 { DiagPatternSpec {
            id: "unknown_function"@,
            kind: "type"@,
            triggers: seq!["unknown function"@],
            suggestion: "Check function name. BMB built-ins:\n  I/O: println(i64), println_str(&str), print(i64), print_str(&str), read_int(), read_line()\n  Vec: vec_new(), vec_push(v,x), vec_get(v,i), vec_set(v,i,x), vec_len(v), vec_pop(v), vec_clear(v), vec_free(v)\n  Math: abs(x)->i64/f64, min(a,b), max(a,b), f64_sqrt(x)\n  String: str_concat(a,b), str_len(s), str_substr(s,start,len), str_to_int(s)"@,
            example_wrong: "let x: i64 = input();"@,
            example_correct: "let x: i64 = read_int();"@,
        } } else
        if i == 33 { DiagPatternSpec {
            id: "unwrap_bang"@,
            kind: "parser"@,
            triggers: seq!["Unrecognized token `!`"@],
            suggestion: "BMB has no ! operator.\n- For boolean negation: use 'not x' (NOT '!x')\n- For macros (println!, format!): use plain functions: println(x), format(\"{}\", x)\n- For unwrap: use match or change type to plain T"@,
            example_wrong: "if !found { ... }\nprintln!(\"hello\");"@,
            example_correct: "if not found { ... }\nprintln_str(\"hello\");"@,
        } } else
        if i == 34 { DiagPatternSpec {
            id: "if_stmt_no_semicolon"@,
            kind: "parser"@,
            triggers: seq!["Unrecognized token `if`"@, "token `if` found"@, "Expected one of \"else\", \";\" or \"}\""@],
            suggestion: "In BMB, if-expressions used as statements inside blocks must be followed by ';' before the next statement. Add ';' after each if-statement that is not the last expression in a block."@,
            example_wrong: "fn f(n: i64) -> i64 = {\n    if n < 2 { return 0 }\n    if n == 2 { return 1 }\n    n - 1\n};"@,
            example_correct: "fn f(n: i64) -> i64 = {\n    if n < 2 { return 0 };\n    if n == 2 { return 1 };\n    n - 1\n};"@,
        } } else
        {  DiagPatternSpec {
            id: "contract_param_undefined"@,
            kind: "type"@,
            triggers: seq!["undefined variable"@],
            suggestion: "In BMB, pre/post contracts can only reference function parameters (and `ret` in post). If you see 'undefined variable' inside a contract, the variable is not a parameter of that function.\nCOMMON MISTAKE: Do NOT put contracts on fn main() — main() has no parameters, so any name in main's pre/post will be undefined.\nFix: Move the contract to the helper function that receives the parameter.\nExample: fn factorial(n: i64) -> i64 pre n >= 0 and n <= 20 post ret >= 1 = ...;"@,
            example_wrong: "fn main() -> i64\n    pre n >= 0\n= { ... };  // n is not a parameter of main"@,
            example_correct: "fn factorial(n: i64) -> i64\n    pre n >= 0\n= ...;  // n is a parameter here"@,
        }
        }
}

/// The diagnostic pattern at position `i` of the table.
pub fn pattern(i: usize) -> (p: DiagPattern)
    requires
        i < PATTERN_COUNT,
    ensures
        p@ == pattern_at(i as int),
{
    let p = match i {
        0 => {
            let p = DiagPattern {
                id: "option_type",
                kind: "",
                triggers: vec!["Option<", "Option::", "Some(", "token `some`", "token `none`", "unknown type `option`"],
                suggestion: "BMB uses T? for nullable types, not Option<T>.",
                example_wrong: "let x: Option<i64> = Some(42);",
                example_correct: "let x: i64? = 42;",
            };
            assert(p.triggers@.map_values(|t: &'static str| t@) =~= seq!["Option<"@, "Option::"@, "Some("@, "token `some`"@, "token `none`"@, "unknown type `option`"@]);
            p
        },
        1 => {
            let p = DiagPattern {
                id: "function_name_reserved",
                kind: "",
                triggers: vec!["invalid redefinition of function", "redefinition of '"],
                suggestion: "This function name conflicts with a BMB built-in. Use a different name (e.g., 'clamp_val' instead of 'clamp', which is reserved).",
                example_wrong: "fn clamp(x: i64, lo: i64, hi: i64) -> i64 = ...;",
                example_correct: "fn clamp_val(x: i64, lo: i64, hi: i64) -> i64 = ...;",
            };
            assert(p.triggers@.map_values(|t: &'static str| t@) =~= seq!["invalid redefinition of function"@, "redefinition of '"@]);
            p
        },
        2 => {
            let p = DiagPattern {
                id: "vec_generic",
                kind: "",
                triggers: vec!["Vec<", "Vec::new", "vec!", "token `new`", "unknown type `vec`"],
                suggestion: "BMB vectors use free functions: vec_new(), vec_push(v, val), vec_get(v, idx), vec_len(v), vec_free(v). Handle type is i64.",
                example_wrong: "let v: Vec<i64> = Vec::new();\nv.push(42);",
                example_correct: "let v: i64 = vec_new();\nvec_push(v, 42);",
            };
            assert(p.triggers@.map_values(|t: &'static str| t@) =~= seq!["Vec<"@, "Vec::new"@, "vec!"@, "token `new`"@, "unknown type `vec`"@]);
            p
        },
        3 => {
            let p = DiagPattern {
                id: "method_call",
                kind: "",
                triggers: vec![".len()", ".push(", ".pop(", ".get(", ".set(", ".contains("],
                suggestion: "BMB uses free functions, not method calls. Use func(obj, args) instead of obj.func(args).",
                example_wrong: "arr.len()",
                example_correct: "vec_len(arr)",
            };
            assert(p.triggers@.map_values(|t: &'static str| t@) =~= seq![".len()"@, ".push("@, ".pop("@, ".get("@, ".set("@, ".contains("@]);
            p
        },
        4 => {
            let p = DiagPattern {
                id: "println_macro",
                kind: "",
                triggers: vec!["println!", "print!", "eprintln!", "format!"],
                suggestion: "BMB uses println(num) or println_str(\"text\"), not Rust macros.",
                example_wrong: "println!(\"value: {}\", x);",
                example_correct: "println(x);\nprintln_str(\"text\");",
            };
            assert(p.triggers@.map_values(|t: &'static str| t@) =~= seq!["println!"@, "print!"@, "eprintln!"@, "format!"@]);
            p
        },
        5 => {
            let p = DiagPattern {
                id: "string_type",
                kind: "",
                triggers: vec!["String::", "String::from", "&String", ".to_string()", ".as_str()"],
                suggestion: "BMB uses &str for strings. No String type.",
                example_wrong: "let s: String = String::from(\"hello\");",
                example_correct: "let s: &str = \"hello\";",
            };
            assert(p.triggers@.map_values(|t: &'static str| t@) =~= seq!["String::"@, "String::from"@, "&String"@, ".to_string()"@, ".as_str()"@]);
            p
        },
        6 => {
            let p = DiagPattern {
                id: "type_annotation",
                kind: "type",
                triggers: vec!["cannot infer", "type mismatch"],
                suggestion: "BMB supports type inference but some complex expressions may need explicit annotations. Add ': Type' to the let binding.",
                example_wrong: "let x = complex_expr();  // type ambiguous",
                example_correct: "let x: i64 = complex_expr();",
            };
            assert(p.triggers@.map_values(|t: &'static str| t@) =~= seq!["cannot infer"@, "type mismatch"@]);
            p
        },
        7 => {
            let p = DiagPattern {
                id: "fn_return_expr",
                kind: "parser",
                triggers: vec!["expected `=`", "expected `{`", "function body"],
                suggestion: "BMB functions use '= expr;' for expression bodies or '= { ... };' for block bodies.",
                example_wrong: "fn add(a: i64, b: i64) -> i64 { a + b }",
                example_correct: "fn add(a: i64, b: i64) -> i64 = a + b;",
            };
            assert(p.triggers@.map_values(|t: &'static str| t@) =~= seq!["expected `=`"@, "expected `{`"@, "function body"@]);
            p
        },
        8 => {
            let p = DiagPattern {
                id: "bitwise_ops",
                kind: "",
                triggers: vec!["bitwise", "bit and", "bit or"],
                suggestion: "BMB uses 'band', 'bor', 'bxor' for bitwise operations, not &, |, ^.",
                example_wrong: "let x: i64 = a & b;",
                example_correct: "let x: i64 = a band b;",
            };
            assert(p.triggers@.map_values(|t: &'static str| t@) =~= seq!["bitwise"@, "bit and"@, "bit or"@]);
            p
        },
        9 => {
            let p = DiagPattern {
                id: "impl_block",
                kind: "parser",
                triggers: vec!["`impl`", "impl block", "token `impl`"],
                suggestion: "BMB has no impl blocks. Define free functions instead.",
                example_wrong: "impl Foo {\n    fn bar(&self) -> i64 { ... }\n}",
                example_correct: "fn foo_bar(self: &Foo) -> i64 = ...;",
            };
            assert(p.triggers@.map_values(|t: &'static str| t@) =~= seq!["`impl`"@, "impl block"@, "token `impl`"@]);
            p
        },
        10 => {
            let p = DiagPattern {
                id: "trait_def",
                kind: "parser",
                triggers: vec!["`trait`", "trait definition", "token `trait`"],
                suggestion: "BMB traits use 'trait Name { fn method(self: &Self) -> Type; }' syntax.",
                example_wrong: "trait Foo {\n    fn bar(&self) -> i64;\n}",
                example_correct: "trait Foo {\n    fn bar(self: &Self) -> i64;\n}",
            };
            assert(p.triggers@.map_values(|t: &'static str| t@) =~= seq!["`trait`"@, "trait definition"@, "token `trait`"@]);
            p
        },
        11 => {
            let p = DiagPattern {
                id: "tuple_destruct",
                kind: "",
                triggers: vec!["let (", "destructur", "tuple"],
                suggestion: "Tuple destructuring `let (a, b) = expr;` WORKS inside a block { ... }.\nIf it fails, ensure it is inside a function block body, not in expression position.",
                example_wrong: "fn f() -> i64 = let (a, b) = pair;  // expression position — fails",
                example_correct: "fn f() -> i64 = { let (a, b) = pair; a + b };  // block — works",
            };
            assert(p.triggers@.map_values(|t: &'static str| t@) =~= seq!["let ("@, "destructur"@, "tuple"@]);
            p
        },
        12 => {
            let p = DiagPattern {
                id: "match_wildcard",
                kind: "",
                triggers: vec!["_ ->", "wildcard"],
                suggestion: "BMB match uses `=>` arrow (not `->`). The `_` wildcard works: `match x { 1 => a, _ => b }`.",
                example_wrong: "match x { 1 -> a, _ -> b }",
                example_correct: "match x { 1 => a, _ => b }",
            };
            assert(p.triggers@.map_values(|t: &'static str| t@) =~= seq!["_ ->"@, "wildcard"@]);
            p
        },
        13 => {
            let p = DiagPattern {
                id: "static_method",
                kind: "",
                triggers: vec!["::new(", "::from(", "::default(", "::with_capacity("],
                suggestion: "BMB has no static methods or associated functions. Use free functions.",
                example_wrong: "let v = Vec::new();",
                example_correct: "let v: i64 = vec_new();",
            };
            assert(p.triggers@.map_values(|t: &'static str| t@) =~= seq!["::new("@, "::from("@, "::default("@, "::with_capacity("@]);
            p
        },
        14 => {
            let p = DiagPattern {
                id: "io_functions",
                kind: "",
                triggers: vec!["io::stdin", "read_line", "std::io", "BufRead"],
                suggestion: "BMB uses read_int() to read from stdin. No std::io.",
                example_wrong: "let mut input = String::new();\nstd::io::stdin().read_line(&mut input);",
                example_correct: "let n: i64 = read_int();",
            };
            assert(p.triggers@.map_values(|t: &'static str| t@) =~= seq!["io::stdin"@, "read_line"@, "std::io"@, "BufRead"@]);
            p
        },
        15 => {
            let p = DiagPattern {
                id: "array_syntax",
                kind: "",
                triggers: vec!["[i64;", "&[i64]", "array literal"],
                suggestion: "BMB uses vec_new()/vec_push()/vec_get() for dynamic arrays.",
                example_wrong: "let arr: [i64; 5] = [1, 2, 3, 4, 5];",
                example_correct: "let arr: i64 = vec_new();\nvec_push(arr, 1);\nvec_push(arr, 2);",
            };
            assert(p.triggers@.map_values(|t: &'static str| t@) =~= seq!["[i64;"@, "&[i64]"@, "array literal"@]);
            p
        },
        16 => {
            let p = DiagPattern {
                id: "use_import",
                kind: "parser",
                triggers: vec!["`use`", "use std", "use crate", "token `use`"],
                suggestion: "BMB uses 'import' instead of Rust's 'use'. Standard functions are built-in.",
                example_wrong: "use std::collections::HashMap;",
                example_correct: "// No import needed - vec_new(), println(), read_int() are built-in",
            };
            assert(p.triggers@.map_values(|t: &'static str| t@) =~= seq!["`use`"@, "use std"@, "use crate"@, "token `use`"@]);
            p
        },
        17 => {
            let p = DiagPattern {
                id: "void_return_used",
                kind: "type",
                triggers: vec!["expected i64, got ()", "expected f64, got ()", "expected bool, got ()"],
                suggestion: "println/print/vec_push/vec_set/vec_free return () not i64. Wrap in a block: { println(x); 0 }",
                example_wrong: "fn main() -> i64 = println(42);",
                example_correct: "fn main() -> i64 = { println(42); 0 };",
            };
            assert(p.triggers@.map_values(|t: &'static str| t@) =~= seq!["expected i64, got ()"@, "expected f64, got ()"@, "expected bool, got ()"@]);
            p
        },
        18 => {
            let p = DiagPattern {
                id: "unit_to_value",
                kind: "type",
                triggers: vec!["expected (), got i64", "expected (), got f64"],
                suggestion: "Block body returns () by default. If you need to return a value, use = expr; syntax or ensure the last expression matches the return type.",
                example_wrong: "fn foo() { 42 }",
                example_correct: "fn foo() -> i64 = 42;",
            };
            assert(p.triggers@.map_values(|t: &'static str| t@) =~= seq!["expected (), got i64"@, "expected (), got f64"@]);
            p
        },
        19 => {
            let p = DiagPattern {
                id: "nullable_type_mismatch",
                kind: "type",
                triggers: vec!["got i64?", "got f64?", "got bool?", "expected i64, got i64?", "expected f64, got f64?"],
                suggestion: "Cannot use T? where T is expected. Use plain T if value is always present, or match to extract the value.",
                example_wrong: "let x: i64? = 42;\nprintln(x);  // error: expected i64, got i64?",
                example_correct: "let x: i64 = 42;\nprintln(x);  // or: match x { some(v) => println(v), none => () };",
            };
            assert(p.triggers@.map_values(|t: &'static str| t@) =~= seq!["got i64?"@, "got f64?"@, "got bool?"@, "expected i64, got i64?"@, "expected f64, got f64?"@]);
            p
        },
        20 => {
            let p = DiagPattern {
                id: "underscore_pattern",
                kind: "parser",
                triggers: vec!["`_`", "Unrecognized token `_`", "token `_`"],
                suggestion: "BMB does not support underscore _ patterns. Use a named variable or else clause.",
                example_wrong: "let _ = foo();",
                example_correct: "let _unused: i64 = foo();",
            };
            assert(p.triggers@.map_values(|t: &'static str| t@) =~= seq!["`_`"@, "Unrecognized token `_`"@, "token `_`"@]);
            p
        },
        21 => {
            let p = DiagPattern {
                id: "missing_semicolon_eof",
                kind: "parser",
                triggers: vec!["Unrecognized EOF", "Expected one of \";\""],
                suggestion: "BMB top-level definitions (fn, struct) must end with ';'. Block expressions end with '};'.",
                example_wrong: "fn main() -> i64 = { 0 }",
                example_correct: "fn main() -> i64 = { 0 };",
            };
            assert(p.triggers@.map_values(|t: &'static str| t@) =~= seq!["Unrecognized EOF"@, "Expected one of \";\""@]);
            p
        },
        22 => {
            let p = DiagPattern {
                id: "missing_semicolon_block",
                kind: "parser",
                triggers: vec!["expected `}`", "expected `;`"],
                suggestion: "BMB blocks must end with a semicolon after while/if/for. Use: while cond { body; };",
                example_wrong: "while i < n { set i = i + 1; }",
                example_correct: "while i < n { set i = i + 1; };",
            };
            assert(p.triggers@.map_values(|t: &'static str| t@) =~= seq!["expected `}`"@, "expected `;`"@]);
            p
        },
        23 => {
            let p = DiagPattern {
                id: "missing_else",
                kind: "parser",
                triggers: vec!["Expected one of \"else\""],
                suggestion: "BMB if-expressions used as values require an else branch.",
                example_wrong: "let x: i64 = if cond { 1 };",
                example_correct: "let x: i64 = if cond { 1 } else { 0 };",
            };
            assert(p.triggers@.map_values(|t: &'static str| t@) =~= seq!["Expected one of \"else\""@]);
            p
        },
        24 => {
            let p = DiagPattern {
                id: "bool_operators",
                kind: "parser",
                triggers: vec!["Unrecognized token `|`", "Unrecognized token `&`"],
                suggestion: "BMB does not support single '|' or '&' as operators.\nFor BITWISE operators: 'a | b' → 'a bor b',  'a & b' → 'a band b',  'a ^ b' → 'a bxor b'\nNote: '||' and '&&' DO work in BMB for boolean OR/AND (no change needed for those).",
                example_wrong: "let bit: i64 = n & 1;\nlet masked: i64 = a | b;",
                example_correct: "let bit: i64 = n band 1;\nlet masked: i64 = a bor b;",
            };
            assert(p.triggers@.map_values(|t: &'static str| t@) =~= seq!["Unrecognized token `|`"@, "Unrecognized token `&`"@]);
            p
        },
        25 => {
            let p = DiagPattern {
                id: "closure_lambda",
                kind: "parser",
                triggers: vec!["`|`", "closure", "lambda", "token `|`"],
                suggestion: "BMB has no closures or lambdas. Use named functions instead.",
                example_wrong: "let f = |x| x + 1;",
                example_correct: "fn add_one(x: i64) -> i64 = x + 1;",
            };
            assert(p.triggers@.map_values(|t: &'static str| t@) =~= seq!["`|`"@, "closure"@, "lambda"@, "token `|`"@]);
            p
        },
        26 => {
            let p = DiagPattern {
                id: "mutable_param",
                kind: "",
                triggers: vec!["&mut"],
                suggestion: "BMB function parameters are immutable. Copy to a local mut variable.",
                example_wrong: "fn foo(mut x: i64) -> i64 = { x = x + 1; x };",
                example_correct: "fn foo(x: i64) -> i64 = { let mut local: i64 = x; set local = local + 1; local };",
            };
            assert(p.triggers@.map_values(|t: &'static str| t@) =~= seq!["&mut"@]);
            p
        },
        27 => {
            let p = DiagPattern {
                id: "print_string_fn",
                kind: "type",
                triggers: vec!["expected &str, got i64", "expected i64, got &str"],
                suggestion: "BMB has separate print functions: println(i64) for numbers, println_str(&str) for strings.",
                example_wrong: "println(\"hello\");",
                example_correct: "println_str(\"hello\");\nprintln(42);",
            };
            assert(p.triggers@.map_values(|t: &'static str| t@) =~= seq!["expected &str, got i64"@, "expected i64, got &str"@]);
            p
        },
        28 => {
            let p = DiagPattern {
                id: "if_without_else_unit",
                kind: "type",
                triggers: vec!["if expression without else", "branch types do not match"],
                suggestion: "BMB `if cond { body }` without else returns (). This works fine for statements.\nIf used as a VALUE (assigned to a variable), add else: `if cond { expr } else { default }`.",
                example_wrong: "let x: i64 = if cond { 42 };  // if-as-value requires else",
                example_correct: "let x: i64 = if cond { 42 } else { 0 };\nif cond { do_side_effect() };  // side-effect only — no else needed",
            };
            assert(p.triggers@.map_values(|t: &'static str| t@) =~= seq!["if expression without else"@, "branch types do not match"@]);
            p
        },
        29 => {
            let p = DiagPattern {
                id: "iterator_methods",
                kind: "",
                triggers: vec![".iter()", ".map(", ".filter(", ".collect(", ".enumerate(", ".zip("],
                suggestion: "BMB has no iterators or functional methods. Use while/for loops with vec_get/vec_len.",
                example_wrong: "let sum: i64 = arr.iter().sum();",
                example_correct: "let mut sum: i64 = 0;\nfor i in 0..vec_len(arr) {\n    sum = sum + vec_get(arr, i);\n};",
            };
            assert(p.triggers@.map_values(|t: &'static str| t@) =~= seq![".iter()"@, ".map("@, ".filter("@, ".collect("@, ".enumerate("@, ".zip("@]);
            p
        },
        30 => {
            let p = DiagPattern {
                id: "type_cast",
                kind: "",
                triggers: vec![" as ", "as usize", "as i64", "as i32"],
                suggestion: "BMB has no type casting with 'as'. All integers are i64.",
                example_wrong: "let idx = n as usize;",
                example_correct: "let idx: i64 = n;  // All integers are i64",
            };
            assert(p.triggers@.map_values(|t: &'static str| t@) =~= seq![" as "@, "as usize"@, "as i64"@, "as i32"@]);
            p
        },
        31 => {
            let p = DiagPattern {
                id: "missing_return_type",
                kind: "parser",
                triggers: vec!["Expected one of \"->\"", "expected `->`"],
                suggestion: "BMB requires explicit return type for all functions. For void-like functions, return i64 and return 0.",
                example_wrong: "fn do_stuff(x: i64) = { println(x); };",
                example_correct: "fn do_stuff(x: i64) -> i64 = { println(x); 0 };",
            };
            assert(p.triggers@.map_values(|t: &'static str| t@) =~= seq!["Expected one of \"->\""@, "expected `->`"@]);
            p
        },
        32 => {
            let p = DiagPattern {
                id: "unknown_function",
                kind: "type",
                triggers: vec!["unknown function"],
                suggestion: "Check function name. BMB built-ins:\n  I/O: println(i64), println_str(&str), print(i64), print_str(&str), read_int(), read_line()\n  Vec: vec_new(), vec_push(v,x), vec_get(v,i), vec_set(v,i,x), vec_len(v), vec_pop(v), vec_clear(v), vec_free(v)\n  Math: abs(x)->i64/f64, min(a,b), max(a,b), f64_sqrt(x)\n  String: str_concat(a,b), str_len(s), str_substr(s,start,len), str_to_int(s)",
                example_wrong: "let x: i64 = input();",
                example_correct: "let x: i64 = read_int();",
            };
            assert(p.triggers@.map_values(|t: &'static str| t@) =~= seq!["unknown function"@]);
            p
        },
        33 => {
            let p = DiagPattern {
                id: "unwrap_bang",
                kind: "parser",
                triggers: vec!["Unrecognized token `!`"],
                suggestion: "BMB has no ! operator.\n- For boolean negation: use 'not x' (NOT '!x')\n- For macros (println!, format!): use plain functions: println(x), format(\"{}\", x)\n- For unwrap: use match or change type to plain T",
                example_wrong: "if !found { ... }\nprintln!(\"hello\");",
                example_correct: "if not found { ... }\nprintln_str(\"hello\");",
            };
            assert(p.triggers@.map_values(|t: &'static str| t@) =~= seq!["Unrecognized token `!`"@]);
            p
        },
        34 => {
            let p = DiagPattern {
                id: "if_stmt_no_semicolon",
                kind: "parser",
                triggers: vec!["Unrecognized token `if`", "token `if` found", "Expected one of \"else\", \";\" or \"}\""],
                suggestion: "In BMB, if-expressions used as statements inside blocks must be followed by ';' before the next statement. Add ';' after each if-statement that is not the last expression in a block.",
                example_wrong: "fn f(n: i64) -> i64 = {\n    if n < 2 { return 0 }\n    if n == 2 { return 1 }\n    n - 1\n};",
                example_correct: "fn f(n: i64) -> i64 = {\n    if n < 2 { return 0 };\n    if n == 2 { return 1 };\n    n - 1\n};",
            };
            assert(p.triggers@.map_values(|t: &'static str| t@) =~= seq!["Unrecognized token `if`"@, "token `if` found"@, "Expected one of \"else\", \";\" or \"}\""@]);
            p
        },
        _ => {
            let p = DiagPattern {
                id: "contract_param_undefined",
                kind: "type",
                triggers: vec!["undefined variable"],
                suggestion: "In BMB, pre/post contracts can only reference function parameters (and `ret` in post). If you see 'undefined variable' inside a contract, the variable is not a parameter of that function.\nCOMMON MISTAKE: Do NOT put contracts on fn main() — main() has no parameters, so any name in main's pre/post will be undefined.\nFix: Move the contract to the helper function that receives the parameter.\nExample: fn factorial(n: i64) -> i64 pre n >= 0 and n <= 20 post ret >= 1 = ...;",
                example_wrong: "fn main() -> i64\n    pre n >= 0\n= { ... };  // n is not a parameter of main",
                example_correct: "fn factorial(n: i64) -> i64\n    pre n >= 0\n= ...;  // n is a parameter here",
            };
            assert(p.triggers@.map_values(|t: &'static str| t@) =~= seq!["undefined variable"@]);
            p
        },
    };
    p
}

} // verus!
