//! LLVM IR text of calls to user and runtime functions: argument loads and
//! coercions, runtime name mapping, and the struct-return, register-struct,
//! tuple and plain call forms.

use vstd::prelude::*;

use crate::codegen::instructions::{
    def_line, fresh, is_local, known_operand_type, store_line, FunctionInfo, ProgramInfo,
};
use crate::codegen::llvm_text::{call_return_type, operand_text_with_strings, TextCodeGen};
use crate::codegen::names::{bumped, contains_name, count_map, NameMap};
use crate::mir::{Constant, MirFunction, Operand, Place};
use crate::text::{append_u64, dec_nat, push_str, str_eq};

verus! {

/// What a call's text depends on besides its counters.
pub ghost struct CallSite {
    pub name: Seq<char>,
    pub args: Seq<Operand>,
    pub base: Seq<char>,
    pub info: FunctionInfo,
    pub func: MirFunction,
    pub prog: ProgramInfo,
}

/// Runtime functions with a variant taking a C string for a literal.
pub open spec fn has_cstr_variant(name: Seq<char>) -> bool {
    name == "file_exists"@ || name == "bmb_file_exists"@ || name == "sb_push"@ || name == "bmb_sb_push"@
}

/// The type a runtime function expects for its argument at position `i`,
/// where the code generator knows it.
pub open spec fn runtime_param_type(name: Seq<char>, i: int) -> Option<Seq<char>> {
    if (name == "println"@ || name == "print"@) && i == 0 {
        Some("i64"@)
    } else if name == "assert"@ && i == 0 {
        Some("i1"@)
    } else if ((name == "abs"@ || name == "bmb_abs"@) && i == 0) || ((name == "min"@ || name == "max"@
        || name == "bmb_min"@ || name == "bmb_max"@ || name == "pow"@ || name == "bmb_pow"@) && (i == 0
        || i == 1)) || ((name == "clamp"@ || name == "bmb_clamp"@) && 0 <= i <= 2) {
        Some("i64"@)
    } else if (name == "sb_push_char"@ || name == "sb_push_int"@ || name == "bmb_sb_push_char"@
        || name == "bmb_sb_push_int"@) && (i == 0 || i == 1) {
        Some("i64"@)
    } else if (name == "sb_push_range"@ || name == "bmb_sb_push_range"@) && (i == 0 || i == 2 || i == 3) {
        Some("i64"@)
    } else {
        None
    }
}

/// The parameter type of a call's argument at position `i`: the callee's
/// declared one if it is a function of the program, else the runtime's.
pub open spec fn param_type_at(prog: ProgramInfo, name: Seq<char>, i: int) -> Option<Seq<char>> {
    match prog.fn_param_types.lookup(name) {
        Some(v) => if 0 <= i < v@.len() {
            Some(v@[i]@)
        } else {
            None
        },
        None => runtime_param_type(name, i),
    }
}

/// Whether the operand is a string constant.
pub open spec fn is_string_literal(op: Operand) -> bool {
    op matches Operand::Constant(Constant::String(_))
}

/// The runtime function a call of `name` goes to.
pub open spec fn runtime_fn_name(name: Seq<char>, args: Seq<Operand>, all_literals: bool) -> Seq<char> {
    let lit1 = args.len() == 2 && is_string_literal(args[1]);
    if name == "system"@ {
        "bmb_system"@
    } else if name == "system_capture"@ {
        "bmb_system_capture"@
    } else if name == "exec_output"@ {
        "bmb_exec_output"@
    } else if name == "file_exists"@ && all_literals {
        "file_exists_cstr"@
    } else if name == "bmb_file_exists"@ && all_literals {
        "bmb_file_exists_cstr"@
    } else if name == "sb_push"@ && lit1 {
        "sb_push_cstr"@
    } else if name == "bmb_sb_push"@ && lit1 {
        "bmb_sb_push_cstr"@
    } else if name == "abs"@ {
        "bmb_abs"@
    } else if name == "min"@ {
        "bmb_min"@
    } else if name == "max"@ {
        "bmb_max"@
    } else if name == "clamp"@ {
        "bmb_clamp"@
    } else if name == "pow"@ {
        "bmb_pow"@
    } else if name == "len"@ {
        "bmb_string_len"@
    } else if name == "byte_at"@ {
        "bmb_string_char_at"@
    } else if name == "slice"@ {
        "bmb_string_slice"@
    } else if name == "to_lower"@ {
        "bmb_string_to_lower"@
    } else if name == "to_upper"@ {
        "bmb_string_to_upper"@
    } else if name == "trim"@ {
        "bmb_string_trim"@
    } else if name == "contains"@ {
        "bmb_string_contains"@
    } else if name == "starts_with"@ {
        "bmb_string_starts_with"@
    } else if name == "ends_with"@ {
        "bmb_string_ends_with"@
    } else if name == "index_of"@ {
        "bmb_string_index_of"@
    } else if name == "replace"@ {
        "bmb_string_replace"@
    } else if name == "repeat"@ {
        "bmb_string_repeat"@
    } else if name == "is_empty"@ {
        "bmb_string_is_empty"@
    } else {
        name
    }
}

/// A call of a builtin that the runtime provides under its own name
/// (`abs`, `min`, `max`, `clamp`, `pow`, and the process builtins) calls the
/// runtime function of that name with the `bmb_` prefix, whatever its
/// arguments: so no two of them call the same runtime function.
pub proof fn lemma_runtime_builtins_named_alike(name: Seq<char>, args: Seq<Operand>, all_literals: bool)
    requires
        name == "system"@ || name == "system_capture"@ || name == "exec_output"@ || name == "abs"@ || name == "min"@ || name == "max"@ || name == "clamp"@ || name == "pow"@,
    ensures
        runtime_fn_name(name, args, all_literals) == "bmb_"@ + name,
{
    reveal_strlit("bmb_");
    if name == "system"@ {
        reveal_strlit("system");
        reveal_strlit("bmb_system");
        assert("bmb_"@ + "system"@ =~= "bmb_system"@);
    } else if name == "system_capture"@ {
        reveal_strlit("system_capture");
        reveal_strlit("bmb_system_capture");
        reveal_strlit("system");
        assert("system_capture"@.len() != "system"@.len());
        assert("bmb_"@ + "system_capture"@ =~= "bmb_system_capture"@);
    } else if name == "exec_output"@ {
        reveal_strlit("exec_output");
        reveal_strlit("bmb_exec_output");
        reveal_strlit("system");
        assert("exec_output"@.len() != "system"@.len());
        reveal_strlit("system_capture");
        assert("exec_output"@.len() != "system_capture"@.len());
        assert("bmb_"@ + "exec_output"@ =~= "bmb_exec_output"@);
    } else if name == "abs"@ {
        reveal_strlit("abs");
        reveal_strlit("bmb_abs");
        reveal_strlit("system");
        assert("abs"@.len() != "system"@.len());
        reveal_strlit("system_capture");
        assert("abs"@.len() != "system_capture"@.len());
        reveal_strlit("exec_output");
        assert("abs"@.len() != "exec_output"@.len());
        reveal_strlit("file_exists");
        assert("abs"@.len() != "file_exists"@.len());
        reveal_strlit("bmb_file_exists");
        assert("abs"@.len() != "bmb_file_exists"@.len());
        reveal_strlit("sb_push");
        assert("abs"@.len() != "sb_push"@.len());
        reveal_strlit("bmb_sb_push");
        assert("abs"@.len() != "bmb_sb_push"@.len());
        assert("bmb_"@ + "abs"@ =~= "bmb_abs"@);
    } else if name == "min"@ {
        reveal_strlit("min");
        reveal_strlit("bmb_min");
        reveal_strlit("system");
        assert("min"@.len() != "system"@.len());
        reveal_strlit("system_capture");
        assert("min"@.len() != "system_capture"@.len());
        reveal_strlit("exec_output");
        assert("min"@.len() != "exec_output"@.len());
        reveal_strlit("file_exists");
        assert("min"@.len() != "file_exists"@.len());
        reveal_strlit("bmb_file_exists");
        assert("min"@.len() != "bmb_file_exists"@.len());
        reveal_strlit("sb_push");
        assert("min"@.len() != "sb_push"@.len());
        reveal_strlit("bmb_sb_push");
        assert("min"@.len() != "bmb_sb_push"@.len());
        reveal_strlit("abs");
        assert("min"@[0] != "abs"@[0]);
        assert("bmb_"@ + "min"@ =~= "bmb_min"@);
    } else if name == "max"@ {
        reveal_strlit("max");
        reveal_strlit("bmb_max");
        reveal_strlit("system");
        assert("max"@.len() != "system"@.len());
        reveal_strlit("system_capture");
        assert("max"@.len() != "system_capture"@.len());
        reveal_strlit("exec_output");
        assert("max"@.len() != "exec_output"@.len());
        reveal_strlit("file_exists");
        assert("max"@.len() != "file_exists"@.len());
        reveal_strlit("bmb_file_exists");
        assert("max"@.len() != "bmb_file_exists"@.len());
        reveal_strlit("sb_push");
        assert("max"@.len() != "sb_push"@.len());
        reveal_strlit("bmb_sb_push");
        assert("max"@.len() != "bmb_sb_push"@.len());
        reveal_strlit("abs");
        assert("max"@[0] != "abs"@[0]);
        reveal_strlit("min");
        assert("max"@[1] != "min"@[1]);
        assert("bmb_"@ + "max"@ =~= "bmb_max"@);
    } else if name == "clamp"@ {
        reveal_strlit("clamp");
        reveal_strlit("bmb_clamp");
        reveal_strlit("system");
        assert("clamp"@.len() != "system"@.len());
        reveal_strlit("system_capture");
        assert("clamp"@.len() != "system_capture"@.len());
        reveal_strlit("exec_output");
        assert("clamp"@.len() != "exec_output"@.len());
        reveal_strlit("file_exists");
        assert("clamp"@.len() != "file_exists"@.len());
        reveal_strlit("bmb_file_exists");
        assert("clamp"@.len() != "bmb_file_exists"@.len());
        reveal_strlit("sb_push");
        assert("clamp"@.len() != "sb_push"@.len());
        reveal_strlit("bmb_sb_push");
        assert("clamp"@.len() != "bmb_sb_push"@.len());
        reveal_strlit("abs");
        assert("clamp"@.len() != "abs"@.len());
        reveal_strlit("min");
        assert("clamp"@.len() != "min"@.len());
        reveal_strlit("max");
        assert("clamp"@.len() != "max"@.len());
        assert("bmb_"@ + "clamp"@ =~= "bmb_clamp"@);
    } else if name == "pow"@ {
        reveal_strlit("pow");
        reveal_strlit("bmb_pow");
        reveal_strlit("system");
        assert("pow"@.len() != "system"@.len());
        reveal_strlit("system_capture");
        assert("pow"@.len() != "system_capture"@.len());
        reveal_strlit("exec_output");
        assert("pow"@.len() != "exec_output"@.len());
        reveal_strlit("file_exists");
        assert("pow"@.len() != "file_exists"@.len());
        reveal_strlit("bmb_file_exists");
        assert("pow"@.len() != "bmb_file_exists"@.len());
        reveal_strlit("sb_push");
        assert("pow"@.len() != "sb_push"@.len());
        reveal_strlit("bmb_sb_push");
        assert("pow"@.len() != "bmb_sb_push"@.len());
        reveal_strlit("abs");
        assert("pow"@[0] != "abs"@[0]);
        reveal_strlit("min");
        assert("pow"@[0] != "min"@[0]);
        reveal_strlit("max");
        assert("pow"@[0] != "max"@[0]);
        reveal_strlit("clamp");
        assert("pow"@.len() != "clamp"@.len());
        assert("bmb_"@ + "pow"@ =~= "bmb_pow"@);
    }
}

/// A call of a string builtin (`slice`, `to_lower`, `to_upper`, `trim`,
/// `contains`, `starts_with`, `ends_with`, `index_of`, `replace`, `repeat`,
/// `is_empty`) calls the runtime string function of that name, with the
/// `bmb_string_` prefix, whatever its arguments.
pub proof fn lemma_string_builtins_named_alike(name: Seq<char>, args: Seq<Operand>, all_literals: bool)
    requires
        name == "slice"@ || name == "to_lower"@ || name == "to_upper"@ || name == "trim"@ || name == "contains"@ || name == "starts_with"@ || name == "ends_with"@ || name == "index_of"@ || name == "replace"@ || name == "repeat"@ || name == "is_empty"@,
    ensures
        runtime_fn_name(name, args, all_literals) == "bmb_string_"@ + name,
{
    reveal_strlit("bmb_string_");
    if name == "slice"@ {
        reveal_strlit("slice");
        reveal_strlit("bmb_string_slice");
        reveal_strlit("system");
        assert("slice"@.len() != "system"@.len());
        reveal_strlit("system_capture");
        assert("slice"@.len() != "system_capture"@.len());
        reveal_strlit("exec_output");
        assert("slice"@.len() != "exec_output"@.len());
        reveal_strlit("file_exists");
        assert("slice"@.len() != "file_exists"@.len());
        reveal_strlit("bmb_file_exists");
        assert("slice"@.len() != "bmb_file_exists"@.len());
        reveal_strlit("sb_push");
        assert("slice"@.len() != "sb_push"@.len());
        reveal_strlit("bmb_sb_push");
        assert("slice"@.len() != "bmb_sb_push"@.len());
        reveal_strlit("abs");
        assert("slice"@.len() != "abs"@.len());
        reveal_strlit("min");
        assert("slice"@.len() != "min"@.len());
        reveal_strlit("max");
        assert("slice"@.len() != "max"@.len());
        reveal_strlit("clamp");
        assert("slice"@[0] != "clamp"@[0]);
        reveal_strlit("pow");
        assert("slice"@.len() != "pow"@.len());
        reveal_strlit("len");
        assert("slice"@.len() != "len"@.len());
        reveal_strlit("byte_at");
        assert("slice"@.len() != "byte_at"@.len());
        assert("bmb_string_"@ + "slice"@ =~= "bmb_string_slice"@);
    } else if name == "to_lower"@ {
        reveal_strlit("to_lower");
        reveal_strlit("bmb_string_to_lower");
        reveal_strlit("system");
        assert("to_lower"@.len() != "system"@.len());
        reveal_strlit("system_capture");
        assert("to_lower"@.len() != "system_capture"@.len());
        reveal_strlit("exec_output");
        assert("to_lower"@.len() != "exec_output"@.len());
        reveal_strlit("file_exists");
        assert("to_lower"@.len() != "file_exists"@.len());
        reveal_strlit("bmb_file_exists");
        assert("to_lower"@.len() != "bmb_file_exists"@.len());
        reveal_strlit("sb_push");
        assert("to_lower"@.len() != "sb_push"@.len());
        reveal_strlit("bmb_sb_push");
        assert("to_lower"@.len() != "bmb_sb_push"@.len());
        reveal_strlit("abs");
        assert("to_lower"@.len() != "abs"@.len());
        reveal_strlit("min");
        assert("to_lower"@.len() != "min"@.len());
        reveal_strlit("max");
        assert("to_lower"@.len() != "max"@.len());
        reveal_strlit("clamp");
        assert("to_lower"@.len() != "clamp"@.len());
        reveal_strlit("pow");
        assert("to_lower"@.len() != "pow"@.len());
        reveal_strlit("len");
        assert("to_lower"@.len() != "len"@.len());
        reveal_strlit("byte_at");
        assert("to_lower"@.len() != "byte_at"@.len());
        reveal_strlit("slice");
        assert("to_lower"@.len() != "slice"@.len());
        assert("bmb_string_"@ + "to_lower"@ =~= "bmb_string_to_lower"@);
    } else if name == "to_upper"@ {
        reveal_strlit("to_upper");
        reveal_strlit("bmb_string_to_upper");
        reveal_strlit("system");
        assert("to_upper"@.len() != "system"@.len());
        reveal_strlit("system_capture");
        assert("to_upper"@.len() != "system_capture"@.len());
        reveal_strlit("exec_output");
        assert("to_upper"@.len() != "exec_output"@.len());
        reveal_strlit("file_exists");
        assert("to_upper"@.len() != "file_exists"@.len());
        reveal_strlit("bmb_file_exists");
        assert("to_upper"@.len() != "bmb_file_exists"@.len());
        reveal_strlit("sb_push");
        assert("to_upper"@.len() != "sb_push"@.len());
        reveal_strlit("bmb_sb_push");
        assert("to_upper"@.len() != "bmb_sb_push"@.len());
        reveal_strlit("abs");
        assert("to_upper"@.len() != "abs"@.len());
        reveal_strlit("min");
        assert("to_upper"@.len() != "min"@.len());
        reveal_strlit("max");
        assert("to_upper"@.len() != "max"@.len());
        reveal_strlit("clamp");
        assert("to_upper"@.len() != "clamp"@.len());
        reveal_strlit("pow");
        assert("to_upper"@.len() != "pow"@.len());
        reveal_strlit("len");
        assert("to_upper"@.len() != "len"@.len());
        reveal_strlit("byte_at");
        assert("to_upper"@.len() != "byte_at"@.len());
        reveal_strlit("slice");
        assert("to_upper"@.len() != "slice"@.len());
        reveal_strlit("to_lower");
        assert("to_upper"@[3] != "to_lower"@[3]);
        assert("bmb_string_"@ + "to_upper"@ =~= "bmb_string_to_upper"@);
    } else if name == "trim"@ {
        reveal_strlit("trim");
        reveal_strlit("bmb_string_trim");
        reveal_strlit("system");
        assert("trim"@.len() != "system"@.len());
        reveal_strlit("system_capture");
        assert("trim"@.len() != "system_capture"@.len());
        reveal_strlit("exec_output");
        assert("trim"@.len() != "exec_output"@.len());
        reveal_strlit("file_exists");
        assert("trim"@.len() != "file_exists"@.len());
        reveal_strlit("bmb_file_exists");
        assert("trim"@.len() != "bmb_file_exists"@.len());
        reveal_strlit("sb_push");
        assert("trim"@.len() != "sb_push"@.len());
        reveal_strlit("bmb_sb_push");
        assert("trim"@.len() != "bmb_sb_push"@.len());
        reveal_strlit("abs");
        assert("trim"@.len() != "abs"@.len());
        reveal_strlit("min");
        assert("trim"@.len() != "min"@.len());
        reveal_strlit("max");
        assert("trim"@.len() != "max"@.len());
        reveal_strlit("clamp");
        assert("trim"@.len() != "clamp"@.len());
        reveal_strlit("pow");
        assert("trim"@.len() != "pow"@.len());
        reveal_strlit("len");
        assert("trim"@.len() != "len"@.len());
        reveal_strlit("byte_at");
        assert("trim"@.len() != "byte_at"@.len());
        reveal_strlit("slice");
        assert("trim"@.len() != "slice"@.len());
        reveal_strlit("to_lower");
        assert("trim"@.len() != "to_lower"@.len());
        reveal_strlit("to_upper");
        assert("trim"@.len() != "to_upper"@.len());
        assert("bmb_string_"@ + "trim"@ =~= "bmb_string_trim"@);
    } else if name == "contains"@ {
        reveal_strlit("contains");
        reveal_strlit("bmb_string_contains");
        reveal_strlit("system");
        assert("contains"@.len() != "system"@.len());
        reveal_strlit("system_capture");
        assert("contains"@.len() != "system_capture"@.len());
        reveal_strlit("exec_output");
        assert("contains"@.len() != "exec_output"@.len());
        reveal_strlit("file_exists");
        assert("contains"@.len() != "file_exists"@.len());
        reveal_strlit("bmb_file_exists");
        assert("contains"@.len() != "bmb_file_exists"@.len());
        reveal_strlit("sb_push");
        assert("contains"@.len() != "sb_push"@.len());
        reveal_strlit("bmb_sb_push");
        assert("contains"@.len() != "bmb_sb_push"@.len());
        reveal_strlit("abs");
        assert("contains"@.len() != "abs"@.len());
        reveal_strlit("min");
        assert("contains"@.len() != "min"@.len());
        reveal_strlit("max");
        assert("contains"@.len() != "max"@.len());
        reveal_strlit("clamp");
        assert("contains"@.len() != "clamp"@.len());
        reveal_strlit("pow");
        assert("contains"@.len() != "pow"@.len());
        reveal_strlit("len");
        assert("contains"@.len() != "len"@.len());
        reveal_strlit("byte_at");
        assert("contains"@.len() != "byte_at"@.len());
        reveal_strlit("slice");
        assert("contains"@.len() != "slice"@.len());
        reveal_strlit("to_lower");
        assert("contains"@[0] != "to_lower"@[0]);
        reveal_strlit("to_upper");
        assert("contains"@[0] != "to_upper"@[0]);
        reveal_strlit("trim");
        assert("contains"@.len() != "trim"@.len());
        assert("bmb_string_"@ + "contains"@ =~= "bmb_string_contains"@);
    } else if name == "starts_with"@ {
        reveal_strlit("starts_with");
        reveal_strlit("bmb_string_starts_with");
        reveal_strlit("system");
        assert("starts_with"@.len() != "system"@.len());
        reveal_strlit("system_capture");
        assert("starts_with"@.len() != "system_capture"@.len());
        reveal_strlit("exec_output");
        assert("starts_with"@[0] != "exec_output"@[0]);
        reveal_strlit("file_exists");
        assert("starts_with"@[0] != "file_exists"@[0]);
        reveal_strlit("bmb_file_exists");
        assert("starts_with"@.len() != "bmb_file_exists"@.len());
        reveal_strlit("sb_push");
        assert("starts_with"@.len() != "sb_push"@.len());
        reveal_strlit("bmb_sb_push");
        assert("starts_with"@[0] != "bmb_sb_push"@[0]);
        reveal_strlit("abs");
        assert("starts_with"@.len() != "abs"@.len());
        reveal_strlit("min");
        assert("starts_with"@.len() != "min"@.len());
        reveal_strlit("max");
        assert("starts_with"@.len() != "max"@.len());
        reveal_strlit("clamp");
        assert("starts_with"@.len() != "clamp"@.len());
        reveal_strlit("pow");
        assert("starts_with"@.len() != "pow"@.len());
        reveal_strlit("len");
        assert("starts_with"@.len() != "len"@.len());
        reveal_strlit("byte_at");
        assert("starts_with"@.len() != "byte_at"@.len());
        reveal_strlit("slice");
        assert("starts_with"@.len() != "slice"@.len());
        reveal_strlit("to_lower");
        assert("starts_with"@.len() != "to_lower"@.len());
        reveal_strlit("to_upper");
        assert("starts_with"@.len() != "to_upper"@.len());
        reveal_strlit("trim");
        assert("starts_with"@.len() != "trim"@.len());
        reveal_strlit("contains");
        assert("starts_with"@.len() != "contains"@.len());
        assert("bmb_string_"@ + "starts_with"@ =~= "bmb_string_starts_with"@);
    } else if name == "ends_with"@ {
        reveal_strlit("ends_with");
        reveal_strlit("bmb_string_ends_with");
        reveal_strlit("system");
        assert("ends_with"@.len() != "system"@.len());
        reveal_strlit("system_capture");
        assert("ends_with"@.len() != "system_capture"@.len());
        reveal_strlit("exec_output");
        assert("ends_with"@.len() != "exec_output"@.len());
        reveal_strlit("file_exists");
        assert("ends_with"@.len() != "file_exists"@.len());
        reveal_strlit("bmb_file_exists");
        assert("ends_with"@.len() != "bmb_file_exists"@.len());
        reveal_strlit("sb_push");
        assert("ends_with"@.len() != "sb_push"@.len());
        reveal_strlit("bmb_sb_push");
        assert("ends_with"@.len() != "bmb_sb_push"@.len());
        reveal_strlit("abs");
        assert("ends_with"@.len() != "abs"@.len());
        reveal_strlit("min");
        assert("ends_with"@.len() != "min"@.len());
        reveal_strlit("max");
        assert("ends_with"@.len() != "max"@.len());
        reveal_strlit("clamp");
        assert("ends_with"@.len() != "clamp"@.len());
        reveal_strlit("pow");
        assert("ends_with"@.len() != "pow"@.len());
        reveal_strlit("len");
        assert("ends_with"@.len() != "len"@.len());
        reveal_strlit("byte_at");
        assert("ends_with"@.len() != "byte_at"@.len());
        reveal_strlit("slice");
        assert("ends_with"@.len() != "slice"@.len());
        reveal_strlit("to_lower");
        assert("ends_with"@.len() != "to_lower"@.len());
        reveal_strlit("to_upper");
        assert("ends_with"@.len() != "to_upper"@.len());
        reveal_strlit("trim");
        assert("ends_with"@.len() != "trim"@.len());
        reveal_strlit("contains");
        assert("ends_with"@.len() != "contains"@.len());
        reveal_strlit("starts_with");
        assert("ends_with"@.len() != "starts_with"@.len());
        assert("bmb_string_"@ + "ends_with"@ =~= "bmb_string_ends_with"@);
    } else if name == "index_of"@ {
        reveal_strlit("index_of");
        reveal_strlit("bmb_string_index_of");
        reveal_strlit("system");
        assert("index_of"@.len() != "system"@.len());
        reveal_strlit("system_capture");
        assert("index_of"@.len() != "system_capture"@.len());
        reveal_strlit("exec_output");
        assert("index_of"@.len() != "exec_output"@.len());
        reveal_strlit("file_exists");
        assert("index_of"@.len() != "file_exists"@.len());
        reveal_strlit("bmb_file_exists");
        assert("index_of"@.len() != "bmb_file_exists"@.len());
        reveal_strlit("sb_push");
        assert("index_of"@.len() != "sb_push"@.len());
        reveal_strlit("bmb_sb_push");
        assert("index_of"@.len() != "bmb_sb_push"@.len());
        reveal_strlit("abs");
        assert("index_of"@.len() != "abs"@.len());
        reveal_strlit("min");
        assert("index_of"@.len() != "min"@.len());
        reveal_strlit("max");
        assert("index_of"@.len() != "max"@.len());
        reveal_strlit("clamp");
        assert("index_of"@.len() != "clamp"@.len());
        reveal_strlit("pow");
        assert("index_of"@.len() != "pow"@.len());
        reveal_strlit("len");
        assert("index_of"@.len() != "len"@.len());
        reveal_strlit("byte_at");
        assert("index_of"@.len() != "byte_at"@.len());
        reveal_strlit("slice");
        assert("index_of"@.len() != "slice"@.len());
        reveal_strlit("to_lower");
        assert("index_of"@[0] != "to_lower"@[0]);
        reveal_strlit("to_upper");
        assert("index_of"@[0] != "to_upper"@[0]);
        reveal_strlit("trim");
        assert("index_of"@.len() != "trim"@.len());
        reveal_strlit("contains");
        assert("index_of"@[0] != "contains"@[0]);
        reveal_strlit("starts_with");
        assert("index_of"@.len() != "starts_with"@.len());
        reveal_strlit("ends_with");
        assert("index_of"@.len() != "ends_with"@.len());
        assert("bmb_string_"@ + "index_of"@ =~= "bmb_string_index_of"@);
    } else if name == "replace"@ {
        reveal_strlit("replace");
        reveal_strlit("bmb_string_replace");
        reveal_strlit("system");
        assert("replace"@.len() != "system"@.len());
        reveal_strlit("system_capture");
        assert("replace"@.len() != "system_capture"@.len());
        reveal_strlit("exec_output");
        assert("replace"@.len() != "exec_output"@.len());
        reveal_strlit("file_exists");
        assert("replace"@.len() != "file_exists"@.len());
        reveal_strlit("bmb_file_exists");
        assert("replace"@.len() != "bmb_file_exists"@.len());
        reveal_strlit("sb_push");
        assert("replace"@[0] != "sb_push"@[0]);
        reveal_strlit("bmb_sb_push");
        assert("replace"@.len() != "bmb_sb_push"@.len());
        reveal_strlit("abs");
        assert("replace"@.len() != "abs"@.len());
        reveal_strlit("min");
        assert("replace"@.len() != "min"@.len());
        reveal_strlit("max");
        assert("replace"@.len() != "max"@.len());
        reveal_strlit("clamp");
        assert("replace"@.len() != "clamp"@.len());
        reveal_strlit("pow");
        assert("replace"@.len() != "pow"@.len());
        reveal_strlit("len");
        assert("replace"@.len() != "len"@.len());
        reveal_strlit("byte_at");
        assert("replace"@[0] != "byte_at"@[0]);
        reveal_strlit("slice");
        assert("replace"@.len() != "slice"@.len());
        reveal_strlit("to_lower");
        assert("replace"@.len() != "to_lower"@.len());
        reveal_strlit("to_upper");
        assert("replace"@.len() != "to_upper"@.len());
        reveal_strlit("trim");
        assert("replace"@.len() != "trim"@.len());
        reveal_strlit("contains");
        assert("replace"@.len() != "contains"@.len());
        reveal_strlit("starts_with");
        assert("replace"@.len() != "starts_with"@.len());
        reveal_strlit("ends_with");
        assert("replace"@.len() != "ends_with"@.len());
        reveal_strlit("index_of");
        assert("replace"@.len() != "index_of"@.len());
        assert("bmb_string_"@ + "replace"@ =~= "bmb_string_replace"@);
    } else if name == "repeat"@ {
        reveal_strlit("repeat");
        reveal_strlit("bmb_string_repeat");
        reveal_strlit("system");
        assert("repeat"@[0] != "system"@[0]);
        reveal_strlit("system_capture");
        assert("repeat"@.len() != "system_capture"@.len());
        reveal_strlit("exec_output");
        assert("repeat"@.len() != "exec_output"@.len());
        reveal_strlit("file_exists");
        assert("repeat"@.len() != "file_exists"@.len());
        reveal_strlit("bmb_file_exists");
        assert("repeat"@.len() != "bmb_file_exists"@.len());
        reveal_strlit("sb_push");
        assert("repeat"@.len() != "sb_push"@.len());
        reveal_strlit("bmb_sb_push");
        assert("repeat"@.len() != "bmb_sb_push"@.len());
        reveal_strlit("abs");
        assert("repeat"@.len() != "abs"@.len());
        reveal_strlit("min");
        assert("repeat"@.len() != "min"@.len());
        reveal_strlit("max");
        assert("repeat"@.len() != "max"@.len());
        reveal_strlit("clamp");
        assert("repeat"@.len() != "clamp"@.len());
        reveal_strlit("pow");
        assert("repeat"@.len() != "pow"@.len());
        reveal_strlit("len");
        assert("repeat"@.len() != "len"@.len());
        reveal_strlit("byte_at");
        assert("repeat"@.len() != "byte_at"@.len());
        reveal_strlit("slice");
        assert("repeat"@.len() != "slice"@.len());
        reveal_strlit("to_lower");
        assert("repeat"@.len() != "to_lower"@.len());
        reveal_strlit("to_upper");
        assert("repeat"@.len() != "to_upper"@.len());
        reveal_strlit("trim");
        assert("repeat"@.len() != "trim"@.len());
        reveal_strlit("contains");
        assert("repeat"@.len() != "contains"@.len());
        reveal_strlit("starts_with");
        assert("repeat"@.len() != "starts_with"@.len());
        reveal_strlit("ends_with");
        assert("repeat"@.len() != "ends_with"@.len());
        reveal_strlit("index_of");
        assert("repeat"@.len() != "index_of"@.len());
        reveal_strlit("replace");
        assert("repeat"@.len() != "replace"@.len());
        assert("bmb_string_"@ + "repeat"@ =~= "bmb_string_repeat"@);
    } else if name == "is_empty"@ {
        reveal_strlit("is_empty");
        reveal_strlit("bmb_string_is_empty");
        reveal_strlit("system");
        assert("is_empty"@.len() != "system"@.len());
        reveal_strlit("system_capture");
        assert("is_empty"@.len() != "system_capture"@.len());
        reveal_strlit("exec_output");
        assert("is_empty"@.len() != "exec_output"@.len());
        reveal_strlit("file_exists");
        assert("is_empty"@.len() != "file_exists"@.len());
        reveal_strlit("bmb_file_exists");
        assert("is_empty"@.len() != "bmb_file_exists"@.len());
        reveal_strlit("sb_push");
        assert("is_empty"@.len() != "sb_push"@.len());
        reveal_strlit("bmb_sb_push");
        assert("is_empty"@.len() != "bmb_sb_push"@.len());
        reveal_strlit("abs");
        assert("is_empty"@.len() != "abs"@.len());
        reveal_strlit("min");
        assert("is_empty"@.len() != "min"@.len());
        reveal_strlit("max");
        assert("is_empty"@.len() != "max"@.len());
        reveal_strlit("clamp");
        assert("is_empty"@.len() != "clamp"@.len());
        reveal_strlit("pow");
        assert("is_empty"@.len() != "pow"@.len());
        reveal_strlit("len");
        assert("is_empty"@.len() != "len"@.len());
        reveal_strlit("byte_at");
        assert("is_empty"@.len() != "byte_at"@.len());
        reveal_strlit("slice");
        assert("is_empty"@.len() != "slice"@.len());
        reveal_strlit("to_lower");
        assert("is_empty"@[0] != "to_lower"@[0]);
        reveal_strlit("to_upper");
        assert("is_empty"@[0] != "to_upper"@[0]);
        reveal_strlit("trim");
        assert("is_empty"@.len() != "trim"@.len());
        reveal_strlit("contains");
        assert("is_empty"@[0] != "contains"@[0]);
        reveal_strlit("starts_with");
        assert("is_empty"@.len() != "starts_with"@.len());
        reveal_strlit("ends_with");
        assert("is_empty"@.len() != "ends_with"@.len());
        reveal_strlit("index_of");
        assert("is_empty"@[1] != "index_of"@[1]);
        reveal_strlit("replace");
        assert("is_empty"@.len() != "replace"@.len());
        reveal_strlit("repeat");
        assert("is_empty"@.len() != "repeat"@.len());
        assert("bmb_string_"@ + "is_empty"@ =~= "bmb_string_is_empty"@);
    }
}

/// The LLVM type of argument `i`.
pub open spec fn arg_type(c: CallSite, i: int) -> Seq<char> {
    known_operand_type(c.info, c.func, c.args[i])
}

/// The name of the load of argument `i` from its local slot.
pub open spec fn arg_load_name(c: CallSite, i: int) -> Seq<char> {
    match c.args[i] {
        Operand::Place(p) => c.base + "."@ + p.name@ + ".arg"@ + dec_nat(i as nat),
        _ => Seq::empty(),
    }
}

/// Argument `i` as read for the call: the load of a local's slot (and its
/// temporary), a string literal as its global (a C string for runtime
/// functions with such a variant), anything else as written.
pub open spec fn arg_read(c: CallSite, i: int) -> (Seq<char>, Seq<char>) {
    let arg = c.args[i];
    match arg {
        Operand::Place(p) => if is_local(c.info, p.name@) {
            (
                def_line(arg_load_name(c, i), "load "@ + arg_type(c, i) + ", ptr %"@ + p.name@ + ".addr"@),
                "%"@ + arg_load_name(c, i),
            )
        } else {
            (Seq::empty(), operand_text_with_strings(arg, c.prog.string_table))
        },
        Operand::Constant(Constant::String(s)) => (
            Seq::empty(),
            match c.prog.string_table.lookup(s@) {
                Some(g) => if has_cstr_variant(c.name) {
                    "@"@ + g@
                } else {
                    "@"@ + g@ + ".bmb"@
                },
                None => operand_text_with_strings(arg, c.prog.string_table),
            },
        ),
        _ => (Seq::empty(), operand_text_with_strings(arg, c.prog.string_table)),
    }
}

/// The loads of the first `n` arguments.
pub open spec fn arg_loads(c: CallSite, n: int) -> Seq<char>
    decreases n,
{
    if n <= 0 {
        Seq::empty()
    } else {
        arg_loads(c, n - 1) + arg_read(c, n - 1).0
    }
}

/// How argument `i` is coerced to its parameter type: 1 truncated from
/// 64 to 32 bits, 2 sign-extended from 32 to 64 bits, 0 not at all.
pub open spec fn arg_coercion(c: CallSite, i: int) -> int {
    match param_type_at(c.prog, c.name, i) {
        Some(pt) => if arg_type(c, i) == "i64"@ && pt == "i32"@ {
            1
        } else if arg_type(c, i) == "i32"@ && pt == "i64"@ {
            2
        } else {
            0
        },
        None => 0,
    }
}

/// The coercion of argument `i`.
pub open spec fn arg_coercion_text(c: CallSite, i: int) -> Seq<char> {
    let v = arg_read(c, i).1;
    if arg_coercion(c, i) == 1 {
        def_line(c.base + ".arg"@ + dec_nat(i as nat) + ".trunc"@, "trunc i64 "@ + v + " to i32"@)
    } else if arg_coercion(c, i) == 2 {
        def_line(c.base + ".arg"@ + dec_nat(i as nat) + ".sext"@, "sext i32 "@ + v + " to i64"@)
    } else {
        Seq::empty()
    }
}

/// The coercions of the first `n` arguments.
pub open spec fn arg_coercions(c: CallSite, n: int) -> Seq<char>
    decreases n,
{
    if n <= 0 {
        Seq::empty()
    } else {
        arg_coercions(c, n - 1) + arg_coercion_text(c, n - 1)
    }
}

/// Argument `i` as passed: its type and value.
pub open spec fn arg_text(c: CallSite, i: int) -> Seq<char> {
    if arg_coercion(c, i) == 1 {
        "i32 %"@ + c.base + ".arg"@ + dec_nat(i as nat) + ".trunc"@
    } else if arg_coercion(c, i) == 2 {
        "i64 %"@ + c.base + ".arg"@ + dec_nat(i as nat) + ".sext"@
    } else {
        arg_type(c, i) + " "@ + arg_read(c, i).1
    }
}

/// The first `n` arguments as passed, separated by `, `.
pub open spec fn args_joined(c: CallSite, n: int) -> Seq<char>
    decreases n,
{
    if n <= 0 {
        Seq::empty()
    } else if n == 1 {
        arg_text(c, 0)
    } else {
        args_joined(c, n - 1) + ", "@ + arg_text(c, n - 1)
    }
}

/// Whether every string-typed argument among the first `n` is a literal.
pub open spec fn all_string_args_literal(c: CallSite, n: int) -> bool {
    forall|i: int| 0 <= i < n ==> arg_type(c, i) != "ptr"@ || is_string_literal(#[trigger] c.args[i])
}

/// The LLVM return type of a call of `name`: the program function's, else
/// the runtime function's.
pub open spec fn callee_return_type(prog: ProgramInfo, name: Seq<char>) -> Seq<char> {
    match prog.fn_return_types.lookup(name) {
        Some(t) => t@,
        None => call_return_type(name),
    }
}

/// The value of a counter, zero where it was never set.
pub open spec fn counter_value(counts: Map<Seq<char>, u32>, key: Seq<char>) -> u32 {
    if counts.contains_key(key) {
        counts[key]
    } else {
        0
    }
}

/// The name a call's temporaries are derived from: its destination's,
/// else `call_<name>.<k>` for its k-th call without one.
pub open spec fn call_base(dest: Option<Place>, name: Seq<char>, k: u32) -> Seq<char> {
    match dest {
        Some(d) => d.name@,
        None => "call_"@ + name + "."@ + dec_nat(k as nat),
    }
}

/// Where the pointer result of a call goes: the slot of a local
/// destination, or a fresh SSA name for another destination.
pub open spec fn pointer_result(
    c: CallSite,
    dest: Option<Place>,
    p: Seq<char>,
    counts: Map<Seq<char>, u32>,
) -> (Seq<char>, Map<Seq<char>, u32>) {
    match dest {
        Some(d) => if is_local(c.info, d.name@) {
            (store_line("ptr"@, "%"@ + p, d.name@), counts)
        } else {
            let (dn, c1) = fresh(counts, d.name@);
            (def_line(dn, "bitcast ptr %"@ + p + " to ptr"@), c1)
        },
        None => (Seq::empty(), counts),
    }
}

/// A call of a function returning a struct of `k` (3+) fields through a
/// slot the caller allocates.
pub open spec fn sret_call_text(
    c: CallSite,
    dest: Option<Place>,
    k: usize,
    callee: Seq<char>,
    args: Seq<char>,
    prefix: Seq<char>,
    counts: Map<Seq<char>, u32>,
) -> (Seq<char>, Map<Seq<char>, u32>) {
    let sp = c.base + ".sret"@;
    let full = if args.len() == 0 {
        "ptr noalias sret(i8) %"@ + sp
    } else {
        "ptr noalias sret(i8) %"@ + sp + ", "@ + args
    };
    let call = def_line(sp, "alloca i64, i32 "@ + dec_nat(k as nat)) + "  "@ + prefix + "call void @"@
        + callee + "("@ + full + ")\n"@;
    let (r, c1) = pointer_result(c, dest, sp, counts);
    (call + r, c1)
}

/// Unpacking field `i` of the register aggregate of type `at` into the
/// struct slot.
pub open spec fn small_field_text(b: Seq<char>, at: Seq<char>, i: Seq<char>) -> Seq<char> {
    def_line(b + ".f"@ + i, "extractvalue "@ + at + " %"@ + b + ".agg, "@ + i) + def_line(
        b + ".f"@ + i + ".ptr"@,
        "getelementptr i64, ptr %"@ + b + ".ptr, i32 "@ + i,
    ) + "  store i64 %"@ + b + ".f"@ + i + ", ptr %"@ + b + ".f"@ + i + ".ptr"@ + "\n"@
}

/// A call of a function returning a struct of `k` (1 or 2) fields in
/// registers, unpacked into a stack slot.
pub open spec fn small_call_text(
    c: CallSite,
    dest: Option<Place>,
    k: usize,
    callee: Seq<char>,
    args: Seq<char>,
    prefix: Seq<char>,
    counts: Map<Seq<char>, u32>,
) -> (Seq<char>, Map<Seq<char>, u32>) {
    let b = c.base;
    let at = if k == 1 { "{i64}"@ } else { "{i64, i64}"@ };
    let f1 = if k == 2 { small_field_text(b, at, "1"@) } else { Seq::empty() };
    let call = def_line(b + ".agg"@, prefix + "call "@ + at + " @"@ + callee + "("@ + args + ")"@)
        + def_line(b + ".ptr"@, "alloca i64, i32 "@ + dec_nat(k as nat)) + small_field_text(b, at, "0"@)
        + f1;
    let (r, c1) = pointer_result(c, dest, b + ".ptr"@, counts);
    (call + r, c1)
}

/// A call of a function returning a tuple of aggregate type `tt`.
pub open spec fn tuple_call_text(
    c: CallSite,
    dest: Option<Place>,
    tt: Seq<char>,
    callee: Seq<char>,
    args: Seq<char>,
    prefix: Seq<char>,
    counts: Map<Seq<char>, u32>,
) -> (Seq<char>, Map<Seq<char>, u32>) {
    let call = def_line(c.base + ".tuple"@, prefix + "call "@ + tt + " @"@ + callee + "("@ + args + ")"@);
    match dest {
        Some(d) => if is_local(c.info, d.name@) {
            (call + store_line(tt, "%"@ + c.base + ".tuple"@, d.name@), counts)
        } else {
            let (dn, c1) = fresh(counts, d.name@);
            (call + def_line(dn, "add i8 0, 0 ; tuple placeholder"@), c1)
        },
        None => (call, counts),
    }
}

/// A call returning a value of LLVM type `rt` (or nothing, for `void`).
pub open spec fn plain_call_text(
    c: CallSite,
    dest: Option<Place>,
    rt: Seq<char>,
    callee: Seq<char>,
    args: Seq<char>,
    prefix: Seq<char>,
    counts: Map<Seq<char>, u32>,
) -> (Seq<char>, Map<Seq<char>, u32>) {
    let call = prefix + "call "@ + rt + " @"@ + callee + "("@ + args + ")"@;
    if rt == "void"@ {
        ("  "@ + call + "\n"@, counts)
    } else {
        match dest {
            Some(d) => if is_local(c.info, d.name@) {
                (
                    def_line(d.name@ + ".call"@, call) + store_line(rt, "%"@ + d.name@ + ".call"@, d.name@),
                    counts,
                )
            } else {
                let (dn, c1) = fresh(counts, d.name@);
                (def_line(dn, call), c1)
            },
            None => ("  "@ + call + "\n"@, counts),
        }
    }
}

/// The part of a call after its arguments are prepared: the call itself
/// (`callee` with the passed arguments `args`), and where its result goes.
pub open spec fn call_result_text(
    c: CallSite,
    dest: Option<Place>,
    callee: Seq<char>,
    args: Seq<char>,
    prefix: Seq<char>,
    counts: Map<Seq<char>, u32>,
) -> (Seq<char>, Map<Seq<char>, u32>) {
    match c.prog.sret_functions.lookup(c.name) {
        Some(k) => sret_call_text(c, dest, k, callee, args, prefix, counts),
        None => match c.prog.small_struct_functions.lookup(c.name) {
            Some(k) => small_call_text(c, dest, k, callee, args, prefix, counts),
            None => match c.prog.tuple_functions.lookup(c.name) {
                Some(tt) => tuple_call_text(c, dest, tt@, callee, args, prefix, counts),
                None => plain_call_text(
                    c,
                    dest,
                    callee_return_type(c.prog, c.name),
                    callee,
                    args,
                    prefix,
                    counts,
                ),
            },
        },
    }
}

/// A call of `name` with `args`, its result going to `dest`.
pub open spec fn call_text(
    dest: Option<Place>,
    name: Seq<char>,
    args: Seq<Operand>,
    is_tail: bool,
    info: FunctionInfo,
    func: MirFunction,
    prog: ProgramInfo,
    counts: Map<Seq<char>, u32>,
) -> (Seq<char>, Map<Seq<char>, u32>) {
    let key = "call_"@ + name;
    let k = counter_value(counts, key);
    let c1 = counts.insert(key, ((k as int + 1) % 0x1_0000_0000) as u32);
    let c = CallSite { name, args, base: call_base(dest, name, k), info, func, prog };
    let n = args.len() as int;
    let callee = runtime_fn_name(name, args, all_string_args_literal(c, n));
    let prefix = if is_tail { "tail "@ } else { Seq::empty() };
    let (rest, c2) = call_result_text(c, dest, callee, args_joined(c, n), prefix, c1);
    (arg_loads(c, n) + arg_coercions(c, n) + rest, c2)
}

/// Bumps the counter `key` and gives its value before.
pub(crate) fn bump_counter(name_counts: &mut NameMap<u32>, key: &str) -> (k: u32)
    ensures
        k == counter_value(count_map(*old(name_counts)), key@),
        count_map(*final(name_counts)) == count_map(*old(name_counts)).insert(
            key@,
            ((k as int + 1) % 0x1_0000_0000) as u32,
        ),
{
    let k: u32 = match name_counts.get(key) {
        Some(c) => *c,
        None => 0,
    };
    let next: u32 = if k == u32::MAX { 0 } else { k + 1 };
    name_counts.insert(key, next);
    assert(count_map(*name_counts) =~= count_map(*old(name_counts)).insert(key@, next));
    k
}

/// `a` followed by `b`.
fn cat(a: &str, b: &str) -> (r: String)
    ensures
        r@ == a@ + b@,
{
    let mut r = String::new();
    push_str(&mut r, a);
    push_str(&mut r, b);
    assert(r@ =~= a@ + b@);
    r
}

/// Appends `  %<d> = <rest>` and a newline.
fn put_def(out: &mut String, d: &str, rest: &str)
    ensures
        final(out)@ == old(out)@ + def_line(d@, rest@),
{
    push_str(out, "  %");
    push_str(out, d);
    push_str(out, " = ");
    push_str(out, rest);
    push_str(out, "\n");
    assert(final(out)@ =~= old(out)@ + def_line(d@, rest@));
}

/// Appends a store line.
fn put_store(out: &mut String, ty: &str, val: &str, name: &str)
    ensures
        final(out)@ == old(out)@ + store_line(ty@, val@, name@),
{
    push_str(out, "  store ");
    push_str(out, ty);
    push_str(out, " ");
    push_str(out, val);
    push_str(out, ", ptr %");
    push_str(out, name);
    push_str(out, ".addr\n");
    assert(final(out)@ =~= old(out)@ + store_line(ty@, val@, name@));
}

/// The runtime function a call goes to.
fn runtime_name<'a>(name: &'a str, args: &Vec<Operand>, all_literals: bool) -> (r: &'a str)
    ensures
        r@ == runtime_fn_name(name@, args@, all_literals),
{
    let lit1 = args.len() == 2 && matches!(&args[1], Operand::Constant(Constant::String(_)));
    if str_eq(name, "system") {
        "bmb_system"
    } else if str_eq(name, "system_capture") {
        "bmb_system_capture"
    } else if str_eq(name, "exec_output") {
        "bmb_exec_output"
    } else if str_eq(name, "file_exists") && all_literals {
        "file_exists_cstr"
    } else if str_eq(name, "bmb_file_exists") && all_literals {
        "bmb_file_exists_cstr"
    } else if str_eq(name, "sb_push") && lit1 {
        "sb_push_cstr"
    } else if str_eq(name, "bmb_sb_push") && lit1 {
        "bmb_sb_push_cstr"
    } else if str_eq(name, "abs") {
        "bmb_abs"
    } else if str_eq(name, "min") {
        "bmb_min"
    } else if str_eq(name, "max") {
        "bmb_max"
    } else if str_eq(name, "clamp") {
        "bmb_clamp"
    } else if str_eq(name, "pow") {
        "bmb_pow"
    } else if str_eq(name, "len") {
        "bmb_string_len"
    } else if str_eq(name, "byte_at") {
        "bmb_string_char_at"
    } else if str_eq(name, "slice") {
        "bmb_string_slice"
    } else if str_eq(name, "to_lower") {
        "bmb_string_to_lower"
    } else if str_eq(name, "to_upper") {
        "bmb_string_to_upper"
    } else if str_eq(name, "trim") {
        "bmb_string_trim"
    } else if str_eq(name, "contains") {
        "bmb_string_contains"
    } else if str_eq(name, "starts_with") {
        "bmb_string_starts_with"
    } else if str_eq(name, "ends_with") {
        "bmb_string_ends_with"
    } else if str_eq(name, "index_of") {
        "bmb_string_index_of"
    } else if str_eq(name, "replace") {
        "bmb_string_replace"
    } else if str_eq(name, "repeat") {
        "bmb_string_repeat"
    } else if str_eq(name, "is_empty") {
        "bmb_string_is_empty"
    } else {
        name
    }
}

/// The type a runtime function expects for argument `i`.
fn runtime_param(name: &str, i: usize) -> (r: Option<&'static str>)
    ensures
        match r {
            Some(t) => runtime_param_type(name@, i as int) == Some(t@),
            None => runtime_param_type(name@, i as int) is None,
        },
{
    if (str_eq(name, "println") || str_eq(name, "print")) && i == 0 {
        Some("i64")
    } else if str_eq(name, "assert") && i == 0 {
        Some("i1")
    } else if ((str_eq(name, "abs") || str_eq(name, "bmb_abs")) && i == 0) || ((str_eq(name, "min")
        || str_eq(name, "max") || str_eq(name, "bmb_min") || str_eq(name, "bmb_max") || str_eq(
        name,
        "pow",
    ) || str_eq(name, "bmb_pow")) && (i == 0 || i == 1)) || ((str_eq(name, "clamp") || str_eq(
        name,
        "bmb_clamp",
    )) && i <= 2) {
        Some("i64")
    } else if (str_eq(name, "sb_push_char") || str_eq(name, "sb_push_int") || str_eq(
        name,
        "bmb_sb_push_char",
    ) || str_eq(name, "bmb_sb_push_int")) && (i == 0 || i == 1) {
        Some("i64")
    } else if (str_eq(name, "sb_push_range") || str_eq(name, "bmb_sb_push_range")) && (i == 0 || i == 2
        || i == 3) {
        Some("i64")
    } else {
        None
    }
}

/// The parameter type of argument `i` of a call.
fn param_type(prog: &ProgramInfo, name: &str, i: usize) -> (r: Option<&'static str>)
    ensures
        match r {
            Some(t) => param_type_at(*prog, name@, i as int) == Some(t@),
            None => param_type_at(*prog, name@, i as int) is None,
        },
{
    match prog.fn_param_types.get(name) {
        Some(v) => if i < v.len() {
            Some(v[i])
        } else {
            None
        },
        None => runtime_param(name, i),
    }
}

impl TextCodeGen {
    /// Appends the read of argument `i` of a call, and gives its type and
    /// value.
    fn emit_arg_read(
        &self,
        out: &mut String,
        c: Ghost<CallSite>,
        args: &Vec<Operand>,
        i: usize,
        base: &str,
        name: &str,
        func: &MirFunction,
        info: &FunctionInfo,
        prog: &ProgramInfo,
    ) -> (r: (&'static str, String))
        requires
            i < args.len(),
            c@.args == args@,
            c@.base == base@,
            c@.name == name@,
            c@.info == *info,
            c@.func == *func,
            c@.prog == *prog,
        ensures
            final(out)@ == old(out)@ + arg_read(c@, i as int).0,
            r.0@ == arg_type(c@, i as int),
            r.1@ == arg_read(c@, i as int).1,
    {
        let arg = &args[i];
        let ty = info.operand_type(arg, func, self);
        let table = &prog.string_table;
        match arg {
            Operand::Place(p) => {
                if contains_name(&info.local_names, p.name.as_str()) {
                    let mut l = cat(base, ".");
                    push_str(&mut l, p.name.as_str());
                    push_str(&mut l, ".arg");
                    append_u64(&mut l, i as u64);
                    assert(l@ =~= arg_load_name(c@, i as int));
                    let mut rest = cat("load ", ty);
                    push_str(&mut rest, ", ptr %");
                    push_str(&mut rest, p.name.as_str());
                    push_str(&mut rest, ".addr");
                    put_def(out, l.as_str(), rest.as_str());
                    (ty, cat("%", l.as_str()))
                } else {
                    (ty, self.format_operand_with_strings(arg, table))
                }
            },
            Operand::Constant(Constant::String(s)) => {
                let v = match table.get(s.as_str()) {
                    Some(g) => {
                        let cstr = str_eq(name, "file_exists") || str_eq(name, "bmb_file_exists")
                            || str_eq(name, "sb_push") || str_eq(name, "bmb_sb_push");
                        if cstr {
                            cat("@", g.as_str())
                        } else {
                            let mut v = cat("@", g.as_str());
                            push_str(&mut v, ".bmb");
                            v
                        }
                    },
                    None => self.format_operand_with_strings(arg, table),
                };
                (ty, v)
            },
            _ => (ty, self.format_operand_with_strings(arg, table)),
        }
    }

    /// Appends the coercion of argument `i` and gives it as passed.
    fn emit_arg_coercion(
        &self,
        out: &mut String,
        c: Ghost<CallSite>,
        i: usize,
        ty: &str,
        v: &str,
        base: &str,
        name: &str,
        prog: &ProgramInfo,
    ) -> (passed: String)
        requires
            i < c@.args.len(),
            ty@ == arg_type(c@, i as int),
            v@ == arg_read(c@, i as int).1,
            c@.base == base@,
            c@.name == name@,
            c@.prog == *prog,
        ensures
            final(out)@ == old(out)@ + arg_coercion_text(c@, i as int),
            passed@ == arg_text(c@, i as int),
    {
        let mut k = String::new();
        append_u64(&mut k, i as u64);
        let mut t = cat(base, ".arg");
        push_str(&mut t, k.as_str());
        match param_type(prog, name, i) {
            Some(pt) => {
                if str_eq(ty, "i64") && str_eq(pt, "i32") {
                    push_str(&mut t, ".trunc");
                    let mut rest = cat("trunc i64 ", v);
                    push_str(&mut rest, " to i32");
                    put_def(out, t.as_str(), rest.as_str());
                    let r = cat("i32 %", t.as_str());
                    assert(r@ =~= arg_text(c@, i as int));
                    return r;
                } else if str_eq(ty, "i32") && str_eq(pt, "i64") {
                    push_str(&mut t, ".sext");
                    let mut rest = cat("sext i32 ", v);
                    push_str(&mut rest, " to i64");
                    put_def(out, t.as_str(), rest.as_str());
                    let r = cat("i64 %", t.as_str());
                    assert(r@ =~= arg_text(c@, i as int));
                    return r;
                }
            },
            None => {},
        }
        assert(final(out)@ =~= old(out)@ + arg_coercion_text(c@, i as int));
        let mut r = cat(ty, " ");
        push_str(&mut r, v);
        r
    }

    /// Appends where a pointer result goes.
    fn emit_pointer_result(
        &self,
        out: &mut String,
        c: Ghost<CallSite>,
        dest: &Option<Place>,
        p: &str,
        info: &FunctionInfo,
        name_counts: &mut NameMap<u32>,
    )
        requires
            c@.info == *info,
        ensures
            final(out)@ == old(out)@ + pointer_result(c@, *dest, p@, count_map(*old(name_counts))).0,
            count_map(*final(name_counts)) == pointer_result(c@, *dest, p@, count_map(*old(name_counts))).1,
    {
        match dest {
            Some(d) => {
                let dn = d.name.as_str();
                if contains_name(&info.local_names, dn) {
                    let v = cat("%", p);
                    put_store(out, "ptr", v.as_str(), dn);
                } else {
                    let n = self.unique_name(dn, name_counts);
                    let mut rest = cat("bitcast ptr %", p);
                    push_str(&mut rest, " to ptr");
                    put_def(out, n.as_str(), rest.as_str());
                }
            },
            None => {
                assert(final(out)@ =~= old(out)@ + pointer_result(c@, *dest, p@, count_map(*old(name_counts))).0);
            },
        }
    }

    /// Appends a struct-return call.
    fn emit_sret_call(
        &self,
        out: &mut String,
        c: Ghost<CallSite>,
        dest: &Option<Place>,
        k: usize,
        callee: &str,
        args: &str,
        prefix: &str,
        base: &str,
        info: &FunctionInfo,
        name_counts: &mut NameMap<u32>,
    )
        requires
            c@.info == *info,
            c@.base == base@,
        ensures
            final(out)@ == old(out)@ + sret_call_text(c@, *dest, k, callee@, args@, prefix@, count_map(*old(name_counts))).0,
            count_map(*final(name_counts)) == sret_call_text(c@, *dest, k, callee@, args@, prefix@, count_map(*old(name_counts))).1,
    {
        let sp = cat(base, ".sret");
        let mut full = cat("ptr noalias sret(i8) %", sp.as_str());
        if !args.is_empty() {
            push_str(&mut full, ", ");
            push_str(&mut full, args);
        }
        let mut rest = String::new();
        push_str(&mut rest, "alloca i64, i32 ");
        append_u64(&mut rest, k as u64);
        put_def(out, sp.as_str(), rest.as_str());
        push_str(out, "  ");
        push_str(out, prefix);
        push_str(out, "call void @");
        push_str(out, callee);
        push_str(out, "(");
        push_str(out, full.as_str());
        push_str(out, ")\n");
        let ghost o1 = out@;
        self.emit_pointer_result(out, c, dest, sp.as_str(), info, name_counts);
        assert(final(out)@ =~= old(out)@ + sret_call_text(c@, *dest, k, callee@, args@, prefix@, count_map(*old(name_counts))).0);
    }

    /// Appends the unpacking of field `i` of a register aggregate.
    fn emit_small_field(&self, out: &mut String, b: &str, at: &str, i: &str)
        ensures
            final(out)@ == old(out)@ + small_field_text(b@, at@, i@),
    {
        let mut f = cat(b, ".f");
        push_str(&mut f, i);
        let mut rest = cat("extractvalue ", at);
        push_str(&mut rest, " %");
        push_str(&mut rest, b);
        push_str(&mut rest, ".agg, ");
        push_str(&mut rest, i);
        put_def(out, f.as_str(), rest.as_str());
        let fp = cat(f.as_str(), ".ptr");
        let mut rest2 = cat("getelementptr i64, ptr %", b);
        push_str(&mut rest2, ".ptr, i32 ");
        push_str(&mut rest2, i);
        put_def(out, fp.as_str(), rest2.as_str());
        push_str(out, "  store i64 %");
        push_str(out, f.as_str());
        push_str(out, ", ptr %");
        push_str(out, fp.as_str());
        push_str(out, "\n");
        assert(final(out)@ =~= old(out)@ + small_field_text(b@, at@, i@));
    }

    /// Appends a call returning a small struct in registers.
    fn emit_small_call(
        &self,
        out: &mut String,
        c: Ghost<CallSite>,
        dest: &Option<Place>,
        k: usize,
        callee: &str,
        args: &str,
        prefix: &str,
        base: &str,
        info: &FunctionInfo,
        name_counts: &mut NameMap<u32>,
    )
        requires
            c@.info == *info,
            c@.base == base@,
        ensures
            final(out)@ == old(out)@ + small_call_text(c@, *dest, k, callee@, args@, prefix@, count_map(*old(name_counts))).0,
            count_map(*final(name_counts)) == small_call_text(c@, *dest, k, callee@, args@, prefix@, count_map(*old(name_counts))).1,
    {
        let at = if k == 1 { "{i64}" } else { "{i64, i64}" };
        let agg = cat(base, ".agg");
        let mut rest = cat(prefix, "call ");
        push_str(&mut rest, at);
        push_str(&mut rest, " @");
        push_str(&mut rest, callee);
        push_str(&mut rest, "(");
        push_str(&mut rest, args);
        push_str(&mut rest, ")");
        put_def(out, agg.as_str(), rest.as_str());
        let sp = cat(base, ".ptr");
        let mut rest2 = String::new();
        push_str(&mut rest2, "alloca i64, i32 ");
        append_u64(&mut rest2, k as u64);
        put_def(out, sp.as_str(), rest2.as_str());
        self.emit_small_field(out, base, at, "0");
        if k == 2 {
            self.emit_small_field(out, base, at, "1");
        }
        let ghost o1 = out@;
        self.emit_pointer_result(out, c, dest, sp.as_str(), info, name_counts);
        assert(final(out)@ =~= old(out)@ + small_call_text(c@, *dest, k, callee@, args@, prefix@, count_map(*old(name_counts))).0);
    }

    /// Appends a call returning a tuple.
    fn emit_tuple_call(
        &self,
        out: &mut String,
        c: Ghost<CallSite>,
        dest: &Option<Place>,
        tt: &str,
        callee: &str,
        args: &str,
        prefix: &str,
        base: &str,
        info: &FunctionInfo,
        name_counts: &mut NameMap<u32>,
    )
        requires
            c@.info == *info,
            c@.base == base@,
        ensures
            final(out)@ == old(out)@ + tuple_call_text(c@, *dest, tt@, callee@, args@, prefix@, count_map(*old(name_counts))).0,
            count_map(*final(name_counts)) == tuple_call_text(c@, *dest, tt@, callee@, args@, prefix@, count_map(*old(name_counts))).1,
    {
        let agg = cat(base, ".tuple");
        let mut rest = cat(prefix, "call ");
        push_str(&mut rest, tt);
        push_str(&mut rest, " @");
        push_str(&mut rest, callee);
        push_str(&mut rest, "(");
        push_str(&mut rest, args);
        push_str(&mut rest, ")");
        put_def(out, agg.as_str(), rest.as_str());
        match dest {
            Some(d) => {
                let dn = d.name.as_str();
                if contains_name(&info.local_names, dn) {
                    let v = cat("%", agg.as_str());
                    put_store(out, tt, v.as_str(), dn);
                } else {
                    let n = self.unique_name(dn, name_counts);
                    put_def(out, n.as_str(), "add i8 0, 0 ; tuple placeholder");
                }
            },
            None => {},
        }
        assert(final(out)@ =~= old(out)@ + tuple_call_text(c@, *dest, tt@, callee@, args@, prefix@, count_map(*old(name_counts))).0);
    }

    /// Appends a call returning a plain value or nothing.
    fn emit_plain_call(
        &self,
        out: &mut String,
        c: Ghost<CallSite>,
        dest: &Option<Place>,
        rt: &str,
        callee: &str,
        args: &str,
        prefix: &str,
        info: &FunctionInfo,
        name_counts: &mut NameMap<u32>,
    )
        requires
            c@.info == *info,
        ensures
            final(out)@ == old(out)@ + plain_call_text(c@, *dest, rt@, callee@, args@, prefix@, count_map(*old(name_counts))).0,
            count_map(*final(name_counts)) == plain_call_text(c@, *dest, rt@, callee@, args@, prefix@, count_map(*old(name_counts))).1,
    {
        let mut call = cat(prefix, "call ");
        push_str(&mut call, rt);
        push_str(&mut call, " @");
        push_str(&mut call, callee);
        push_str(&mut call, "(");
        push_str(&mut call, args);
        push_str(&mut call, ")");
        if str_eq(rt, "void") {
            push_str(out, "  ");
            push_str(out, call.as_str());
            push_str(out, "\n");
        } else {
            match dest {
                Some(d) => {
                    let dn = d.name.as_str();
                    if contains_name(&info.local_names, dn) {
                        let t = cat(dn, ".call");
                        put_def(out, t.as_str(), call.as_str());
                        let v = cat("%", t.as_str());
                        put_store(out, rt, v.as_str(), dn);
                    } else {
                        let n = self.unique_name(dn, name_counts);
                        put_def(out, n.as_str(), call.as_str());
                    }
                },
                None => {
                    push_str(out, "  ");
                    push_str(out, call.as_str());
                    push_str(out, "\n");
                },
            }
        }
        assert(final(out)@ =~= old(out)@ + plain_call_text(c@, *dest, rt@, callee@, args@, prefix@, count_map(*old(name_counts))).0);
    }

    /// Appends the loads and coercions of a call's arguments, and gives
    /// the arguments as passed and whether every string argument is a
    /// literal.
    #[verifier::rlimit(60)]
    #[verifier::spinoff_prover]
    fn emit_call_args(
        &self,
        out: &mut String,
        c: Ghost<CallSite>,
        args: &Vec<Operand>,
        base: &String,
        name: &str,
        func: &MirFunction,
        info: &FunctionInfo,
        prog: &ProgramInfo,
    ) -> (r: (String, bool))
        requires
            c@ == (CallSite { name: name@, args: args@, base: base@, info: *info, func: *func, prog: *prog }),
        ensures
            final(out)@ == old(out)@ + arg_loads(c@, args@.len() as int) + arg_coercions(c@, args@.len() as int),
            r.0@ == args_joined(c@, args@.len() as int),
            r.1 == all_string_args_literal(c@, args@.len() as int),
    {
        let ghost c = c@;
        let ghost o0 = out@;
        // the reads of the arguments
        let mut vals: Vec<(&'static str, String)> = Vec::new();
        let mut i: usize = 0;
        while i < args.len()
            invariant
                i <= args.len(),
                vals@.len() == i,
                c == (CallSite { name: name@, args: args@, base: base@, info: *info, func: *func, prog: *prog }),
                forall|j: int| 0 <= j < i ==> (#[trigger] vals@[j]).0@ == arg_type(c, j) && vals@[j].1@ == arg_read(c, j).1,
                out@ == o0 + arg_loads(c, i as int),
            decreases args.len() - i,
        {
            let r = self.emit_arg_read(out, Ghost(c), args, i, base.as_str(), name, func, info, prog);
            vals.push(r);
            i = i + 1;
        }
        // the coercions, and the arguments as passed
        let ghost o1 = out@;
        let mut passed = String::new();
        let mut i: usize = 0;
        while i < args.len()
            invariant
                i <= args.len(),
                vals@.len() == args@.len(),
                c == (CallSite { name: name@, args: args@, base: base@, info: *info, func: *func, prog: *prog }),
                forall|j: int| 0 <= j < args@.len() ==> (#[trigger] vals@[j]).0@ == arg_type(c, j) && vals@[j].1@ == arg_read(c, j).1,
                out@ == o1 + arg_coercions(c, i as int),
                passed@ == args_joined(c, i as int),
            decreases args.len() - i,
        {
            let t = self.emit_arg_coercion(out, Ghost(c), i, vals[i].0, vals[i].1.as_str(), base.as_str(), name, prog);
            if i > 0 {
                push_str(&mut passed, ", ");
            }
            push_str(&mut passed, t.as_str());
            i = i + 1;
            assert(passed@ =~= args_joined(c, i as int));
        }
        // whether every string argument is a literal
        let mut lit = true;
        let mut i: usize = 0;
        while i < args.len()
            invariant
                i <= args.len(),
                vals@.len() == args@.len(),
                c == (CallSite { name: name@, args: args@, base: base@, info: *info, func: *func, prog: *prog }),
                forall|j: int| 0 <= j < args@.len() ==> (#[trigger] vals@[j]).0@ == arg_type(c, j),
                lit == all_string_args_literal(c, i as int),
            decreases args.len() - i,
        {
            let is_lit = matches!(&args[i], Operand::Constant(Constant::String(_)));
            assert(is_lit == is_string_literal(c.args[i as int]));
            let ok = !str_eq(vals[i].0, "ptr") || is_lit;
            assert(ok == (arg_type(c, i as int) != "ptr"@ || is_string_literal(c.args[i as int])));
            if !ok {
                lit = false;
            }
            assert(lit == all_string_args_literal(c, i + 1)) by {
                if lit {
                    assert forall|j: int| 0 <= j < i + 1 implies arg_type(c, j) != "ptr"@ || is_string_literal(#[trigger] c.args[j]) by {
                        if j < i {
                            assert(all_string_args_literal(c, i as int));
                        }
                    }
                }
            }
            i = i + 1;
        }
        (passed, lit)
    }

    /// Appends a call once its arguments are prepared, and where its
    /// result goes.
    fn emit_call_result(
        &self,
        out: &mut String,
        c: Ghost<CallSite>,
        dest: &Option<Place>,
        name: &str,
        callee: &str,
        passed: &str,
        prefix: &str,
        base: &str,
        func: &MirFunction,
        info: &FunctionInfo,
        prog: &ProgramInfo,
        name_counts: &mut NameMap<u32>,
    )
        requires
            c@.info == *info,
            c@.base == base@,
            c@.name == name@,
            c@.prog == *prog,
        ensures
            final(out)@ == old(out)@ + call_result_text(c@, *dest, callee@, passed@, prefix@, count_map(*old(name_counts))).0,
            count_map(*final(name_counts)) == call_result_text(c@, *dest, callee@, passed@, prefix@, count_map(*old(name_counts))).1,
    {
        match prog.sret_functions.get(name) {
            Some(k) => self.emit_sret_call(out, c, dest, *k, callee, passed, prefix, base, info, name_counts),
            None => match prog.small_struct_functions.get(name) {
                Some(k) => self.emit_small_call(out, c, dest, *k, callee, passed, prefix, base, info, name_counts),
                None => match prog.tuple_functions.get(name) {
                    Some(tt) => self.emit_tuple_call(out, c, dest, tt.as_str(), callee, passed, prefix, base, info, name_counts),
                    None => {
                        let rt = match prog.fn_return_types.get(name) {
                            Some(t) => *t,
                            None => self.infer_call_return_type(name, func),
                        };
                        self.emit_plain_call(out, c, dest, rt, callee, passed, prefix, info, name_counts);
                    },
                },
            },
        }
    }

    /// Appends a call of a user or runtime function.
    pub fn emit_call(
        &self,
        out: &mut String,
        dest: &Option<Place>,
        name: &str,
        args: &Vec<Operand>,
        is_tail: bool,
        func: &MirFunction,
        info: &FunctionInfo,
        prog: &ProgramInfo,
        name_counts: &mut NameMap<u32>,
    )
        ensures
            final(out)@ == old(out)@ + call_text(*dest, name@, args@, is_tail, *info, *func, *prog, count_map(*old(name_counts))).0,
            count_map(*final(name_counts)) == call_text(*dest, name@, args@, is_tail, *info, *func, *prog, count_map(*old(name_counts))).1,
    {
        let key = cat("call_", name);
        let k = bump_counter(name_counts, key.as_str());
        let base: String = match dest {
            Some(d) => d.name.as_str().to_owned(),
            None => {
                let mut b = cat(key.as_str(), ".");
                append_u64(&mut b, k as u64);
                b
            },
        };
        assert(base@ =~= call_base(*dest, name@, k));
        let ghost c = CallSite { name: name@, args: args@, base: base@, info: *info, func: *func, prog: *prog };
        let (passed, lit) = self.emit_call_args(out, Ghost(c), args, &base, name, func, info, prog);
        let callee = runtime_name(name, args, lit);
        let prefix = if is_tail { "tail " } else { "" };
        assert(prefix@ =~= (if is_tail { "tail "@ } else { Seq::<char>::empty() })) by {
            if !is_tail {
                reveal_strlit("");
            }
        }
        self.emit_call_result(out, Ghost(c), dest, name, callee, passed.as_str(), prefix, base.as_str(), func, info, prog, name_counts);
        assert(final(out)@ =~= old(out)@ + call_text(*dest, name@, args@, is_tail, *info, *func, *prog, count_map(*old(name_counts))).0);
    }
}

} // verus!
