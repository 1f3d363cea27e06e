//! Text-based LLVM IR generation: the generator, and the mapping of MIR
//! types, constants, operands and operators to LLVM IR text.

use vstd::prelude::*;
use vstd::string::*;

use crate::codegen::names::{bumped, count_map, NameMap};
use crate::error::trunc_div;
use crate::mir::{Constant, MirBinOp, MirFunction, MirType, Operand, Place};
use crate::text::{append_i64, append_u64, dec_int, dec_nat, push_char, push_str, seq_contains,
    str_contains, str_eq};

verus! {

/// Text-based code generation error.
#[derive(Debug)]
pub enum TextCodeGenError {
    UnknownFunction(String),
    UnknownVariable(String),
    FormatError,
}

/// Text-based LLVM IR generator.
pub struct TextCodeGen {
    /// Target triple
    pub target_triple: String,
}

/// The data layout LLVM is told for a target triple.
pub open spec fn datalayout_for(triple: Seq<char>) -> Seq<char> {
    if seq_contains(triple, "x86_64"@) && seq_contains(triple, "windows"@) {
        "e-m:w-p270:32:32-p271:32:32-p272:64:64-i64:64-i128:128-f80:128-n8:16:32:64-S128"@
    } else if seq_contains(triple, "x86_64"@) && seq_contains(triple, "linux"@) {
        "e-m:e-p270:32:32-p271:32:32-p272:64:64-i64:64-i128:128-f80:128-n8:16:32:64-S128"@
    } else if seq_contains(triple, "x86_64"@) && seq_contains(triple, "darwin"@) {
        "e-m:o-p270:32:32-p271:32:32-p272:64:64-i64:64-i128:128-f80:128-n8:16:32:64-S128"@
    } else if seq_contains(triple, "aarch64"@) && seq_contains(triple, "linux"@) {
        "e-m:e-i8:8:32-i16:16:32-i64:64-i128:128-n32:64-S128-Fn32"@
    } else if seq_contains(triple, "aarch64"@) && seq_contains(triple, "darwin"@) {
        "e-m:o-i64:64-i128:128-n32:64-S128-Fn32"@
    } else {
        "e-m:e-p270:32:32-p271:32:32-p272:64:64-i64:64-i128:128-f80:128-n8:16:32:64-S128"@
    }
}

/// The target triple for a host operating system: Windows, Linux and macOS
/// by name, Linux for any other.
pub open spec fn triple_for_os(os: Seq<char>) -> Seq<char> {
    if os == "windows"@ {
        "x86_64-pc-windows-msvc"@
    } else if os == "linux"@ {
        "x86_64-unknown-linux-gnu"@
    } else if os == "macos"@ {
        "x86_64-apple-darwin"@
    } else {
        "x86_64-unknown-linux-gnu"@
    }
}

/// The LLVM type of a MIR type.
pub open spec fn llvm_type(ty: MirType) -> Seq<char> {
    match ty {
        MirType::I32 => "i32"@,
        MirType::I64 => "i64"@,
        MirType::U32 => "i32"@,
        MirType::U64 => "i64"@,
        MirType::F64 => "double"@,
        MirType::Bool => "i1"@,
        MirType::String => "ptr"@,
        MirType::Unit => "void"@,
        MirType::Struct { .. } => "ptr"@,
        MirType::StructPtr(_) => "ptr"@,
        MirType::Enum { .. } => "ptr"@,
        MirType::Array { .. } => "ptr"@,
        MirType::Char => "i32"@,
        MirType::Ptr(_) => "ptr"@,
        MirType::Tuple(_) => "ptr"@,
    }
}

/// The LLVM cast instruction converting a value of type `from` to `to`.
pub open spec fn cast_instruction(from: MirType, to: MirType) -> Seq<char> {
    match (from, to) {
        (MirType::I32, MirType::I64) | (MirType::I32, MirType::U64) | (MirType::Char, MirType::I64)
        | (MirType::Char, MirType::U64) => "sext"@,
        (MirType::U32, MirType::I64) | (MirType::U32, MirType::U64) => "zext"@,
        (MirType::Bool, MirType::I32) | (MirType::Bool, MirType::I64) | (MirType::Bool, MirType::U32)
        | (MirType::Bool, MirType::U64) => "zext"@,
        (MirType::I64, MirType::I32) | (MirType::U64, MirType::I32) | (MirType::I64, MirType::U32)
        | (MirType::U64, MirType::U32) => "trunc"@,
        (MirType::I64, MirType::Char) | (MirType::U64, MirType::Char) | (MirType::I32, MirType::Char)
        | (MirType::U32, MirType::Char) => "trunc"@,
        (MirType::I32, MirType::F64) | (MirType::I64, MirType::F64) | (MirType::Char, MirType::F64) =>
            "sitofp"@,
        (MirType::U32, MirType::F64) | (MirType::U64, MirType::F64) => "uitofp"@,
        (MirType::F64, MirType::I32) | (MirType::F64, MirType::I64) | (MirType::F64, MirType::Char) =>
            "fptosi"@,
        (MirType::F64, MirType::U32) | (MirType::F64, MirType::U64) => "fptoui"@,
        (MirType::I32, MirType::U32) | (MirType::U32, MirType::I32) | (MirType::I64, MirType::U64)
        | (MirType::U64, MirType::I64) => "bitcast"@,
        (MirType::StructPtr(_), MirType::I64) | (MirType::StructPtr(_), MirType::U64) => "ptrtoint"@,
        (MirType::I64, MirType::StructPtr(_)) | (MirType::U64, MirType::StructPtr(_)) => "inttoptr"@,
        (MirType::Ptr(_), MirType::I64) | (MirType::Ptr(_), MirType::U64) => "ptrtoint"@,
        (MirType::I64, MirType::Ptr(_)) | (MirType::U64, MirType::Ptr(_)) => "inttoptr"@,
        (MirType::Array { .. }, MirType::Ptr(_)) => "bitcast"@,
        _ => "bitcast"@,
    }
}

/// The width in bits of a MIR integer type (booleans are one bit).
pub open spec fn int_width(ty: MirType) -> nat {
    match ty {
        MirType::I32 | MirType::U32 => 32,
        MirType::I64 | MirType::U64 => 64,
        MirType::Bool => 1,
        _ => 0,
    }
}

/// Whether a MIR integer type is signed.
pub open spec fn is_signed_int(ty: MirType) -> bool {
    ty is I32 || ty is I64
}

/// Whether a MIR type is one of the 32- and 64-bit integer types.
pub open spec fn is_wide_int(ty: MirType) -> bool {
    ty is I32 || ty is U32 || ty is I64 || ty is U64
}

/// Integer conversions keep the value where it fits: widening a value
/// extends it by its own signedness (sign extension from a signed type,
/// zero extension from an unsigned one or a boolean), narrowing truncates,
/// and between types of one width the bits are kept as they are. Integers
/// become doubles by their own signedness, and doubles become integers by
/// the target's.
pub proof fn lemma_integer_casts(from: MirType, to: MirType)
    ensures
        (is_wide_int(from) || from is Bool) && is_wide_int(to) && int_width(from) < int_width(to) ==> cast_instruction(
            from,
            to,
        ) == if is_signed_int(from) { "sext"@ } else { "zext"@ },
        is_wide_int(from) && is_wide_int(to) && int_width(from) > int_width(to) ==> cast_instruction(from, to)
            == "trunc"@,
        is_wide_int(from) && is_wide_int(to) && int_width(from) == int_width(to) ==> cast_instruction(from, to)
            == "bitcast"@,
        is_wide_int(from) && to is F64 ==> cast_instruction(from, to) == if is_signed_int(from) {
            "sitofp"@
        } else {
            "uitofp"@
        },
        from is F64 && is_wide_int(to) ==> cast_instruction(from, to) == if is_signed_int(to) {
            "fptosi"@
        } else {
            "fptoui"@
        },
{
}

/// The LLVM type of a constant.
pub open spec fn constant_llvm_type(c: Constant) -> Seq<char> {
    match c {
        Constant::Int(_) => "i64"@,
        Constant::Float(_) => "double"@,
        Constant::Bool(_) => "i1"@,
        Constant::String(_) => "ptr"@,
        Constant::Char(_) => "i32"@,
        Constant::Unit => "i8"@,
    }
}

/// Whether the bits of a double encode a NaN.
pub open spec fn is_nan_bits(bits: u64) -> bool {
    (bits >> 52u64) & 0x7ffu64 == 0x7ffu64 && bits & 0xf_ffff_ffff_ffffu64 != 0
}

/// Whether the bits of a double encode an infinity.
pub open spec fn is_inf_bits(bits: u64) -> bool {
    (bits >> 52u64) & 0x7ffu64 == 0x7ffu64 && bits & 0xf_ffff_ffff_ffffu64 == 0
}

/// How a double constant is written: NaN and the infinities by their bit
/// patterns, finite values in scientific notation.
pub open spec fn float_text(f: crate::mir::FloatConst) -> Seq<char> {
    if is_nan_bits(f.bits) {
        "0x7FF8000000000000"@
    } else if is_inf_bits(f.bits) {
        if f.bits >> 63u64 == 0 {
            "0x7FF0000000000000"@
        } else {
            "0xFFF0000000000000"@
        }
    } else {
        f.text@
    }
}

/// How a constant is written in LLVM IR.
pub open spec fn constant_text(c: Constant) -> Seq<char> {
    match c {
        Constant::Int(n) => dec_int(n as int),
        Constant::Float(f) => float_text(f),
        Constant::Bool(b) => if b { "1"@ } else { "0"@ },
        Constant::String(s) => "\""@ + s@ + "\""@,
        Constant::Char(ch) => dec_nat(ch as nat),
        Constant::Unit => "0"@,
    }
}

/// How an operand is written: `%name` for places, the constant's text
/// otherwise.
pub open spec fn operand_text(op: Operand) -> Seq<char> {
    match op {
        Operand::Place(p) => "%"@ + p.name@,
        Operand::Constant(c) => constant_text(c),
    }
}

/// How an operand is written where string constants refer to their
/// globals: `@<global>` for a string in the table, the quoted string
/// otherwise.
pub open spec fn operand_text_with_strings(op: Operand, table: NameMap<String>) -> Seq<char> {
    match op {
        Operand::Place(p) => "%"@ + p.name@,
        Operand::Constant(c) => match c {
            Constant::String(s) => match table.lookup(s@) {
                Some(g) => "@"@ + g@,
                None => "\""@ + s@ + "\""@,
            },
            _ => constant_text(c),
        },
    }
}

/// The LLVM instruction for a binary operator, and whether the result has
/// the operands' type (otherwise it is `i1`).
pub open spec fn binop_llvm(op: MirBinOp) -> (Seq<char>, bool) {
    match op {
        MirBinOp::Add => ("add nsw"@, true),
        MirBinOp::Sub => ("sub nsw"@, true),
        MirBinOp::Mul => ("mul nsw"@, true),
        MirBinOp::Div => ("sdiv"@, true),
        MirBinOp::Mod => ("srem"@, true),
        MirBinOp::AddWrap => ("add"@, true),
        MirBinOp::SubWrap => ("sub"@, true),
        MirBinOp::MulWrap => ("mul"@, true),
        MirBinOp::AddChecked => ("add"@, true),
        MirBinOp::SubChecked => ("sub"@, true),
        MirBinOp::MulChecked => ("mul"@, true),
        MirBinOp::AddSat => ("add"@, true),
        MirBinOp::SubSat => ("sub"@, true),
        MirBinOp::MulSat => ("mul"@, true),
        MirBinOp::FAdd => ("fadd fast"@, true),
        MirBinOp::FSub => ("fsub fast"@, true),
        MirBinOp::FMul => ("fmul fast"@, true),
        MirBinOp::FDiv => ("fdiv fast"@, true),
        MirBinOp::Eq => ("icmp eq"@, false),
        MirBinOp::Ne => ("icmp ne"@, false),
        MirBinOp::Lt => ("icmp slt"@, false),
        MirBinOp::Gt => ("icmp sgt"@, false),
        MirBinOp::Le => ("icmp sle"@, false),
        MirBinOp::Ge => ("icmp sge"@, false),
        MirBinOp::FEq => ("fcmp oeq"@, false),
        MirBinOp::FNe => ("fcmp one"@, false),
        MirBinOp::FLt => ("fcmp olt"@, false),
        MirBinOp::FGt => ("fcmp ogt"@, false),
        MirBinOp::FLe => ("fcmp ole"@, false),
        MirBinOp::FGe => ("fcmp oge"@, false),
        MirBinOp::And => ("and"@, false),
        MirBinOp::Or => ("or"@, false),
        MirBinOp::Shl => ("shl"@, true),
        MirBinOp::Shr => ("ashr"@, true),
        MirBinOp::Band => ("and"@, true),
        MirBinOp::Bor => ("or"@, true),
        MirBinOp::Bxor => ("xor"@, true),
        MirBinOp::Implies => ("or"@, false),
    }
}

/// What an LLVM integer comparison instruction (`icmp` with a signed or
/// equality predicate) computes on two integers: `eq` equal, `ne` not
/// equal, `slt`/`sle` less (or equal), `sgt`/`sge` greater (or equal).
/// Any other instruction text is taken as false.
pub open spec fn icmp_holds(instr: Seq<char>, a: int, b: int) -> bool {
    if instr == "icmp eq"@ {
        a == b
    } else if instr == "icmp ne"@ {
        a != b
    } else if instr == "icmp slt"@ {
        a < b
    } else if instr == "icmp sle"@ {
        a <= b
    } else if instr == "icmp sgt"@ {
        a > b
    } else if instr == "icmp sge"@ {
        a >= b
    } else {
        false
    }
}

/// Whether a MIR operator is an integer comparison.
pub open spec fn is_int_comparison(op: MirBinOp) -> bool {
    op is Eq || op is Ne || op is Lt || op is Le || op is Gt || op is Ge
}

/// What a MIR integer comparison means on two integers.
pub open spec fn int_comparison_holds(op: MirBinOp, a: int, b: int) -> bool {
    match op {
        MirBinOp::Eq => a == b,
        MirBinOp::Ne => a != b,
        MirBinOp::Lt => a < b,
        MirBinOp::Le => a <= b,
        MirBinOp::Gt => a > b,
        MirBinOp::Ge => a >= b,
        _ => false,
    }
}

/// An integer comparison is lowered to an `icmp` whose predicate is the
/// comparison's own: on every pair of integers the instruction holds
/// exactly when the comparison does (so `<=` holds on equal operands and
/// `<` does not), and its result is an `i1`, not of the operands' type.
pub proof fn lemma_integer_comparisons_lowered(op: MirBinOp, a: int, b: int)
    requires
        is_int_comparison(op),
    ensures
        icmp_holds(binop_llvm(op).0, a, b) == int_comparison_holds(op, a, b),
        !binop_llvm(op).1,
{
    match op {
        MirBinOp::Eq => {
            reveal_strlit("icmp eq");
        },
        MirBinOp::Ne => {
            reveal_strlit("icmp ne");
            reveal_strlit("icmp eq");
            assert("icmp ne"@[5] != "icmp eq"@[5]);
        },
        MirBinOp::Lt => {
            reveal_strlit("icmp slt");
            reveal_strlit("icmp eq");
            assert("icmp slt"@.len() != "icmp eq"@.len());
            reveal_strlit("icmp ne");
            assert("icmp slt"@.len() != "icmp ne"@.len());
        },
        MirBinOp::Le => {
            reveal_strlit("icmp sle");
            reveal_strlit("icmp eq");
            assert("icmp sle"@.len() != "icmp eq"@.len());
            reveal_strlit("icmp ne");
            assert("icmp sle"@.len() != "icmp ne"@.len());
            reveal_strlit("icmp slt");
            assert("icmp sle"@[7] != "icmp slt"@[7]);
        },
        MirBinOp::Gt => {
            reveal_strlit("icmp sgt");
            reveal_strlit("icmp eq");
            assert("icmp sgt"@.len() != "icmp eq"@.len());
            reveal_strlit("icmp ne");
            assert("icmp sgt"@.len() != "icmp ne"@.len());
            reveal_strlit("icmp slt");
            assert("icmp sgt"@[6] != "icmp slt"@[6]);
            reveal_strlit("icmp sle");
            assert("icmp sgt"@[6] != "icmp sle"@[6]);
        },
        MirBinOp::Ge => {
            reveal_strlit("icmp sge");
            reveal_strlit("icmp eq");
            assert("icmp sge"@.len() != "icmp eq"@.len());
            reveal_strlit("icmp ne");
            assert("icmp sge"@.len() != "icmp ne"@.len());
            reveal_strlit("icmp slt");
            assert("icmp sge"@[6] != "icmp slt"@[6]);
            reveal_strlit("icmp sle");
            assert("icmp sge"@[6] != "icmp sle"@[6]);
            reveal_strlit("icmp sgt");
            assert("icmp sge"@[7] != "icmp sgt"@[7]);
        },
        _ => {},
    }
}

/// What an LLVM integer arithmetic instruction computes on two signed
/// integers whose result fits its type: `add`, `sub` and `mul` (with or
/// without `nsw`, no signed wrap) the sum, difference and product, `sdiv`
/// the quotient rounded toward zero, `srem` the remainder of that
/// division. Any other instruction text gives 0.
pub open spec fn int_op_value(instr: Seq<char>, a: int, b: int) -> int {
    if instr == "add nsw"@ {
        a + b
    } else if instr == "add"@ {
        a + b
    } else if instr == "sub nsw"@ {
        a - b
    } else if instr == "sub"@ {
        a - b
    } else if instr == "mul nsw"@ {
        a * b
    } else if instr == "mul"@ {
        a * b
    } else if instr == "sdiv"@ {
        trunc_div(a, b)
    } else if instr == "srem"@ {
        a - b * trunc_div(a, b)
    } else {
        0
    }
}

/// Whether a MIR operator is integer arithmetic.
pub open spec fn is_int_arithmetic(op: MirBinOp) -> bool {
    op is Add || op is Sub || op is Mul || op is Div || op is Mod || op is AddWrap || op is SubWrap || op is MulWrap
        || op is AddChecked || op is SubChecked || op is MulChecked || op is AddSat || op is SubSat || op is MulSat
}

/// What a MIR integer arithmetic operator computes where the result fits:
/// the sum, difference or product (whether it wraps, is checked or
/// saturates only matters where it does not fit), the quotient rounded
/// toward zero, and the remainder of that division.
pub open spec fn int_arithmetic_value(op: MirBinOp, a: int, b: int) -> int {
    match op {
        MirBinOp::Add | MirBinOp::AddWrap | MirBinOp::AddChecked | MirBinOp::AddSat => a + b,
        MirBinOp::Sub | MirBinOp::SubWrap | MirBinOp::SubChecked | MirBinOp::SubSat => a - b,
        MirBinOp::Mul | MirBinOp::MulWrap | MirBinOp::MulChecked | MirBinOp::MulSat => a * b,
        MirBinOp::Div => trunc_div(a, b),
        MirBinOp::Mod => a - b * trunc_div(a, b),
        _ => 0,
    }
}

/// Integer arithmetic is lowered to the LLVM instruction that computes the
/// same value wherever the result fits: `+` to an addition, `-` to a
/// subtraction (of the right operand from the left), `*` to a product,
/// `/` to signed division rounding toward zero and `%` to its remainder;
/// the result has the operands' type.
pub proof fn lemma_integer_arithmetic_lowered(op: MirBinOp, a: int, b: int)
    requires
        is_int_arithmetic(op),
    ensures
        int_op_value(binop_llvm(op).0, a, b) == int_arithmetic_value(op, a, b),
        binop_llvm(op).1,
{
    match op {
        MirBinOp::Add => {
            reveal_strlit("add nsw");
        },
        MirBinOp::Sub => {
            reveal_strlit("sub nsw");
            reveal_strlit("add nsw");
            assert("sub nsw"@[0] != "add nsw"@[0]);
            reveal_strlit("add");
            assert("sub nsw"@.len() != "add"@.len());
        },
        MirBinOp::Mul => {
            reveal_strlit("mul nsw");
            reveal_strlit("add nsw");
            assert("mul nsw"@[0] != "add nsw"@[0]);
            reveal_strlit("add");
            assert("mul nsw"@.len() != "add"@.len());
            reveal_strlit("sub nsw");
            assert("mul nsw"@[0] != "sub nsw"@[0]);
            reveal_strlit("sub");
            assert("mul nsw"@.len() != "sub"@.len());
        },
        MirBinOp::Div => {
            reveal_strlit("sdiv");
            reveal_strlit("add nsw");
            assert("sdiv"@.len() != "add nsw"@.len());
            reveal_strlit("add");
            assert("sdiv"@.len() != "add"@.len());
            reveal_strlit("sub nsw");
            assert("sdiv"@.len() != "sub nsw"@.len());
            reveal_strlit("sub");
            assert("sdiv"@.len() != "sub"@.len());
            reveal_strlit("mul nsw");
            assert("sdiv"@.len() != "mul nsw"@.len());
            reveal_strlit("mul");
            assert("sdiv"@.len() != "mul"@.len());
        },
        MirBinOp::Mod => {
            reveal_strlit("srem");
            reveal_strlit("add nsw");
            assert("srem"@.len() != "add nsw"@.len());
            reveal_strlit("add");
            assert("srem"@.len() != "add"@.len());
            reveal_strlit("sub nsw");
            assert("srem"@.len() != "sub nsw"@.len());
            reveal_strlit("sub");
            assert("srem"@.len() != "sub"@.len());
            reveal_strlit("mul nsw");
            assert("srem"@.len() != "mul nsw"@.len());
            reveal_strlit("mul");
            assert("srem"@.len() != "mul"@.len());
            reveal_strlit("sdiv");
            assert("srem"@[1] != "sdiv"@[1]);
        },
        MirBinOp::AddWrap => {
            reveal_strlit("add");
            reveal_strlit("add nsw");
            assert("add"@.len() != "add nsw"@.len());
        },
        MirBinOp::SubWrap => {
            reveal_strlit("sub");
            reveal_strlit("add nsw");
            assert("sub"@.len() != "add nsw"@.len());
            reveal_strlit("add");
            assert("sub"@[0] != "add"@[0]);
            reveal_strlit("sub nsw");
            assert("sub"@.len() != "sub nsw"@.len());
        },
        MirBinOp::MulWrap => {
            reveal_strlit("mul");
            reveal_strlit("add nsw");
            assert("mul"@.len() != "add nsw"@.len());
            reveal_strlit("add");
            assert("mul"@[0] != "add"@[0]);
            reveal_strlit("sub nsw");
            assert("mul"@.len() != "sub nsw"@.len());
            reveal_strlit("sub");
            assert("mul"@[0] != "sub"@[0]);
            reveal_strlit("mul nsw");
            assert("mul"@.len() != "mul nsw"@.len());
        },
        MirBinOp::AddChecked => {
            reveal_strlit("add");
            reveal_strlit("add nsw");
            assert("add"@.len() != "add nsw"@.len());
        },
        MirBinOp::SubChecked => {
            reveal_strlit("sub");
            reveal_strlit("add nsw");
            assert("sub"@.len() != "add nsw"@.len());
            reveal_strlit("add");
            assert("sub"@[0] != "add"@[0]);
            reveal_strlit("sub nsw");
            assert("sub"@.len() != "sub nsw"@.len());
        },
        MirBinOp::MulChecked => {
            reveal_strlit("mul");
            reveal_strlit("add nsw");
            assert("mul"@.len() != "add nsw"@.len());
            reveal_strlit("add");
            assert("mul"@[0] != "add"@[0]);
            reveal_strlit("sub nsw");
            assert("mul"@.len() != "sub nsw"@.len());
            reveal_strlit("sub");
            assert("mul"@[0] != "sub"@[0]);
            reveal_strlit("mul nsw");
            assert("mul"@.len() != "mul nsw"@.len());
        },
        MirBinOp::AddSat => {
            reveal_strlit("add");
            reveal_strlit("add nsw");
            assert("add"@.len() != "add nsw"@.len());
        },
        MirBinOp::SubSat => {
            reveal_strlit("sub");
            reveal_strlit("add nsw");
            assert("sub"@.len() != "add nsw"@.len());
            reveal_strlit("add");
            assert("sub"@[0] != "add"@[0]);
            reveal_strlit("sub nsw");
            assert("sub"@.len() != "sub nsw"@.len());
        },
        MirBinOp::MulSat => {
            reveal_strlit("mul");
            reveal_strlit("add nsw");
            assert("mul"@.len() != "add nsw"@.len());
            reveal_strlit("add");
            assert("mul"@[0] != "add"@[0]);
            reveal_strlit("sub nsw");
            assert("mul"@.len() != "sub nsw"@.len());
            reveal_strlit("sub");
            assert("mul"@[0] != "sub"@[0]);
            reveal_strlit("mul nsw");
            assert("mul"@.len() != "mul nsw"@.len());
        },
        _ => {},
    }
}

/// What an LLVM ordered floating-point comparison instruction computes on
/// two numbers that are not NaN (taken here as integers, whose order is
/// the same): `oeq` equal, `one` not equal, `olt`/`ole` less (or equal),
/// `ogt`/`oge` greater (or equal). Any other instruction text is false.
pub open spec fn fcmp_holds(instr: Seq<char>, a: int, b: int) -> bool {
    if instr == "fcmp oeq"@ {
        a == b
    } else if instr == "fcmp one"@ {
        a != b
    } else if instr == "fcmp olt"@ {
        a < b
    } else if instr == "fcmp ole"@ {
        a <= b
    } else if instr == "fcmp ogt"@ {
        a > b
    } else if instr == "fcmp oge"@ {
        a >= b
    } else {
        false
    }
}

/// Whether a MIR operator is a floating-point comparison.
pub open spec fn is_float_comparison(op: MirBinOp) -> bool {
    op is FEq || op is FNe || op is FLt || op is FLe || op is FGt || op is FGe
}

/// What a MIR floating-point comparison means on two numbers.
pub open spec fn float_comparison_holds(op: MirBinOp, a: int, b: int) -> bool {
    match op {
        MirBinOp::FEq => a == b,
        MirBinOp::FNe => a != b,
        MirBinOp::FLt => a < b,
        MirBinOp::FLe => a <= b,
        MirBinOp::FGt => a > b,
        MirBinOp::FGe => a >= b,
        _ => false,
    }
}

/// A floating-point comparison is lowered to an ordered `fcmp` whose
/// predicate is the comparison's own: on numbers that are not NaN it holds
/// exactly when the comparison does; its result is an `i1`.
pub proof fn lemma_float_comparisons_lowered(op: MirBinOp, a: int, b: int)
    requires
        is_float_comparison(op),
    ensures
        fcmp_holds(binop_llvm(op).0, a, b) == float_comparison_holds(op, a, b),
        !binop_llvm(op).1,
{
    match op {
        MirBinOp::FEq => {
            reveal_strlit("fcmp oeq");
        },
        MirBinOp::FNe => {
            reveal_strlit("fcmp one");
            reveal_strlit("fcmp oeq");
            assert("fcmp one"@[6] != "fcmp oeq"@[6]);
        },
        MirBinOp::FLt => {
            reveal_strlit("fcmp olt");
            reveal_strlit("fcmp oeq");
            assert("fcmp olt"@[6] != "fcmp oeq"@[6]);
            reveal_strlit("fcmp one");
            assert("fcmp olt"@[6] != "fcmp one"@[6]);
        },
        MirBinOp::FLe => {
            reveal_strlit("fcmp ole");
            reveal_strlit("fcmp oeq");
            assert("fcmp ole"@[6] != "fcmp oeq"@[6]);
            reveal_strlit("fcmp one");
            assert("fcmp ole"@[6] != "fcmp one"@[6]);
            reveal_strlit("fcmp olt");
            assert("fcmp ole"@[7] != "fcmp olt"@[7]);
        },
        MirBinOp::FGt => {
            reveal_strlit("fcmp ogt");
            reveal_strlit("fcmp oeq");
            assert("fcmp ogt"@[6] != "fcmp oeq"@[6]);
            reveal_strlit("fcmp one");
            assert("fcmp ogt"@[6] != "fcmp one"@[6]);
            reveal_strlit("fcmp olt");
            assert("fcmp ogt"@[6] != "fcmp olt"@[6]);
            reveal_strlit("fcmp ole");
            assert("fcmp ogt"@[6] != "fcmp ole"@[6]);
        },
        MirBinOp::FGe => {
            reveal_strlit("fcmp oge");
            reveal_strlit("fcmp oeq");
            assert("fcmp oge"@[6] != "fcmp oeq"@[6]);
            reveal_strlit("fcmp one");
            assert("fcmp oge"@[6] != "fcmp one"@[6]);
            reveal_strlit("fcmp olt");
            assert("fcmp oge"@[6] != "fcmp olt"@[6]);
            reveal_strlit("fcmp ole");
            assert("fcmp oge"@[6] != "fcmp ole"@[6]);
            reveal_strlit("fcmp ogt");
            assert("fcmp oge"@[7] != "fcmp ogt"@[7]);
        },
        _ => {},
    }
}

/// What an LLVM bitwise instruction computes on two 64-bit integers:
/// `and`, `or` and `xor` bit by bit, `shl` a left shift and `ashr` an
/// arithmetic (sign-keeping) right shift by `b` bits. Any other instruction
/// text gives 0.
pub open spec fn bits_value(instr: Seq<char>, a: i64, b: i64) -> i64 {
    if instr == "and"@ {
        a & b
    } else if instr == "or"@ {
        a | b
    } else if instr == "xor"@ {
        a ^ b
    } else if instr == "shl"@ {
        a << b
    } else if instr == "ashr"@ {
        a >> b
    } else {
        0
    }
}

/// Whether a MIR operator works on the bits of integers.
pub open spec fn is_bitwise(op: MirBinOp) -> bool {
    op is Band || op is Bor || op is Bxor || op is Shl || op is Shr
}

/// What a MIR bitwise operator computes on two 64-bit integers; shifts
/// keep the sign of the shifted value.
pub open spec fn bitwise_value(op: MirBinOp, a: i64, b: i64) -> i64 {
    match op {
        MirBinOp::Band => a & b,
        MirBinOp::Bor => a | b,
        MirBinOp::Bxor => a ^ b,
        MirBinOp::Shl => a << b,
        MirBinOp::Shr => a >> b,
        _ => 0,
    }
}

/// Bitwise operators are lowered to the LLVM instruction with the same
/// effect on the bits; a right shift is arithmetic, keeping the sign. The
/// result has the operands' type.
pub proof fn lemma_bitwise_lowered(op: MirBinOp, a: i64, b: i64)
    requires
        is_bitwise(op),
    ensures
        bits_value(binop_llvm(op).0, a, b) == bitwise_value(op, a, b),
        binop_llvm(op).1,
{
    match op {
        MirBinOp::Band => {
            reveal_strlit("and");
        },
        MirBinOp::Bor => {
            reveal_strlit("or");
            reveal_strlit("and");
            assert("or"@.len() != "and"@.len());
        },
        MirBinOp::Bxor => {
            reveal_strlit("xor");
            reveal_strlit("and");
            assert("xor"@[0] != "and"@[0]);
            reveal_strlit("or");
            assert("xor"@.len() != "or"@.len());
        },
        MirBinOp::Shl => {
            reveal_strlit("shl");
            reveal_strlit("and");
            assert("shl"@[0] != "and"@[0]);
            reveal_strlit("or");
            assert("shl"@.len() != "or"@.len());
            reveal_strlit("xor");
            assert("shl"@[0] != "xor"@[0]);
        },
        MirBinOp::Shr => {
            reveal_strlit("ashr");
            reveal_strlit("and");
            assert("ashr"@.len() != "and"@.len());
            reveal_strlit("or");
            assert("ashr"@.len() != "or"@.len());
            reveal_strlit("xor");
            assert("ashr"@.len() != "xor"@.len());
            reveal_strlit("shl");
            assert("ashr"@.len() != "shl"@.len());
        },
        _ => {},
    }
}

/// The type of the first entry named `name`, if any.
pub open spec fn type_named(entries: Seq<(String, MirType)>, name: Seq<char>) -> Option<MirType>
    decreases entries.len(),
{
    if entries.len() == 0 {
        None
    } else if entries[0].0@ == name {
        Some(entries[0].1)
    } else {
        type_named(entries.drop_first(), name)
    }
}

/// The declared type of a name in a function: its parameter's type, else
/// its local's type.
pub open spec fn declared_type(func: MirFunction, name: Seq<char>) -> Option<MirType> {
    match type_named(func.params@, name) {
        Some(t) => Some(t),
        None => type_named(func.locals@, name),
    }
}

/// The LLVM type of a place in a function: its declared type, `i64` for
/// temporaries.
pub open spec fn place_llvm_type(func: MirFunction, name: Seq<char>) -> Seq<char> {
    match declared_type(func, name) {
        Some(t) => llvm_type(t),
        None => "i64"@,
    }
}

/// The LLVM type of an operand in a function.
pub open spec fn operand_llvm_type(func: MirFunction, op: Operand) -> Seq<char> {
    match op {
        Operand::Constant(c) => constant_llvm_type(c),
        Operand::Place(p) => place_llvm_type(func, p.name@),
    }
}

/// Whether an operand is a string: a string constant, or a place whose
/// declared type is `String`.
pub open spec fn is_string_operand_spec(func: MirFunction, op: Operand) -> bool {
    match op {
        Operand::Constant(Constant::String(_)) => true,
        Operand::Place(p) => match declared_type(func, p.name@) {
            Some(t) => t is String,
            None => false,
        },
        _ => false,
    }
}

/// One byte of a string as it appears in an LLVM string constant:
/// printable ASCII other than backslash and double quote stays as it is,
/// any other byte becomes `\XX` in upper-case hexadecimal.
pub open spec fn llvm_escaped_byte(b: u8) -> Seq<char> {
    if (0x20 <= b <= 0x21) || (0x23 <= b <= 0x5b) || (0x5d <= b <= 0x7e) {
        seq![b as char]
    } else {
        seq!['\\', hex_digit((b / 16) as nat), hex_digit((b % 16) as nat)]
    }
}

/// The upper-case hexadecimal digit for a value below sixteen.
pub open spec fn hex_digit(d: nat) -> char {
    if d < 10 {
        crate::text::digit_char(d)
    } else if d == 10 {
        'A'
    } else if d == 11 {
        'B'
    } else if d == 12 {
        'C'
    } else if d == 13 {
        'D'
    } else if d == 14 {
        'E'
    } else {
        'F'
    }
}

/// A byte string escaped for an LLVM string constant.
pub open spec fn llvm_escape(bytes: Seq<u8>) -> Seq<char>
    decreases bytes.len(),
{
    if bytes.len() == 0 {
        Seq::empty()
    } else {
        llvm_escape(bytes.drop_last()) + llvm_escaped_byte(bytes.last())
    }
}

/// A unique SSA name after one more definition of `name`: the name itself
/// the first time, `name_<k>` for the k-th redefinition. The counter wraps
/// around at 2^32.
pub open spec fn unique_name_spec(name: Seq<char>, count: u32) -> Seq<char> {
    if count == 1 {
        name
    } else {
        name + "_"@ + dec_nat(((count as int - 1) % 0x1_0000_0000) as nat)
    }
}

/// The return type of a runtime function the code generator knows by
/// name; `i64` for any other name.
pub open spec fn call_return_type(name: Seq<char>) -> Seq<char> {
    if name == "println"@ || name == "print"@ || name == "assert"@ || name == "bmb_print_str"@ || name == "print_str"@ {
        "void"@
    } else if name == "read_int"@ || name == "abs"@ || name == "bmb_abs"@ || name == "min"@ || name == "max"@ || name == "bmb_min"@ || name == "bmb_max"@ || name == "clamp"@ || name == "bmb_clamp"@ || name == "pow"@ || name == "bmb_pow"@ || name == "f64_to_i64"@ || name == "i32_to_i64"@ {
        "i64"@
    } else if name == "i64_to_i32"@ {
        "i32"@
    } else if name == "sqrt"@ || name == "i64_to_f64"@ || name == "i32_to_f64"@ {
        "double"@
    } else if name == "bmb_string_len"@ || name == "bmb_string_char_at"@ || name == "bmb_string_eq"@ || name == "bmb_ord"@ || name == "bmb_string_starts_with"@ || name == "bmb_string_ends_with"@ || name == "bmb_string_contains"@ || name == "bmb_string_index_of"@ || name == "bmb_string_is_empty"@ || name == "len"@ || name == "char_at"@ || name == "byte_at"@ || name == "ord"@ || name == "starts_with"@ || name == "ends_with"@ || name == "contains"@ || name == "index_of"@ || name == "is_empty"@ {
        "i64"@
    } else if name == "bmb_file_exists"@ || name == "bmb_file_size"@ || name == "bmb_write_file"@ || name == "bmb_append_file"@ || name == "file_exists"@ || name == "file_size"@ || name == "write_file"@ || name == "append_file"@ {
        "i64"@
    } else if name == "bmb_sb_new"@ || name == "bmb_sb_push"@ || name == "bmb_sb_push_cstr"@ || name == "bmb_sb_push_char"@ || name == "bmb_sb_push_int"@ || name == "bmb_sb_push_escaped"@ || name == "bmb_sb_push_range"@ || name == "bmb_sb_len"@ || name == "bmb_sb_clear"@ || name == "bmb_sb_contains"@ || name == "bmb_sb_println"@ || name == "sb_new"@ || name == "sb_with_capacity"@ || name == "sb_push"@ || name == "sb_push_cstr"@ || name == "sb_push_char"@ || name == "sb_push_int"@ || name == "sb_push_escaped"@ || name == "sb_push_range"@ || name == "sb_len"@ || name == "sb_clear"@ || name == "sb_contains"@ || name == "sb_println"@ || name == "puts_cstr"@ || name == "bmb_puts_cstr"@ {
        "i64"@
    } else if name == "bmb_system"@ {
        "i64"@
    } else if name == "bmb_string_free"@ || name == "free_string"@ || name == "bmb_sb_free"@ || name == "sb_free"@ || name == "bmb_arena_mode"@ || name == "arena_mode"@ || name == "bmb_arena_reset"@ || name == "arena_reset"@ || name == "bmb_arena_save"@ || name == "arena_save"@ || name == "bmb_arena_restore"@ || name == "arena_restore"@ || name == "bmb_arena_usage"@ || name == "arena_usage"@ {
        "i64"@
    } else if name == "bmb_time_ns"@ || name == "time_ns"@ {
        "i64"@
    } else if name == "bmb_string_new"@ || name == "bmb_string_from_cstr"@ || name == "bmb_string_slice"@ || name == "bmb_string_concat"@ || name == "bmb_chr"@ || name == "bmb_string_to_lower"@ || name == "bmb_string_to_upper"@ || name == "bmb_string_trim"@ || name == "bmb_string_replace"@ || name == "bmb_string_repeat"@ || name == "bmb_int_to_string"@ || name == "bmb_fast_i2s"@ || name == "slice"@ || name == "chr"@ || name == "to_lower"@ || name == "to_upper"@ || name == "trim"@ || name == "replace"@ || name == "repeat"@ || name == "int_to_string"@ {
        "ptr"@
    } else if name == "bmb_read_file"@ || name == "read_file"@ {
        "ptr"@
    } else if name == "bmb_sb_build"@ || name == "sb_build"@ {
        "ptr"@
    } else if name == "bmb_getenv"@ {
        "ptr"@
    } else if name == "bmb_system_capture"@ || name == "system_capture"@ {
        "ptr"@
    } else if name == "bmb_exec_output"@ || name == "exec_output"@ {
        "ptr"@
    } else if name == "get_arg"@ || name == "bmb_get_arg"@ {
        "ptr"@
    } else if name == "malloc"@ || name == "realloc"@ || name == "calloc"@ {
        "i64"@
    } else {
        "i64"@
    }
}

fn return_group_0(name: &str) -> (r: bool)
    ensures
        r == (name@ == "println"@ || name@ == "print"@ || name@ == "assert"@ || name@ == "bmb_print_str"@ || name@ == "print_str"@),
{
    str_eq(name, "println") || str_eq(name, "print") || str_eq(name, "assert") || str_eq(name, "bmb_print_str") || str_eq(name, "print_str")
}

fn return_group_1(name: &str) -> (r: bool)
    ensures
        r == (name@ == "read_int"@ || name@ == "abs"@ || name@ == "bmb_abs"@ || name@ == "min"@ || name@ == "max"@ || name@ == "bmb_min"@ || name@ == "bmb_max"@ || name@ == "clamp"@ || name@ == "bmb_clamp"@ || name@ == "pow"@ || name@ == "bmb_pow"@ || name@ == "f64_to_i64"@ || name@ == "i32_to_i64"@),
{
    str_eq(name, "read_int") || str_eq(name, "abs") || str_eq(name, "bmb_abs") || str_eq(name, "min") || str_eq(name, "max") || str_eq(name, "bmb_min") || str_eq(name, "bmb_max") || str_eq(name, "clamp") || str_eq(name, "bmb_clamp") || str_eq(name, "pow") || str_eq(name, "bmb_pow") || str_eq(name, "f64_to_i64") || str_eq(name, "i32_to_i64")
}

fn return_group_2(name: &str) -> (r: bool)
    ensures
        r == (name@ == "i64_to_i32"@),
{
    str_eq(name, "i64_to_i32")
}

fn return_group_3(name: &str) -> (r: bool)
    ensures
        r == (name@ == "sqrt"@ || name@ == "i64_to_f64"@ || name@ == "i32_to_f64"@),
{
    str_eq(name, "sqrt") || str_eq(name, "i64_to_f64") || str_eq(name, "i32_to_f64")
}

fn return_group_4(name: &str) -> (r: bool)
    ensures
        r == (name@ == "bmb_string_len"@ || name@ == "bmb_string_char_at"@ || name@ == "bmb_string_eq"@ || name@ == "bmb_ord"@ || name@ == "bmb_string_starts_with"@ || name@ == "bmb_string_ends_with"@ || name@ == "bmb_string_contains"@ || name@ == "bmb_string_index_of"@ || name@ == "bmb_string_is_empty"@ || name@ == "len"@ || name@ == "char_at"@ || name@ == "byte_at"@ || name@ == "ord"@ || name@ == "starts_with"@ || name@ == "ends_with"@ || name@ == "contains"@ || name@ == "index_of"@ || name@ == "is_empty"@),
{
    str_eq(name, "bmb_string_len") || str_eq(name, "bmb_string_char_at") || str_eq(name, "bmb_string_eq") || str_eq(name, "bmb_ord") || str_eq(name, "bmb_string_starts_with") || str_eq(name, "bmb_string_ends_with") || str_eq(name, "bmb_string_contains") || str_eq(name, "bmb_string_index_of") || str_eq(name, "bmb_string_is_empty") || str_eq(name, "len") || str_eq(name, "char_at") || str_eq(name, "byte_at") || str_eq(name, "ord") || str_eq(name, "starts_with") || str_eq(name, "ends_with") || str_eq(name, "contains") || str_eq(name, "index_of") || str_eq(name, "is_empty")
}

fn return_group_5(name: &str) -> (r: bool)
    ensures
        r == (name@ == "bmb_file_exists"@ || name@ == "bmb_file_size"@ || name@ == "bmb_write_file"@ || name@ == "bmb_append_file"@ || name@ == "file_exists"@ || name@ == "file_size"@ || name@ == "write_file"@ || name@ == "append_file"@),
{
    str_eq(name, "bmb_file_exists") || str_eq(name, "bmb_file_size") || str_eq(name, "bmb_write_file") || str_eq(name, "bmb_append_file") || str_eq(name, "file_exists") || str_eq(name, "file_size") || str_eq(name, "write_file") || str_eq(name, "append_file")
}

fn return_group_6(name: &str) -> (r: bool)
    ensures
        r == (name@ == "bmb_sb_new"@ || name@ == "bmb_sb_push"@ || name@ == "bmb_sb_push_cstr"@ || name@ == "bmb_sb_push_char"@ || name@ == "bmb_sb_push_int"@ || name@ == "bmb_sb_push_escaped"@ || name@ == "bmb_sb_push_range"@ || name@ == "bmb_sb_len"@ || name@ == "bmb_sb_clear"@ || name@ == "bmb_sb_contains"@ || name@ == "bmb_sb_println"@ || name@ == "sb_new"@ || name@ == "sb_with_capacity"@ || name@ == "sb_push"@ || name@ == "sb_push_cstr"@ || name@ == "sb_push_char"@ || name@ == "sb_push_int"@ || name@ == "sb_push_escaped"@ || name@ == "sb_push_range"@ || name@ == "sb_len"@ || name@ == "sb_clear"@ || name@ == "sb_contains"@ || name@ == "sb_println"@ || name@ == "puts_cstr"@ || name@ == "bmb_puts_cstr"@),
{
    str_eq(name, "bmb_sb_new") || str_eq(name, "bmb_sb_push") || str_eq(name, "bmb_sb_push_cstr") || str_eq(name, "bmb_sb_push_char") || str_eq(name, "bmb_sb_push_int") || str_eq(name, "bmb_sb_push_escaped") || str_eq(name, "bmb_sb_push_range") || str_eq(name, "bmb_sb_len") || str_eq(name, "bmb_sb_clear") || str_eq(name, "bmb_sb_contains") || str_eq(name, "bmb_sb_println") || str_eq(name, "sb_new") || str_eq(name, "sb_with_capacity") || str_eq(name, "sb_push") || str_eq(name, "sb_push_cstr") || str_eq(name, "sb_push_char") || str_eq(name, "sb_push_int") || str_eq(name, "sb_push_escaped") || str_eq(name, "sb_push_range") || str_eq(name, "sb_len") || str_eq(name, "sb_clear") || str_eq(name, "sb_contains") || str_eq(name, "sb_println") || str_eq(name, "puts_cstr") || str_eq(name, "bmb_puts_cstr")
}

fn return_group_7(name: &str) -> (r: bool)
    ensures
        r == (name@ == "bmb_system"@),
{
    str_eq(name, "bmb_system")
}

fn return_group_8(name: &str) -> (r: bool)
    ensures
        r == (name@ == "bmb_string_free"@ || name@ == "free_string"@ || name@ == "bmb_sb_free"@ || name@ == "sb_free"@ || name@ == "bmb_arena_mode"@ || name@ == "arena_mode"@ || name@ == "bmb_arena_reset"@ || name@ == "arena_reset"@ || name@ == "bmb_arena_save"@ || name@ == "arena_save"@ || name@ == "bmb_arena_restore"@ || name@ == "arena_restore"@ || name@ == "bmb_arena_usage"@ || name@ == "arena_usage"@),
{
    str_eq(name, "bmb_string_free") || str_eq(name, "free_string") || str_eq(name, "bmb_sb_free") || str_eq(name, "sb_free") || str_eq(name, "bmb_arena_mode") || str_eq(name, "arena_mode") || str_eq(name, "bmb_arena_reset") || str_eq(name, "arena_reset") || str_eq(name, "bmb_arena_save") || str_eq(name, "arena_save") || str_eq(name, "bmb_arena_restore") || str_eq(name, "arena_restore") || str_eq(name, "bmb_arena_usage") || str_eq(name, "arena_usage")
}

fn return_group_9(name: &str) -> (r: bool)
    ensures
        r == (name@ == "bmb_time_ns"@ || name@ == "time_ns"@),
{
    str_eq(name, "bmb_time_ns") || str_eq(name, "time_ns")
}

fn return_group_10(name: &str) -> (r: bool)
    ensures
        r == (name@ == "bmb_string_new"@ || name@ == "bmb_string_from_cstr"@ || name@ == "bmb_string_slice"@ || name@ == "bmb_string_concat"@ || name@ == "bmb_chr"@ || name@ == "bmb_string_to_lower"@ || name@ == "bmb_string_to_upper"@ || name@ == "bmb_string_trim"@ || name@ == "bmb_string_replace"@ || name@ == "bmb_string_repeat"@ || name@ == "bmb_int_to_string"@ || name@ == "bmb_fast_i2s"@ || name@ == "slice"@ || name@ == "chr"@ || name@ == "to_lower"@ || name@ == "to_upper"@ || name@ == "trim"@ || name@ == "replace"@ || name@ == "repeat"@ || name@ == "int_to_string"@),
{
    str_eq(name, "bmb_string_new") || str_eq(name, "bmb_string_from_cstr") || str_eq(name, "bmb_string_slice") || str_eq(name, "bmb_string_concat") || str_eq(name, "bmb_chr") || str_eq(name, "bmb_string_to_lower") || str_eq(name, "bmb_string_to_upper") || str_eq(name, "bmb_string_trim") || str_eq(name, "bmb_string_replace") || str_eq(name, "bmb_string_repeat") || str_eq(name, "bmb_int_to_string") || str_eq(name, "bmb_fast_i2s") || str_eq(name, "slice") || str_eq(name, "chr") || str_eq(name, "to_lower") || str_eq(name, "to_upper") || str_eq(name, "trim") || str_eq(name, "replace") || str_eq(name, "repeat") || str_eq(name, "int_to_string")
}

fn return_group_11(name: &str) -> (r: bool)
    ensures
        r == (name@ == "bmb_read_file"@ || name@ == "read_file"@),
{
    str_eq(name, "bmb_read_file") || str_eq(name, "read_file")
}

fn return_group_12(name: &str) -> (r: bool)
    ensures
        r == (name@ == "bmb_sb_build"@ || name@ == "sb_build"@),
{
    str_eq(name, "bmb_sb_build") || str_eq(name, "sb_build")
}

fn return_group_13(name: &str) -> (r: bool)
    ensures
        r == (name@ == "bmb_getenv"@),
{
    str_eq(name, "bmb_getenv")
}

fn return_group_14(name: &str) -> (r: bool)
    ensures
        r == (name@ == "bmb_system_capture"@ || name@ == "system_capture"@),
{
    str_eq(name, "bmb_system_capture") || str_eq(name, "system_capture")
}

fn return_group_15(name: &str) -> (r: bool)
    ensures
        r == (name@ == "bmb_exec_output"@ || name@ == "exec_output"@),
{
    str_eq(name, "bmb_exec_output") || str_eq(name, "exec_output")
}

fn return_group_16(name: &str) -> (r: bool)
    ensures
        r == (name@ == "get_arg"@ || name@ == "bmb_get_arg"@),
{
    str_eq(name, "get_arg") || str_eq(name, "bmb_get_arg")
}

fn return_group_17(name: &str) -> (r: bool)
    ensures
        r == (name@ == "malloc"@ || name@ == "realloc"@ || name@ == "calloc"@),
{
    str_eq(name, "malloc") || str_eq(name, "realloc") || str_eq(name, "calloc")
}

/// The LLVM return type of a call to a runtime function (`i64` for
/// unknown functions).
pub fn infer_call_return_type_of(name: &str) -> (r: &'static str)
    ensures
        r@ == call_return_type(name@),
{
    if return_group_0(name) {
        "void"
    } else if return_group_1(name) {
        "i64"
    } else if return_group_2(name) {
        "i32"
    } else if return_group_3(name) {
        "double"
    } else if return_group_4(name) {
        "i64"
    } else if return_group_5(name) {
        "i64"
    } else if return_group_6(name) {
        "i64"
    } else if return_group_7(name) {
        "i64"
    } else if return_group_8(name) {
        "i64"
    } else if return_group_9(name) {
        "i64"
    } else if return_group_10(name) {
        "ptr"
    } else if return_group_11(name) {
        "ptr"
    } else if return_group_12(name) {
        "ptr"
    } else if return_group_13(name) {
        "ptr"
    } else if return_group_14(name) {
        "ptr"
    } else if return_group_15(name) {
        "ptr"
    } else if return_group_16(name) {
        "ptr"
    } else if return_group_17(name) {
        "i64"
    } else {
        "i64"
    }
}

/// The upper-case hexadecimal digit for a value below sixteen.
fn hex_char(d: u8) -> (c: char)
    requires
        d < 16,
    ensures
        c == hex_digit(d as nat),
{
    if d < 10 {
        crate::text::digit(d as u64)
    } else if d == 10 {
        'A'
    } else if d == 11 {
        'B'
    } else if d == 12 {
        'C'
    } else if d == 13 {
        'D'
    } else if d == 14 {
        'E'
    } else {
        'F'
    }
}

/// If no entry before position `i` is named `name`, looking `name` up in
/// the whole list is looking it up from position `i` on.
proof fn lemma_type_named_skip(entries: Seq<(String, MirType)>, name: Seq<char>, i: int)
    requires
        0 <= i <= entries.len(),
        forall|k: int| 0 <= k < i ==> entries[k].0@ != name,
    ensures
        type_named(entries, name) == type_named(entries.subrange(i, entries.len() as int), name),
    decreases i,
{
    if i == 0 {
        assert(entries.subrange(0, entries.len() as int) =~= entries);
    } else {
        lemma_type_named_skip(entries.drop_first(), name, i - 1);
        assert(entries.drop_first().subrange(i - 1, entries.drop_first().len() as int)
            =~= entries.subrange(i, entries.len() as int));
    }
}

/// The type of the first entry named `name`.
pub(crate) fn find_type<'a>(entries: &'a Vec<(String, MirType)>, name: &str) -> (r: Option<&'a MirType>)
    ensures
        match r {
            Some(t) => type_named(entries@, name@) == Some(*t),
            None => type_named(entries@, name@) is None,
        },
{
    let mut i: usize = 0;
    while i < entries.len()
        invariant
            i <= entries.len(),
            forall|k: int| 0 <= k < i ==> entries@[k].0@ != name@,
        decreases entries.len() - i,
    {
        if str_eq(entries[i].0.as_str(), name) {
            proof {
                lemma_type_named_skip(entries@, name@, i as int);
            }
            return Some(&entries[i].1);
        }
        i = i + 1;
    }
    proof {
        lemma_type_named_skip(entries@, name@, i as int);
    }
    None
}

/// The declared type of a name in a function.
fn find_declared<'a>(func: &'a MirFunction, name: &str) -> (r: Option<&'a MirType>)
    ensures
        match r {
            Some(t) => declared_type(*func, name@) == Some(*t),
            None => declared_type(*func, name@) is None,
        },
{
    match find_type(&func.params, name) {
        Some(t) => Some(t),
        None => find_type(&func.locals, name),
    }
}

impl TextCodeGen {
    /// A generator for the default target triple of the host operating
    /// system named `host_os` (as `std::env::consts::OS` names it).
    pub fn new(host_os: &str) -> (g: Self)
        ensures
            g.target_triple@ == triple_for_os(host_os@),
    {
        TextCodeGen { target_triple: Self::default_target_triple_for(host_os) }
    }

    /// A generator for a given target triple.
    pub fn with_target(target: &str) -> (g: Self)
        ensures
            g.target_triple@ == target@,
    {
        TextCodeGen { target_triple: target.to_owned() }
    }

    /// The default target triple for a host operating system.
    pub fn default_target_triple_for(os: &str) -> (t: String)
        ensures
            t@ == triple_for_os(os@),
    {
        let t = if str_eq(os, "windows") {
            "x86_64-pc-windows-msvc"
        } else if str_eq(os, "linux") {
            "x86_64-unknown-linux-gnu"
        } else if str_eq(os, "macos") {
            "x86_64-apple-darwin"
        } else {
            "x86_64-unknown-linux-gnu"
        };
        t.to_owned()
    }

    /// The target data layout for a target triple.
    pub fn target_datalayout(triple: &str) -> (r: &'static str)
        ensures
            r@ == datalayout_for(triple@),
    {
        let x86 = str_contains(triple, "x86_64");
        let arm = str_contains(triple, "aarch64");
        let windows = str_contains(triple, "windows");
        let linux = str_contains(triple, "linux");
        let darwin = str_contains(triple, "darwin");
        if x86 && windows {
            "e-m:w-p270:32:32-p271:32:32-p272:64:64-i64:64-i128:128-f80:128-n8:16:32:64-S128"
        } else if x86 && linux {
            "e-m:e-p270:32:32-p271:32:32-p272:64:64-i64:64-i128:128-f80:128-n8:16:32:64-S128"
        } else if x86 && darwin {
            "e-m:o-p270:32:32-p271:32:32-p272:64:64-i64:64-i128:128-f80:128-n8:16:32:64-S128"
        } else if arm && linux {
            "e-m:e-i8:8:32-i16:16:32-i64:64-i128:128-n32:64-S128-Fn32"
        } else if arm && darwin {
            "e-m:o-i64:64-i128:128-n32:64-S128-Fn32"
        } else {
            "e-m:e-p270:32:32-p271:32:32-p272:64:64-i64:64-i128:128-f80:128-n8:16:32:64-S128"
        }
    }

    /// Whether an operand is a string (used to tell string comparison from
    /// pointer comparison).
    pub fn is_string_operand(operand: &Operand, func: &MirFunction) -> (r: bool)
        ensures
            r == is_string_operand_spec(*func, *operand),
    {
        match operand {
            Operand::Constant(Constant::String(_)) => true,
            Operand::Place(p) => match find_declared(func, p.name.as_str()) {
                Some(t) => matches!(t, MirType::String),
                None => false,
            },
            _ => false,
        }
    }

    /// Escapes a string's UTF-8 bytes for an LLVM string constant.
    pub fn escape_string_for_llvm(&self, s: &str) -> (r: String)
        ensures
            r@ == llvm_escape(s.spec_bytes()),
    {
        let bytes = s.as_bytes();
        let mut r = String::new();
        let mut i: usize = 0;
        while i < bytes.len()
            invariant
                bytes@ == s.spec_bytes(),
                i <= bytes@.len(),
                r@ == llvm_escape(bytes@.subrange(0, i as int)),
            decreases bytes@.len() - i,
        {
            let b = bytes[i];
            let ghost before = r@;
            if (0x20 <= b && b <= 0x21) || (0x23 <= b && b <= 0x5b) || (0x5d <= b && b <= 0x7e) {
                push_char(&mut r, b as char);
            } else {
                push_char(&mut r, '\\');
                push_char(&mut r, hex_char(b / 16));
                push_char(&mut r, hex_char(b % 16));
            }
            assert(bytes@.subrange(0, i + 1).drop_last() =~= bytes@.subrange(0, i as int));
            i = i + 1;
            assert(r@ =~= llvm_escape(bytes@.subrange(0, i as int)));
        }
        assert(bytes@.subrange(0, bytes@.len() as int) =~= bytes@);
        r
    }

    /// The LLVM type of a MIR type.
    pub fn mir_type_to_llvm(&self, ty: &MirType) -> (r: &'static str)
        ensures
            r@ == llvm_type(*ty),
    {
        match ty {
            MirType::I32 => "i32",
            MirType::I64 => "i64",
            MirType::U32 => "i32",
            MirType::U64 => "i64",
            MirType::F64 => "double",
            MirType::Bool => "i1",
            MirType::String => "ptr",
            MirType::Unit => "void",
            MirType::Struct { .. } => "ptr",
            MirType::StructPtr(_) => "ptr",
            MirType::Enum { .. } => "ptr",
            MirType::Array { .. } => "ptr",
            MirType::Char => "i32",
            MirType::Ptr(_) => "ptr",
            MirType::Tuple(_) => "ptr",
        }
    }

    /// The LLVM cast instruction converting `from_ty` to `to_ty`.
    pub fn get_cast_instruction(&self, from_ty: &MirType, to_ty: &MirType) -> (r: &'static str)
        ensures
            r@ == cast_instruction(*from_ty, *to_ty),
    {
        match (from_ty, to_ty) {
            (MirType::I32, MirType::I64) | (MirType::I32, MirType::U64) | (
                MirType::Char,
                MirType::I64,
            ) | (MirType::Char, MirType::U64) => "sext",
            (MirType::U32, MirType::I64) | (MirType::U32, MirType::U64) => "zext",
            (MirType::Bool, MirType::I32) | (MirType::Bool, MirType::I64) | (
                MirType::Bool,
                MirType::U32,
            ) | (MirType::Bool, MirType::U64) => "zext",
            (MirType::I64, MirType::I32) | (MirType::U64, MirType::I32) | (
                MirType::I64,
                MirType::U32,
            ) | (MirType::U64, MirType::U32) => "trunc",
            (MirType::I64, MirType::Char) | (MirType::U64, MirType::Char) | (
                MirType::I32,
                MirType::Char,
            ) | (MirType::U32, MirType::Char) => "trunc",
            (MirType::I32, MirType::F64) | (MirType::I64, MirType::F64) | (
                MirType::Char,
                MirType::F64,
            ) => "sitofp",
            (MirType::U32, MirType::F64) | (MirType::U64, MirType::F64) => "uitofp",
            (MirType::F64, MirType::I32) | (MirType::F64, MirType::I64) | (
                MirType::F64,
                MirType::Char,
            ) => "fptosi",
            (MirType::F64, MirType::U32) | (MirType::F64, MirType::U64) => "fptoui",
            (MirType::I32, MirType::U32) | (MirType::U32, MirType::I32) | (
                MirType::I64,
                MirType::U64,
            ) | (MirType::U64, MirType::I64) => "bitcast",
            (MirType::StructPtr(_), MirType::I64) | (MirType::StructPtr(_), MirType::U64) =>
                "ptrtoint",
            (MirType::I64, MirType::StructPtr(_)) | (MirType::U64, MirType::StructPtr(_)) =>
                "inttoptr",
            (MirType::Ptr(_), MirType::I64) | (MirType::Ptr(_), MirType::U64) => "ptrtoint",
            (MirType::I64, MirType::Ptr(_)) | (MirType::U64, MirType::Ptr(_)) => "inttoptr",
            (MirType::Array { .. }, MirType::Ptr(_)) => "bitcast",
            _ => "bitcast",
        }
    }

    /// The LLVM type of a constant.
    pub fn constant_type(&self, c: &Constant) -> (r: &'static str)
        ensures
            r@ == constant_llvm_type(*c),
    {
        match c {
            Constant::Int(_) => "i64",
            Constant::Float(_) => "double",
            Constant::Bool(_) => "i1",
            Constant::String(_) => "ptr",
            Constant::Char(_) => "i32",
            Constant::Unit => "i8",
        }
    }

    /// Appends the LLVM text of a constant.
    pub fn append_constant(&self, out: &mut String, c: &Constant)
        ensures
            final(out)@ == old(out)@ + constant_text(*c),
    {
        match c {
            Constant::Int(n) => append_i64(out, *n),
            Constant::Float(f) => {
                let bits = f.bits;
                if (bits >> 52u64) & 0x7ffu64 == 0x7ffu64 && bits & 0xf_ffff_ffff_ffffu64 != 0 {
                    push_str(out, "0x7FF8000000000000");
                } else if (bits >> 52u64) & 0x7ffu64 == 0x7ffu64 && bits & 0xf_ffff_ffff_ffffu64
                    == 0 {
                    if bits >> 63u64 == 0 {
                        push_str(out, "0x7FF0000000000000");
                    } else {
                        push_str(out, "0xFFF0000000000000");
                    }
                } else {
                    push_str(out, f.text.as_str());
                }
            },
            Constant::Bool(b) => {
                if *b {
                    push_str(out, "1");
                } else {
                    push_str(out, "0");
                }
            },
            Constant::String(s) => {
                push_str(out, "\"");
                push_str(out, s.as_str());
                push_str(out, "\"");
                assert(final(out)@ =~= old(out)@ + constant_text(*c));
            },
            Constant::Char(ch) => append_u64(out, (*ch as u32) as u64),
            Constant::Unit => push_str(out, "0"),
        }
    }

    /// The LLVM text of a constant.
    pub fn format_constant(&self, c: &Constant) -> (r: String)
        ensures
            r@ == constant_text(*c),
    {
        let mut r = String::new();
        self.append_constant(&mut r, c);
        assert(r@ =~= constant_text(*c));
        r
    }

    /// The LLVM text of an operand.
    pub fn format_operand(&self, op: &Operand) -> (r: String)
        ensures
            r@ == operand_text(*op),
    {
        match op {
            Operand::Place(p) => {
                let mut r = String::new();
                push_str(&mut r, "%");
                push_str(&mut r, p.name.as_str());
                r
            },
            Operand::Constant(c) => self.format_constant(c),
        }
    }

    /// The LLVM text of an operand; narrowed parameters are written as
    /// they are.
    pub fn format_operand_with_narrowing(&self, op: &Operand, narrowed: &Vec<String>) -> (r:
        String)
        ensures
            r@ == operand_text(*op),
    {
        self.format_operand(op)
    }

    /// The LLVM text of an operand, with string constants referring to
    /// their globals.
    pub fn format_operand_with_strings(&self, op: &Operand, table: &NameMap<String>) -> (r: String)
        ensures
            r@ == operand_text_with_strings(*op, *table),
    {
        match op {
            Operand::Constant(Constant::String(s)) => {
                let mut r = String::new();
                match table.get(s.as_str()) {
                    Some(g) => {
                        push_str(&mut r, "@");
                        push_str(&mut r, g.as_str());
                    },
                    None => {
                        push_str(&mut r, "\"");
                        push_str(&mut r, s.as_str());
                        push_str(&mut r, "\"");
                    },
                }
                assert(r@ =~= operand_text_with_strings(*op, *table));
                r
            },
            _ => self.format_operand(op),
        }
    }

    /// The LLVM text of an operand, with string constants referring to
    /// their globals; narrowed parameters are written as they are.
    pub fn format_operand_with_strings_and_narrowing(
        &self,
        op: &Operand,
        table: &NameMap<String>,
        narrowed: &Vec<String>,
    ) -> (r: String)
        ensures
            r@ == operand_text_with_strings(*op, *table),
    {
        self.format_operand_with_strings(op, table)
    }

    /// The LLVM type of a place: its declared type, `i64` for temporaries.
    pub fn infer_place_type(&self, place: &Place, func: &MirFunction) -> (r: &'static str)
        ensures
            r@ == place_llvm_type(*func, place.name@),
    {
        match find_declared(func, place.name.as_str()) {
            Some(t) => self.mir_type_to_llvm(t),
            None => "i64",
        }
    }

    /// The LLVM type of an operand.
    pub fn infer_operand_type(&self, op: &Operand, func: &MirFunction) -> (r: &'static str)
        ensures
            r@ == operand_llvm_type(*func, *op),
    {
        match op {
            Operand::Constant(c) => self.constant_type(c),
            Operand::Place(p) => self.infer_place_type(p, func),
        }
    }

    /// The LLVM return type of a call to a runtime function by name (`i64`
    /// for unknown functions).
    pub fn infer_call_return_type(&self, fn_name: &str, current_func: &MirFunction) -> (r:
        &'static str)
        ensures
            r@ == call_return_type(fn_name@),
    {
        infer_call_return_type_of(fn_name)
    }

    /// The LLVM instruction for a binary operator, and whether the result
    /// keeps the operand type (otherwise it is `i1`).
    pub fn binop_to_llvm(&self, op: MirBinOp) -> (r: (&'static str, bool))
        ensures
            r.0@ == binop_llvm(op).0,
            r.1 == binop_llvm(op).1,
    {
        match op {
            MirBinOp::Add => ("add nsw", true),
            MirBinOp::Sub => ("sub nsw", true),
            MirBinOp::Mul => ("mul nsw", true),
            MirBinOp::Div => ("sdiv", true),
            MirBinOp::Mod => ("srem", true),
            MirBinOp::AddWrap => ("add", true),
            MirBinOp::SubWrap => ("sub", true),
            MirBinOp::MulWrap => ("mul", true),
            MirBinOp::AddChecked => ("add", true),
            MirBinOp::SubChecked => ("sub", true),
            MirBinOp::MulChecked => ("mul", true),
            MirBinOp::AddSat => ("add", true),
            MirBinOp::SubSat => ("sub", true),
            MirBinOp::MulSat => ("mul", true),
            MirBinOp::FAdd => ("fadd fast", true),
            MirBinOp::FSub => ("fsub fast", true),
            MirBinOp::FMul => ("fmul fast", true),
            MirBinOp::FDiv => ("fdiv fast", true),
            MirBinOp::Eq => ("icmp eq", false),
            MirBinOp::Ne => ("icmp ne", false),
            MirBinOp::Lt => ("icmp slt", false),
            MirBinOp::Gt => ("icmp sgt", false),
            MirBinOp::Le => ("icmp sle", false),
            MirBinOp::Ge => ("icmp sge", false),
            MirBinOp::FEq => ("fcmp oeq", false),
            MirBinOp::FNe => ("fcmp one", false),
            MirBinOp::FLt => ("fcmp olt", false),
            MirBinOp::FGt => ("fcmp ogt", false),
            MirBinOp::FLe => ("fcmp ole", false),
            MirBinOp::FGe => ("fcmp oge", false),
            MirBinOp::And => ("and", false),
            MirBinOp::Or => ("or", false),
            MirBinOp::Shl => ("shl", true),
            MirBinOp::Shr => ("ashr", true),
            MirBinOp::Band => ("and", true),
            MirBinOp::Bor => ("or", true),
            MirBinOp::Bxor => ("xor", true),
            MirBinOp::Implies => ("or", false),
        }
    }

    /// A unique SSA name for one more definition of `name`.
    pub fn unique_name(&self, name: &str, name_counts: &mut NameMap<u32>) -> (r: String)
        ensures
            count_map(*final(name_counts)) == count_map(*old(name_counts)).insert(
                name@,
                bumped(count_map(*old(name_counts)), name@),
            ),
            r@ == unique_name_spec(name@, bumped(count_map(*old(name_counts)), name@)),
    {
        let count: u32 = match name_counts.get(name) {
            Some(c) => if *c == u32::MAX { 0 } else { *c + 1 },
            None => 1,
        };
        name_counts.insert(name, count);
        assert(count_map(*name_counts) =~= count_map(*old(name_counts)).insert(name@, count));
        if count == 1 {
            name.to_owned()
        } else {
            let mut r = name.to_owned();
            push_str(&mut r, "_");
            let k: u32 = if count == 0 { u32::MAX } else { count - 1 };
            append_u64(&mut r, k as u64);
            assert(r@ =~= unique_name_spec(name@, count));
            r
        }
    }
}

/// Successive definitions of one name get distinct SSA names: the name
/// itself, then `name_1`, `name_2`, and so on, as long as the counter does
/// not wrap around.
pub proof fn lemma_unique_names_distinct(name: Seq<char>, c1: u32, c2: u32)
    requires
        1 <= c1,
        1 <= c2,
        c1 != c2,
    ensures
        unique_name_spec(name, c1) != unique_name_spec(name, c2),
{
    let u = "_"@;
    crate::text::lemma_dec_nat_nonempty((c1 - 1) as nat);
    crate::text::lemma_dec_nat_nonempty((c2 - 1) as nat);
    assert(((c1 as int - 1) % 0x1_0000_0000) as nat == (c1 - 1) as nat);
    assert(((c2 as int - 1) % 0x1_0000_0000) as nat == (c2 - 1) as nat);
    if c1 > 1 && c2 > 1 {
        let n1 = unique_name_spec(name, c1);
        let n2 = unique_name_spec(name, c2);
        if n1 == n2 {
            let k = name.len() + u.len();
            assert(dec_nat((c1 - 1) as nat) =~= n1.subrange(k as int, n1.len() as int));
            assert(dec_nat((c2 - 1) as nat) =~= n2.subrange(k as int, n2.len() as int));
            crate::text::lemma_dec_nat_injective((c1 - 1) as nat, (c2 - 1) as nat);
        }
    } else if c1 == 1 {
        assert(unique_name_spec(name, c2).len() > name.len());
    } else {
        assert(unique_name_spec(name, c1).len() > name.len());
    }
}

/// The value of an upper-case hexadecimal digit.
pub open spec fn hex_value(c: char) -> nat {
    if '0' <= c <= '9' {
        (c as nat - '0' as nat) as nat
    } else {
        (c as nat - 'A' as nat + 10) as nat
    }
}

/// The bytes an LLVM string constant's text stands for: `\XX` is the byte
/// with hexadecimal value `XX`, any other character is its own byte.
pub open spec fn llvm_unescape(s: Seq<char>) -> Seq<u8>
    decreases s.len(),
{
    if s.len() == 0 {
        Seq::empty()
    } else if s[0] == '\\' && s.len() >= 3 {
        seq![(hex_value(s[1]) * 16 + hex_value(s[2])) as u8] + llvm_unescape(s.subrange(3, s.len() as int))
    } else {
        seq![s[0] as u8] + llvm_unescape(s.drop_first())
    }
}

/// Escaping a concatenation escapes each part.
pub proof fn lemma_llvm_escape_append(a: Seq<u8>, b: Seq<u8>)
    ensures
        llvm_escape(a + b) == llvm_escape(a) + llvm_escape(b),
    decreases b.len(),
{
    if b.len() == 0 {
        assert(a + b =~= a);
    } else {
        lemma_llvm_escape_append(a, b.drop_last());
        assert((a + b).drop_last() =~= a + b.drop_last());
        assert((a + b).last() == b.last());
    }
}

/// A hexadecimal digit's value is the value it was made for.
proof fn lemma_hex_digit_value(d: nat)
    requires
        d < 16,
    ensures
        hex_value(hex_digit(d)) == d,
{
}

/// Decoding an escaped byte in front of more text gives the byte in front
/// of what the rest decodes to.
proof fn lemma_unescape_byte(c: u8, rest: Seq<char>)
    ensures
        llvm_unescape(llvm_escaped_byte(c) + rest) == seq![c] + llvm_unescape(rest),
{
    let piece = llvm_escaped_byte(c);
    let t = piece + rest;
    if (0x20 <= c <= 0x21) || (0x23 <= c <= 0x5b) || (0x5d <= c <= 0x7e) {
        assert(t[0] == c as char);
        assert(t.drop_first() =~= rest);
        assert((c as char) as u8 == c);
    } else {
        lemma_hex_digit_value((c / 16) as nat);
        lemma_hex_digit_value((c % 16) as nat);
        assert(t[0] == '\\');
        assert(t[1] == hex_digit((c / 16) as nat));
        assert(t[2] == hex_digit((c % 16) as nat));
        assert(t.subrange(3, t.len() as int) =~= rest);
        assert(((c / 16) as nat * 16 + (c % 16) as nat) as u8 == c);
    }
}

/// Escaping a string for an LLVM string constant loses nothing: decoding
/// the escaped text gives back the bytes.
pub proof fn lemma_llvm_escape_decodes(b: Seq<u8>)
    ensures
        llvm_unescape(llvm_escape(b)) == b,
    decreases b.len(),
{
    if b.len() > 0 {
        let first = seq![b[0]];
        assert(b =~= first + b.drop_first());
        lemma_llvm_escape_append(first, b.drop_first());
        assert(first.drop_last() =~= Seq::<u8>::empty());
        assert(first.last() == b[0]);
        assert(llvm_escape(first.drop_last()) =~= Seq::<char>::empty());
        assert(llvm_escape(first) =~= llvm_escape(first.drop_last()) + llvm_escaped_byte(first.last()));
        assert(llvm_escape(first) =~= llvm_escaped_byte(b[0]));
        lemma_unescape_byte(b[0], llvm_escape(b.drop_first()));
        lemma_llvm_escape_decodes(b.drop_first());
    }
}

} // verus!
