//! Compile errors and warnings: their constructors, spans, messages, kinds,
//! and the text that reports show for them.

use vstd::prelude::*;

use crate::ast::Span;
use crate::text::{append_i64, append_u64, dec_int, dec_nat, push_str};

verus! {

/// Compile warning: a non-fatal diagnostic.
#[derive(Debug, Clone)]
pub enum CompileWarning {
    /// Unreachable pattern arm in a match expression
    UnreachablePattern { message: String, span: Span, arm_index: usize },
    /// Unused variable binding
    UnusedBinding { name: String, span: Span },
    /// Redundant pattern (subset of another pattern)
    RedundantPattern { message: String, span: Span },
    /// Integer range may overflow
    IntegerRangeOverflow { message: String, span: Span },
    /// Match with guards but no unconditional fallback
    GuardedNonExhaustive { span: Span },
    /// Mutable variable that is never mutated
    UnusedMut { name: String, span: Span },
    /// Unreachable code after a divergent expression
    UnreachableCode { span: Span },
    /// Import that is never used
    UnusedImport { name: String, span: Span },
    /// Private function that is never called
    UnusedFunction { name: String, span: Span },
    /// Private type definition that is never used
    UnusedType { name: String, span: Span },
    /// Private enum definition that is never used
    UnusedEnum { name: String, span: Span },
    /// Variable shadows a binding of an outer scope
    ShadowBinding { name: String, span: Span, original_span: Span },
    /// Private trait that is never implemented
    UnusedTrait { name: String, span: Span },
    /// Function defined more than once (the later definition wins)
    DuplicateFunction { name: String, span: Span, original_span: Span },
    /// Function without an explicit postcondition
    MissingPostcondition { name: String, span: Span },
    /// Two functions with equivalent contracts
    SemanticDuplication { name: String, duplicate_of: String, span: Span },
    /// Contract that is always true
    TrivialContract { name: String, contract_kind: String, span: Span },
    /// Match with one specific arm and one wildcard
    SingleArmMatch { span: Span },
    /// Cast of a value to its own type
    RedundantCast { ty: String, span: Span },
    /// `if`/`while` with a literal condition
    ConstantCondition { value: bool, context: String, span: Span },
    /// A variable compared with itself
    SelfComparison { name: String, op: String, span: Span },
    /// `x == true` or `x == false`
    RedundantBoolComparison { value: bool, span: Span },
    /// The same pattern in more than one arm
    DuplicateMatchArm { pattern: String, span: Span },
    /// Literal division that does not divide evenly
    IntDivisionTruncation { left: i64, right: i64, span: Span },
    /// Non-unit return value discarded
    UnusedReturnValue { func: String, span: Span },
    /// Function name that is not snake_case
    NonSnakeCaseFunction { name: String, suggestion: String, span: Span },
    /// Struct, enum or trait name that is not PascalCase
    NonPascalCaseType { name: String, suggestion: String, kind: String, span: Span },
    /// `x + 0`, `x * 1`, `x - 0`, `x / 1`
    IdentityOperation { expr: String, span: Span },
    /// `if not x { a } else { b }`
    NegatedIfCondition { span: Span },
    /// Any other warning, with or without a span
    Generic { message: String, span: Option<Span> },
}

/// The span a warning points at.
pub open spec fn warning_span(w: CompileWarning) -> Option<Span> {
    match w {
        CompileWarning::UnreachablePattern { span, .. } => Some(span),
        CompileWarning::UnusedBinding { span, .. } => Some(span),
        CompileWarning::RedundantPattern { span, .. } => Some(span),
        CompileWarning::IntegerRangeOverflow { span, .. } => Some(span),
        CompileWarning::GuardedNonExhaustive { span } => Some(span),
        CompileWarning::UnusedMut { span, .. } => Some(span),
        CompileWarning::UnreachableCode { span } => Some(span),
        CompileWarning::UnusedImport { span, .. } => Some(span),
        CompileWarning::UnusedFunction { span, .. } => Some(span),
        CompileWarning::UnusedType { span, .. } => Some(span),
        CompileWarning::UnusedEnum { span, .. } => Some(span),
        CompileWarning::ShadowBinding { span, .. } => Some(span),
        CompileWarning::UnusedTrait { span, .. } => Some(span),
        CompileWarning::DuplicateFunction { span, .. } => Some(span),
        CompileWarning::MissingPostcondition { span, .. } => Some(span),
        CompileWarning::SemanticDuplication { span, .. } => Some(span),
        CompileWarning::TrivialContract { span, .. } => Some(span),
        CompileWarning::SingleArmMatch { span } => Some(span),
        CompileWarning::RedundantCast { span, .. } => Some(span),
        CompileWarning::ConstantCondition { span, .. } => Some(span),
        CompileWarning::SelfComparison { span, .. } => Some(span),
        CompileWarning::RedundantBoolComparison { span, .. } => Some(span),
        CompileWarning::DuplicateMatchArm { span, .. } => Some(span),
        CompileWarning::IntDivisionTruncation { span, .. } => Some(span),
        CompileWarning::UnusedReturnValue { span, .. } => Some(span),
        CompileWarning::NonSnakeCaseFunction { span, .. } => Some(span),
        CompileWarning::NonPascalCaseType { span, .. } => Some(span),
        CompileWarning::IdentityOperation { span, .. } => Some(span),
        CompileWarning::NegatedIfCondition { span } => Some(span),
        CompileWarning::Generic { span, .. } => span,
    }
}

/// The machine-readable kind of a warning.
pub open spec fn warning_kind(w: CompileWarning) -> Seq<char> {
    match w {
        CompileWarning::UnreachablePattern { .. } => "unreachable_pattern"@,
        CompileWarning::UnusedBinding { .. } => "unused_binding"@,
        CompileWarning::RedundantPattern { .. } => "redundant_pattern"@,
        CompileWarning::IntegerRangeOverflow { .. } => "integer_range_overflow"@,
        CompileWarning::GuardedNonExhaustive { .. } => "guarded_non_exhaustive"@,
        CompileWarning::UnusedMut { .. } => "unused_mut"@,
        CompileWarning::UnreachableCode { .. } => "unreachable_code"@,
        CompileWarning::UnusedImport { .. } => "unused_import"@,
        CompileWarning::UnusedFunction { .. } => "unused_function"@,
        CompileWarning::UnusedType { .. } => "unused_type"@,
        CompileWarning::UnusedEnum { .. } => "unused_enum"@,
        CompileWarning::ShadowBinding { .. } => "shadow_binding"@,
        CompileWarning::UnusedTrait { .. } => "unused_trait"@,
        CompileWarning::DuplicateFunction { .. } => "duplicate_function"@,
        CompileWarning::MissingPostcondition { .. } => "missing_postcondition"@,
        CompileWarning::SemanticDuplication { .. } => "semantic_duplication"@,
        CompileWarning::TrivialContract { .. } => "trivial_contract"@,
        CompileWarning::NonSnakeCaseFunction { .. } => "non_snake_case"@,
        CompileWarning::NonPascalCaseType { .. } => "non_pascal_case"@,
        CompileWarning::SingleArmMatch { .. } => "single_arm_match"@,
        CompileWarning::RedundantCast { .. } => "redundant_cast"@,
        CompileWarning::ConstantCondition { .. } => "constant_condition"@,
        CompileWarning::SelfComparison { .. } => "self_comparison"@,
        CompileWarning::RedundantBoolComparison { .. } => "redundant_bool_comparison"@,
        CompileWarning::DuplicateMatchArm { .. } => "duplicate_match_arm"@,
        CompileWarning::IntDivisionTruncation { .. } => "int_division_truncation"@,
        CompileWarning::UnusedReturnValue { .. } => "unused_return_value"@,
        CompileWarning::IdentityOperation { .. } => "identity_operation"@,
        CompileWarning::NegatedIfCondition { .. } => "negated_if_condition"@,
        CompileWarning::Generic { .. } => "warning"@,
    }
}

/// The position of a warning's variant in the declaration of
/// `CompileWarning`, from 0.
pub open spec fn warning_variant(w: CompileWarning) -> int {
    match w {
        CompileWarning::UnreachablePattern { .. } => 0,
        CompileWarning::UnusedBinding { .. } => 1,
        CompileWarning::RedundantPattern { .. } => 2,
        CompileWarning::IntegerRangeOverflow { .. } => 3,
        CompileWarning::GuardedNonExhaustive { .. } => 4,
        CompileWarning::UnusedMut { .. } => 5,
        CompileWarning::UnreachableCode { .. } => 6,
        CompileWarning::UnusedImport { .. } => 7,
        CompileWarning::UnusedFunction { .. } => 8,
        CompileWarning::UnusedType { .. } => 9,
        CompileWarning::UnusedEnum { .. } => 10,
        CompileWarning::ShadowBinding { .. } => 11,
        CompileWarning::UnusedTrait { .. } => 12,
        CompileWarning::DuplicateFunction { .. } => 13,
        CompileWarning::MissingPostcondition { .. } => 14,
        CompileWarning::SemanticDuplication { .. } => 15,
        CompileWarning::TrivialContract { .. } => 16,
        CompileWarning::NonSnakeCaseFunction { .. } => 17,
        CompileWarning::NonPascalCaseType { .. } => 18,
        CompileWarning::SingleArmMatch { .. } => 19,
        CompileWarning::RedundantCast { .. } => 20,
        CompileWarning::ConstantCondition { .. } => 21,
        CompileWarning::SelfComparison { .. } => 22,
        CompileWarning::RedundantBoolComparison { .. } => 23,
        CompileWarning::DuplicateMatchArm { .. } => 24,
        CompileWarning::IntDivisionTruncation { .. } => 25,
        CompileWarning::UnusedReturnValue { .. } => 26,
        CompileWarning::IdentityOperation { .. } => 27,
        CompileWarning::NegatedIfCondition { .. } => 28,
        CompileWarning::Generic { .. } => 29,
    }
}

/// The position of the warning variant whose kind is `tag`, -1 for a tag
/// of no warning.
pub open spec fn kind_variant(tag: Seq<char>) -> int {
    if tag == "unreachable_pattern"@ {
        0
    }     else if tag == "unused_binding"@ {
        1
    }     else if tag == "redundant_pattern"@ {
        2
    }     else if tag == "integer_range_overflow"@ {
        3
    }     else if tag == "guarded_non_exhaustive"@ {
        4
    }     else if tag == "unused_mut"@ {
        5
    }     else if tag == "unreachable_code"@ {
        6
    }     else if tag == "unused_import"@ {
        7
    }     else if tag == "unused_function"@ {
        8
    }     else if tag == "unused_type"@ {
        9
    }     else if tag == "unused_enum"@ {
        10
    }     else if tag == "shadow_binding"@ {
        11
    }     else if tag == "unused_trait"@ {
        12
    }     else if tag == "duplicate_function"@ {
        13
    }     else if tag == "missing_postcondition"@ {
        14
    }     else if tag == "semantic_duplication"@ {
        15
    }     else if tag == "trivial_contract"@ {
        16
    }     else if tag == "non_snake_case"@ {
        17
    }     else if tag == "non_pascal_case"@ {
        18
    }     else if tag == "single_arm_match"@ {
        19
    }     else if tag == "redundant_cast"@ {
        20
    }     else if tag == "constant_condition"@ {
        21
    }     else if tag == "self_comparison"@ {
        22
    }     else if tag == "redundant_bool_comparison"@ {
        23
    }     else if tag == "duplicate_match_arm"@ {
        24
    }     else if tag == "int_division_truncation"@ {
        25
    }     else if tag == "unused_return_value"@ {
        26
    }     else if tag == "identity_operation"@ {
        27
    }     else if tag == "negated_if_condition"@ {
        28
    }     else if tag == "warning"@ {
        29
    } else {
        -1
    }
}

/// A warning's kind names its variant.
pub proof fn lemma_kind_names_variant(w: CompileWarning)
    ensures
        kind_variant(warning_kind(w)) == warning_variant(w),
{
    match w {
        CompileWarning::UnreachablePattern { .. } => {
            reveal_strlit("unreachable_pattern");
        },
        CompileWarning::UnusedBinding { .. } => {
            reveal_strlit("unused_binding");
            reveal_strlit("unreachable_pattern");
            assert("unused_binding"@.len() != "unreachable_pattern"@.len());
        },
        CompileWarning::RedundantPattern { .. } => {
            reveal_strlit("redundant_pattern");
            reveal_strlit("unreachable_pattern");
            assert("redundant_pattern"@.len() != "unreachable_pattern"@.len());
            reveal_strlit("unused_binding");
            assert("redundant_pattern"@.len() != "unused_binding"@.len());
        },
        CompileWarning::IntegerRangeOverflow { .. } => {
            reveal_strlit("integer_range_overflow");
            reveal_strlit("unreachable_pattern");
            assert("integer_range_overflow"@.len() != "unreachable_pattern"@.len());
            reveal_strlit("unused_binding");
            assert("integer_range_overflow"@.len() != "unused_binding"@.len());
            reveal_strlit("redundant_pattern");
            assert("integer_range_overflow"@.len() != "redundant_pattern"@.len());
        },
        CompileWarning::GuardedNonExhaustive { .. } => {
            reveal_strlit("guarded_non_exhaustive");
            reveal_strlit("unreachable_pattern");
            assert("guarded_non_exhaustive"@.len() != "unreachable_pattern"@.len());
            reveal_strlit("unused_binding");
            assert("guarded_non_exhaustive"@.len() != "unused_binding"@.len());
            reveal_strlit("redundant_pattern");
            assert("guarded_non_exhaustive"@.len() != "redundant_pattern"@.len());
            reveal_strlit("integer_range_overflow");
            assert("guarded_non_exhaustive"@[0] != "integer_range_overflow"@[0]);
        },
        CompileWarning::UnusedMut { .. } => {
            reveal_strlit("unused_mut");
            reveal_strlit("unreachable_pattern");
            assert("unused_mut"@.len() != "unreachable_pattern"@.len());
            reveal_strlit("unused_binding");
            assert("unused_mut"@.len() != "unused_binding"@.len());
            reveal_strlit("redundant_pattern");
            assert("unused_mut"@.len() != "redundant_pattern"@.len());
            reveal_strlit("integer_range_overflow");
            assert("unused_mut"@.len() != "integer_range_overflow"@.len());
            reveal_strlit("guarded_non_exhaustive");
            assert("unused_mut"@.len() != "guarded_non_exhaustive"@.len());
        },
        CompileWarning::UnreachableCode { .. } => {
            reveal_strlit("unreachable_code");
            reveal_strlit("unreachable_pattern");
            assert("unreachable_code"@.len() != "unreachable_pattern"@.len());
            reveal_strlit("unused_binding");
            assert("unreachable_code"@.len() != "unused_binding"@.len());
            reveal_strlit("redundant_pattern");
            assert("unreachable_code"@.len() != "redundant_pattern"@.len());
            reveal_strlit("integer_range_overflow");
            assert("unreachable_code"@.len() != "integer_range_overflow"@.len());
            reveal_strlit("guarded_non_exhaustive");
            assert("unreachable_code"@.len() != "guarded_non_exhaustive"@.len());
            reveal_strlit("unused_mut");
            assert("unreachable_code"@.len() != "unused_mut"@.len());
        },
        CompileWarning::UnusedImport { .. } => {
            reveal_strlit("unused_import");
            reveal_strlit("unreachable_pattern");
            assert("unused_import"@.len() != "unreachable_pattern"@.len());
            reveal_strlit("unused_binding");
            assert("unused_import"@.len() != "unused_binding"@.len());
            reveal_strlit("redundant_pattern");
            assert("unused_import"@.len() != "redundant_pattern"@.len());
            reveal_strlit("integer_range_overflow");
            assert("unused_import"@.len() != "integer_range_overflow"@.len());
            reveal_strlit("guarded_non_exhaustive");
            assert("unused_import"@.len() != "guarded_non_exhaustive"@.len());
            reveal_strlit("unused_mut");
            assert("unused_import"@.len() != "unused_mut"@.len());
            reveal_strlit("unreachable_code");
            assert("unused_import"@.len() != "unreachable_code"@.len());
        },
        CompileWarning::UnusedFunction { .. } => {
            reveal_strlit("unused_function");
            reveal_strlit("unreachable_pattern");
            assert("unused_function"@.len() != "unreachable_pattern"@.len());
            reveal_strlit("unused_binding");
            assert("unused_function"@.len() != "unused_binding"@.len());
            reveal_strlit("redundant_pattern");
            assert("unused_function"@.len() != "redundant_pattern"@.len());
            reveal_strlit("integer_range_overflow");
            assert("unused_function"@.len() != "integer_range_overflow"@.len());
            reveal_strlit("guarded_non_exhaustive");
            assert("unused_function"@.len() != "guarded_non_exhaustive"@.len());
            reveal_strlit("unused_mut");
            assert("unused_function"@.len() != "unused_mut"@.len());
            reveal_strlit("unreachable_code");
            assert("unused_function"@.len() != "unreachable_code"@.len());
            reveal_strlit("unused_import");
            assert("unused_function"@.len() != "unused_import"@.len());
        },
        CompileWarning::UnusedType { .. } => {
            reveal_strlit("unused_type");
            reveal_strlit("unreachable_pattern");
            assert("unused_type"@.len() != "unreachable_pattern"@.len());
            reveal_strlit("unused_binding");
            assert("unused_type"@.len() != "unused_binding"@.len());
            reveal_strlit("redundant_pattern");
            assert("unused_type"@.len() != "redundant_pattern"@.len());
            reveal_strlit("integer_range_overflow");
            assert("unused_type"@.len() != "integer_range_overflow"@.len());
            reveal_strlit("guarded_non_exhaustive");
            assert("unused_type"@.len() != "guarded_non_exhaustive"@.len());
            reveal_strlit("unused_mut");
            assert("unused_type"@.len() != "unused_mut"@.len());
            reveal_strlit("unreachable_code");
            assert("unused_type"@.len() != "unreachable_code"@.len());
            reveal_strlit("unused_import");
            assert("unused_type"@.len() != "unused_import"@.len());
            reveal_strlit("unused_function");
            assert("unused_type"@.len() != "unused_function"@.len());
        },
        CompileWarning::UnusedEnum { .. } => {
            reveal_strlit("unused_enum");
            reveal_strlit("unreachable_pattern");
            assert("unused_enum"@.len() != "unreachable_pattern"@.len());
            reveal_strlit("unused_binding");
            assert("unused_enum"@.len() != "unused_binding"@.len());
            reveal_strlit("redundant_pattern");
            assert("unused_enum"@.len() != "redundant_pattern"@.len());
            reveal_strlit("integer_range_overflow");
            assert("unused_enum"@.len() != "integer_range_overflow"@.len());
            reveal_strlit("guarded_non_exhaustive");
            assert("unused_enum"@.len() != "guarded_non_exhaustive"@.len());
            reveal_strlit("unused_mut");
            assert("unused_enum"@.len() != "unused_mut"@.len());
            reveal_strlit("unreachable_code");
            assert("unused_enum"@.len() != "unreachable_code"@.len());
            reveal_strlit("unused_import");
            assert("unused_enum"@.len() != "unused_import"@.len());
            reveal_strlit("unused_function");
            assert("unused_enum"@.len() != "unused_function"@.len());
            reveal_strlit("unused_type");
            assert("unused_enum"@[7] != "unused_type"@[7]);
        },
        CompileWarning::ShadowBinding { .. } => {
            reveal_strlit("shadow_binding");
            reveal_strlit("unreachable_pattern");
            assert("shadow_binding"@.len() != "unreachable_pattern"@.len());
            reveal_strlit("unused_binding");
            assert("shadow_binding"@[0] != "unused_binding"@[0]);
            reveal_strlit("redundant_pattern");
            assert("shadow_binding"@.len() != "redundant_pattern"@.len());
            reveal_strlit("integer_range_overflow");
            assert("shadow_binding"@.len() != "integer_range_overflow"@.len());
            reveal_strlit("guarded_non_exhaustive");
            assert("shadow_binding"@.len() != "guarded_non_exhaustive"@.len());
            reveal_strlit("unused_mut");
            assert("shadow_binding"@.len() != "unused_mut"@.len());
            reveal_strlit("unreachable_code");
            assert("shadow_binding"@.len() != "unreachable_code"@.len());
            reveal_strlit("unused_import");
            assert("shadow_binding"@.len() != "unused_import"@.len());
            reveal_strlit("unused_function");
            assert("shadow_binding"@.len() != "unused_function"@.len());
            reveal_strlit("unused_type");
            assert("shadow_binding"@.len() != "unused_type"@.len());
            reveal_strlit("unused_enum");
            assert("shadow_binding"@.len() != "unused_enum"@.len());
        },
        CompileWarning::UnusedTrait { .. } => {
            reveal_strlit("unused_trait");
            reveal_strlit("unreachable_pattern");
            assert("unused_trait"@.len() != "unreachable_pattern"@.len());
            reveal_strlit("unused_binding");
            assert("unused_trait"@.len() != "unused_binding"@.len());
            reveal_strlit("redundant_pattern");
            assert("unused_trait"@.len() != "redundant_pattern"@.len());
            reveal_strlit("integer_range_overflow");
            assert("unused_trait"@.len() != "integer_range_overflow"@.len());
            reveal_strlit("guarded_non_exhaustive");
            assert("unused_trait"@.len() != "guarded_non_exhaustive"@.len());
            reveal_strlit("unused_mut");
            assert("unused_trait"@.len() != "unused_mut"@.len());
            reveal_strlit("unreachable_code");
            assert("unused_trait"@.len() != "unreachable_code"@.len());
            reveal_strlit("unused_import");
            assert("unused_trait"@.len() != "unused_import"@.len());
            reveal_strlit("unused_function");
            assert("unused_trait"@.len() != "unused_function"@.len());
            reveal_strlit("unused_type");
            assert("unused_trait"@.len() != "unused_type"@.len());
            reveal_strlit("unused_enum");
            assert("unused_trait"@.len() != "unused_enum"@.len());
            reveal_strlit("shadow_binding");
            assert("unused_trait"@.len() != "shadow_binding"@.len());
        },
        CompileWarning::DuplicateFunction { .. } => {
            reveal_strlit("duplicate_function");
            reveal_strlit("unreachable_pattern");
            assert("duplicate_function"@.len() != "unreachable_pattern"@.len());
            reveal_strlit("unused_binding");
            assert("duplicate_function"@.len() != "unused_binding"@.len());
            reveal_strlit("redundant_pattern");
            assert("duplicate_function"@.len() != "redundant_pattern"@.len());
            reveal_strlit("integer_range_overflow");
            assert("duplicate_function"@.len() != "integer_range_overflow"@.len());
            reveal_strlit("guarded_non_exhaustive");
            assert("duplicate_function"@.len() != "guarded_non_exhaustive"@.len());
            reveal_strlit("unused_mut");
            assert("duplicate_function"@.len() != "unused_mut"@.len());
            reveal_strlit("unreachable_code");
            assert("duplicate_function"@.len() != "unreachable_code"@.len());
            reveal_strlit("unused_import");
            assert("duplicate_function"@.len() != "unused_import"@.len());
            reveal_strlit("unused_function");
            assert("duplicate_function"@.len() != "unused_function"@.len());
            reveal_strlit("unused_type");
            assert("duplicate_function"@.len() != "unused_type"@.len());
            reveal_strlit("unused_enum");
            assert("duplicate_function"@.len() != "unused_enum"@.len());
            reveal_strlit("shadow_binding");
            assert("duplicate_function"@.len() != "shadow_binding"@.len());
            reveal_strlit("unused_trait");
            assert("duplicate_function"@.len() != "unused_trait"@.len());
        },
        CompileWarning::MissingPostcondition { .. } => {
            reveal_strlit("missing_postcondition");
            reveal_strlit("unreachable_pattern");
            assert("missing_postcondition"@.len() != "unreachable_pattern"@.len());
            reveal_strlit("unused_binding");
            assert("missing_postcondition"@.len() != "unused_binding"@.len());
            reveal_strlit("redundant_pattern");
            assert("missing_postcondition"@.len() != "redundant_pattern"@.len());
            reveal_strlit("integer_range_overflow");
            assert("missing_postcondition"@.len() != "integer_range_overflow"@.len());
            reveal_strlit("guarded_non_exhaustive");
            assert("missing_postcondition"@.len() != "guarded_non_exhaustive"@.len());
            reveal_strlit("unused_mut");
            assert("missing_postcondition"@.len() != "unused_mut"@.len());
            reveal_strlit("unreachable_code");
            assert("missing_postcondition"@.len() != "unreachable_code"@.len());
            reveal_strlit("unused_import");
            assert("missing_postcondition"@.len() != "unused_import"@.len());
            reveal_strlit("unused_function");
            assert("missing_postcondition"@.len() != "unused_function"@.len());
            reveal_strlit("unused_type");
            assert("missing_postcondition"@.len() != "unused_type"@.len());
            reveal_strlit("unused_enum");
            assert("missing_postcondition"@.len() != "unused_enum"@.len());
            reveal_strlit("shadow_binding");
            assert("missing_postcondition"@.len() != "shadow_binding"@.len());
            reveal_strlit("unused_trait");
            assert("missing_postcondition"@.len() != "unused_trait"@.len());
            reveal_strlit("duplicate_function");
            assert("missing_postcondition"@.len() != "duplicate_function"@.len());
        },
        CompileWarning::SemanticDuplication { .. } => {
            reveal_strlit("semantic_duplication");
            reveal_strlit("unreachable_pattern");
            assert("semantic_duplication"@.len() != "unreachable_pattern"@.len());
            reveal_strlit("unused_binding");
            assert("semantic_duplication"@.len() != "unused_binding"@.len());
            reveal_strlit("redundant_pattern");
            assert("semantic_duplication"@.len() != "redundant_pattern"@.len());
            reveal_strlit("integer_range_overflow");
            assert("semantic_duplication"@.len() != "integer_range_overflow"@.len());
            reveal_strlit("guarded_non_exhaustive");
            assert("semantic_duplication"@.len() != "guarded_non_exhaustive"@.len());
            reveal_strlit("unused_mut");
            assert("semantic_duplication"@.len() != "unused_mut"@.len());
            reveal_strlit("unreachable_code");
            assert("semantic_duplication"@.len() != "unreachable_code"@.len());
            reveal_strlit("unused_import");
            assert("semantic_duplication"@.len() != "unused_import"@.len());
            reveal_strlit("unused_function");
            assert("semantic_duplication"@.len() != "unused_function"@.len());
            reveal_strlit("unused_type");
            assert("semantic_duplication"@.len() != "unused_type"@.len());
            reveal_strlit("unused_enum");
            assert("semantic_duplication"@.len() != "unused_enum"@.len());
            reveal_strlit("shadow_binding");
            assert("semantic_duplication"@.len() != "shadow_binding"@.len());
            reveal_strlit("unused_trait");
            assert("semantic_duplication"@.len() != "unused_trait"@.len());
            reveal_strlit("duplicate_function");
            assert("semantic_duplication"@.len() != "duplicate_function"@.len());
            reveal_strlit("missing_postcondition");
            assert("semantic_duplication"@.len() != "missing_postcondition"@.len());
        },
        CompileWarning::TrivialContract { .. } => {
            reveal_strlit("trivial_contract");
            reveal_strlit("unreachable_pattern");
            assert("trivial_contract"@.len() != "unreachable_pattern"@.len());
            reveal_strlit("unused_binding");
            assert("trivial_contract"@.len() != "unused_binding"@.len());
            reveal_strlit("redundant_pattern");
            assert("trivial_contract"@.len() != "redundant_pattern"@.len());
            reveal_strlit("integer_range_overflow");
            assert("trivial_contract"@.len() != "integer_range_overflow"@.len());
            reveal_strlit("guarded_non_exhaustive");
            assert("trivial_contract"@.len() != "guarded_non_exhaustive"@.len());
            reveal_strlit("unused_mut");
            assert("trivial_contract"@.len() != "unused_mut"@.len());
            reveal_strlit("unreachable_code");
            assert("trivial_contract"@[0] != "unreachable_code"@[0]);
            reveal_strlit("unused_import");
            assert("trivial_contract"@.len() != "unused_import"@.len());
            reveal_strlit("unused_function");
            assert("trivial_contract"@.len() != "unused_function"@.len());
            reveal_strlit("unused_type");
            assert("trivial_contract"@.len() != "unused_type"@.len());
            reveal_strlit("unused_enum");
            assert("trivial_contract"@.len() != "unused_enum"@.len());
            reveal_strlit("shadow_binding");
            assert("trivial_contract"@.len() != "shadow_binding"@.len());
            reveal_strlit("unused_trait");
            assert("trivial_contract"@.len() != "unused_trait"@.len());
            reveal_strlit("duplicate_function");
            assert("trivial_contract"@.len() != "duplicate_function"@.len());
            reveal_strlit("missing_postcondition");
            assert("trivial_contract"@.len() != "missing_postcondition"@.len());
            reveal_strlit("semantic_duplication");
            assert("trivial_contract"@.len() != "semantic_duplication"@.len());
        },
        CompileWarning::NonSnakeCaseFunction { .. } => {
            reveal_strlit("non_snake_case");
            reveal_strlit("unreachable_pattern");
            assert("non_snake_case"@.len() != "unreachable_pattern"@.len());
            reveal_strlit("unused_binding");
            assert("non_snake_case"@[0] != "unused_binding"@[0]);
            reveal_strlit("redundant_pattern");
            assert("non_snake_case"@.len() != "redundant_pattern"@.len());
            reveal_strlit("integer_range_overflow");
            assert("non_snake_case"@.len() != "integer_range_overflow"@.len());
            reveal_strlit("guarded_non_exhaustive");
            assert("non_snake_case"@.len() != "guarded_non_exhaustive"@.len());
            reveal_strlit("unused_mut");
            assert("non_snake_case"@.len() != "unused_mut"@.len());
            reveal_strlit("unreachable_code");
            assert("non_snake_case"@.len() != "unreachable_code"@.len());
            reveal_strlit("unused_import");
            assert("non_snake_case"@.len() != "unused_import"@.len());
            reveal_strlit("unused_function");
            assert("non_snake_case"@.len() != "unused_function"@.len());
            reveal_strlit("unused_type");
            assert("non_snake_case"@.len() != "unused_type"@.len());
            reveal_strlit("unused_enum");
            assert("non_snake_case"@.len() != "unused_enum"@.len());
            reveal_strlit("shadow_binding");
            assert("non_snake_case"@[0] != "shadow_binding"@[0]);
            reveal_strlit("unused_trait");
            assert("non_snake_case"@.len() != "unused_trait"@.len());
            reveal_strlit("duplicate_function");
            assert("non_snake_case"@.len() != "duplicate_function"@.len());
            reveal_strlit("missing_postcondition");
            assert("non_snake_case"@.len() != "missing_postcondition"@.len());
            reveal_strlit("semantic_duplication");
            assert("non_snake_case"@.len() != "semantic_duplication"@.len());
            reveal_strlit("trivial_contract");
            assert("non_snake_case"@.len() != "trivial_contract"@.len());
        },
        CompileWarning::NonPascalCaseType { .. } => {
            reveal_strlit("non_pascal_case");
            reveal_strlit("unreachable_pattern");
            assert("non_pascal_case"@.len() != "unreachable_pattern"@.len());
            reveal_strlit("unused_binding");
            assert("non_pascal_case"@.len() != "unused_binding"@.len());
            reveal_strlit("redundant_pattern");
            assert("non_pascal_case"@.len() != "redundant_pattern"@.len());
            reveal_strlit("integer_range_overflow");
            assert("non_pascal_case"@.len() != "integer_range_overflow"@.len());
            reveal_strlit("guarded_non_exhaustive");
            assert("non_pascal_case"@.len() != "guarded_non_exhaustive"@.len());
            reveal_strlit("unused_mut");
            assert("non_pascal_case"@.len() != "unused_mut"@.len());
            reveal_strlit("unreachable_code");
            assert("non_pascal_case"@.len() != "unreachable_code"@.len());
            reveal_strlit("unused_import");
            assert("non_pascal_case"@.len() != "unused_import"@.len());
            reveal_strlit("unused_function");
            assert("non_pascal_case"@[0] != "unused_function"@[0]);
            reveal_strlit("unused_type");
            assert("non_pascal_case"@.len() != "unused_type"@.len());
            reveal_strlit("unused_enum");
            assert("non_pascal_case"@.len() != "unused_enum"@.len());
            reveal_strlit("shadow_binding");
            assert("non_pascal_case"@.len() != "shadow_binding"@.len());
            reveal_strlit("unused_trait");
            assert("non_pascal_case"@.len() != "unused_trait"@.len());
            reveal_strlit("duplicate_function");
            assert("non_pascal_case"@.len() != "duplicate_function"@.len());
            reveal_strlit("missing_postcondition");
            assert("non_pascal_case"@.len() != "missing_postcondition"@.len());
            reveal_strlit("semantic_duplication");
            assert("non_pascal_case"@.len() != "semantic_duplication"@.len());
            reveal_strlit("trivial_contract");
            assert("non_pascal_case"@.len() != "trivial_contract"@.len());
            reveal_strlit("non_snake_case");
            assert("non_pascal_case"@.len() != "non_snake_case"@.len());
        },
        CompileWarning::SingleArmMatch { .. } => {
            reveal_strlit("single_arm_match");
            reveal_strlit("unreachable_pattern");
            assert("single_arm_match"@.len() != "unreachable_pattern"@.len());
            reveal_strlit("unused_binding");
            assert("single_arm_match"@.len() != "unused_binding"@.len());
            reveal_strlit("redundant_pattern");
            assert("single_arm_match"@.len() != "redundant_pattern"@.len());
            reveal_strlit("integer_range_overflow");
            assert("single_arm_match"@.len() != "integer_range_overflow"@.len());
            reveal_strlit("guarded_non_exhaustive");
            assert("single_arm_match"@.len() != "guarded_non_exhaustive"@.len());
            reveal_strlit("unused_mut");
            assert("single_arm_match"@.len() != "unused_mut"@.len());
            reveal_strlit("unreachable_code");
            assert("single_arm_match"@[0] != "unreachable_code"@[0]);
            reveal_strlit("unused_import");
            assert("single_arm_match"@.len() != "unused_import"@.len());
            reveal_strlit("unused_function");
            assert("single_arm_match"@.len() != "unused_function"@.len());
            reveal_strlit("unused_type");
            assert("single_arm_match"@.len() != "unused_type"@.len());
            reveal_strlit("unused_enum");
            assert("single_arm_match"@.len() != "unused_enum"@.len());
            reveal_strlit("shadow_binding");
            assert("single_arm_match"@.len() != "shadow_binding"@.len());
            reveal_strlit("unused_trait");
            assert("single_arm_match"@.len() != "unused_trait"@.len());
            reveal_strlit("duplicate_function");
            assert("single_arm_match"@.len() != "duplicate_function"@.len());
            reveal_strlit("missing_postcondition");
            assert("single_arm_match"@.len() != "missing_postcondition"@.len());
            reveal_strlit("semantic_duplication");
            assert("single_arm_match"@.len() != "semantic_duplication"@.len());
            reveal_strlit("trivial_contract");
            assert("single_arm_match"@[0] != "trivial_contract"@[0]);
            reveal_strlit("non_snake_case");
            assert("single_arm_match"@.len() != "non_snake_case"@.len());
            reveal_strlit("non_pascal_case");
            assert("single_arm_match"@.len() != "non_pascal_case"@.len());
        },
        CompileWarning::RedundantCast { .. } => {
            reveal_strlit("redundant_cast");
            reveal_strlit("unreachable_pattern");
            assert("redundant_cast"@.len() != "unreachable_pattern"@.len());
            reveal_strlit("unused_binding");
            assert("redundant_cast"@[0] != "unused_binding"@[0]);
            reveal_strlit("redundant_pattern");
            assert("redundant_cast"@.len() != "redundant_pattern"@.len());
            reveal_strlit("integer_range_overflow");
            assert("redundant_cast"@.len() != "integer_range_overflow"@.len());
            reveal_strlit("guarded_non_exhaustive");
            assert("redundant_cast"@.len() != "guarded_non_exhaustive"@.len());
            reveal_strlit("unused_mut");
            assert("redundant_cast"@.len() != "unused_mut"@.len());
            reveal_strlit("unreachable_code");
            assert("redundant_cast"@.len() != "unreachable_code"@.len());
            reveal_strlit("unused_import");
            assert("redundant_cast"@.len() != "unused_import"@.len());
            reveal_strlit("unused_function");
            assert("redundant_cast"@.len() != "unused_function"@.len());
            reveal_strlit("unused_type");
            assert("redundant_cast"@.len() != "unused_type"@.len());
            reveal_strlit("unused_enum");
            assert("redundant_cast"@.len() != "unused_enum"@.len());
            reveal_strlit("shadow_binding");
            assert("redundant_cast"@[0] != "shadow_binding"@[0]);
            reveal_strlit("unused_trait");
            assert("redundant_cast"@.len() != "unused_trait"@.len());
            reveal_strlit("duplicate_function");
            assert("redundant_cast"@.len() != "duplicate_function"@.len());
            reveal_strlit("missing_postcondition");
            assert("redundant_cast"@.len() != "missing_postcondition"@.len());
            reveal_strlit("semantic_duplication");
            assert("redundant_cast"@.len() != "semantic_duplication"@.len());
            reveal_strlit("trivial_contract");
            assert("redundant_cast"@.len() != "trivial_contract"@.len());
            reveal_strlit("non_snake_case");
            assert("redundant_cast"@[0] != "non_snake_case"@[0]);
            reveal_strlit("non_pascal_case");
            assert("redundant_cast"@.len() != "non_pascal_case"@.len());
            reveal_strlit("single_arm_match");
            assert("redundant_cast"@.len() != "single_arm_match"@.len());
        },
        CompileWarning::ConstantCondition { .. } => {
            reveal_strlit("constant_condition");
            reveal_strlit("unreachable_pattern");
            assert("constant_condition"@.len() != "unreachable_pattern"@.len());
            reveal_strlit("unused_binding");
            assert("constant_condition"@.len() != "unused_binding"@.len());
            reveal_strlit("redundant_pattern");
            assert("constant_condition"@.len() != "redundant_pattern"@.len());
            reveal_strlit("integer_range_overflow");
            assert("constant_condition"@.len() != "integer_range_overflow"@.len());
            reveal_strlit("guarded_non_exhaustive");
            assert("constant_condition"@.len() != "guarded_non_exhaustive"@.len());
            reveal_strlit("unused_mut");
            assert("constant_condition"@.len() != "unused_mut"@.len());
            reveal_strlit("unreachable_code");
            assert("constant_condition"@.len() != "unreachable_code"@.len());
            reveal_strlit("unused_import");
            assert("constant_condition"@.len() != "unused_import"@.len());
            reveal_strlit("unused_function");
            assert("constant_condition"@.len() != "unused_function"@.len());
            reveal_strlit("unused_type");
            assert("constant_condition"@.len() != "unused_type"@.len());
            reveal_strlit("unused_enum");
            assert("constant_condition"@.len() != "unused_enum"@.len());
            reveal_strlit("shadow_binding");
            assert("constant_condition"@.len() != "shadow_binding"@.len());
            reveal_strlit("unused_trait");
            assert("constant_condition"@.len() != "unused_trait"@.len());
            reveal_strlit("duplicate_function");
            assert("constant_condition"@[0] != "duplicate_function"@[0]);
            reveal_strlit("missing_postcondition");
            assert("constant_condition"@.len() != "missing_postcondition"@.len());
            reveal_strlit("semantic_duplication");
            assert("constant_condition"@.len() != "semantic_duplication"@.len());
            reveal_strlit("trivial_contract");
            assert("constant_condition"@.len() != "trivial_contract"@.len());
            reveal_strlit("non_snake_case");
            assert("constant_condition"@.len() != "non_snake_case"@.len());
            reveal_strlit("non_pascal_case");
            assert("constant_condition"@.len() != "non_pascal_case"@.len());
            reveal_strlit("single_arm_match");
            assert("constant_condition"@.len() != "single_arm_match"@.len());
            reveal_strlit("redundant_cast");
            assert("constant_condition"@.len() != "redundant_cast"@.len());
        },
        CompileWarning::SelfComparison { .. } => {
            reveal_strlit("self_comparison");
            reveal_strlit("unreachable_pattern");
            assert("self_comparison"@.len() != "unreachable_pattern"@.len());
            reveal_strlit("unused_binding");
            assert("self_comparison"@.len() != "unused_binding"@.len());
            reveal_strlit("redundant_pattern");
            assert("self_comparison"@.len() != "redundant_pattern"@.len());
            reveal_strlit("integer_range_overflow");
            assert("self_comparison"@.len() != "integer_range_overflow"@.len());
            reveal_strlit("guarded_non_exhaustive");
            assert("self_comparison"@.len() != "guarded_non_exhaustive"@.len());
            reveal_strlit("unused_mut");
            assert("self_comparison"@.len() != "unused_mut"@.len());
            reveal_strlit("unreachable_code");
            assert("self_comparison"@.len() != "unreachable_code"@.len());
            reveal_strlit("unused_import");
            assert("self_comparison"@.len() != "unused_import"@.len());
            reveal_strlit("unused_function");
            assert("self_comparison"@[0] != "unused_function"@[0]);
            reveal_strlit("unused_type");
            assert("self_comparison"@.len() != "unused_type"@.len());
            reveal_strlit("unused_enum");
            assert("self_comparison"@.len() != "unused_enum"@.len());
            reveal_strlit("shadow_binding");
            assert("self_comparison"@.len() != "shadow_binding"@.len());
            reveal_strlit("unused_trait");
            assert("self_comparison"@.len() != "unused_trait"@.len());
            reveal_strlit("duplicate_function");
            assert("self_comparison"@.len() != "duplicate_function"@.len());
            reveal_strlit("missing_postcondition");
            assert("self_comparison"@.len() != "missing_postcondition"@.len());
            reveal_strlit("semantic_duplication");
            assert("self_comparison"@.len() != "semantic_duplication"@.len());
            reveal_strlit("trivial_contract");
            assert("self_comparison"@.len() != "trivial_contract"@.len());
            reveal_strlit("non_snake_case");
            assert("self_comparison"@.len() != "non_snake_case"@.len());
            reveal_strlit("non_pascal_case");
            assert("self_comparison"@[0] != "non_pascal_case"@[0]);
            reveal_strlit("single_arm_match");
            assert("self_comparison"@.len() != "single_arm_match"@.len());
            reveal_strlit("redundant_cast");
            assert("self_comparison"@.len() != "redundant_cast"@.len());
            reveal_strlit("constant_condition");
            assert("self_comparison"@.len() != "constant_condition"@.len());
        },
        CompileWarning::RedundantBoolComparison { .. } => {
            reveal_strlit("redundant_bool_comparison");
            reveal_strlit("unreachable_pattern");
            assert("redundant_bool_comparison"@.len() != "unreachable_pattern"@.len());
            reveal_strlit("unused_binding");
            assert("redundant_bool_comparison"@.len() != "unused_binding"@.len());
            reveal_strlit("redundant_pattern");
            assert("redundant_bool_comparison"@.len() != "redundant_pattern"@.len());
            reveal_strlit("integer_range_overflow");
            assert("redundant_bool_comparison"@.len() != "integer_range_overflow"@.len());
            reveal_strlit("guarded_non_exhaustive");
            assert("redundant_bool_comparison"@.len() != "guarded_non_exhaustive"@.len());
            reveal_strlit("unused_mut");
            assert("redundant_bool_comparison"@.len() != "unused_mut"@.len());
            reveal_strlit("unreachable_code");
            assert("redundant_bool_comparison"@.len() != "unreachable_code"@.len());
            reveal_strlit("unused_import");
            assert("redundant_bool_comparison"@.len() != "unused_import"@.len());
            reveal_strlit("unused_function");
            assert("redundant_bool_comparison"@.len() != "unused_function"@.len());
            reveal_strlit("unused_type");
            assert("redundant_bool_comparison"@.len() != "unused_type"@.len());
            reveal_strlit("unused_enum");
            assert("redundant_bool_comparison"@.len() != "unused_enum"@.len());
            reveal_strlit("shadow_binding");
            assert("redundant_bool_comparison"@.len() != "shadow_binding"@.len());
            reveal_strlit("unused_trait");
            assert("redundant_bool_comparison"@.len() != "unused_trait"@.len());
            reveal_strlit("duplicate_function");
            assert("redundant_bool_comparison"@.len() != "duplicate_function"@.len());
            reveal_strlit("missing_postcondition");
            assert("redundant_bool_comparison"@.len() != "missing_postcondition"@.len());
            reveal_strlit("semantic_duplication");
            assert("redundant_bool_comparison"@.len() != "semantic_duplication"@.len());
            reveal_strlit("trivial_contract");
            assert("redundant_bool_comparison"@.len() != "trivial_contract"@.len());
            reveal_strlit("non_snake_case");
            assert("redundant_bool_comparison"@.len() != "non_snake_case"@.len());
            reveal_strlit("non_pascal_case");
            assert("redundant_bool_comparison"@.len() != "non_pascal_case"@.len());
            reveal_strlit("single_arm_match");
            assert("redundant_bool_comparison"@.len() != "single_arm_match"@.len());
            reveal_strlit("redundant_cast");
            assert("redundant_bool_comparison"@.len() != "redundant_cast"@.len());
            reveal_strlit("constant_condition");
            assert("redundant_bool_comparison"@.len() != "constant_condition"@.len());
            reveal_strlit("self_comparison");
            assert("redundant_bool_comparison"@.len() != "self_comparison"@.len());
        },
        CompileWarning::DuplicateMatchArm { .. } => {
            reveal_strlit("duplicate_match_arm");
            reveal_strlit("unreachable_pattern");
            assert("duplicate_match_arm"@[0] != "unreachable_pattern"@[0]);
            reveal_strlit("unused_binding");
            assert("duplicate_match_arm"@.len() != "unused_binding"@.len());
            reveal_strlit("redundant_pattern");
            assert("duplicate_match_arm"@.len() != "redundant_pattern"@.len());
            reveal_strlit("integer_range_overflow");
            assert("duplicate_match_arm"@.len() != "integer_range_overflow"@.len());
            reveal_strlit("guarded_non_exhaustive");
            assert("duplicate_match_arm"@.len() != "guarded_non_exhaustive"@.len());
            reveal_strlit("unused_mut");
            assert("duplicate_match_arm"@.len() != "unused_mut"@.len());
            reveal_strlit("unreachable_code");
            assert("duplicate_match_arm"@.len() != "unreachable_code"@.len());
            reveal_strlit("unused_import");
            assert("duplicate_match_arm"@.len() != "unused_import"@.len());
            reveal_strlit("unused_function");
            assert("duplicate_match_arm"@.len() != "unused_function"@.len());
            reveal_strlit("unused_type");
            assert("duplicate_match_arm"@.len() != "unused_type"@.len());
            reveal_strlit("unused_enum");
            assert("duplicate_match_arm"@.len() != "unused_enum"@.len());
            reveal_strlit("shadow_binding");
            assert("duplicate_match_arm"@.len() != "shadow_binding"@.len());
            reveal_strlit("unused_trait");
            assert("duplicate_match_arm"@.len() != "unused_trait"@.len());
            reveal_strlit("duplicate_function");
            assert("duplicate_match_arm"@.len() != "duplicate_function"@.len());
            reveal_strlit("missing_postcondition");
            assert("duplicate_match_arm"@.len() != "missing_postcondition"@.len());
            reveal_strlit("semantic_duplication");
            assert("duplicate_match_arm"@.len() != "semantic_duplication"@.len());
            reveal_strlit("trivial_contract");
            assert("duplicate_match_arm"@.len() != "trivial_contract"@.len());
            reveal_strlit("non_snake_case");
            assert("duplicate_match_arm"@.len() != "non_snake_case"@.len());
            reveal_strlit("non_pascal_case");
            assert("duplicate_match_arm"@.len() != "non_pascal_case"@.len());
            reveal_strlit("single_arm_match");
            assert("duplicate_match_arm"@.len() != "single_arm_match"@.len());
            reveal_strlit("redundant_cast");
            assert("duplicate_match_arm"@.len() != "redundant_cast"@.len());
            reveal_strlit("constant_condition");
            assert("duplicate_match_arm"@.len() != "constant_condition"@.len());
            reveal_strlit("self_comparison");
            assert("duplicate_match_arm"@.len() != "self_comparison"@.len());
            reveal_strlit("redundant_bool_comparison");
            assert("duplicate_match_arm"@.len() != "redundant_bool_comparison"@.len());
        },
        CompileWarning::IntDivisionTruncation { .. } => {
            reveal_strlit("int_division_truncation");
            reveal_strlit("unreachable_pattern");
            assert("int_division_truncation"@.len() != "unreachable_pattern"@.len());
            reveal_strlit("unused_binding");
            assert("int_division_truncation"@.len() != "unused_binding"@.len());
            reveal_strlit("redundant_pattern");
            assert("int_division_truncation"@.len() != "redundant_pattern"@.len());
            reveal_strlit("integer_range_overflow");
            assert("int_division_truncation"@.len() != "integer_range_overflow"@.len());
            reveal_strlit("guarded_non_exhaustive");
            assert("int_division_truncation"@.len() != "guarded_non_exhaustive"@.len());
            reveal_strlit("unused_mut");
            assert("int_division_truncation"@.len() != "unused_mut"@.len());
            reveal_strlit("unreachable_code");
            assert("int_division_truncation"@.len() != "unreachable_code"@.len());
            reveal_strlit("unused_import");
            assert("int_division_truncation"@.len() != "unused_import"@.len());
            reveal_strlit("unused_function");
            assert("int_division_truncation"@.len() != "unused_function"@.len());
            reveal_strlit("unused_type");
            assert("int_division_truncation"@.len() != "unused_type"@.len());
            reveal_strlit("unused_enum");
            assert("int_division_truncation"@.len() != "unused_enum"@.len());
            reveal_strlit("shadow_binding");
            assert("int_division_truncation"@.len() != "shadow_binding"@.len());
            reveal_strlit("unused_trait");
            assert("int_division_truncation"@.len() != "unused_trait"@.len());
            reveal_strlit("duplicate_function");
            assert("int_division_truncation"@.len() != "duplicate_function"@.len());
            reveal_strlit("missing_postcondition");
            assert("int_division_truncation"@.len() != "missing_postcondition"@.len());
            reveal_strlit("semantic_duplication");
            assert("int_division_truncation"@.len() != "semantic_duplication"@.len());
            reveal_strlit("trivial_contract");
            assert("int_division_truncation"@.len() != "trivial_contract"@.len());
            reveal_strlit("non_snake_case");
            assert("int_division_truncation"@.len() != "non_snake_case"@.len());
            reveal_strlit("non_pascal_case");
            assert("int_division_truncation"@.len() != "non_pascal_case"@.len());
            reveal_strlit("single_arm_match");
            assert("int_division_truncation"@.len() != "single_arm_match"@.len());
            reveal_strlit("redundant_cast");
            assert("int_division_truncation"@.len() != "redundant_cast"@.len());
            reveal_strlit("constant_condition");
            assert("int_division_truncation"@.len() != "constant_condition"@.len());
            reveal_strlit("self_comparison");
            assert("int_division_truncation"@.len() != "self_comparison"@.len());
            reveal_strlit("redundant_bool_comparison");
            assert("int_division_truncation"@.len() != "redundant_bool_comparison"@.len());
            reveal_strlit("duplicate_match_arm");
            assert("int_division_truncation"@.len() != "duplicate_match_arm"@.len());
        },
        CompileWarning::UnusedReturnValue { .. } => {
            reveal_strlit("unused_return_value");
            reveal_strlit("unreachable_pattern");
            assert("unused_return_value"@[2] != "unreachable_pattern"@[2]);
            reveal_strlit("unused_binding");
            assert("unused_return_value"@.len() != "unused_binding"@.len());
            reveal_strlit("redundant_pattern");
            assert("unused_return_value"@.len() != "redundant_pattern"@.len());
            reveal_strlit("integer_range_overflow");
            assert("unused_return_value"@.len() != "integer_range_overflow"@.len());
            reveal_strlit("guarded_non_exhaustive");
            assert("unused_return_value"@.len() != "guarded_non_exhaustive"@.len());
            reveal_strlit("unused_mut");
            assert("unused_return_value"@.len() != "unused_mut"@.len());
            reveal_strlit("unreachable_code");
            assert("unused_return_value"@.len() != "unreachable_code"@.len());
            reveal_strlit("unused_import");
            assert("unused_return_value"@.len() != "unused_import"@.len());
            reveal_strlit("unused_function");
            assert("unused_return_value"@.len() != "unused_function"@.len());
            reveal_strlit("unused_type");
            assert("unused_return_value"@.len() != "unused_type"@.len());
            reveal_strlit("unused_enum");
            assert("unused_return_value"@.len() != "unused_enum"@.len());
            reveal_strlit("shadow_binding");
            assert("unused_return_value"@.len() != "shadow_binding"@.len());
            reveal_strlit("unused_trait");
            assert("unused_return_value"@.len() != "unused_trait"@.len());
            reveal_strlit("duplicate_function");
            assert("unused_return_value"@.len() != "duplicate_function"@.len());
            reveal_strlit("missing_postcondition");
            assert("unused_return_value"@.len() != "missing_postcondition"@.len());
            reveal_strlit("semantic_duplication");
            assert("unused_return_value"@.len() != "semantic_duplication"@.len());
            reveal_strlit("trivial_contract");
            assert("unused_return_value"@.len() != "trivial_contract"@.len());
            reveal_strlit("non_snake_case");
            assert("unused_return_value"@.len() != "non_snake_case"@.len());
            reveal_strlit("non_pascal_case");
            assert("unused_return_value"@.len() != "non_pascal_case"@.len());
            reveal_strlit("single_arm_match");
            assert("unused_return_value"@.len() != "single_arm_match"@.len());
            reveal_strlit("redundant_cast");
            assert("unused_return_value"@.len() != "redundant_cast"@.len());
            reveal_strlit("constant_condition");
            assert("unused_return_value"@.len() != "constant_condition"@.len());
            reveal_strlit("self_comparison");
            assert("unused_return_value"@.len() != "self_comparison"@.len());
            reveal_strlit("redundant_bool_comparison");
            assert("unused_return_value"@.len() != "redundant_bool_comparison"@.len());
            reveal_strlit("duplicate_match_arm");
            assert("unused_return_value"@[0] != "duplicate_match_arm"@[0]);
            reveal_strlit("int_division_truncation");
            assert("unused_return_value"@.len() != "int_division_truncation"@.len());
        },
        CompileWarning::IdentityOperation { .. } => {
            reveal_strlit("identity_operation");
            reveal_strlit("unreachable_pattern");
            assert("identity_operation"@.len() != "unreachable_pattern"@.len());
            reveal_strlit("unused_binding");
            assert("identity_operation"@.len() != "unused_binding"@.len());
            reveal_strlit("redundant_pattern");
            assert("identity_operation"@.len() != "redundant_pattern"@.len());
            reveal_strlit("integer_range_overflow");
            assert("identity_operation"@.len() != "integer_range_overflow"@.len());
            reveal_strlit("guarded_non_exhaustive");
            assert("identity_operation"@.len() != "guarded_non_exhaustive"@.len());
            reveal_strlit("unused_mut");
            assert("identity_operation"@.len() != "unused_mut"@.len());
            reveal_strlit("unreachable_code");
            assert("identity_operation"@.len() != "unreachable_code"@.len());
            reveal_strlit("unused_import");
            assert("identity_operation"@.len() != "unused_import"@.len());
            reveal_strlit("unused_function");
            assert("identity_operation"@.len() != "unused_function"@.len());
            reveal_strlit("unused_type");
            assert("identity_operation"@.len() != "unused_type"@.len());
            reveal_strlit("unused_enum");
            assert("identity_operation"@.len() != "unused_enum"@.len());
            reveal_strlit("shadow_binding");
            assert("identity_operation"@.len() != "shadow_binding"@.len());
            reveal_strlit("unused_trait");
            assert("identity_operation"@.len() != "unused_trait"@.len());
            reveal_strlit("duplicate_function");
            assert("identity_operation"@[0] != "duplicate_function"@[0]);
            reveal_strlit("missing_postcondition");
            assert("identity_operation"@.len() != "missing_postcondition"@.len());
            reveal_strlit("semantic_duplication");
            assert("identity_operation"@.len() != "semantic_duplication"@.len());
            reveal_strlit("trivial_contract");
            assert("identity_operation"@.len() != "trivial_contract"@.len());
            reveal_strlit("non_snake_case");
            assert("identity_operation"@.len() != "non_snake_case"@.len());
            reveal_strlit("non_pascal_case");
            assert("identity_operation"@.len() != "non_pascal_case"@.len());
            reveal_strlit("single_arm_match");
            assert("identity_operation"@.len() != "single_arm_match"@.len());
            reveal_strlit("redundant_cast");
            assert("identity_operation"@.len() != "redundant_cast"@.len());
            reveal_strlit("constant_condition");
            assert("identity_operation"@[0] != "constant_condition"@[0]);
            reveal_strlit("self_comparison");
            assert("identity_operation"@.len() != "self_comparison"@.len());
            reveal_strlit("redundant_bool_comparison");
            assert("identity_operation"@.len() != "redundant_bool_comparison"@.len());
            reveal_strlit("duplicate_match_arm");
            assert("identity_operation"@.len() != "duplicate_match_arm"@.len());
            reveal_strlit("int_division_truncation");
            assert("identity_operation"@.len() != "int_division_truncation"@.len());
            reveal_strlit("unused_return_value");
            assert("identity_operation"@.len() != "unused_return_value"@.len());
        },
        CompileWarning::NegatedIfCondition { .. } => {
            reveal_strlit("negated_if_condition");
            reveal_strlit("unreachable_pattern");
            assert("negated_if_condition"@.len() != "unreachable_pattern"@.len());
            reveal_strlit("unused_binding");
            assert("negated_if_condition"@.len() != "unused_binding"@.len());
            reveal_strlit("redundant_pattern");
            assert("negated_if_condition"@.len() != "redundant_pattern"@.len());
            reveal_strlit("integer_range_overflow");
            assert("negated_if_condition"@.len() != "integer_range_overflow"@.len());
            reveal_strlit("guarded_non_exhaustive");
            assert("negated_if_condition"@.len() != "guarded_non_exhaustive"@.len());
            reveal_strlit("unused_mut");
            assert("negated_if_condition"@.len() != "unused_mut"@.len());
            reveal_strlit("unreachable_code");
            assert("negated_if_condition"@.len() != "unreachable_code"@.len());
            reveal_strlit("unused_import");
            assert("negated_if_condition"@.len() != "unused_import"@.len());
            reveal_strlit("unused_function");
            assert("negated_if_condition"@.len() != "unused_function"@.len());
            reveal_strlit("unused_type");
            assert("negated_if_condition"@.len() != "unused_type"@.len());
            reveal_strlit("unused_enum");
            assert("negated_if_condition"@.len() != "unused_enum"@.len());
            reveal_strlit("shadow_binding");
            assert("negated_if_condition"@.len() != "shadow_binding"@.len());
            reveal_strlit("unused_trait");
            assert("negated_if_condition"@.len() != "unused_trait"@.len());
            reveal_strlit("duplicate_function");
            assert("negated_if_condition"@.len() != "duplicate_function"@.len());
            reveal_strlit("missing_postcondition");
            assert("negated_if_condition"@.len() != "missing_postcondition"@.len());
            reveal_strlit("semantic_duplication");
            assert("negated_if_condition"@[0] != "semantic_duplication"@[0]);
            reveal_strlit("trivial_contract");
            assert("negated_if_condition"@.len() != "trivial_contract"@.len());
            reveal_strlit("non_snake_case");
            assert("negated_if_condition"@.len() != "non_snake_case"@.len());
            reveal_strlit("non_pascal_case");
            assert("negated_if_condition"@.len() != "non_pascal_case"@.len());
            reveal_strlit("single_arm_match");
            assert("negated_if_condition"@.len() != "single_arm_match"@.len());
            reveal_strlit("redundant_cast");
            assert("negated_if_condition"@.len() != "redundant_cast"@.len());
            reveal_strlit("constant_condition");
            assert("negated_if_condition"@.len() != "constant_condition"@.len());
            reveal_strlit("self_comparison");
            assert("negated_if_condition"@.len() != "self_comparison"@.len());
            reveal_strlit("redundant_bool_comparison");
            assert("negated_if_condition"@.len() != "redundant_bool_comparison"@.len());
            reveal_strlit("duplicate_match_arm");
            assert("negated_if_condition"@.len() != "duplicate_match_arm"@.len());
            reveal_strlit("int_division_truncation");
            assert("negated_if_condition"@.len() != "int_division_truncation"@.len());
            reveal_strlit("unused_return_value");
            assert("negated_if_condition"@.len() != "unused_return_value"@.len());
            reveal_strlit("identity_operation");
            assert("negated_if_condition"@.len() != "identity_operation"@.len());
        },
        CompileWarning::Generic { .. } => {
            reveal_strlit("warning");
            reveal_strlit("unreachable_pattern");
            assert("warning"@.len() != "unreachable_pattern"@.len());
            reveal_strlit("unused_binding");
            assert("warning"@.len() != "unused_binding"@.len());
            reveal_strlit("redundant_pattern");
            assert("warning"@.len() != "redundant_pattern"@.len());
            reveal_strlit("integer_range_overflow");
            assert("warning"@.len() != "integer_range_overflow"@.len());
            reveal_strlit("guarded_non_exhaustive");
            assert("warning"@.len() != "guarded_non_exhaustive"@.len());
            reveal_strlit("unused_mut");
            assert("warning"@.len() != "unused_mut"@.len());
            reveal_strlit("unreachable_code");
            assert("warning"@.len() != "unreachable_code"@.len());
            reveal_strlit("unused_import");
            assert("warning"@.len() != "unused_import"@.len());
            reveal_strlit("unused_function");
            assert("warning"@.len() != "unused_function"@.len());
            reveal_strlit("unused_type");
            assert("warning"@.len() != "unused_type"@.len());
            reveal_strlit("unused_enum");
            assert("warning"@.len() != "unused_enum"@.len());
            reveal_strlit("shadow_binding");
            assert("warning"@.len() != "shadow_binding"@.len());
            reveal_strlit("unused_trait");
            assert("warning"@.len() != "unused_trait"@.len());
            reveal_strlit("duplicate_function");
            assert("warning"@.len() != "duplicate_function"@.len());
            reveal_strlit("missing_postcondition");
            assert("warning"@.len() != "missing_postcondition"@.len());
            reveal_strlit("semantic_duplication");
            assert("warning"@.len() != "semantic_duplication"@.len());
            reveal_strlit("trivial_contract");
            assert("warning"@.len() != "trivial_contract"@.len());
            reveal_strlit("non_snake_case");
            assert("warning"@.len() != "non_snake_case"@.len());
            reveal_strlit("non_pascal_case");
            assert("warning"@.len() != "non_pascal_case"@.len());
            reveal_strlit("single_arm_match");
            assert("warning"@.len() != "single_arm_match"@.len());
            reveal_strlit("redundant_cast");
            assert("warning"@.len() != "redundant_cast"@.len());
            reveal_strlit("constant_condition");
            assert("warning"@.len() != "constant_condition"@.len());
            reveal_strlit("self_comparison");
            assert("warning"@.len() != "self_comparison"@.len());
            reveal_strlit("redundant_bool_comparison");
            assert("warning"@.len() != "redundant_bool_comparison"@.len());
            reveal_strlit("duplicate_match_arm");
            assert("warning"@.len() != "duplicate_match_arm"@.len());
            reveal_strlit("int_division_truncation");
            assert("warning"@.len() != "int_division_truncation"@.len());
            reveal_strlit("unused_return_value");
            assert("warning"@.len() != "unused_return_value"@.len());
            reveal_strlit("identity_operation");
            assert("warning"@.len() != "identity_operation"@.len());
            reveal_strlit("negated_if_condition");
            assert("warning"@.len() != "negated_if_condition"@.len());
        },
    }
}

/// No two kinds of warning share a tag: two warnings of the same kind are
/// of the same variant.
pub proof fn lemma_warning_kinds_distinct(w1: CompileWarning, w2: CompileWarning)
    requires
        warning_kind(w1) == warning_kind(w2),
    ensures
        warning_variant(w1) == warning_variant(w2),
{
    lemma_kind_names_variant(w1);
    lemma_kind_names_variant(w2);
}

/// How `true` and `false` are written.
pub open spec fn bool_text(b: bool) -> Seq<char> {
    if b { "true"@ } else { "false"@ }
}

/// Integer division rounding toward zero, as Rust's `/` on integers.
pub open spec fn trunc_div(a: int, b: int) -> int {
    let q = abs(a) / abs(b);
    if (a < 0) != (b < 0) { -q } else { q }
}

/// The absolute value of an integer.
pub open spec fn abs(a: int) -> int {
    if a < 0 { -a } else { a }
}

/// The warnings whose message can be computed: an unreachable-pattern arm
/// index whose one-based number fits in `usize`, and a truncating division
/// that neither divides by zero nor overflows.
pub open spec fn message_defined(w: CompileWarning) -> bool {
    match w {
        CompileWarning::UnreachablePattern { arm_index, .. } => arm_index < usize::MAX,
        CompileWarning::IntDivisionTruncation { left, right, .. } => right != 0 && !(left
            == i64::MIN && right == -1),
        _ => true,
    }
}

/// The human-readable message of a warning.
pub open spec fn warning_message(w: CompileWarning) -> Seq<char> {
    match w {
        CompileWarning::UnreachablePattern { message, arm_index, .. } => "unreachable pattern (arm "@
            + dec_nat((arm_index + 1) as nat) + "): "@ + message@,
        CompileWarning::UnusedBinding { name, .. } => "unused variable: `"@ + name@ + "`"@,
        CompileWarning::RedundantPattern { message, .. } => "redundant pattern: "@ + message@,
        CompileWarning::IntegerRangeOverflow { message, .. } => "integer range overflow: "@
            + message@,
        CompileWarning::GuardedNonExhaustive { .. } =>
            "match with guards may not be exhaustive; add a wildcard pattern `_ => ...` to ensure all cases are covered"@,
        CompileWarning::UnusedMut { name, .. } => "variable `"@ + name@
            + "` is declared mutable but never mutated; consider using `let` instead of `let mut`"@,
        CompileWarning::UnreachableCode { .. } =>
            "unreachable code; this statement will never be executed"@,
        CompileWarning::UnusedImport { name, .. } => "unused import: `"@ + name@ + "`"@,
        CompileWarning::UnusedFunction { name, .. } => "function `"@ + name@ + "` is never used"@,
        CompileWarning::UnusedType { name, .. } => "type `"@ + name@ + "` is never used"@,
        CompileWarning::UnusedEnum { name, .. } => "enum `"@ + name@ + "` is never used"@,
        CompileWarning::ShadowBinding { name, .. } => "variable `"@ + name@
            + "` shadows a binding from an outer scope"@,
        CompileWarning::UnusedTrait { name, .. } => "trait `"@ + name@
            + "` is never implemented"@,
        CompileWarning::DuplicateFunction { name, .. } => "function `"@ + name@
            + "` is defined multiple times; later definition overrides earlier one"@,
        CompileWarning::MissingPostcondition { name, .. } => "function `"@ + name@
            + "` has no postcondition"@,
        CompileWarning::SemanticDuplication { name, duplicate_of, .. } => "function `"@ + name@
            + "` has equivalent contract to `"@ + duplicate_of@ + "`; consider consolidating"@,
        CompileWarning::TrivialContract { name, contract_kind, .. } => "function `"@ + name@
            + "`: "@ + contract_kind@
            + " is a tautology (always true); consider adding meaningful constraints"@,
        CompileWarning::NonSnakeCaseFunction { name, suggestion, .. } => "function `"@ + name@
            + "` should have a snake_case name; consider renaming to `"@ + suggestion@ + "`"@,
        CompileWarning::NonPascalCaseType { name, suggestion, kind, .. } => kind@ + " `"@
            + name@ + "` should have a PascalCase name; consider renaming to `"@ + suggestion@
            + "`"@,
        CompileWarning::SingleArmMatch { .. } =>
            "match with a single arm could be simplified to `if let`"@,
        CompileWarning::RedundantCast { ty, .. } => "redundant cast: expression is already of type `"@
            + ty@ + "`"@,
        CompileWarning::ConstantCondition { value, context, .. } => "`"@ + context@
            + "` condition is always `"@ + bool_text(value) + "`"@,
        CompileWarning::SelfComparison { name, op, .. } => "comparing `"@ + name@ + "` "@ + op@
            + " `"@ + name@ + "` is always the same result"@,
        CompileWarning::RedundantBoolComparison { value, .. } =>
            "redundant boolean comparison: comparing to `"@ + bool_text(value)
            + "` is unnecessary"@,
        CompileWarning::DuplicateMatchArm { pattern, .. } => "duplicate match arm: pattern `"@
            + pattern@ + "` appears more than once"@,
        CompileWarning::IntDivisionTruncation { left, right, .. } => "integer division `"@
            + dec_int(left as int) + " / "@ + dec_int(right as int) + "` truncates to `"@
            + dec_int(trunc_div(left as int, right as int)) + "`"@,
        CompileWarning::UnusedReturnValue { func, .. } => "return value of `"@ + func@
            + "` is unused"@,
        CompileWarning::IdentityOperation { expr, .. } => "identity operation `"@ + expr@
            + "` has no effect"@,
        CompileWarning::NegatedIfCondition { .. } =>
            "negated if condition: consider swapping branches to remove negation"@,
        CompileWarning::Generic { message, .. } => message@,
    }
}

/// How a warning is displayed: `warning[<kind>]: <message>`.
pub open spec fn warning_display(w: CompileWarning) -> Seq<char> {
    "warning["@ + warning_kind(w) + "]: "@ + warning_message(w)
}

fn bool_str(b: bool) -> (r: &'static str)
    ensures
        r@ == bool_text(b),
{
    if b { "true" } else { "false" }
}

/// Truncating division of two `i64`s that neither divides by zero nor
/// overflows.
fn div_trunc(a: i64, b: i64) -> (q: i64)
    requires
        b != 0,
        !(a == i64::MIN && b == -1),
    ensures
        q as int == trunc_div(a as int, b as int),
{
    let ua: u64 = if a < 0 {
        if a == i64::MIN { 9223372036854775808u64 } else { (-a) as u64 }
    } else {
        a as u64
    };
    let ub: u64 = if b < 0 {
        if b == i64::MIN { 9223372036854775808u64 } else { (-b) as u64 }
    } else {
        b as u64
    };
    let m = ua / ub;
    assert(m as int == abs(a as int) / abs(b as int));
    if (a < 0) != (b < 0) {
        // m is at most 2^63 here, and exactly 2^63 only for MIN / 1.
        assert(m <= 9223372036854775808u64) by (nonlinear_arith)
            requires
                m == ua / ub,
                ua <= 9223372036854775808u64,
                ub >= 1,
        ;
        if m == 9223372036854775808u64 {
            i64::MIN
        } else {
            -(m as i64)
        }
    } else {
        assert(m <= 9223372036854775807u64) by (nonlinear_arith)
            requires
                m == ua / ub,
                ua <= 9223372036854775808u64,
                ub >= 1,
                ub == 1 ==> ua <= 9223372036854775807u64,
        ;
        m as i64
    }
}

impl CompileWarning {
    /// An unreachable pattern warning.
    pub fn unreachable_pattern(message: &str, span: Span, arm_index: usize) -> (w: Self)
        ensures
            w is UnreachablePattern,
            w->UnreachablePattern_message@ == message@,
            w->UnreachablePattern_span == span,
            w->UnreachablePattern_arm_index == arm_index,
    {
        CompileWarning::UnreachablePattern { message: message.to_owned(), span, arm_index }
    }

    /// An unused binding warning.
    pub fn unused_binding(name: &str, span: Span) -> (w: Self)
        ensures
            w is UnusedBinding,
            w->UnusedBinding_name@ == name@,
            w->UnusedBinding_span == span,
    {
        CompileWarning::UnusedBinding { name: name.to_owned(), span }
    }

    /// A redundant pattern warning.
    pub fn redundant_pattern(message: &str, span: Span) -> (w: Self)
        ensures
            w is RedundantPattern,
            w->RedundantPattern_message@ == message@,
            w->RedundantPattern_span == span,
    {
        CompileWarning::RedundantPattern { message: message.to_owned(), span }
    }

    /// An integer range overflow warning.
    pub fn integer_range_overflow(message: &str, span: Span) -> (w: Self)
        ensures
            w is IntegerRangeOverflow,
            w->IntegerRangeOverflow_message@ == message@,
            w->IntegerRangeOverflow_span == span,
    {
        CompileWarning::IntegerRangeOverflow { message: message.to_owned(), span }
    }

    /// A generic warning.
    pub fn generic(message: &str, span: Option<Span>) -> (w: Self)
        ensures
            w is Generic,
            w->Generic_message@ == message@,
            w->Generic_span == span,
    {
        CompileWarning::Generic { message: message.to_owned(), span }
    }

    /// A guarded non-exhaustive match warning.
    pub fn guarded_non_exhaustive(span: Span) -> (w: Self)
        ensures
            w == (CompileWarning::GuardedNonExhaustive { span }),
    {
        CompileWarning::GuardedNonExhaustive { span }
    }

    /// An unused mutable binding warning.
    pub fn unused_mut(name: &str, span: Span) -> (w: Self)
        ensures
            w is UnusedMut,
            w->UnusedMut_name@ == name@,
            w->UnusedMut_span == span,
    {
        CompileWarning::UnusedMut { name: name.to_owned(), span }
    }

    /// An unreachable code warning.
    pub fn unreachable_code(span: Span) -> (w: Self)
        ensures
            w == (CompileWarning::UnreachableCode { span }),
    {
        CompileWarning::UnreachableCode { span }
    }

    /// An unused import warning.
    pub fn unused_import(name: &str, span: Span) -> (w: Self)
        ensures
            w is UnusedImport,
            w->UnusedImport_name@ == name@,
            w->UnusedImport_span == span,
    {
        CompileWarning::UnusedImport { name: name.to_owned(), span }
    }

    /// An unused function warning.
    pub fn unused_function(name: &str, span: Span) -> (w: Self)
        ensures
            w is UnusedFunction,
            w->UnusedFunction_name@ == name@,
            w->UnusedFunction_span == span,
    {
        CompileWarning::UnusedFunction { name: name.to_owned(), span }
    }

    /// An unused type warning.
    pub fn unused_type(name: &str, span: Span) -> (w: Self)
        ensures
            w is UnusedType,
            w->UnusedType_name@ == name@,
            w->UnusedType_span == span,
    {
        CompileWarning::UnusedType { name: name.to_owned(), span }
    }

    /// An unused enum warning.
    pub fn unused_enum(name: &str, span: Span) -> (w: Self)
        ensures
            w is UnusedEnum,
            w->UnusedEnum_name@ == name@,
            w->UnusedEnum_span == span,
    {
        CompileWarning::UnusedEnum { name: name.to_owned(), span }
    }

    /// A shadow binding warning.
    pub fn shadow_binding(name: &str, span: Span, original_span: Span) -> (w: Self)
        ensures
            w is ShadowBinding,
            w->ShadowBinding_name@ == name@,
            w->ShadowBinding_span == span,
            w->ShadowBinding_original_span == original_span,
    {
        CompileWarning::ShadowBinding { name: name.to_owned(), span, original_span }
    }

    /// An unused trait warning.
    pub fn unused_trait(name: &str, span: Span) -> (w: Self)
        ensures
            w is UnusedTrait,
            w->UnusedTrait_name@ == name@,
            w->UnusedTrait_span == span,
    {
        CompileWarning::UnusedTrait { name: name.to_owned(), span }
    }

    /// A duplicate function warning.
    pub fn duplicate_function(name: &str, span: Span, original_span: Span) -> (w: Self)
        ensures
            w is DuplicateFunction,
            w->DuplicateFunction_name@ == name@,
            w->DuplicateFunction_span == span,
            w->DuplicateFunction_original_span == original_span,
    {
        CompileWarning::DuplicateFunction { name: name.to_owned(), span, original_span }
    }

    /// A missing postcondition warning.
    pub fn missing_postcondition(name: &str, span: Span) -> (w: Self)
        ensures
            w is MissingPostcondition,
            w->MissingPostcondition_name@ == name@,
            w->MissingPostcondition_span == span,
    {
        CompileWarning::MissingPostcondition { name: name.to_owned(), span }
    }

    /// A semantic duplication warning.
    pub fn semantic_duplication(name: &str, duplicate_of: &str, span: Span) -> (w: Self)
        ensures
            w is SemanticDuplication,
            w->SemanticDuplication_name@ == name@,
            w->SemanticDuplication_duplicate_of@ == duplicate_of@,
            w->SemanticDuplication_span == span,
    {
        CompileWarning::SemanticDuplication {
            name: name.to_owned(),
            duplicate_of: duplicate_of.to_owned(),
            span,
        }
    }

    /// A trivial contract warning.
    pub fn trivial_contract(name: &str, contract_kind: &str, span: Span) -> (w: Self)
        ensures
            w is TrivialContract,
            w->TrivialContract_name@ == name@,
            w->TrivialContract_contract_kind@ == contract_kind@,
            w->TrivialContract_span == span,
    {
        CompileWarning::TrivialContract {
            name: name.to_owned(),
            contract_kind: contract_kind.to_owned(),
            span,
        }
    }

    /// A single-arm match warning.
    pub fn single_arm_match(span: Span) -> (w: Self)
        ensures
            w == (CompileWarning::SingleArmMatch { span }),
    {
        CompileWarning::SingleArmMatch { span }
    }

    /// A redundant cast warning.
    pub fn redundant_cast(ty: &str, span: Span) -> (w: Self)
        ensures
            w is RedundantCast,
            w->RedundantCast_ty@ == ty@,
            w->RedundantCast_span == span,
    {
        CompileWarning::RedundantCast { ty: ty.to_owned(), span }
    }

    /// A constant condition warning.
    pub fn constant_condition(value: bool, context: &str, span: Span) -> (w: Self)
        ensures
            w is ConstantCondition,
            w->ConstantCondition_value == value,
            w->ConstantCondition_context@ == context@,
            w->ConstantCondition_span == span,
    {
        CompileWarning::ConstantCondition { value, context: context.to_owned(), span }
    }

    /// A self-comparison warning.
    pub fn self_comparison(name: &str, op: &str, span: Span) -> (w: Self)
        ensures
            w is SelfComparison,
            w->SelfComparison_name@ == name@,
            w->SelfComparison_op@ == op@,
            w->SelfComparison_span == span,
    {
        CompileWarning::SelfComparison { name: name.to_owned(), op: op.to_owned(), span }
    }

    /// A redundant boolean comparison warning.
    pub fn redundant_bool_comparison(value: bool, span: Span) -> (w: Self)
        ensures
            w == (CompileWarning::RedundantBoolComparison { value, span }),
    {
        CompileWarning::RedundantBoolComparison { value, span }
    }

    /// A duplicate match arm warning.
    pub fn duplicate_match_arm(pattern: &str, span: Span) -> (w: Self)
        ensures
            w is DuplicateMatchArm,
            w->DuplicateMatchArm_pattern@ == pattern@,
            w->DuplicateMatchArm_span == span,
    {
        CompileWarning::DuplicateMatchArm { pattern: pattern.to_owned(), span }
    }

    /// An integer division truncation warning.
    pub fn int_division_truncation(left: i64, right: i64, span: Span) -> (w: Self)
        ensures
            w == (CompileWarning::IntDivisionTruncation { left, right, span }),
    {
        CompileWarning::IntDivisionTruncation { left, right, span }
    }

    /// An unused return value warning.
    pub fn unused_return_value(func: &str, span: Span) -> (w: Self)
        ensures
            w is UnusedReturnValue,
            w->UnusedReturnValue_func@ == func@,
            w->UnusedReturnValue_span == span,
    {
        CompileWarning::UnusedReturnValue { func: func.to_owned(), span }
    }

    /// A non-snake_case function name warning.
    pub fn non_snake_case_function(name: &str, suggestion: &str, span: Span) -> (w: Self)
        ensures
            w is NonSnakeCaseFunction,
            w->NonSnakeCaseFunction_name@ == name@,
            w->NonSnakeCaseFunction_suggestion@ == suggestion@,
            w->NonSnakeCaseFunction_span == span,
    {
        CompileWarning::NonSnakeCaseFunction {
            name: name.to_owned(),
            suggestion: suggestion.to_owned(),
            span,
        }
    }

    /// A non-PascalCase type name warning.
    pub fn non_pascal_case_type(name: &str, suggestion: &str, kind: &str, span: Span) -> (w: Self)
        ensures
            w is NonPascalCaseType,
            w->NonPascalCaseType_name@ == name@,
            w->NonPascalCaseType_suggestion@ == suggestion@,
            w->NonPascalCaseType_kind@ == kind@,
            w->NonPascalCaseType_span == span,
    {
        CompileWarning::NonPascalCaseType {
            name: name.to_owned(),
            suggestion: suggestion.to_owned(),
            kind: kind.to_owned(),
            span,
        }
    }

    /// An identity operation warning.
    pub fn identity_operation(expr: &str, span: Span) -> (w: Self)
        ensures
            w is IdentityOperation,
            w->IdentityOperation_expr@ == expr@,
            w->IdentityOperation_span == span,
    {
        CompileWarning::IdentityOperation { expr: expr.to_owned(), span }
    }

    /// A negated if condition warning.
    pub fn negated_if_condition(span: Span) -> (w: Self)
        ensures
            w == (CompileWarning::NegatedIfCondition { span }),
    {
        CompileWarning::NegatedIfCondition { span }
    }

    /// The span of this warning, if any.
    pub fn span(&self) -> (r: Option<Span>)
        ensures
            r == warning_span(*self),
    {
        match self {
            CompileWarning::UnreachablePattern { span, .. } => Some(*span),
            CompileWarning::UnusedBinding { span, .. } => Some(*span),
            CompileWarning::RedundantPattern { span, .. } => Some(*span),
            CompileWarning::IntegerRangeOverflow { span, .. } => Some(*span),
            CompileWarning::GuardedNonExhaustive { span } => Some(*span),
            CompileWarning::UnusedMut { span, .. } => Some(*span),
            CompileWarning::UnreachableCode { span } => Some(*span),
            CompileWarning::UnusedImport { span, .. } => Some(*span),
            CompileWarning::UnusedFunction { span, .. } => Some(*span),
            CompileWarning::UnusedType { span, .. } => Some(*span),
            CompileWarning::UnusedEnum { span, .. } => Some(*span),
            CompileWarning::ShadowBinding { span, .. } => Some(*span),
            CompileWarning::UnusedTrait { span, .. } => Some(*span),
            CompileWarning::DuplicateFunction { span, .. } => Some(*span),
            CompileWarning::MissingPostcondition { span, .. } => Some(*span),
            CompileWarning::SemanticDuplication { span, .. } => Some(*span),
            CompileWarning::TrivialContract { span, .. } => Some(*span),
            CompileWarning::SingleArmMatch { span } => Some(*span),
            CompileWarning::RedundantCast { span, .. } => Some(*span),
            CompileWarning::ConstantCondition { span, .. } => Some(*span),
            CompileWarning::SelfComparison { span, .. } => Some(*span),
            CompileWarning::RedundantBoolComparison { span, .. } => Some(*span),
            CompileWarning::DuplicateMatchArm { span, .. } => Some(*span),
            CompileWarning::IntDivisionTruncation { span, .. } => Some(*span),
            CompileWarning::UnusedReturnValue { span, .. } => Some(*span),
            CompileWarning::NonSnakeCaseFunction { span, .. } => Some(*span),
            CompileWarning::NonPascalCaseType { span, .. } => Some(*span),
            CompileWarning::IdentityOperation { span, .. } => Some(*span),
            CompileWarning::NegatedIfCondition { span } => Some(*span),
            CompileWarning::Generic { span, .. } => *span,
        }
    }

    /// Whether this warning's message can be computed (see
    /// `message_defined`).
    pub fn message_is_defined(&self) -> (r: bool)
        ensures
            r == message_defined(*self),
    {
        match self {
            CompileWarning::UnreachablePattern { arm_index, .. } => *arm_index < usize::MAX,
            CompileWarning::IntDivisionTruncation { left, right, .. } => *right != 0 && !(*left == i64::MIN
                && *right == -1),
            _ => true,
        }
    }

    /// The human-readable message of this warning.
    pub fn message(&self) -> (s: String)
        requires
            message_defined(*self),
        ensures
            s@ == warning_message(*self),
    {
        let mut s = String::new();
        match self {
            CompileWarning::UnreachablePattern { message, arm_index, .. } => {
                push_str(&mut s, "unreachable pattern (arm ");
                append_u64(&mut s, (*arm_index as u64) + 1);
                push_str(&mut s, "): ");
                push_str(&mut s, message.as_str());
            },
            CompileWarning::UnusedBinding { name, .. } => {
                push_str(&mut s, "unused variable: `");
                push_str(&mut s, name.as_str());
                push_str(&mut s, "`");
            },
            CompileWarning::RedundantPattern { message, .. } => {
                push_str(&mut s, "redundant pattern: ");
                push_str(&mut s, message.as_str());
            },
            CompileWarning::IntegerRangeOverflow { message, .. } => {
                push_str(&mut s, "integer range overflow: ");
                push_str(&mut s, message.as_str());
            },
            CompileWarning::GuardedNonExhaustive { .. } => {
                push_str(
                    &mut s,
                    "match with guards may not be exhaustive; add a wildcard pattern `_ => ...` to ensure all cases are covered",
                );
            },
            CompileWarning::UnusedMut { name, .. } => {
                push_str(&mut s, "variable `");
                push_str(&mut s, name.as_str());
                push_str(
                    &mut s,
                    "` is declared mutable but never mutated; consider using `let` instead of `let mut`",
                );
            },
            CompileWarning::UnreachableCode { .. } => {
                push_str(&mut s, "unreachable code; this statement will never be executed");
            },
            CompileWarning::UnusedImport { name, .. } => {
                push_str(&mut s, "unused import: `");
                push_str(&mut s, name.as_str());
                push_str(&mut s, "`");
            },
            CompileWarning::UnusedFunction { name, .. } => {
                push_str(&mut s, "function `");
                push_str(&mut s, name.as_str());
                push_str(&mut s, "` is never used");
            },
            CompileWarning::UnusedType { name, .. } => {
                push_str(&mut s, "type `");
                push_str(&mut s, name.as_str());
                push_str(&mut s, "` is never used");
            },
            CompileWarning::UnusedEnum { name, .. } => {
                push_str(&mut s, "enum `");
                push_str(&mut s, name.as_str());
                push_str(&mut s, "` is never used");
            },
            CompileWarning::ShadowBinding { name, .. } => {
                push_str(&mut s, "variable `");
                push_str(&mut s, name.as_str());
                push_str(&mut s, "` shadows a binding from an outer scope");
            },
            CompileWarning::UnusedTrait { name, .. } => {
                push_str(&mut s, "trait `");
                push_str(&mut s, name.as_str());
                push_str(&mut s, "` is never implemented");
            },
            CompileWarning::DuplicateFunction { name, .. } => {
                push_str(&mut s, "function `");
                push_str(&mut s, name.as_str());
                push_str(
                    &mut s,
                    "` is defined multiple times; later definition overrides earlier one",
                );
            },
            CompileWarning::MissingPostcondition { name, .. } => {
                push_str(&mut s, "function `");
                push_str(&mut s, name.as_str());
                push_str(&mut s, "` has no postcondition");
            },
            CompileWarning::SemanticDuplication { name, duplicate_of, .. } => {
                push_str(&mut s, "function `");
                push_str(&mut s, name.as_str());
                push_str(&mut s, "` has equivalent contract to `");
                push_str(&mut s, duplicate_of.as_str());
                push_str(&mut s, "`; consider consolidating");
            },
            CompileWarning::TrivialContract { name, contract_kind, .. } => {
                push_str(&mut s, "function `");
                push_str(&mut s, name.as_str());
                push_str(&mut s, "`: ");
                push_str(&mut s, contract_kind.as_str());
                push_str(
                    &mut s,
                    " is a tautology (always true); consider adding meaningful constraints",
                );
            },
            CompileWarning::NonSnakeCaseFunction { name, suggestion, .. } => {
                push_str(&mut s, "function `");
                push_str(&mut s, name.as_str());
                push_str(&mut s, "` should have a snake_case name; consider renaming to `");
                push_str(&mut s, suggestion.as_str());
                push_str(&mut s, "`");
            },
            CompileWarning::NonPascalCaseType { name, suggestion, kind, .. } => {
                push_str(&mut s, kind.as_str());
                push_str(&mut s, " `");
                push_str(&mut s, name.as_str());
                push_str(&mut s, "` should have a PascalCase name; consider renaming to `");
                push_str(&mut s, suggestion.as_str());
                push_str(&mut s, "`");
            },
            CompileWarning::SingleArmMatch { .. } => {
                push_str(&mut s, "match with a single arm could be simplified to `if let`");
            },
            CompileWarning::RedundantCast { ty, .. } => {
                push_str(&mut s, "redundant cast: expression is already of type `");
                push_str(&mut s, ty.as_str());
                push_str(&mut s, "`");
            },
            CompileWarning::ConstantCondition { value, context, .. } => {
                push_str(&mut s, "`");
                push_str(&mut s, context.as_str());
                push_str(&mut s, "` condition is always `");
                push_str(&mut s, bool_str(*value));
                push_str(&mut s, "`");
            },
            CompileWarning::SelfComparison { name, op, .. } => {
                push_str(&mut s, "comparing `");
                push_str(&mut s, name.as_str());
                push_str(&mut s, "` ");
                push_str(&mut s, op.as_str());
                push_str(&mut s, " `");
                push_str(&mut s, name.as_str());
                push_str(&mut s, "` is always the same result");
            },
            CompileWarning::RedundantBoolComparison { value, .. } => {
                push_str(&mut s, "redundant boolean comparison: comparing to `");
                push_str(&mut s, bool_str(*value));
                push_str(&mut s, "` is unnecessary");
            },
            CompileWarning::DuplicateMatchArm { pattern, .. } => {
                push_str(&mut s, "duplicate match arm: pattern `");
                push_str(&mut s, pattern.as_str());
                push_str(&mut s, "` appears more than once");
            },
            CompileWarning::IntDivisionTruncation { left, right, .. } => {
                push_str(&mut s, "integer division `");
                append_i64(&mut s, *left);
                push_str(&mut s, " / ");
                append_i64(&mut s, *right);
                push_str(&mut s, "` truncates to `");
                append_i64(&mut s, div_trunc(*left, *right));
                push_str(&mut s, "`");
            },
            CompileWarning::UnusedReturnValue { func, .. } => {
                push_str(&mut s, "return value of `");
                push_str(&mut s, func.as_str());
                push_str(&mut s, "` is unused");
            },
            CompileWarning::IdentityOperation { expr, .. } => {
                push_str(&mut s, "identity operation `");
                push_str(&mut s, expr.as_str());
                push_str(&mut s, "` has no effect");
            },
            CompileWarning::NegatedIfCondition { .. } => {
                push_str(
                    &mut s,
                    "negated if condition: consider swapping branches to remove negation",
                );
            },
            CompileWarning::Generic { message, .. } => {
                push_str(&mut s, message.as_str());
            },
        }
        assert(s@ =~= warning_message(*self));
        s
    }

    /// The warning's kind, as used in reports.
    pub fn kind(&self) -> (r: &'static str)
        ensures
            r@ == warning_kind(*self),
    {
        match self {
            CompileWarning::UnreachablePattern { .. } => "unreachable_pattern",
            CompileWarning::UnusedBinding { .. } => "unused_binding",
            CompileWarning::RedundantPattern { .. } => "redundant_pattern",
            CompileWarning::IntegerRangeOverflow { .. } => "integer_range_overflow",
            CompileWarning::GuardedNonExhaustive { .. } => "guarded_non_exhaustive",
            CompileWarning::UnusedMut { .. } => "unused_mut",
            CompileWarning::UnreachableCode { .. } => "unreachable_code",
            CompileWarning::UnusedImport { .. } => "unused_import",
            CompileWarning::UnusedFunction { .. } => "unused_function",
            CompileWarning::UnusedType { .. } => "unused_type",
            CompileWarning::UnusedEnum { .. } => "unused_enum",
            CompileWarning::ShadowBinding { .. } => "shadow_binding",
            CompileWarning::UnusedTrait { .. } => "unused_trait",
            CompileWarning::DuplicateFunction { .. } => "duplicate_function",
            CompileWarning::MissingPostcondition { .. } => "missing_postcondition",
            CompileWarning::SemanticDuplication { .. } => "semantic_duplication",
            CompileWarning::TrivialContract { .. } => "trivial_contract",
            CompileWarning::NonSnakeCaseFunction { .. } => "non_snake_case",
            CompileWarning::NonPascalCaseType { .. } => "non_pascal_case",
            CompileWarning::SingleArmMatch { .. } => "single_arm_match",
            CompileWarning::RedundantCast { .. } => "redundant_cast",
            CompileWarning::ConstantCondition { .. } => "constant_condition",
            CompileWarning::SelfComparison { .. } => "self_comparison",
            CompileWarning::RedundantBoolComparison { .. } => "redundant_bool_comparison",
            CompileWarning::DuplicateMatchArm { .. } => "duplicate_match_arm",
            CompileWarning::IntDivisionTruncation { .. } => "int_division_truncation",
            CompileWarning::UnusedReturnValue { .. } => "unused_return_value",
            CompileWarning::IdentityOperation { .. } => "identity_operation",
            CompileWarning::NegatedIfCondition { .. } => "negated_if_condition",
            CompileWarning::Generic { .. } => "warning",
        }
    }

    /// The warning as displayed: `warning[<kind>]: <message>`.
    pub fn display_string(&self) -> (s: String)
        requires
            message_defined(*self),
        ensures
            s@ == warning_display(*self),
    {
        let mut s = String::new();
        push_str(&mut s, "warning[");
        push_str(&mut s, self.kind());
        push_str(&mut s, "]: ");
        let m = self.message();
        push_str(&mut s, m.as_str());
        assert(s@ =~= warning_display(*self));
        s
    }
}

/// Compile error.
#[derive(Debug)]
pub enum CompileError {
    /// Lexer error at a span
    Lexer { message: String, span: Span },
    /// Parser error at a span
    Parser { message: String, span: Span },
    /// Type error at a span
    Type { message: String, span: Span },
    /// IO error
    Io { message: String },
    /// Parse error without a span
    Parse { message: String },
    /// Module resolution error, with an optional span
    Resolve { message: String, span: Option<Span> },
}

/// The span an error points at, if any.
pub open spec fn error_span(e: CompileError) -> Option<Span> {
    match e {
        CompileError::Lexer { span, .. } => Some(span),
        CompileError::Parser { span, .. } => Some(span),
        CompileError::Type { span, .. } => Some(span),
        CompileError::Resolve { span, .. } => span,
        CompileError::Io { .. } => None,
        CompileError::Parse { .. } => None,
    }
}

/// The message an error carries.
pub open spec fn error_message(e: CompileError) -> Seq<char> {
    match e {
        CompileError::Lexer { message, .. } => message@,
        CompileError::Parser { message, .. } => message@,
        CompileError::Type { message, .. } => message@,
        CompileError::Io { message } => message@,
        CompileError::Parse { message } => message@,
        CompileError::Resolve { message, .. } => message@,
    }
}

/// How a span is written in debug form: `Span { start: S, end: E }`.
pub open spec fn span_debug(s: Span) -> Seq<char> {
    "Span { start: "@ + dec_nat(s.start as nat) + ", end: "@ + dec_nat(s.end as nat) + " }"@
}

/// How a span is written in reports: `S..E`.
pub open spec fn span_text(s: Span) -> Seq<char> {
    dec_nat(s.start as nat) + ".."@ + dec_nat(s.end as nat)
}

/// How an error is displayed.
pub open spec fn error_display(e: CompileError) -> Seq<char> {
    match e {
        CompileError::Lexer { message, span } => "Lexer error at "@ + span_debug(span) + ": "@
            + message@,
        CompileError::Parser { message, span } => "Parser error at "@ + span_debug(span) + ": "@
            + message@,
        CompileError::Type { message, span } => "Type error at "@ + span_debug(span) + ": "@
            + message@,
        CompileError::Io { message } => "IO error: "@ + message@,
        CompileError::Parse { message } => "Parse error: "@ + message@,
        CompileError::Resolve { message, span } => "Resolution error"@ + match span {
            Some(sp) => " at "@ + span_text(sp),
            None => Seq::empty(),
        } + ": "@ + message@,
    }
}

/// Appends the debug form of a span.
fn append_span_debug(out: &mut String, s: Span)
    ensures
        final(out)@ == old(out)@ + span_debug(s),
{
    push_str(out, "Span { start: ");
    append_u64(out, s.start as u64);
    push_str(out, ", end: ");
    append_u64(out, s.end as u64);
    push_str(out, " }");
    assert(final(out)@ =~= old(out)@ + span_debug(s));
}

impl CompileError {
    /// A lexer error.
    pub fn lexer(message: &str, span: Span) -> (e: Self)
        ensures
            e is Lexer,
            e->Lexer_message@ == message@,
            e->Lexer_span == span,
    {
        CompileError::Lexer { message: message.to_owned(), span }
    }

    /// A parser error.
    pub fn parser(message: &str, span: Span) -> (e: Self)
        ensures
            e is Parser,
            e->Parser_message@ == message@,
            e->Parser_span == span,
    {
        CompileError::Parser { message: message.to_owned(), span }
    }

    /// A type error.
    pub fn type_error(message: &str, span: Span) -> (e: Self)
        ensures
            e is Type,
            e->Type_message@ == message@,
            e->Type_span == span,
    {
        CompileError::Type { message: message.to_owned(), span }
    }

    /// An IO error.
    pub fn io_error(message: &str) -> (e: Self)
        ensures
            e is Io,
            e->Io_message@ == message@,
    {
        CompileError::Io { message: message.to_owned() }
    }

    /// A parse error without a span.
    pub fn parse_error(message: &str) -> (e: Self)
        ensures
            e is Parse,
            e->Parse_message@ == message@,
    {
        CompileError::Parse { message: message.to_owned() }
    }

    /// A resolution error without a span.
    pub fn resolve_error(message: &str) -> (e: Self)
        ensures
            e is Resolve,
            e->Resolve_message@ == message@,
            e->Resolve_span is None,
    {
        CompileError::Resolve { message: message.to_owned(), span: None }
    }

    /// A resolution error at a span.
    pub fn resolve_error_at(message: &str, span: Span) -> (e: Self)
        ensures
            e is Resolve,
            e->Resolve_message@ == message@,
            e->Resolve_span == Some(span),
    {
        CompileError::Resolve { message: message.to_owned(), span: Some(span) }
    }

    /// The span of this error, if any.
    pub fn span(&self) -> (r: Option<Span>)
        ensures
            r == error_span(*self),
    {
        match self {
            CompileError::Lexer { span, .. } => Some(*span),
            CompileError::Parser { span, .. } => Some(*span),
            CompileError::Type { span, .. } => Some(*span),
            CompileError::Resolve { span, .. } => *span,
            CompileError::Io { .. } => None,
            CompileError::Parse { .. } => None,
        }
    }

    /// The message of this error.
    pub fn message(&self) -> (r: &str)
        ensures
            r@ == error_message(*self),
    {
        match self {
            CompileError::Lexer { message, .. } => message.as_str(),
            CompileError::Parser { message, .. } => message.as_str(),
            CompileError::Type { message, .. } => message.as_str(),
            CompileError::Io { message } => message.as_str(),
            CompileError::Parse { message } => message.as_str(),
            CompileError::Resolve { message, .. } => message.as_str(),
        }
    }

    /// The error as displayed.
    pub fn display_string(&self) -> (s: String)
        ensures
            s@ == error_display(*self),
    {
        let mut s = String::new();
        match self {
            CompileError::Lexer { message, span } => {
                push_str(&mut s, "Lexer error at ");
                append_span_debug(&mut s, *span);
                push_str(&mut s, ": ");
                push_str(&mut s, message.as_str());
            },
            CompileError::Parser { message, span } => {
                push_str(&mut s, "Parser error at ");
                append_span_debug(&mut s, *span);
                push_str(&mut s, ": ");
                push_str(&mut s, message.as_str());
            },
            CompileError::Type { message, span } => {
                push_str(&mut s, "Type error at ");
                append_span_debug(&mut s, *span);
                push_str(&mut s, ": ");
                push_str(&mut s, message.as_str());
            },
            CompileError::Io { message } => {
                push_str(&mut s, "IO error: ");
                push_str(&mut s, message.as_str());
            },
            CompileError::Parse { message } => {
                push_str(&mut s, "Parse error: ");
                push_str(&mut s, message.as_str());
            },
            CompileError::Resolve { message, span } => {
                push_str(&mut s, "Resolution error");
                if let Some(sp) = span {
                    push_str(&mut s, " at ");
                    append_u64(&mut s, sp.start as u64);
                    push_str(&mut s, "..");
                    append_u64(&mut s, sp.end as u64);
                }
                push_str(&mut s, ": ");
                push_str(&mut s, message.as_str());
            },
        }
        assert(s@ =~= error_display(*self));
        s
    }
}

/// Every error is displayed as a heading, `: ` and its message.
pub proof fn lemma_error_display_ends_with_message(e: CompileError)
    ensures
        exists|heading: Seq<char>| error_display(e) == heading + ": "@ + error_message(e),
{
    let heading = match e {
        CompileError::Lexer { span, .. } => "Lexer error at "@ + span_debug(span),
        CompileError::Parser { span, .. } => "Parser error at "@ + span_debug(span),
        CompileError::Type { span, .. } => "Type error at "@ + span_debug(span),
        CompileError::Io { .. } => "IO error"@,
        CompileError::Parse { .. } => "Parse error"@,
        CompileError::Resolve { span, .. } => "Resolution error"@ + match span {
            Some(sp) => " at "@ + span_text(sp),
            None => Seq::empty(),
        },
    };
    match e {
        CompileError::Io { .. } => {
            reveal_strlit("IO error: ");
            reveal_strlit("IO error");
            reveal_strlit(": ");
        },
        CompileError::Parse { .. } => {
            reveal_strlit("Parse error: ");
            reveal_strlit("Parse error");
            reveal_strlit(": ");
        },
        _ => {},
    }
    assert(error_display(e) =~= heading + ": "@ + error_message(e));
}

} // verus!
