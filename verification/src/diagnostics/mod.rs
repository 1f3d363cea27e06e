//! Diagnostic patterns for BMB compiler errors: hints that map an error
//! kind and trigger phrases in its message to a suggestion and an example
//! of the wrong and the correct form.

use vstd::prelude::*;

use crate::text::{seq_contains, str_contains, str_eq};

mod patterns;

pub use patterns::{pattern, pattern_at, PATTERN_COUNT};

verus! {

/// A diagnostic pattern that matches compiler errors and gives a hint.
#[derive(Debug)]
pub struct DiagPattern {
    pub id: &'static str,
    /// Error kind filter: "parser", "type", "resolve", or "" for any
    pub kind: &'static str,
    /// Phrases to look for in the error message (any one suffices)
    pub triggers: Vec<&'static str>,
    /// Suggestion text
    pub suggestion: &'static str,
    /// What is likely to have been written
    pub example_wrong: &'static str,
    /// What it should be
    pub example_correct: &'static str,
}

/// The content of a diagnostic pattern.
pub ghost struct DiagPatternSpec {
    pub id: Seq<char>,
    pub kind: Seq<char>,
    pub triggers: Seq<Seq<char>>,
    pub suggestion: Seq<char>,
    pub example_wrong: Seq<char>,
    pub example_correct: Seq<char>,
}

impl View for DiagPattern {
    type V = DiagPatternSpec;

    open spec fn view(&self) -> DiagPatternSpec {
        DiagPatternSpec {
            id: self.id@,
            kind: self.kind@,
            triggers: self.triggers@.map_values(|t: &'static str| t@),
            suggestion: self.suggestion@,
            example_wrong: self.example_wrong@,
            example_correct: self.example_correct@,
        }
    }
}

/// The lowercase form of a string, as `str::to_lowercase` computes it
/// (by the Unicode Lowercase property).
pub uninterp spec fn lowercase(s: Seq<char>) -> Seq<char>;

/// The lowercase form of a string.
///
/// Trusted: calls `str::to_lowercase`; its result is named `lowercase`.
#[verifier::external_body]
fn to_lowercase(s: &str) -> (r: String)
    ensures
        r@ == lowercase(s@),
{
    s.to_lowercase()
}

/// Whether a pattern applies to an error of kind `kind` whose lowercased
/// message is `msg_lower`: the pattern's kind is empty or equal to `kind`,
/// and the lowercase form of one of its triggers occurs in the message.
pub open spec fn applies(p: DiagPatternSpec, kind: Seq<char>, msg_lower: Seq<char>) -> bool {
    (p.kind.len() == 0 || p.kind == kind) && exists|j: int|
        0 <= j < p.triggers.len() && seq_contains(msg_lower, lowercase(#[trigger] p.triggers[j]))
}

/// The patterns among the first `n` of the table that apply, in table order.
pub open spec fn select_patterns(kind: Seq<char>, msg_lower: Seq<char>, n: nat) -> Seq<
    DiagPatternSpec,
>
    decreases n,
{
    if n == 0 {
        Seq::empty()
    } else {
        select_patterns(kind, msg_lower, (n - 1) as nat) + if applies(
            pattern_at(n - 1),
            kind,
            msg_lower,
        ) {
            seq![pattern_at(n - 1)]
        } else {
            Seq::empty()
        }
    }
}

/// Whether `p` applies to an error of kind `kind` whose lowercased message
/// is `msg_lower`.
pub fn pattern_applies(p: &DiagPattern, kind: &str, msg_lower: &str) -> (r: bool)
    ensures
        r == applies(p@, kind@, msg_lower@),
{
    let kind_ok = p.kind.is_empty() || str_eq(p.kind, kind);
    if !kind_ok {
        return false;
    }
    let mut j: usize = 0;
    while j < p.triggers.len()
        invariant
            j <= p.triggers.len(),
            p@.kind.len() == 0 || p@.kind == kind@,
            forall|k: int|
                0 <= k < j ==> !seq_contains(msg_lower@, lowercase(#[trigger] p@.triggers[k])),
        decreases p.triggers.len() - j,
    {
        let t = to_lowercase(p.triggers[j]);
        if str_contains(msg_lower, t.as_str()) {
            assert(p@.triggers[j as int] == p.triggers@[j as int]@);
            assert(seq_contains(msg_lower@, lowercase(p@.triggers[j as int])));
            return true;
        }
        assert(p@.triggers[j as int] == p.triggers@[j as int]@);
        j = j + 1;
    }
    false
}

/// The patterns that apply to an error of kind `kind` with message
/// `message`, in table order. A pattern applies when its kind is empty or
/// equal to `kind` and one of its triggers, lowercased, occurs in the
/// lowercased message.
pub fn find_patterns(kind: &str, message: &str) -> (r: Vec<DiagPattern>)
    ensures
        r@.map_values(|p: DiagPattern| p@) == select_patterns(
            kind@,
            lowercase(message@),
            PATTERN_COUNT as nat,
        ),
{
    let msg_lower = to_lowercase(message);
    let mut r: Vec<DiagPattern> = Vec::new();
    let mut i: usize = 0;
    while i < PATTERN_COUNT
        invariant
            i <= PATTERN_COUNT,
            msg_lower@ == lowercase(message@),
            r@.map_values(|p: DiagPattern| p@) == select_patterns(
                kind@,
                lowercase(message@),
                i as nat,
            ),
        decreases PATTERN_COUNT - i,
    {
        let p = pattern(i);
        let ghost before = r@;
        if pattern_applies(&p, kind, msg_lower.as_str()) {
            r.push(p);
            assert(r@.map_values(|p: DiagPattern| p@) =~= before.map_values(|p: DiagPattern| p@).push(
                pattern_at(i as int),
            ));
        }
        i = i + 1;
        assert(r@.map_values(|p: DiagPattern| p@) =~= select_patterns(
            kind@,
            lowercase(message@),
            i as nat,
        ));
    }
    r
}

} // verus!
