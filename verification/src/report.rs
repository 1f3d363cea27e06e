//! The text of error and warning reports: the titles shown by the
//! human-readable reporter, and the JSON lines of the machine-readable one.

use vstd::prelude::*;

use crate::error::{
    error_message, error_span, message_defined, warning_kind, warning_message, warning_span,
    CompileError, CompileWarning,
};
use crate::diagnostics::{find_patterns, lowercase, select_patterns, DiagPattern, DiagPatternSpec, PATTERN_COUNT};
use crate::text::{append_u64, chars_of, dec_nat, push_char, push_str};

verus! {

/// One character as it appears inside a JSON string: backslash and double
/// quote are escaped, and so is a newline when `newline` is set.
pub open spec fn json_char(c: char, newline: bool) -> Seq<char> {
    if c == '\\' {
        seq!['\\', '\\']
    } else if c == '"' {
        seq!['\\', '"']
    } else if newline && c == '\n' {
        seq!['\\', 'n']
    } else {
        seq![c]
    }
}

/// A string escaped for a JSON string literal, character by character.
pub open spec fn json_escape(s: Seq<char>, newline: bool) -> Seq<char>
    decreases s.len(),
{
    if s.len() == 0 {
        Seq::empty()
    } else {
        json_escape(s.drop_last(), newline) + json_char(s.last(), newline)
    }
}

/// Appends `s` escaped for a JSON string literal.
pub fn append_json_escaped(out: &mut String, s: &str, newline: bool)
    ensures
        final(out)@ == old(out)@ + json_escape(s@, newline),
{
    let cs = chars_of(s);
    let mut i: usize = 0;
    while i < cs.len()
        invariant
            cs@ == s@,
            i <= cs.len(),
            out@ == old(out)@ + json_escape(s@.subrange(0, i as int), newline),
        decreases cs.len() - i,
    {
        let c = cs[i];
        if c == '\\' {
            push_char(out, '\\');
            push_char(out, '\\');
        } else if c == '"' {
            push_char(out, '\\');
            push_char(out, '"');
        } else if newline && c == '\n' {
            push_char(out, '\\');
            push_char(out, 'n');
        } else {
            push_char(out, c);
        }
        assert(s@.subrange(0, i + 1).drop_last() =~= s@.subrange(0, i as int));
        i = i + 1;
        assert(out@ =~= old(out)@ + json_escape(s@.subrange(0, i as int), newline));
    }
    assert(s@.subrange(0, cs.len() as int) =~= s@);
}

/// The machine-readable kind of an error.
pub open spec fn error_machine_kind(e: CompileError) -> Seq<char> {
    match e {
        CompileError::Lexer { .. } => "lexer"@,
        CompileError::Parser { .. } => "parser"@,
        CompileError::Type { .. } => "type"@,
        CompileError::Io { .. } => "io"@,
        CompileError::Parse { .. } => "parse"@,
        CompileError::Resolve { .. } => "resolve"@,
    }
}

/// The label of an error's kind in human-readable reports.
pub open spec fn error_kind_label(e: CompileError) -> Seq<char> {
    match e {
        CompileError::Lexer { .. } => "Lexer"@,
        CompileError::Parser { .. } => "Parser"@,
        CompileError::Type { .. } => "Type"@,
        CompileError::Io { .. } => "IO"@,
        CompileError::Parse { .. } => "Parse"@,
        CompileError::Resolve { .. } => "Resolve"@,
    }
}

/// The start of a JSON report line, up to and including the message's
/// text: `{"type":T,"kind":K,"file":F,"start":S,"end":E,"message":"M`,
/// with the file name escaped for backslashes and quotes and the message
/// also for newlines.
pub open spec fn machine_fields(
    typ: Seq<char>,
    kind: Seq<char>,
    file: Seq<char>,
    start: nat,
    end: nat,
    message: Seq<char>,
) -> Seq<char> {
    "{\"type\":\""@ + typ + "\",\"kind\":\""@ + kind + "\",\"file\":\""@ + json_escape(file, false)
        + "\",\"start\":"@ + dec_nat(start) + ",\"end\":"@ + dec_nat(end) + ",\"message\":\""@
        + json_escape(message, true)
}

/// One JSON report line:
/// `{"type":T,"kind":K,"file":F,"start":S,"end":E,"message":M}`.
pub open spec fn machine_line(
    typ: Seq<char>,
    kind: Seq<char>,
    file: Seq<char>,
    start: nat,
    end: nat,
    message: Seq<char>,
) -> Seq<char> {
    machine_fields(typ, kind, file, start, end, message) + "\"}"@
}

/// The suggestions of some diagnostic patterns as JSON strings, in order,
/// separated by commas.
pub open spec fn suggestion_list(ps: Seq<DiagPatternSpec>) -> Seq<char>
    decreases ps.len(),
{
    if ps.len() == 0 {
        Seq::empty()
    } else if ps.len() == 1 {
        "\""@ + json_escape(ps[0].suggestion, true) + "\""@
    } else {
        suggestion_list(ps.drop_last()) + ",\""@ + json_escape(ps.last().suggestion, true) + "\""@
    }
}

/// The diagnostic patterns that apply to an error: those `find_patterns`
/// gives for its machine-readable kind and its message.
pub open spec fn error_patterns(e: CompileError) -> Seq<DiagPatternSpec> {
    select_patterns(error_machine_kind(e), lowercase(error_message(e)), PATTERN_COUNT as nat)
}

/// The JSON line of an error: its machine-readable kind, the file, the
/// span's bounds and the message, followed, where some diagnostic patterns
/// apply to the error, by `"suggestions":[...]` with their suggestions.
pub open spec fn error_line(file: Seq<char>, e: CompileError) -> Seq<char> {
    let ps = error_patterns(e);
    machine_fields(
        "error"@,
        error_machine_kind(e),
        file,
        span_bounds(error_span(e)).0,
        span_bounds(error_span(e)).1,
        error_message(e),
    ) + if ps.len() == 0 {
        "\"}"@
    } else {
        "\",\"suggestions\":["@ + suggestion_list(ps) + "]}"@
    }
}

/// The start and end of an optional span, `0, 0` without one.
pub open spec fn span_bounds(s: Option<crate::ast::Span>) -> (nat, nat) {
    match s {
        Some(sp) => (sp.start as nat, sp.end as nat),
        None => (0, 0),
    }
}

fn machine_fields_exec(
    typ: &str,
    kind: &str,
    file: &str,
    start: usize,
    end: usize,
    message: &str,
) -> (s: String)
    ensures
        s@ == machine_fields(typ@, kind@, file@, start as nat, end as nat, message@),
{
    let mut s = String::new();
    push_str(&mut s, "{\"type\":\"");
    push_str(&mut s, typ);
    push_str(&mut s, "\",\"kind\":\"");
    push_str(&mut s, kind);
    push_str(&mut s, "\",\"file\":\"");
    append_json_escaped(&mut s, file, false);
    push_str(&mut s, "\",\"start\":");
    append_u64(&mut s, start as u64);
    push_str(&mut s, ",\"end\":");
    append_u64(&mut s, end as u64);
    push_str(&mut s, ",\"message\":\"");
    append_json_escaped(&mut s, message, true);
    assert(s@ =~= machine_fields(typ@, kind@, file@, start as nat, end as nat, message@));
    s
}

/// Appends the suggestions of the patterns as JSON strings separated by
/// commas.
fn append_suggestions(out: &mut String, ps: &Vec<DiagPattern>)
    ensures
        final(out)@ == old(out)@ + suggestion_list(ps@.map_values(|p: DiagPattern| p@)),
{
    let ghost pv = ps@.map_values(|p: DiagPattern| p@);
    let mut i: usize = 0;
    while i < ps.len()
        invariant
            pv == ps@.map_values(|p: DiagPattern| p@),
            i <= ps.len(),
            out@ == old(out)@ + suggestion_list(pv.subrange(0, i as int)),
        decreases ps.len() - i,
    {
        let ghost before = out@;
        if i == 0 {
            push_str(out, "\"");
        } else {
            push_str(out, ",\"");
        }
        append_json_escaped(out, ps[i].suggestion, true);
        push_str(out, "\"");
        let ghost next = pv.subrange(0, i + 1);
        assert(next.drop_last() =~= pv.subrange(0, i as int));
        assert(next.last() == pv[i as int]);
        assert(pv[i as int].suggestion == ps@[i as int].suggestion@);
        if i == 0 {
            assert(next.len() == 1);
            assert(next[0] == pv[0]);
        }
        i = i + 1;
        assert(out@ =~= old(out)@ + suggestion_list(pv.subrange(0, i as int)));
    }
    assert(pv.subrange(0, ps.len() as int) =~= pv);
}

fn error_machine_kind_str(e: &CompileError) -> (r: &'static str)
    ensures
        r@ == error_machine_kind(*e),
{
    match e {
        CompileError::Lexer { .. } => "lexer",
        CompileError::Parser { .. } => "parser",
        CompileError::Type { .. } => "type",
        CompileError::Io { .. } => "io",
        CompileError::Parse { .. } => "parse",
        CompileError::Resolve { .. } => "resolve",
    }
}

/// The JSON line that the machine-readable reporter prints for an error,
/// with the suggestions of the diagnostic patterns that apply to it.
pub fn error_machine_line(filename: &str, error: &CompileError) -> (s: String)
    ensures
        s@ == error_line(filename@, *error),
{
    let (start, end) = match error.span() {
        Some(sp) => (sp.start, sp.end),
        None => (0usize, 0usize),
    };
    let kind = error_machine_kind_str(error);
    let mut s = machine_fields_exec("error", kind, filename, start, end, error.message());
    let ps = find_patterns(kind, error.message());
    if ps.len() == 0 {
        push_str(&mut s, "\"}");
    } else {
        push_str(&mut s, "\",\"suggestions\":[");
        append_suggestions(&mut s, &ps);
        push_str(&mut s, "]}");
    }
    assert(ps.len() == error_patterns(*error).len());
    assert(s@ =~= error_line(filename@, *error));
    s
}

/// The JSON line that the machine-readable reporter prints for a warning.
pub fn warning_machine_line(filename: &str, warning: &CompileWarning) -> (s: String)
    requires
        message_defined(*warning),
    ensures
        s@ == machine_line(
            "warning"@,
            warning_kind(*warning),
            filename@,
            span_bounds(warning_span(*warning)).0,
            span_bounds(warning_span(*warning)).1,
            warning_message(*warning),
        ),
{
    let (start, end) = match warning.span() {
        Some(sp) => (sp.start, sp.end),
        None => (0usize, 0usize),
    };
    let m = warning.message();
    let mut s = machine_fields_exec("warning", warning.kind(), filename, start, end, m.as_str());
    push_str(&mut s, "\"}");
    assert(s@ =~= machine_line(
        "warning"@,
        warning_kind(*warning),
        filename@,
        span_bounds(warning_span(*warning)).0,
        span_bounds(warning_span(*warning)).1,
        warning_message(*warning),
    ));
    s
}

/// The JSON lines for a list of warnings, one per warning, in order.
pub fn warnings_machine_lines(filename: &str, warnings: &[CompileWarning]) -> (lines: Vec<String>)
    requires
        forall|i: int| 0 <= i < warnings@.len() ==> message_defined(#[trigger] warnings@[i]),
    ensures
        lines@.len() == warnings@.len(),
        forall|i: int|
            0 <= i < warnings@.len() ==> (#[trigger] lines@[i])@ == machine_line(
                "warning"@,
                warning_kind(warnings@[i]),
                filename@,
                span_bounds(warning_span(warnings@[i])).0,
                span_bounds(warning_span(warnings@[i])).1,
                warning_message(warnings@[i]),
            ),
{
    let mut lines: Vec<String> = Vec::new();
    let mut i: usize = 0;
    while i < warnings.len()
        invariant
            i <= warnings.len(),
            forall|k: int| 0 <= k < warnings@.len() ==> message_defined(#[trigger] warnings@[k]),
            lines@.len() == i,
            forall|k: int|
                0 <= k < i ==> (#[trigger] lines@[k])@ == machine_line(
                    "warning"@,
                    warning_kind(warnings@[k]),
                    filename@,
                    span_bounds(warning_span(warnings@[k])).0,
                    span_bounds(warning_span(warnings@[k])).1,
                    warning_message(warnings@[k]),
                ),
        decreases warnings.len() - i,
    {
        let line = warning_machine_line(filename, &warnings[i]);
        lines.push(line);
        i = i + 1;
    }
    lines
}

/// The title of a human-readable error report: `<Kind> error` when the
/// error has a span (its message then labels the span), else
/// `<Kind> error: <message>`.
pub open spec fn error_report_title_spec(e: CompileError) -> Seq<char> {
    match error_span(e) {
        Some(_) => error_kind_label(e) + " error"@,
        None => error_kind_label(e) + " error: "@ + error_message(e),
    }
}

/// The title of a human-readable error report.
pub fn error_report_title(error: &CompileError) -> (s: String)
    ensures
        s@ == error_report_title_spec(*error),
{
    let label = match error {
        CompileError::Lexer { .. } => "Lexer",
        CompileError::Parser { .. } => "Parser",
        CompileError::Type { .. } => "Type",
        CompileError::Io { .. } => "IO",
        CompileError::Parse { .. } => "Parse",
        CompileError::Resolve { .. } => "Resolve",
    };
    let mut s = String::new();
    push_str(&mut s, label);
    match error.span() {
        Some(_) => {
            push_str(&mut s, " error");
        },
        None => {
            push_str(&mut s, " error: ");
            push_str(&mut s, error.message());
        },
    }
    assert(s@ =~= error_report_title_spec(*error));
    s
}

/// The title of a human-readable warning report: `warning[<kind>]` when
/// the warning has a span (its message then labels the span), else the
/// message itself.
pub open spec fn warning_report_title_spec(w: CompileWarning) -> Seq<char> {
    match warning_span(w) {
        Some(_) => "warning["@ + warning_kind(w) + "]"@,
        None => warning_message(w),
    }
}

/// The title of a human-readable warning report.
pub fn warning_report_title(warning: &CompileWarning) -> (s: String)
    requires
        message_defined(*warning),
    ensures
        s@ == warning_report_title_spec(*warning),
{
    match warning.span() {
        Some(_) => {
            let mut s = String::new();
            push_str(&mut s, "warning[");
            push_str(&mut s, warning.kind());
            push_str(&mut s, "]");
            assert(s@ =~= warning_report_title_spec(*warning));
            s
        },
        None => warning.message(),
    }
}

} // verus!
