//! Text and steps as values of a script.

use vstd::prelude::*;
use vstd::string::*;

use crate::checks::table::CheckInfo;
use crate::checks::table::CheckView;
use crate::checks::table::row_views;
use crate::checks::table::Row;
use crate::checks::table::RowView;
use crate::narratives::Phase;
use crate::scenario::phase_views;
use crate::scenario::seen_views;
use crate::scenario::step_views;
use crate::scenario::var_info_views;
use crate::scenario::PhaseView;
use crate::scenario::Seen;
use crate::scenario::SeenView;
use crate::scenario::StepData;
use crate::scenario::StepView;
use crate::scenario::VarInfo;
use crate::scenario::VarInfoView;
use crate::snapshot::panel_views;
use crate::snapshot::EntityState;
use crate::snapshot::EntityStateView;
use crate::text::chars_of;
use crate::text::decimal;
use crate::text::decimal_text;
use crate::text::joined;
use crate::text::law_joined_in_two_parts;
use crate::text::lemma_joined_first;
use crate::text::lemma_joined_one_more;

verus! {

// ── Literals ──────────────────────────────────────────────────────────────────

/// What stands for a character between the quotes of a literal. A literal has to stay on one
/// line: a line feed becomes a blank, and a carriage return disappears.
pub open spec fn escaped_char(c: char) -> Seq<char> {
    if c == '\\' {
        seq!['\\', '\\']
    } else if c == '"' {
        seq!['\\', '"']
    } else if c == '\n' {
        seq![' ']
    } else if c == '\r' {
        seq![]
    } else {
        seq![c]
    }
}

/// What stands between the quotes of a literal.
pub open spec fn escaped(s: Seq<char>) -> Seq<char> {
    joined(s, |c: char| escaped_char(c))
}

/// The literal.
pub open spec fn literal(s: Seq<char>) -> Seq<char> {
    seq!['"'] + escaped(s) + seq!['"']
}

/// Writes a text as a string literal.
pub fn js_str(s: &str) -> (r: String)
    ensures
        r@ == literal(s@),
{
    let chars = chars_of(s);
    let mut out = String::new();
    out.push('"');
    let ghost piece = |c: char| escaped_char(c);
    for i in 0..chars.len()
        invariant
            chars@ == s@,
            piece == (|c: char| escaped_char(c)),
            out@ == seq!['"'] + joined(chars@.take(i as int), piece),
    {
        let c: char = chars[i];
        let ghost before = out@;
        if c == '\\' {
            out.push('\\');
            out.push('\\');
        } else if c == '"' {
            out.push('\\');
            out.push('"');
        } else if c == '\n' {
            out.push(' ');
        } else if c != '\r' {
            out.push(c);
        }
        proof {
            lemma_joined_one_more(chars@, piece, i as int);
            assert(out@ =~= before + escaped_char(c));
            assert(out@ =~= seq!['"'] + joined(chars@.take(i + 1), piece));
        }
    }
    assert(chars@.take(chars@.len() as int) =~= chars@);
    out.push('"');
    assert(out@ =~= literal(s@));
    out
}

/// The text without line breaks: line feeds become blanks, carriage returns disappear.
pub open spec fn on_one_line(s: Seq<char>) -> Seq<char> {
    joined(
        s,
        |c: char|
            if c == '\n' {
                seq![' ']
            } else if c == '\r' {
                seq![]
            } else {
                seq![c]
            },
    )
}

/// Reads on behind the opening quote of a literal, up to its closing quote: the text that was
/// read, and what follows the literal. A line break, an escape of another kind or a missing
/// quote leaves nothing to read.
pub open spec fn read_literal(t: Seq<char>) -> Option<(Seq<char>, Seq<char>)>
    decreases t.len(),
{
    if t.len() == 0 || t[0] == '\n' || t[0] == '\r' {
        None
    } else if t[0] == '"' {
        Some((Seq::empty(), t.skip(1)))
    } else if t[0] == '\\' {
        if t.len() < 2 || t[1] != '\\' && t[1] != '"' {
            None
        } else {
            match read_literal(t.skip(2)) {
                Some((text, rest)) => Some((seq![t[1]] + text, rest)),
                None => None,
            }
        }
    } else {
        match read_literal(t.skip(1)) {
            Some((text, rest)) => Some((seq![t[0]] + text, rest)),
            None => None,
        }
    }
}

/// A literal ends where it is meant to end, whatever text it holds and whatever follows it, and
/// reading it gives the text back on one line.
pub proof fn law_literal_reads_back(s: Seq<char>, rest: Seq<char>)
    ensures
        (literal(s) + rest)[0] == '"',
        read_literal((literal(s) + rest).skip(1)) == Some((on_one_line(s), rest)),
    decreases s.len(),
{
    let piece = |c: char| escaped_char(c);
    let plain = |c: char|
        if c == '\n' {
            seq![' ']
        } else if c == '\r' {
            seq![]
        } else {
            seq![c]
        };
    let t = (literal(s) + rest).skip(1);
    assert(t =~= escaped(s) + seq!['"'] + rest);
    if s.len() == 0 {
        assert(t =~= seq!['"'] + rest);
        assert(t.skip(1) =~= rest);
    } else {
        let tail = s.drop_first();
        let u = (literal(tail) + rest).skip(1);
        law_literal_reads_back(tail, rest);
        lemma_joined_first(s, piece);
        lemma_joined_first(s, plain);
        assert(u =~= escaped(tail) + seq!['"'] + rest);
        assert(t =~= escaped_char(s[0]) + u);
        if s[0] == '\\' || s[0] == '"' {
            assert(t.skip(2) =~= u);
        } else if s[0] == '\r' {
            assert(t =~= u);
            assert(on_one_line(s) =~= on_one_line(tail));
        } else {
            assert(t.skip(1) =~= u);
        }
    }
}

// ── Parts of a step ───────────────────────────────────────────────────────────

/// Three texts as an array, without its closing bracket.
pub open spec fn triple_text(row: RowView) -> Seq<char> {
    "["@ + literal(row.0) + ","@ + literal(row.1) + ","@ + literal(row.2)
}

/// A line of a lookup.
pub open spec fn lookup_text(row: RowView) -> Seq<char> {
    "        "@ + triple_text(row) + "],\n"@
}

/// A line of a panel.
pub open spec fn field_text(row: RowView) -> Seq<char> {
    triple_text(row) + "],"@
}

/// A check.
pub open spec fn check_text(check: CheckView) -> Seq<char> {
    "    check:{\n      rule:"@ + literal(check.rule) + ",\n      lookup:[\n"@ + joined(
        check.lookup,
        |x: RowView| lookup_text(x),
    ) + "      ],\n      result:"@ + literal(check.result) + ",result_text:"@ + literal(
        check.result_text,
    ) + ",result_detail:"@ + literal(check.result_detail) + ",\n    },\n"@
}

/// A variance.
pub open spec fn variance_text(v: VarInfoView) -> Seq<char> {
    "      {severity:"@ + literal(v.severity) + ",rule:"@ + literal(v.rule) + ",detail:"@ + literal(
        v.detail,
    ) + "},\n"@
}

/// A panel under its entity.
pub open spec fn panel_text(panel: (Seq<char>, EntityStateView)) -> Seq<char> {
    "      "@ + literal(panel.0) + ":{domain:"@ + literal(panel.1.domain) + ",fields:["@ + joined(
        panel.1.fields,
        |x: RowView| field_text(x),
    ) + "]},\n"@
}

/// An event of a history.
pub open spec fn seen_text(h: SeenView) -> Seq<char> {
    "      {seq:"@ + decimal_text(h.0 as nat) + ",ts:"@ + decimal_text(h.1 as nat) + ",event:"@
        + literal(h.2) + "},\n"@
}

/// A phase.
pub open spec fn phase_text(p: PhaseView) -> Seq<char> {
    "      {label:"@ + literal(p.0) + ",heading:"@ + literal(p.1) + ",body:"@ + literal(p.2)
        + "},\n"@
}

fn triple(row: &Row) -> (r: String)
    ensures
        r@ == triple_text((row.0@, row.1@, row.2@)),
{
    "[".to_owned().concat(js_str(row.0.as_str()).as_str()).concat(",").concat(
        js_str(row.1.as_str()).as_str(),
    ).concat(",").concat(js_str(row.2.as_str()).as_str())
}

fn lookup_lines(rows: &Vec<Row>) -> (r: String)
    ensures
        r@ == joined(row_views(rows@), |x: RowView| lookup_text(x)),
{
    let mut out = String::new();
    let ghost views = row_views(rows@);
    let ghost piece = |x: RowView| lookup_text(x);
    for i in 0..rows.len()
        invariant
            views == row_views(rows@),
            piece == (|x: RowView| lookup_text(x)),
            out@ == joined(views.take(i as int), piece),
    {
        out.append("        ".to_owned().concat(triple(&rows[i]).as_str()).concat("],\n").as_str());
        proof {
            lemma_joined_one_more(views, piece, i as int);
        }
    }
    assert(views.take(views.len() as int) =~= views);
    out
}

fn field_list(rows: &Vec<Row>) -> (r: String)
    ensures
        r@ == joined(row_views(rows@), |x: RowView| field_text(x)),
{
    let mut out = String::new();
    let ghost views = row_views(rows@);
    let ghost piece = |x: RowView| field_text(x);
    for i in 0..rows.len()
        invariant
            views == row_views(rows@),
            piece == (|x: RowView| field_text(x)),
            out@ == joined(views.take(i as int), piece),
    {
        out.append(triple(&rows[i]).concat("],").as_str());
        proof {
            lemma_joined_one_more(views, piece, i as int);
        }
    }
    assert(views.take(views.len() as int) =~= views);
    out
}

fn check_value(check: &CheckInfo) -> (r: String)
    ensures
        r@ == check_text(check@),
{
    "    check:{\n      rule:".to_owned().concat(js_str(check.rule.as_str()).as_str()).concat(
        ",\n      lookup:[\n",
    ).concat(lookup_lines(&check.lookup).as_str()).concat("      ],\n      result:").concat(
        js_str(check.result).as_str(),
    ).concat(",result_text:").concat(js_str(check.result_text.as_str()).as_str()).concat(
        ",result_detail:",
    ).concat(js_str(check.result_detail.as_str()).as_str()).concat(",\n    },\n")
}

fn variance_line(v: &VarInfo) -> (r: String)
    ensures
        r@ == variance_text(v@),
{
    "      {severity:".to_owned().concat(js_str(v.severity).as_str()).concat(",rule:").concat(
        js_str(v.rule.as_str()).as_str(),
    ).concat(",detail:").concat(js_str(v.detail.as_str()).as_str()).concat("},\n")
}

fn panel_line(panel: &(String, EntityState)) -> (r: String)
    ensures
        r@ == panel_text((panel.0@, panel.1@)),
{
    "      ".to_owned().concat(js_str(panel.0.as_str()).as_str()).concat(":{domain:").concat(
        js_str(panel.1.domain).as_str(),
    ).concat(",fields:[").concat(field_list(&panel.1.fields).as_str()).concat("]},\n")
}

fn seen_line(h: &Seen) -> (r: String)
    ensures
        r@ == seen_text((h.0, h.1, h.2@)),
{
    "      {seq:".to_owned().concat(decimal(h.0 as u64).as_str()).concat(",ts:").concat(
        decimal(h.1).as_str(),
    ).concat(",event:").concat(js_str(h.2).as_str()).concat("},\n")
}

fn phase_line(p: &Phase) -> (r: String)
    ensures
        r@ == phase_text((p.0@, p.1@, p.2@)),
{
    "      {label:".to_owned().concat(js_str(p.0).as_str()).concat(",heading:").concat(
        js_str(p.1).as_str(),
    ).concat(",body:").concat(js_str(p.2).as_str()).concat("},\n")
}

fn variance_lines(variances: &Vec<VarInfo>) -> (r: String)
    ensures
        r@ == joined(var_info_views(variances@), |x: VarInfoView| variance_text(x)),
{
    let mut out = String::new();
    let ghost views = var_info_views(variances@);
    let ghost piece = |x: VarInfoView| variance_text(x);
    for i in 0..variances.len()
        invariant
            views == var_info_views(variances@),
            piece == (|x: VarInfoView| variance_text(x)),
            out@ == joined(views.take(i as int), piece),
    {
        out.append(variance_line(&variances[i]).as_str());
        proof {
            lemma_joined_one_more(views, piece, i as int);
        }
    }
    assert(views.take(views.len() as int) =~= views);
    out
}

fn panel_lines(panels: &Vec<(String, EntityState)>) -> (r: String)
    ensures
        r@ == joined(panel_views(panels@), |x: (Seq<char>, EntityStateView)| panel_text(x)),
{
    let mut out = String::new();
    let ghost views = panel_views(panels@);
    let ghost piece = |x: (Seq<char>, EntityStateView)| panel_text(x);
    for i in 0..panels.len()
        invariant
            views == panel_views(panels@),
            piece == (|x: (Seq<char>, EntityStateView)| panel_text(x)),
            out@ == joined(views.take(i as int), piece),
    {
        out.append(panel_line(&panels[i]).as_str());
        proof {
            lemma_joined_one_more(views, piece, i as int);
        }
    }
    assert(views.take(views.len() as int) =~= views);
    out
}

fn history_lines(history: &Vec<Seen>) -> (r: String)
    ensures
        r@ == joined(seen_views(history@), |x: SeenView| seen_text(x)),
{
    let mut out = String::new();
    let ghost views = seen_views(history@);
    let ghost piece = |x: SeenView| seen_text(x);
    for i in 0..history.len()
        invariant
            views == seen_views(history@),
            piece == (|x: SeenView| seen_text(x)),
            out@ == joined(views.take(i as int), piece),
    {
        out.append(seen_line(&history[i]).as_str());
        proof {
            lemma_joined_one_more(views, piece, i as int);
        }
    }
    assert(views.take(views.len() as int) =~= views);
    out
}

fn phase_lines(phases: &Vec<Phase>) -> (r: String)
    ensures
        r@ == joined(phase_views(phases@), |x: PhaseView| phase_text(x)),
{
    let mut out = String::new();
    let ghost views = phase_views(phases@);
    let ghost piece = |x: PhaseView| phase_text(x);
    for i in 0..phases.len()
        invariant
            views == phase_views(phases@),
            piece == (|x: PhaseView| phase_text(x)),
            out@ == joined(views.take(i as int), piece),
    {
        out.append(phase_line(&phases[i]).as_str());
        proof {
            lemma_joined_one_more(views, piece, i as int);
        }
    }
    assert(views.take(views.len() as int) =~= views);
    out
}

// ── Steps ─────────────────────────────────────────────────────────────────────

/// A truth value.
pub open spec fn bool_text(b: bool) -> Seq<char> {
    if b {
        "true"@
    } else {
        "false"@
    }
}

/// When, who, what, and under which heading.
pub open spec fn head_text(s: StepView) -> Seq<char> {
    "  {\n    seq:"@ + decimal_text(s.seq as nat) + ",ts:"@ + decimal_text(s.ts as nat) + ",user:"@
        + literal(s.user) + ",event:"@ + literal(s.event) + ",\n    group:"@ + literal(s.group)
        + ",group_label:"@ + literal(s.group_label) + ",is_deferred:"@ + bool_text(s.is_deferred)
        + ",\n"@
}

/// A step.
pub open spec fn step_text(s: StepView) -> Seq<char> {
    head_text(s) + check_text(s.check) + "    variances:[\n"@ + joined(
        s.variances,
        |x: VarInfoView| variance_text(x),
    ) + "    ],\n    state:{\n"@ + joined(
        s.state_snap,
        |x: (Seq<char>, EntityStateView)| panel_text(x),
    ) + "    },\n    history:[\n"@ + joined(s.history, |x: SeenView| seen_text(x))
        + "    ],\n    phases:[\n"@ + joined(s.phases, |x: PhaseView| phase_text(x))
        + "    ],\n  },\n"@
}

/// A list of steps.
pub open spec fn steps_text(steps: Seq<StepView>) -> Seq<char> {
    "[\n"@ + joined(steps, |x: StepView| step_text(x)) + "]"@
}

fn head_value(s: &StepData) -> (r: String)
    ensures
        r@ == head_text(s@),
{
    "  {\n    seq:".to_owned().concat(decimal(s.seq as u64).as_str()).concat(",ts:").concat(
        decimal(s.ts).as_str(),
    ).concat(",user:").concat(js_str(s.user.as_str()).as_str()).concat(",event:").concat(
        js_str(s.event).as_str(),
    ).concat(",\n    group:").concat(js_str(s.group.as_str()).as_str()).concat(
        ",group_label:",
    ).concat(js_str(s.group_label.as_str()).as_str()).concat(",is_deferred:").concat(
        if s.is_deferred {
            "true"
        } else {
            "false"
        },
    ).concat(",\n")
}

fn step_value(s: &StepData) -> (r: String)
    ensures
        r@ == step_text(s@),
{
    head_value(s).concat(check_value(&s.check).as_str()).concat("    variances:[\n").concat(
        variance_lines(&s.variances).as_str(),
    ).concat("    ],\n    state:{\n").concat(panel_lines(&s.state_snap).as_str()).concat(
        "    },\n    history:[\n",
    ).concat(history_lines(&s.history).as_str()).concat("    ],\n    phases:[\n").concat(
        phase_lines(&s.phases).as_str(),
    ).concat("    ],\n  },\n")
}

/// Writes steps as an array of a script.
pub fn steps_to_js(steps: &[StepData]) -> (r: String)
    ensures
        r@ == steps_text(step_views(steps@)),
{
    let mut out = String::new();
    let ghost views = step_views(steps@);
    let ghost piece = |x: StepView| step_text(x);
    for i in 0..steps.len()
        invariant
            views == step_views(steps@),
            piece == (|x: StepView| step_text(x)),
            out@ == joined(views.take(i as int), piece),
    {
        out.append(step_value(&steps[i]).as_str());
        proof {
            lemma_joined_one_more(views, piece, i as int);
        }
    }
    assert(views.take(views.len() as int) =~= views);
    "[\n".to_owned().concat(out.as_str()).concat("]")
}

proof fn lemma_three_texts(a: Seq<char>, b: Seq<char>, c: Seq<char>)
    ensures
        a + (b + c) == a + b + c,
{
    assert(a + (b + c) =~= a + b + c);
}

/// The text of two lists of steps, one behind the other, is made of the texts of their steps
/// between one pair of brackets.
pub proof fn law_steps_in_two_parts(a: Seq<StepView>, b: Seq<StepView>)
    ensures
        steps_text(a + b) == "[\n"@ + joined(a, |x: StepView| step_text(x)) + joined(
            b,
            |x: StepView| step_text(x),
        ) + "]"@,
{
    let piece = |x: StepView| step_text(x);
    law_joined_in_two_parts(a, b, piece);
    lemma_three_texts("[\n"@, joined(a, piece), joined(b, piece));
}

} // verus!
