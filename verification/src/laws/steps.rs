//! What the steps of a run say, and how they are written down.

use vstd::prelude::*;

use crate::checks::table::CheckView;
use crate::checks::table::RowView;
use crate::events::EventView;
use crate::js::check_text;
use crate::js::escaped_char;
use crate::js::field_text;
use crate::js::head_text;
use crate::js::literal;
use crate::js::lookup_text;
use crate::js::panel_text;
use crate::js::phase_text;
use crate::js::seen_text;
use crate::js::step_text;
use crate::js::steps_text;
use crate::js::variance_text;
use crate::laws::known_from;
use crate::laws::law_run_is_a_stream;
use crate::laws::scripted_events;
use crate::narratives::NARRATIVES;
use crate::page::page_text;
use crate::page::CSS;
use crate::page::JS_CARDS;
use crate::page::JS_PLAYBACK;
use crate::page::JS_STATUS;
use crate::page::JS_STORY;
use crate::page::PAGE_BODY;
use crate::page::PAGE_END;
use crate::page::PAGE_SCENARIOS;
use crate::page::PAGE_SCRIPT;
use crate::page::PAGE_TOP;
use crate::scenario::history_of;
use crate::scenario::step_at;
use crate::scenario::steps_of;
use crate::scenario::EntryView;
use crate::scenario::PhaseView;
use crate::scenario::SeenView;
use crate::scenario::StepView;
use crate::scenario::VarInfoView;
use crate::snapshot::snapshot_of;
use crate::snapshot::EntityStateView;
use crate::text::decimal_text;
use crate::text::joined;
use crate::variance::Severity;

verus! {

// ── Steps ─────────────────────────────────────────────────────────────────────

/// A step says which event of the script it is, explains and reports it by what the events before
/// it left behind, and shows what is known once it has happened.
pub proof fn law_step_says(script: Seq<EntryView>, i: int)
    requires
        0 <= i < script.len() <= usize::MAX,
    ensures
        ({
            let step = steps_of(script)[i];
            let entry = script[i];
            let ev = EventView { ts: entry.ts, entity: entry.user, kind: entry.kind };
            let before = known_from(scripted_events(script, i));
            let report = before.verdict(ev);
            &&& steps_of(script).len() == script.len()
            &&& step.seq == i + 1
            &&& step.ts == entry.ts
            &&& step.user == entry.user
            &&& step.event == entry.kind.label()
            &&& step.group == entry.group
            &&& step.group_label == entry.label
            &&& !step.is_deferred
            &&& step.check == before.check(ev)
            &&& step.variances.len() == report.len()
            &&& forall|k: int|
                0 <= k < report.len() ==> {
                    let shown = #[trigger] step.variances[k];
                    &&& shown.severity == (if report[k].severity == Severity::Critical {
                        "critical"@
                    } else {
                        "warning"@
                    })
                    &&& shown.rule == report[k].rule
                    &&& shown.detail == report[k].detail
                }
            &&& step.state_snap == snapshot_of(
                known_from(scripted_events(script, i + 1)),
                entry.ts,
            )
            &&& step.phases.len() == (if i < 15 {
                3nat
            } else {
                0nat
            })
            &&& forall|k: int|
                0 <= k < step.phases.len() ==> #[trigger] step.phases[k] == (
                    NARRATIVES[i][k].0@,
                    NARRATIVES[i][k].1@,
                    NARRATIVES[i][k].2@,
                )
            &&& step.history == history_of(script, i + 1, entry.user)
            &&& step.history.len() > 0
            &&& step.history.last() == ((i + 1) as usize, entry.ts, entry.kind.label())
        }),
{
    law_run_is_a_stream(script, i);
    law_run_is_a_stream(script, i + 1);
    assert(steps_of(script)[i] == step_at(script, i));
}

// ── Texts ─────────────────────────────────────────────────────────────────────

/// Pieces stand one behind the other, each exactly once: nothing gives no text, one item gives
/// its piece, and one more item adds its piece at the end.
pub proof fn law_joined_piece_by_piece<A>(
    items: Seq<A>,
    item: A,
    piece: spec_fn(A) -> Seq<char>,
)
    ensures
        joined(Seq::<A>::empty(), piece) == Seq::<char>::empty(),
        joined(seq![item], piece) == piece(item),
        joined(items.push(item), piece) == joined(items, piece) + piece(item),
{
    assert(items.push(item).drop_last() =~= items);
    let single = seq![item];
    assert(single.drop_last() =~= Seq::<A>::empty());
    assert(single.last() == item);
    assert(joined(single.drop_last(), piece) == Seq::<char>::empty());
    assert(joined(single, piece) =~= piece(item));
}

/// Every character but the backslash, the quote and the two line breaks stands for itself in a
/// literal.
pub proof fn law_plain_characters_stay(c: char)
    ensures
        c != '\\' && c != '"' && c != '\n' && c != '\r' ==> escaped_char(c) == seq![c],
        escaped_char('\\') == seq!['\\', '\\'],
        escaped_char('"') == seq!['\\', '"'],
        escaped_char('\n') == seq![' '],
        escaped_char('\r') == Seq::<char>::empty(),
{
}

/// Three texts as the values of an array.
pub open spec fn three(row: (Seq<char>, Seq<char>, Seq<char>)) -> Seq<char> {
    "["@ + literal(row.0) + ","@ + literal(row.1) + ","@ + literal(row.2)
}

/// The parts of a step are written with all that they hold, under its name.
pub proof fn law_parts_are_written(
    row: RowView,
    v: VarInfoView,
    panel: (Seq<char>, EntityStateView),
    h: SeenView,
    p: PhaseView,
)
    ensures
        lookup_text(row) == "        "@ + three(row) + "],\n"@,
        field_text(row) == three(row) + "],"@,
        variance_text(v) == "      {severity:"@ + literal(v.severity) + ",rule:"@ + literal(v.rule)
            + ",detail:"@ + literal(v.detail) + "},\n"@,
        panel_text(panel) == "      "@ + literal(panel.0) + ":{domain:"@ + literal(panel.1.domain)
            + ",fields:["@ + joined(panel.1.fields, |x: RowView| three(x) + "],"@) + "]},\n"@,
        seen_text(h) == "      {seq:"@ + decimal_text(h.0 as nat) + ",ts:"@ + decimal_text(
            h.1 as nat,
        ) + ",event:"@ + literal(h.2) + "},\n"@,
        phase_text(p) == "      {label:"@ + literal(p.0) + ",heading:"@ + literal(p.1) + ",body:"@
            + literal(p.2) + "},\n"@,
{
    let field = |x: RowView| field_text(x);
    let direct = |x: RowView| three(x) + "],"@;
    assert(field =~= direct);
}

/// A check is written with its rule, every line of its lookup and its result.
pub proof fn law_check_is_written(check: CheckView)
    ensures
        check_text(check) == "    check:{\n      rule:"@ + literal(check.rule)
            + ",\n      lookup:[\n"@ + joined(
            check.lookup,
            |x: RowView| "        "@ + three(x) + "],\n"@,
        ) + "      ],\n      result:"@ + literal(check.result) + ",result_text:"@ + literal(
            check.result_text,
        ) + ",result_detail:"@ + literal(check.result_detail) + ",\n    },\n"@,
{
    let line = |x: RowView| lookup_text(x);
    let direct = |x: RowView| "        "@ + three(x) + "],\n"@;
    assert(line =~= direct);
}

/// A step is written with its head, its check, and every variance, panel, event of its history
/// and phase.
pub proof fn law_step_is_written(s: StepView)
    ensures
        head_text(s) == "  {\n    seq:"@ + decimal_text(s.seq as nat) + ",ts:"@ + decimal_text(
            s.ts as nat,
        ) + ",user:"@ + literal(s.user) + ",event:"@ + literal(s.event) + ",\n    group:"@
            + literal(s.group) + ",group_label:"@ + literal(s.group_label) + ",is_deferred:"@ + (
        if s.is_deferred {
            "true"@
        } else {
            "false"@
        }) + ",\n"@,
        step_text(s) == head_text(s) + check_text(s.check) + "    variances:[\n"@ + joined(
            s.variances,
            |x: VarInfoView| variance_text(x),
        ) + "    ],\n    state:{\n"@ + joined(
            s.state_snap,
            |x: (Seq<char>, EntityStateView)| panel_text(x),
        ) + "    },\n    history:[\n"@ + joined(s.history, |x: SeenView| seen_text(x))
            + "    ],\n    phases:[\n"@ + joined(s.phases, |x: PhaseView| phase_text(x))
            + "    ],\n  },\n"@,
{
}

/// A list of steps is written with every step, in order, between brackets.
pub proof fn law_steps_are_written(steps: Seq<StepView>)
    ensures
        steps_text(steps) == "[\n"@ + joined(steps, |x: StepView| step_text(x)) + "]"@,
{
}

/// The page is the same for all runs but for two places: it holds the steps as they are given
/// where its script assigns them, and behind them the scenarios.
pub proof fn law_page_holds_what_it_is_given(steps: Seq<char>, scenarios: Seq<char>)
    ensures
        page_text(steps, scenarios) == PAGE_TOP@ + CSS@ + PAGE_BODY@ + steps + PAGE_SCENARIOS@
            + scenarios + PAGE_SCRIPT@ + (JS_STORY@ + JS_PLAYBACK@ + JS_CARDS@ + JS_STATUS@)
            + PAGE_END@,
{
}

} // verus!
