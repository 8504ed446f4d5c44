//! Tables of findings, and the texts that the checks share.

use vstd::prelude::*;
use vstd::string::*;

use crate::events::Event;
use crate::events::EventView;
use crate::text::decimal;
use crate::text::decimal_text;

verus! {

/// A line of a table: label, value and status class.
pub type Row = (String, String, String);

/// A line of a table, as character sequences.
pub type RowView = (Seq<char>, Seq<char>, Seq<char>);

/// The views of the lines of a table.
pub open spec fn row_views(rows: Seq<Row>) -> Seq<RowView> {
    rows.map_values(|r: Row| (r.0@, r.1@, r.2@))
}

/// What an event was held against, and with what result.
pub struct CheckInfo {
    pub rule: String,
    pub lookup: Vec<Row>,
    pub result: &'static str,
    pub result_text: String,
    pub result_detail: String,
}

/// A check, with its texts as character sequences.
pub struct CheckView {
    pub rule: Seq<char>,
    pub lookup: Seq<RowView>,
    pub result: Seq<char>,
    pub result_text: Seq<char>,
    pub result_detail: Seq<char>,
}

impl View for CheckInfo {
    type V = CheckView;

    open spec fn view(&self) -> CheckView {
        CheckView {
            rule: self.rule@,
            lookup: row_views(self.lookup@),
            result: self.result@,
            result_text: self.result_text@,
            result_detail: self.result_detail@,
        }
    }
}

/// A point in time: `t=10s`.
pub open spec fn moment_text(t: u64) -> Seq<char> {
    "t="@ + decimal_text(t as nat) + "s"@
}

/// A length of time: `10s`.
pub open spec fn seconds_text(n: nat) -> Seq<char> {
    decimal_text(n) + "s"@
}

/// The status class of a finding that speaks for or against the event.
pub open spec fn status_text(good: bool) -> Seq<char> {
    if good {
        "ok"@
    } else {
        "fail"@
    }
}

/// The first two lines of every lookup: who, and what when.
pub open spec fn opening(ev: EventView) -> Seq<RowView> {
    seq![
        ("entity"@, ev.entity, "neutral"@),
        ("event"@, ev.kind.label() + " @ "@ + moment_text(ev.ts), "neutral"@),
    ]
}

/// Writes a point in time.
pub fn moment(t: u64) -> (r: String)
    ensures
        r@ == moment_text(t),
{
    "t=".to_owned().concat(decimal(t).as_str()).concat("s")
}

/// Writes a length of time.
pub fn seconds(n: u64) -> (r: String)
    ensures
        r@ == seconds_text(n as nat),
{
    decimal(n).concat("s")
}

/// The status class of a finding.
pub fn status(good: bool) -> (r: &'static str)
    ensures
        r@ == status_text(good),
{
    if good {
        "ok"
    } else {
        "fail"
    }
}

/// A table without lines.
pub fn no_rows() -> (r: Vec<Row>)
    ensures
        row_views(r@) == Seq::<RowView>::empty(),
{
    let r: Vec<Row> = Vec::new();
    assert(row_views(r@) =~= Seq::<RowView>::empty());
    r
}

/// Appends a line to a table.
pub fn add_row(rows: &mut Vec<Row>, label: &str, value: &str, class: &str)
    ensures
        row_views(final(rows)@) == row_views(old(rows)@).push((label@, value@, class@)),
{
    let row = (label.to_owned(), value.to_owned(), class.to_owned());
    rows.push(row);
    assert(row_views(rows@) =~= row_views(old(rows)@).push((label@, value@, class@)));
}

/// Starts a lookup with who, and what when.
pub fn open_lookup(ev: &Event) -> (r: Vec<Row>)
    ensures
        row_views(r@) == opening(ev@),
{
    let mut rows = no_rows();
    add_row(&mut rows, "entity", ev.entity, "neutral");
    add_row(
        &mut rows,
        "event",
        ev.kind.name().to_owned().concat(" @ ").concat(moment(ev.ts).as_str()).as_str(),
        "neutral",
    );
    rows
}

} // verus!
