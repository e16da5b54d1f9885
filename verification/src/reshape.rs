//! The response reshaper: raw result rows in, rows parted into dimensions and metrics out.

use crate::models::response::{
    CellValue, CellView, Cells, CellsView, MetricValue, Number, PivotRow, PivotRowView, PnlRow,
    PnlRowView, Real,
};
use crate::text::{chars_of, ends_with, has_prefix, has_suffix, same_text, starts_with};
use crate::views::lemma_pushed;
use vstd::prelude::*;

verus! {

/// The row that a line of JSON stands for: its names with their values, or nothing where
/// the line is not one JSON object.
pub uninterp spec fn json_object(line: Seq<char>) -> Option<CellsView>;

/// Whether no name occurs twice.
pub open spec fn distinct_names<T>(cells: Seq<(Seq<char>, T)>) -> bool {
    forall|i: int, j: int|
        0 <= i < j < cells.len() ==> (#[trigger] cells[i]).0 != (#[trigger] cells[j]).0
}

/// Whether every number of a row can be read as a double.
pub open spec fn numbers_are_doubles(cells: CellsView) -> bool {
    forall|i: int|
        0 <= i < cells.len() ==> ((#[trigger] cells[i]).1 matches CellView::Number(n)
            ==> n.real is Some)
}

/// `serde_json::from_str`, read as a map from names to values: `None` unless the line is
/// one JSON object. Each name comes once, with the value it has last in the line, and the
/// names come in ascending order. A number is given by what `as_u64`, `as_i64` and `as_f64`
/// say of it, and `as_f64` has a double for every number: for a float itself, for an
/// integer the nearest double. An array or an object is given by its compact JSON text.
#[verifier::external_body]
fn parse_json_object(line: &str) -> (row: Option<Cells>)
    ensures
        row.deep_view() == json_object(line@),
        row matches Some(cells) ==> distinct_names(cells.deep_view()),
        row matches Some(cells) ==> numbers_are_doubles(cells.deep_view()),
{
    let fields: std::collections::BTreeMap<String, serde_json::Value> =
        serde_json::from_str(line).ok()?;
    Some(fields.into_iter().map(|(name, value)| (name, match value {
        serde_json::Value::Null => CellValue::Null,
        serde_json::Value::Bool(flag) => CellValue::Bool(flag),
        serde_json::Value::Number(n) => CellValue::Number(Number {
            unsigned: n.as_u64(),
            signed: n.as_i64(),
            real: n.as_f64().map(|x| Real { bits: x.to_bits() }),
        }),
        serde_json::Value::String(text) => CellValue::Text(text),
        nested => CellValue::Nested(nested.to_string()),
    })).collect())
}

/// The naming convention for aggregates: a column is a metric if and only if its name
/// starts with `total_`, ends with `_count`, or is `avg_price`.
pub open spec fn metric_name(name: Seq<char>) -> bool {
    has_prefix(name, "total_"@) || has_suffix(name, "_count"@) || name == "avg_price"@
}

pub fn is_metric_column(name: &str) -> (yes: bool)
    ensures
        yes == metric_name(name@),
{
    starts_with(name, "total_") || ends_with(name, "_count") || same_text(name, "avg_price")
}

/// What a metric column contributes: the reading of its number as a double, or else as a
/// signed integer, and nothing where it holds no number or a number that has neither
/// reading.
pub open spec fn metric_value(value: CellView) -> Option<MetricValue> {
    match value {
        CellView::Number(n) => n.metric_reading(),
        _ => None,
    }
}

/// The columns of a row that are dimensions, in their order.
pub open spec fn dimension_cells(cells: CellsView) -> CellsView
    decreases cells.len(),
{
    if cells.len() == 0 {
        Seq::empty()
    } else if metric_name(cells.last().0) {
        dimension_cells(cells.drop_last())
    } else {
        dimension_cells(cells.drop_last()).push(cells.last())
    }
}

/// The columns of a row that are metrics and hold a number, in their order.
pub open spec fn metric_cells(cells: CellsView) -> Seq<(Seq<char>, MetricValue)>
    decreases cells.len(),
{
    if cells.len() == 0 {
        Seq::empty()
    } else if metric_name(cells.last().0) && metric_value(cells.last().1) is Some {
        metric_cells(cells.drop_last()).push((cells.last().0, metric_value(cells.last().1)->0))
    } else {
        metric_cells(cells.drop_last())
    }
}

/// Whether a row is what a row read from a result is: no dimension comes twice, no metric
/// comes twice, and every metric is a double.
pub open spec fn sound_row(row: PivotRowView) -> bool {
    &&& distinct_names(row.dimensions)
    &&& distinct_names(row.metrics)
    &&& forall|i: int| 0 <= i < row.metrics.len() ==> (#[trigger] row.metrics[i]).1 is Real
}

/// Whether a profit-and-loss row is what a row read from a result is: no group comes twice.
pub open spec fn sound_pnl_row(row: PnlRowView) -> bool {
    distinct_names(row.groups)
}

/// The reshaped row.
pub open spec fn reshaped(cells: CellsView) -> PivotRowView {
    PivotRowView { dimensions: dimension_cells(cells), metrics: metric_cells(cells) }
}

/// Whether `name` is the name of one of the cells.
pub open spec fn names_column<T>(cells: Seq<(Seq<char>, T)>, name: Seq<char>) -> bool {
    exists|i: int| 0 <= i < cells.len() && (#[trigger] cells[i]).0 == name
}

/// Every column of the reshaped row is a column of the raw row, on the side that its name
/// puts it on; and where no name came twice, none comes twice afterwards.
pub proof fn lemma_reshaped_partition(cells: CellsView)
    ensures
        forall|i: int|
            0 <= i < dimension_cells(cells).len() ==> !metric_name(
                (#[trigger] dimension_cells(cells)[i]).0,
            ) && names_column(cells, dimension_cells(cells)[i].0),
        forall|i: int|
            0 <= i < metric_cells(cells).len() ==> metric_name(
                (#[trigger] metric_cells(cells)[i]).0,
            ) && names_column(cells, metric_cells(cells)[i].0),
        dimension_cells(cells).len() + metric_cells(cells).len() <= cells.len(),
        distinct_names(cells) ==> distinct_names(dimension_cells(cells)) && distinct_names(
            metric_cells(cells),
        ),
    decreases cells.len(),
{
    if cells.len() > 0 {
        let rest = cells.drop_last();
        let last = cells.last();
        lemma_reshaped_partition(rest);
        let dims = dimension_cells(cells);
        let mets = metric_cells(cells);
        assert forall|i: int| 0 <= i < dims.len() implies !metric_name((#[trigger] dims[i]).0)
            && names_column(cells, dims[i].0) by {
            if i < dimension_cells(rest).len() {
                let k = choose|k: int|
                    0 <= k < rest.len() && (#[trigger] rest[k]).0 == dimension_cells(rest)[i].0;
                assert(cells[k] == rest[k]);
            } else {
                assert(cells[cells.len() - 1].0 == dims[i].0);
            }
        }
        assert forall|i: int| 0 <= i < mets.len() implies metric_name((#[trigger] mets[i]).0)
            && names_column(cells, mets[i].0) by {
            if i < metric_cells(rest).len() {
                let k = choose|k: int|
                    0 <= k < rest.len() && (#[trigger] rest[k]).0 == metric_cells(rest)[i].0;
                assert(cells[k] == rest[k]);
            } else {
                assert(cells[cells.len() - 1].0 == mets[i].0);
            }
        }
        if distinct_names(cells) {
            assert forall|i: int, j: int| 0 <= i < j < rest.len() implies (#[trigger] rest[i]).0 != (
            #[trigger] rest[j]).0 by {
                assert(rest[i] == cells[i] && rest[j] == cells[j]);
            }
            assert forall|i: int, j: int| 0 <= i < j < dims.len() implies (#[trigger] dims[i]).0 != (
            #[trigger] dims[j]).0 by {
                if j >= dimension_cells(rest).len() {
                    let k = choose|k: int|
                        0 <= k < rest.len() && (#[trigger] rest[k]).0 == dimension_cells(rest)[i].0;
                    assert(cells[k] == rest[k]);
                    assert(cells[cells.len() - 1] == last);
                }
            }
            assert forall|i: int, j: int| 0 <= i < j < mets.len() implies (#[trigger] mets[i]).0 != (
            #[trigger] mets[j]).0 by {
                if j >= metric_cells(rest).len() {
                    let k = choose|k: int|
                        0 <= k < rest.len() && (#[trigger] rest[k]).0 == metric_cells(rest)[i].0;
                    assert(cells[k] == rest[k]);
                    assert(cells[cells.len() - 1] == last);
                }
            }
        }
    }
}

/// In a row whose numbers are all doubles, every metric is a double.
pub proof fn lemma_metrics_are_doubles(cells: CellsView)
    requires
        numbers_are_doubles(cells),
    ensures
        forall|i: int|
            0 <= i < metric_cells(cells).len() ==> (#[trigger] metric_cells(cells)[i]).1 is Real,
    decreases cells.len(),
{
    if cells.len() > 0 {
        let rest = cells.drop_last();
        assert forall|i: int| 0 <= i < rest.len() implies ((#[trigger] rest[i]).1 matches CellView::Number(
            n,
        ) ==> n.real is Some) by {
            assert(rest[i] == cells[i]);
        }
        lemma_metrics_are_doubles(rest);
        assert(cells[cells.len() - 1] == cells.last());
    }
}

/// A raw row without a name that comes twice, and with a double for every number, is
/// reshaped into a sound row.
pub proof fn lemma_reshaped_is_sound(cells: CellsView)
    requires
        distinct_names(cells),
        numbers_are_doubles(cells),
    ensures
        sound_row(reshaped(cells)),
{
    lemma_reshaped_partition(cells);
    lemma_metrics_are_doubles(cells);
}

/// The groups of a row are columns of the row; where no name came twice, none comes twice
/// among them.
pub proof fn lemma_groups_are_sound(cells: CellsView)
    ensures
        forall|i: int|
            0 <= i < group_cells(cells).len() ==> names_column(
                cells,
                (#[trigger] group_cells(cells)[i]).0,
            ),
        distinct_names(cells) ==> sound_pnl_row(pnl_reshaped(cells)),
    decreases cells.len(),
{
    if cells.len() > 0 {
        let rest = cells.drop_last();
        let last = cells.last();
        lemma_groups_are_sound(rest);
        let groups = group_cells(cells);
        assert forall|i: int| 0 <= i < groups.len() implies names_column(
            cells,
            (#[trigger] groups[i]).0,
        ) by {
            if i < group_cells(rest).len() {
                let k = choose|k: int|
                    0 <= k < rest.len() && (#[trigger] rest[k]).0 == group_cells(rest)[i].0;
                assert(cells[k] == rest[k]);
            } else {
                assert(cells[cells.len() - 1].0 == groups[i].0);
            }
        }
        if distinct_names(cells) {
            assert forall|i: int, j: int| 0 <= i < j < rest.len() implies (#[trigger] rest[i]).0 != (
            #[trigger] rest[j]).0 by {
                assert(rest[i] == cells[i] && rest[j] == cells[j]);
            }
            assert forall|i: int, j: int| 0 <= i < j < groups.len() implies (
            #[trigger] groups[i]).0 != (#[trigger] groups[j]).0 by {
                if j >= group_cells(rest).len() {
                    let k = choose|k: int|
                        0 <= k < rest.len() && (#[trigger] rest[k]).0 == group_cells(rest)[i].0;
                    assert(cells[k] == rest[k]);
                    assert(cells[cells.len() - 1] == last);
                }
            }
        }
    }
}

/// Parts one raw row into its dimensions and its metrics. A metric column without a number
/// is dropped.
pub fn reshape_row(cells: &Cells) -> (row: PivotRow)
    ensures
        row@ == reshaped(cells.deep_view()),
{
    let mut dimensions: Vec<(String, CellValue)> = Vec::new();
    let mut metrics: Vec<(String, MetricValue)> = Vec::new();
    let mut i: usize = 0;
    while i < cells.len()
        invariant
            i <= cells.len(),
            dimensions.deep_view() == dimension_cells(cells.deep_view().take(i as int)),
            metrics.deep_view() == metric_cells(cells.deep_view().take(i as int)),
        decreases cells.len() - i,
    {
        let ghost done = cells.deep_view().take(i as int);
        let ghost next = cells.deep_view().take(i + 1);
        let ghost old_dimensions = dimensions;
        let ghost old_metrics = metrics;
        proof {
            assert(next.drop_last() =~= done);
            assert(next.last() == (cells@[i as int].0@, cells@[i as int].1@));
        }
        let name = &cells[i].0;
        let value = &cells[i].1;
        if is_metric_column(name.as_str()) {
            match value {
                CellValue::Number(n) => {
                    if let Some(reading) = n.as_metric() {
                        let metric = (name.clone(), reading);
                        metrics.push(metric);
                        proof {
                            lemma_pushed(old_metrics, metrics, metric);
                        }
                    }
                },
                _ => {},
            }
        } else {
            let cell = (name.clone(), value.duplicate());
            dimensions.push(cell);
            proof {
                lemma_pushed(old_dimensions, dimensions, cell);
            }
        }
        i += 1;
    }
    proof {
        assert(cells.deep_view().take(cells.len() as int) =~= cells.deep_view());
    }
    PivotRow { dimensions, metrics }
}

/// The reshaped row of a line, where the line is a JSON object.
pub open spec fn reshaped_line(line: Seq<char>) -> Option<PivotRowView> {
    match json_object(line) {
        Some(cells) => Some(reshaped(cells)),
        None => None,
    }
}

/// Reads one line of JSON and reshapes it; `None` for a line that is not a JSON object.
pub fn reshape_line(line: &str) -> (row: Option<PivotRow>)
    ensures
        row.deep_view() == reshaped_line(line@),
        row matches Some(read) ==> sound_row(read@),
{
    match parse_json_object(line) {
        Some(cells) => {
            proof {
                lemma_reshaped_is_sound(cells.deep_view());
            }
            Some(reshape_row(&cells))
        },
        None => None,
    }
}

/// The reshaped rows of the lines that are JSON objects, in their order.
pub open spec fn reshaped_lines(lines: Seq<Seq<char>>) -> Seq<PivotRowView>
    decreases lines.len(),
{
    if lines.len() == 0 {
        Seq::empty()
    } else {
        match reshaped_line(lines.last()) {
            Some(row) => reshaped_lines(lines.drop_last()).push(row),
            None => reshaped_lines(lines.drop_last()),
        }
    }
}

/// Reshapes the lines of a result. A line that cannot be read is left out.
pub fn reshape_lines(lines: &Vec<String>) -> (rows: Vec<PivotRow>)
    ensures
        rows.deep_view() == reshaped_lines(lines.deep_view()),
        rows@.len() <= lines@.len(),
        forall|k: int| 0 <= k < rows@.len() ==> sound_row((#[trigger] rows@[k])@),
{
    let mut rows: Vec<PivotRow> = Vec::new();
    let mut i: usize = 0;
    while i < lines.len()
        invariant
            i <= lines.len(),
            rows@.len() <= i,
            rows.deep_view() == reshaped_lines(lines.deep_view().take(i as int)),
            forall|k: int| 0 <= k < rows@.len() ==> sound_row((#[trigger] rows@[k])@),
        decreases lines.len() - i,
    {
        let ghost done = lines.deep_view().take(i as int);
        let ghost next = lines.deep_view().take(i + 1);
        let ghost before = rows;
        proof {
            assert(next.drop_last() =~= done);
            assert(next.last() == lines@[i as int]@);
        }
        match reshape_line(lines[i].as_str()) {
            Some(row) => {
                rows.push(row);
                proof {
                    lemma_pushed(before, rows, row);
                }
            },
            None => {},
        }
        i += 1;
    }
    proof {
        assert(lines.deep_view().take(lines.len() as int) =~= lines.deep_view());
    }
    rows
}

/// A line without the carriage return that ends it, if one does.
pub open spec fn without_return(line: Seq<char>) -> Seq<char> {
    if line.len() > 0 && line.last() == '\r' {
        line.drop_last()
    } else {
        line
    }
}

/// The lines of `text` that are not empty, where `pending` is the beginning of the first
/// one. A line ends at a line feed, or at a carriage return and a line feed; the last line
/// needs no line ending.
pub open spec fn lines_after(text: Seq<char>, pending: Seq<char>) -> Seq<Seq<char>>
    decreases text.len(),
{
    if text.len() == 0 {
        if pending.len() > 0 {
            seq![pending]
        } else {
            Seq::empty()
        }
    } else if text[0] == '\n' {
        if without_return(pending).len() > 0 {
            seq![without_return(pending)] + lines_after(text.drop_first(), Seq::empty())
        } else {
            lines_after(text.drop_first(), Seq::empty())
        }
    } else {
        lines_after(text.drop_first(), pending.push(text[0]))
    }
}

/// The lines of a body that are not empty.
pub open spec fn body_lines(body: Seq<char>) -> Seq<Seq<char>> {
    lines_after(body, Seq::empty())
}

fn string_of(chars: &Vec<char>, len: usize) -> (text: String)
    requires
        len <= chars@.len(),
    ensures
        text@ == chars@.take(len as int),
{
    let mut text = String::new();
    let mut i: usize = 0;
    while i < len
        invariant
            i <= len <= chars@.len(),
            text@ == chars@.take(i as int),
        decreases len - i,
    {
        text.push(chars[i]);
        proof {
            assert(chars@.take(i + 1) =~= chars@.take(i as int).push(chars@[i as int]));
        }
        i += 1;
    }
    text
}

/// Splits a body into its lines and leaves the empty ones out.
pub fn split_lines(body: &str) -> (lines: Vec<String>)
    ensures
        lines.deep_view() == body_lines(body@),
{
    let text = chars_of(body);
    let mut lines: Vec<String> = Vec::new();
    let mut pending: Vec<char> = Vec::new();
    let mut i: usize = 0;
    proof {
        assert(text@.skip(0) =~= text@);
        assert(lines.deep_view() =~= Seq::<Seq<char>>::empty());
        assert(lines.deep_view() + lines_after(text@, pending@) =~= lines_after(text@, pending@));
        assert(pending@ =~= Seq::<char>::empty());
    }
    while i < text.len()
        invariant
            i <= text.len(),
            text@ == body@,
            lines.deep_view() + lines_after(text@.skip(i as int), pending@) == body_lines(body@),
        decreases text.len() - i,
    {
        let c = text[i];
        let ghost rest = text@.skip(i as int);
        let ghost before = lines;
        proof {
            assert(rest[0] == c);
            assert(rest.drop_first() =~= text@.skip(i + 1));
        }
        if c == '\n' {
            let mut len = pending.len();
            if len > 0 && pending[len - 1] == '\r' {
                len = len - 1;
            }
            proof {
                assert(pending@.take(len as int) =~= without_return(pending@));
            }
            if len > 0 {
                let line = string_of(&pending, len);
                lines.push(line);
                proof {
                    lemma_pushed(before, lines, line);
                    assert(before.deep_view() + (seq![line@] + lines_after(
                        text@.skip(i + 1),
                        Seq::empty(),
                    )) =~= before.deep_view() + seq![line@] + lines_after(
                        text@.skip(i + 1),
                        Seq::empty(),
                    ));
                }
            }
            pending = Vec::new();
            proof {
                assert(pending@ =~= Seq::<char>::empty());
            }
        } else {
            pending.push(c);
        }
        i += 1;
    }
    let ghost before = lines;
    proof {
        assert(text@.skip(text.len() as int).len() == 0);
    }
    if pending.len() > 0 {
        let line = string_of(&pending, pending.len());
        proof {
            assert(pending@.take(pending.len() as int) =~= pending@);
        }
        lines.push(line);
        proof {
            lemma_pushed(before, lines, line);
        }
    } else {
        proof {
            assert(lines.deep_view() + Seq::<Seq<char>>::empty() =~= lines.deep_view());
        }
    }
    lines
}

/// What a value is as a double: nothing unless it is a number.
pub open spec fn as_real(value: CellView) -> Option<Real> {
    match value {
        CellView::Number(n) => n.real,
        _ => None,
    }
}

/// What a value is as an unsigned integer: nothing unless it is a number without sign and
/// fraction.
pub open spec fn as_unsigned(value: CellView) -> Option<u64> {
    match value {
        CellView::Number(n) => n.unsigned,
        _ => None,
    }
}

/// The double of the last column called `name`, and zero where there is no such column or
/// it holds no number.
pub open spec fn total_of(cells: CellsView, name: Seq<char>) -> Real
    decreases cells.len(),
{
    if cells.len() == 0 {
        Real { bits: 0 }
    } else if cells.last().0 == name {
        match as_real(cells.last().1) {
            Some(amount) => amount,
            None => Real { bits: 0 },
        }
    } else {
        total_of(cells.drop_last(), name)
    }
}

/// The count of the last column called `trade_count`, and zero where there is no such
/// column or it holds no unsigned integer.
pub open spec fn count_of(cells: CellsView) -> u64
    decreases cells.len(),
{
    if cells.len() == 0 {
        0
    } else if cells.last().0 == "trade_count"@ {
        match as_unsigned(cells.last().1) {
            Some(n) => n,
            None => 0,
        }
    } else {
        count_of(cells.drop_last())
    }
}

/// Whether a column holds one of the three aggregates of the profit-and-loss query.
pub open spec fn pnl_aggregate(name: Seq<char>) -> bool {
    name == "total_pnl"@ || name == "total_notional"@ || name == "trade_count"@
}

/// The columns of a row that it is grouped by: all but the three aggregates.
pub open spec fn group_cells(cells: CellsView) -> CellsView
    decreases cells.len(),
{
    if cells.len() == 0 {
        Seq::empty()
    } else if pnl_aggregate(cells.last().0) {
        group_cells(cells.drop_last())
    } else {
        group_cells(cells.drop_last()).push(cells.last())
    }
}

/// The profit-and-loss row of a raw row.
pub open spec fn pnl_reshaped(cells: CellsView) -> PnlRowView {
    PnlRowView {
        groups: group_cells(cells),
        total_pnl: total_of(cells, "total_pnl"@),
        total_notional: total_of(cells, "total_notional"@),
        trade_count: count_of(cells),
    }
}

/// Reads the three aggregates out of a raw row and keeps the other columns as its groups.
/// An aggregate that is missing or holds no number counts as zero.
pub fn reshape_pnl_row(cells: &Cells) -> (row: PnlRow)
    ensures
        row@ == pnl_reshaped(cells.deep_view()),
{
    let mut groups: Vec<(String, CellValue)> = Vec::new();
    let mut total_pnl = Real::zero();
    let mut total_notional = Real::zero();
    let mut trade_count: u64 = 0;
    let mut i: usize = 0;
    proof {
        reveal_strlit("total_pnl");
        reveal_strlit("total_notional");
        reveal_strlit("trade_count");
        assert("total_pnl"@ != "total_notional"@) by {
            assert("total_pnl"@.len() != "total_notional"@.len());
        }
        assert("total_pnl"@ != "trade_count"@) by {
            assert("total_pnl"@.len() != "trade_count"@.len());
        }
        assert("total_notional"@ != "trade_count"@) by {
            assert("total_notional"@.len() != "trade_count"@.len());
        }
    }
    while i < cells.len()
        invariant
            i <= cells.len(),
            "total_pnl"@ != "total_notional"@,
            "total_pnl"@ != "trade_count"@,
            "total_notional"@ != "trade_count"@,
            groups.deep_view() == group_cells(cells.deep_view().take(i as int)),
            total_pnl == total_of(cells.deep_view().take(i as int), "total_pnl"@),
            total_notional == total_of(cells.deep_view().take(i as int), "total_notional"@),
            trade_count == count_of(cells.deep_view().take(i as int)),
        decreases cells.len() - i,
    {
        let ghost done = cells.deep_view().take(i as int);
        let ghost next = cells.deep_view().take(i + 1);
        let ghost before = groups;
        proof {
            assert(next.drop_last() =~= done);
            assert(next.last() == (cells@[i as int].0@, cells@[i as int].1@));
        }
        let name = &cells[i].0;
        let value = &cells[i].1;
        if same_text(name.as_str(), "total_pnl") {
            total_pnl = match value {
                CellValue::Number(n) => match n.real {
                    Some(amount) => amount,
                    None => Real::zero(),
                },
                _ => Real::zero(),
            };
        } else if same_text(name.as_str(), "total_notional") {
            total_notional = match value {
                CellValue::Number(n) => match n.real {
                    Some(amount) => amount,
                    None => Real::zero(),
                },
                _ => Real::zero(),
            };
        } else if same_text(name.as_str(), "trade_count") {
            trade_count = match value {
                CellValue::Number(n) => match n.unsigned {
                    Some(count) => count,
                    None => 0,
                },
                _ => 0,
            };
        } else {
            let cell = (name.clone(), value.duplicate());
            groups.push(cell);
            proof {
                lemma_pushed(before, groups, cell);
            }
        }
        i += 1;
    }
    proof {
        assert(cells.deep_view().take(cells.len() as int) =~= cells.deep_view());
    }
    PnlRow { groups, total_pnl, total_notional, trade_count }
}

/// The profit-and-loss rows of the lines that are JSON objects, in their order.
pub open spec fn pnl_reshaped_lines(lines: Seq<Seq<char>>) -> Seq<PnlRowView>
    decreases lines.len(),
{
    if lines.len() == 0 {
        Seq::empty()
    } else {
        match json_object(lines.last()) {
            Some(cells) => pnl_reshaped_lines(lines.drop_last()).push(pnl_reshaped(cells)),
            None => pnl_reshaped_lines(lines.drop_last()),
        }
    }
}

/// Reshapes the lines of a profit-and-loss result. A line that cannot be read is left out.
pub fn reshape_pnl_lines(lines: &Vec<String>) -> (rows: Vec<PnlRow>)
    ensures
        rows.deep_view() == pnl_reshaped_lines(lines.deep_view()),
        rows@.len() <= lines@.len(),
        forall|k: int| 0 <= k < rows@.len() ==> sound_pnl_row((#[trigger] rows@[k])@),
{
    let mut rows: Vec<PnlRow> = Vec::new();
    let mut i: usize = 0;
    while i < lines.len()
        invariant
            i <= lines.len(),
            rows@.len() <= i,
            rows.deep_view() == pnl_reshaped_lines(lines.deep_view().take(i as int)),
            forall|k: int| 0 <= k < rows@.len() ==> sound_pnl_row((#[trigger] rows@[k])@),
        decreases lines.len() - i,
    {
        let ghost done = lines.deep_view().take(i as int);
        let ghost next = lines.deep_view().take(i + 1);
        let ghost before = rows;
        proof {
            assert(next.drop_last() =~= done);
            assert(next.last() == lines@[i as int]@);
        }
        match parse_json_object(lines[i].as_str()) {
            Some(cells) => {
                proof {
                    lemma_groups_are_sound(cells.deep_view());
                }
                let row = reshape_pnl_row(&cells);
                rows.push(row);
                proof {
                    lemma_pushed(before, rows, row);
                }
            },
            None => {},
        }
        i += 1;
    }
    proof {
        assert(lines.deep_view().take(lines.len() as int) =~= lines.deep_view());
    }
    rows
}

} // verus!
