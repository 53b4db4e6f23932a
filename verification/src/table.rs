//! The trajectory table: the launch-angle sweep with its range cut-off, the
//! monotonicity guard on the emitted rows, and the rendering of the text.

use vstd::prelude::*;
use vstd::string::StringExecFns;
use crate::family::{is_skip_tag, should_skip};
use crate::fixed::{distance_text, distance_text_is_field, push_distance};
use crate::format::{
    penetration_text, penetration_text_is_field, push_penetration, push_time, time_text,
    time_text_is_field,
};
use crate::ieee::{at_least, at_most, ge, le, less_than, lt, ZERO_BITS};
use crate::record::DataProjectile;
use crate::tenths::{tenths, time_tenths};

verus! {

/// Bit pattern of 4500.0, the ground distance in metres at which the sweep ends.
pub const MAX_RANGE_BITS: u64 = 0x40B1_9400_0000_0000;

/// One simulated launch angle at its ground crossing.
#[derive(Clone, Copy, Debug, PartialEq, Eq, Structural)]
pub struct Row {
    /// Bit pattern of the horizontal distance in metres.
    pub distance: u64,
    /// Bit pattern of the time of flight in seconds.
    pub time: u64,
    /// Bit pattern of the penetration in millimetres.
    pub penetration: u64,
}

/// The line of one row: the distance with three decimals, the time in tenths
/// and the penetration, separated by tabs and closed by a newline.
pub open spec fn line_text(row: Row) -> Seq<char> {
    distance_text(row.distance) + seq!['\t'] + time_text(tenths(row.time)) + seq!['\t']
        + penetration_text(row.penetration) + seq!['\n']
}

/// The lines of the first `n` rows.
pub open spec fn lines_text(rows: Seq<Row>, n: int) -> Seq<char>
    decreases n,
{
    if n <= 0 {
        Seq::<char>::empty()
    } else {
        lines_text(rows, n - 1) + line_text(rows[n - 1])
    }
}

/// The index, at or after `from`, of the first row whose successor lies
/// nearer than it; the index of the last row if there is none.
pub open spec fn first_drop(rows: Seq<Row>, from: int) -> int
    decreases rows.len() - from,
{
    if from >= rows.len() - 1 {
        rows.len() - 1
    } else if lt(rows[from + 1].distance, rows[from].distance) {
        from
    } else {
        first_drop(rows, from + 1)
    }
}

/// How many rows are emitted: none of fewer than two, else those before the
/// first drop in distance, the last row never among them.
pub open spec fn emitted_count(rows: Seq<Row>) -> int {
    if rows.len() < 2 {
        0
    } else {
        first_drop(rows, 0)
    }
}

/// The text of a table.
pub open spec fn rendered(rows: Seq<Row>) -> Seq<char> {
    lines_text(rows, emitted_count(rows))
}

/// `rows` is what a sweep over at most `max_entries` launch angles collects
/// from `simulate`: one row per angle index in order, ending with the first row
/// that reaches the maximum range, or when the angles are used up.
pub open spec fn is_sweep<F: Fn(usize) -> Row>(simulate: F, max_entries: usize, rows: Seq<Row>) -> bool {
    &&& rows.len() <= max_entries
    &&& forall|i: int| 0 <= i < rows.len() ==> call_ensures(simulate, (i as usize,), #[trigger] rows[i])
    &&& forall|i: int| 0 <= i < rows.len() - 1 ==> !ge((#[trigger] rows[i]).distance, MAX_RANGE_BITS)
    &&& (rows.len() == max_entries || (rows.len() > 0 && ge(rows.last().distance, MAX_RANGE_BITS)))
}

/// Whether any table is built for this shell and sensitivity.
pub open spec fn produces_output(tag: Seq<char>, sensitivity: u64) -> bool {
    !is_skip_tag(tag) && !le(sensitivity, ZERO_BITS)
}

/// `result` is what the builder may return for these inputs: no output for a
/// skipped family or a sensitivity that is not positive, else the rendered rows
/// of a sweep.
pub open spec fn is_table<F: Fn(usize) -> Row>(
    proj: DataProjectile,
    sensitivity: u64,
    max_entries: usize,
    simulate: F,
    result: Option<String>,
) -> bool {
    &&& result is Some == produces_output(proj.normalized_type@, sensitivity)
    &&& result is Some ==> exists|rows: Seq<Row>| #[trigger]
        is_sweep(simulate, max_entries, rows) && result.unwrap()@ == rendered(rows)
}

/// The emitted rows never step back in distance, the row after them does
/// (unless it is the last one), and the last row is never emitted.
pub proof fn emitted_rows_stop_at_first_drop(rows: Seq<Row>)
    ensures
        0 <= emitted_count(rows),
        rows.len() < 2 ==> emitted_count(rows) == 0,
        rows.len() >= 2 ==> emitted_count(rows) <= rows.len() - 1,
        forall|i: int|
            0 <= i < emitted_count(rows) ==> !lt(
                (#[trigger] rows[i + 1]).distance,
                rows[i].distance,
            ),
        rows.len() >= 2 && emitted_count(rows) < rows.len() - 1 ==> lt(
            rows[emitted_count(rows) + 1].distance,
            rows[emitted_count(rows)].distance,
        ),
{
    if rows.len() >= 2 {
        first_drop_is_first(rows, 0);
    }
}

proof fn first_drop_is_first(rows: Seq<Row>, from: int)
    requires
        0 <= from <= rows.len() - 1,
    ensures
        from <= first_drop(rows, from) <= rows.len() - 1,
        forall|i: int|
            from <= i < first_drop(rows, from) ==> !lt(
                (#[trigger] rows[i + 1]).distance,
                rows[i].distance,
            ),
        first_drop(rows, from) < rows.len() - 1 ==> lt(
            rows[first_drop(rows, from) + 1].distance,
            rows[first_drop(rows, from)].distance,
        ),
    decreases rows.len() - from,
{
    if from < rows.len() - 1 && !lt(rows[from + 1].distance, rows[from].distance) {
        first_drop_is_first(rows, from + 1);
    }
}

/// How often `c` stands in `s`.
pub open spec fn count_of(s: Seq<char>, c: char) -> nat
    decreases s.len(),
{
    if s.len() == 0 {
        0
    } else {
        count_of(s.drop_last(), c) + if s.last() == c {
            1nat
        } else {
            0nat
        }
    }
}

proof fn count_of_joined(a: Seq<char>, b: Seq<char>, c: char)
    ensures
        count_of(a + b, c) == count_of(a, c) + count_of(b, c),
    decreases b.len(),
{
    if b.len() == 0 {
        assert(a + b =~= a);
    } else {
        count_of_joined(a, b.drop_last(), c);
        assert((a + b).drop_last() =~= a + b.drop_last());
        assert((a + b).last() == b.last());
    }
}

proof fn count_of_absent(s: Seq<char>, c: char)
    requires
        forall|i: int| 0 <= i < s.len() ==> s[i] != c,
    ensures
        count_of(s, c) == 0,
    decreases s.len(),
{
    if s.len() > 0 {
        count_of_absent(s.drop_last(), c);
    }
}

proof fn count_of_one(c: char, d: char)
    ensures
        count_of(seq![d], c) == if d == c {
            1nat
        } else {
            0nat
        },
{
    assert(seq![d].drop_last().len() == 0);
    assert(count_of(seq![d].drop_last(), c) == 0);
    assert(seq![d].last() == d);
}

/// The line of a row holds exactly two tabs and ends in its only newline.
pub proof fn line_has_three_fields(row: Row)
    ensures
        count_of(line_text(row), '\t') == 2,
        count_of(line_text(row), '\n') == 1,
        line_text(row).last() == '\n',
{
    let d = distance_text(row.distance);
    let t = time_text(tenths(row.time));
    let p = penetration_text(row.penetration);
    distance_text_is_field(row.distance);
    time_text_is_field(tenths(row.time));
    penetration_text_is_field(row.penetration);
    assert forall|c: char| c == '\t' || c == '\n' implies count_of(d, c) == 0 && count_of(t, c)
        == 0 && count_of(p, c) == 0 by {
        count_of_absent(d, c);
        count_of_absent(t, c);
        count_of_absent(p, c);
    }
    assert forall|c: char| c == '\t' || c == '\n' implies count_of(line_text(row), c) == count_of(
        seq!['\t'],
        c,
    ) + count_of(seq!['\t'], c) + count_of(seq!['\n'], c) by {
        count_of_joined(d, seq!['\t'], c);
        count_of_joined(d + seq!['\t'], t, c);
        count_of_joined(d + seq!['\t'] + t, seq!['\t'], c);
        count_of_joined(d + seq!['\t'] + t + seq!['\t'], p, c);
        count_of_joined(d + seq!['\t'] + t + seq!['\t'] + p, seq!['\n'], c);
    }
    count_of_one('\t', '\t');
    count_of_one('\t', '\n');
    count_of_one('\n', '\t');
    count_of_one('\n', '\n');
}

proof fn lines_are_counted(rows: Seq<Row>, n: int)
    requires
        0 <= n <= rows.len(),
    ensures
        count_of(lines_text(rows, n), '\n') == n,
        count_of(lines_text(rows, n), '\t') == 2 * n,
    decreases n,
{
    if n > 0 {
        lines_are_counted(rows, n - 1);
        line_has_three_fields(rows[n - 1]);
        count_of_joined(lines_text(rows, n - 1), line_text(rows[n - 1]), '\n');
        count_of_joined(lines_text(rows, n - 1), line_text(rows[n - 1]), '\t');
    }
}

/// A table holds one line of three fields for each emitted row, and so fewer
/// lines than the sweep has rows.
pub proof fn table_has_one_line_per_emitted_row(rows: Seq<Row>)
    ensures
        count_of(rendered(rows), '\n') == emitted_count(rows),
        count_of(rendered(rows), '\t') == 2 * emitted_count(rows),
        rows.len() >= 1 ==> emitted_count(rows) < rows.len(),
        rows.len() < 2 ==> rendered(rows).len() == 0,
{
    emitted_rows_stop_at_first_drop(rows);
    lines_are_counted(rows, emitted_count(rows));
}

/// Renders the rows of one sweep.
pub fn render_table(rows: &Vec<Row>) -> (out: String)
    ensures
        out@ == rendered(rows@),
{
    let mut out = String::new();
    if rows.len() < 2 {
        assert(out@ =~= rendered(rows@));
        return out;
    }
    let mut i: usize = 0;
    let mut dropped: bool = less_than(rows[1].distance, rows[0].distance);
    while i < rows.len() - 1 && !dropped
        invariant
            rows@.len() >= 2,
            i <= rows@.len() - 1,
            out@ == lines_text(rows@, i as int),
            first_drop(rows@, i as int) == emitted_count(rows@),
            dropped == (i < rows@.len() - 1 && lt(
                rows@[i + 1].distance,
                rows@[i as int].distance,
            )),
        decreases rows@.len() - i,
    {
        proof {
            reveal_strlit("\t");
            reveal_strlit("\n");
        }
        let ghost before = out@;
        push_distance(&mut out, rows[i].distance);
        out.append("\t");
        push_time(&mut out, time_tenths(rows[i].time));
        out.append("\t");
        push_penetration(&mut out, rows[i].penetration);
        out.append("\n");
        assert(out@ =~= before + line_text(rows@[i as int]));
        i += 1;
        dropped = i < rows.len() - 1 && less_than(rows[i + 1].distance, rows[i].distance);
    }
    assert(first_drop(rows@, i as int) == i);
    out
}

/// Builds the table of one projectile. `simulate` yields the row of the launch
/// angle with the given index; it is asked for the angles in order, up to
/// `max_entries` of them, and no further once a row has reached the maximum
/// range. A skipped shell family or a sensitivity that is not positive yields
/// no output, and then `simulate` is never asked.
pub fn compute_ballistic<F: Fn(usize) -> Row>(
    proj: &DataProjectile,
    sensitivity: u64,
    max_entries: usize,
    simulate: F,
) -> (r: Option<String>)
    requires
        forall|i: usize| i < max_entries ==> call_requires(simulate, (i,)),
    ensures
        is_table(*proj, sensitivity, max_entries, simulate, r),
{
    if should_skip(proj.normalized_type.as_str()) || at_most(sensitivity, ZERO_BITS) {
        return None;
    }
    let rows = sweep(max_entries, simulate);
    let out = render_table(&rows);
    Some(out)
}

/// Collects the rows of one sweep.
pub fn sweep<F: Fn(usize) -> Row>(max_entries: usize, simulate: F) -> (rows: Vec<Row>)
    requires
        forall|i: usize| i < max_entries ==> call_requires(simulate, (i,)),
    ensures
        is_sweep(simulate, max_entries, rows@),
{
    let mut rows: Vec<Row> = Vec::new();
    let mut i: usize = 0;
    let mut reached: bool = false;
    while i < max_entries && !reached
        invariant
            forall|i: usize| i < max_entries ==> call_requires(simulate, (i,)),
            i <= max_entries,
            rows@.len() == i,
            forall|j: int| 0 <= j < rows@.len() ==> call_ensures(simulate, (j as usize,), #[trigger] rows@[j]),
            forall|j: int| 0 <= j < rows@.len() - 1 ==> !ge((#[trigger] rows@[j]).distance, MAX_RANGE_BITS),
            reached == (rows@.len() > 0 && ge(rows@.last().distance, MAX_RANGE_BITS)),
        decreases max_entries - i,
    {
        let row = simulate(i);
        reached = at_least(row.distance, MAX_RANGE_BITS);
        rows.push(row);
        i += 1;
    }
    rows
}

} // verus!
