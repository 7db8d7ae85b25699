//! What holds of everything that the layout engine renders: fields fill
//! their widths, fields of one position stand in one character column, a
//! table without constraints has no constraint block, and statements are
//! formatted each on its own.

use crate::document::{
    any_unnamed, any_unsupported_option, block, column_lines, column_segments, constraint_lines,
    constraint_segments, create_table_text, formatted, formatted_create_table,
};
use crate::model::{ColumnView, ConstraintView, Error, SqlStatementView};
use crate::row::{
    column_field, column_fields, constraint_field, constraint_fields, constraint_line, is_list,
    parenthesized,
};
use crate::segments::{COLUMN_ARITY, CONSTRAINT_ARITY};
use crate::text::{
    is_whitespace, joined, left_justified, lemma_char_count_at_most_byte_len,
    lemma_trimmed_has_no_outer_whitespace, right_justified, trimmed, trimmed_end,
    trimmed_start,
};
use crate::widths::{lemma_width_covers_row, widths_of};
use vstd::prelude::*;

verus! {

/// The width of the field at `position` of a constraint row, given the
/// widths of the segments: a column list takes two characters more, for its
/// parentheses.
pub open spec fn constraint_field_width(widths: Seq<nat>, position: int) -> nat {
    if is_list(position) {
        widths[position] + 2
    } else {
        widths[position]
    }
}

/// The widths of the fields of a constraint row, given the widths of the
/// segments.
pub open spec fn constraint_field_widths(widths: Seq<nat>) -> Seq<nat> {
    Seq::new(widths.len(), |position: int| constraint_field_width(widths, position))
}

/// The character column at which the field at `position` begins in a line
/// whose fields have the given widths and stand one space apart.
pub open spec fn field_start(field_widths: Seq<nat>, position: int) -> nat
    decreases position,
{
    if position <= 0 {
        0
    } else {
        field_start(field_widths, position - 1) + field_widths[position - 1] + 1
    }
}

/// What stands in `line` at the character columns of the field at
/// `position`.
pub open spec fn field_of(line: Seq<char>, field_widths: Seq<nat>, position: int) -> Seq<char> {
    let start = field_start(field_widths, position) as int;
    line.subrange(start, start + field_widths[position])
}

/// Whether `prefix` is how `whole` begins.
pub open spec fn begins(whole: Seq<char>, prefix: Seq<char>) -> bool {
    prefix.len() <= whole.len() && whole.take(prefix.len() as int) == prefix
}

/// A justified text is never shorter than the width, whatever the width.
pub proof fn lemma_justified_reaches_width(s: Seq<char>, width: nat)
    ensures
        left_justified(s, width).len() >= width,
        right_justified(s, width).len() >= width,
        s.len() <= width ==> left_justified(s, width).len() == width,
        s.len() <= width ==> right_justified(s, width).len() == width,
{
}

/// Width correctness for columns: in a block of columns, the field at each
/// position of each row holds exactly as many characters as the position is
/// wide.
pub proof fn lemma_column_field_fills_width(rows: Seq<Seq<Seq<char>>>, row: int, position: int)
    requires
        0 <= row < rows.len(),
        0 <= position < COLUMN_ARITY,
    ensures
        column_field(rows[row], widths_of(rows, COLUMN_ARITY as nat), position).len()
            == widths_of(rows, COLUMN_ARITY as nat)[position],
{
    lemma_width_covers_row(rows, position, row);
    lemma_char_count_at_most_byte_len(rows[row][position]);
}

/// Width correctness for constraints: in a block of constraints, the field
/// at each position of each row, before the row is trimmed, holds exactly
/// as many characters as the position is wide, a column list two more.
pub proof fn lemma_constraint_field_fills_width(
    rows: Seq<Seq<Seq<char>>>,
    row: int,
    position: int,
)
    requires
        0 <= row < rows.len(),
        0 <= position < CONSTRAINT_ARITY,
    ensures
        constraint_field(rows[row], widths_of(rows, CONSTRAINT_ARITY as nat), position).len()
            == constraint_field_width(widths_of(rows, CONSTRAINT_ARITY as nat), position),
{
    lemma_width_covers_row(rows, position, row);
    lemma_char_count_at_most_byte_len(rows[row][position]);
    reveal_strlit("(");
    reveal_strlit(")");
}

/// In a line of fields one space apart, each field stands at the column
/// that the widths of the fields before it give, and the line ends with the
/// last field.
pub proof fn lemma_joined_places_fields(
    fields: Seq<Seq<char>>,
    field_widths: Seq<nat>,
    position: int,
)
    requires
        fields.len() == field_widths.len(),
        forall|p: int| 0 <= p < fields.len() ==> (#[trigger] fields[p]).len() == field_widths[p],
        0 <= position < fields.len(),
    ensures
        joined(fields, " "@).len() == field_start(field_widths, fields.len() as int) - 1,
        field_of(joined(fields, " "@), field_widths, position) == fields[position],
    decreases fields.len(),
{
    reveal_strlit(" ");
    let count = fields.len() as int;
    if count == 1 {
        assert(field_of(joined(fields, " "@), field_widths, 0) =~= fields[0]);
    } else {
        let before = fields.drop_last();
        let before_widths = field_widths.drop_last();
        let line = joined(before, " "@);
        assert forall|p: int| 0 <= p <= count - 1 implies field_start(before_widths, p)
            == field_start(field_widths, p) by {
            lemma_field_start_depends_on_earlier(before_widths, field_widths, p);
        }
        if position < count - 1 {
            lemma_joined_places_fields(before, before_widths, position);
            lemma_field_start_grows(field_widths, position, count - 1);
            assert(field_of(joined(fields, " "@), field_widths, position) =~= field_of(
                line,
                before_widths,
                position,
            ));
        } else {
            lemma_joined_places_fields(before, before_widths, 0);
            assert(field_start(field_widths, position) == line.len() + 1);
            assert(field_of(joined(fields, " "@), field_widths, position) =~= fields[position]);
        }
    }
}

/// Where a field begins depends only on the widths of the fields before
/// it.
proof fn lemma_field_start_depends_on_earlier(a: Seq<nat>, b: Seq<nat>, position: int)
    requires
        0 <= position <= a.len(),
        position <= b.len(),
        forall|p: int| 0 <= p < position ==> a[p] == b[p],
    ensures
        field_start(a, position) == field_start(b, position),
    decreases position,
{
    if position > 0 {
        lemma_field_start_depends_on_earlier(a, b, position - 1);
    }
}

/// A later field begins behind the end of an earlier one and the space
/// that follows it.
proof fn lemma_field_start_grows(field_widths: Seq<nat>, earlier: int, later: int)
    requires
        0 <= earlier < later,
    ensures
        field_start(field_widths, earlier) + field_widths[earlier] + 1 <= field_start(
            field_widths,
            later,
        ),
    decreases later - earlier,
{
    if earlier < later - 1 {
        lemma_field_start_grows(field_widths, earlier, later - 1);
    }
}

/// Alignment of columns: in a block of columns every line is equally long,
/// and the field at a position stands at the same character column in every
/// line, the one that the widths alone give.
pub proof fn lemma_column_fields_align(rows: Seq<Seq<Seq<char>>>, row: int, position: int)
    requires
        0 <= row < rows.len(),
        0 <= position < COLUMN_ARITY,
    ensures
        ({
            let widths = widths_of(rows, COLUMN_ARITY as nat);
            let line = column_lines(rows)[row];
            &&& line.len() == field_start(widths, COLUMN_ARITY as int) - 1
            &&& field_of(line, widths, position) == column_field(rows[row], widths, position)
        }),
{
    let widths = widths_of(rows, COLUMN_ARITY as nat);
    let fields = column_fields(rows[row], widths);
    assert forall|p: int| 0 <= p < fields.len() implies (#[trigger] fields[p]).len()
        == widths[p] by {
        lemma_column_field_fills_width(rows, row, p);
    }
    lemma_joined_places_fields(fields, widths, position);
}

/// A text that does not begin with whitespace begins with what trimming
/// leaves of it: trimming only cuts its end.
pub proof fn lemma_trimmed_begins(s: Seq<char>)
    requires
        s.len() > 0,
        !is_whitespace(s[0]),
    ensures
        begins(s, trimmed(s)),
        trimmed(s).len() > 0,
{
    lemma_trimmed_end_begins(s);
}

/// A text begins with what trimming its end leaves of it, and that is not
/// empty unless all of the text is whitespace.
proof fn lemma_trimmed_end_begins(s: Seq<char>)
    ensures
        begins(s, trimmed_end(s)),
        s.len() > 0 && !is_whitespace(s[0]) ==> trimmed_end(s).len() > 0,
    decreases s.len(),
{
    if s.len() > 0 && is_whitespace(s.last()) {
        let shorter = s.drop_last();
        lemma_trimmed_end_begins(shorter);
        let kept = trimmed_end(shorter);
        assert(s.take(kept.len() as int) =~= shorter.take(kept.len() as int));
    } else {
        assert(s.take(s.len() as int) =~= s);
    }
}

/// Alignment of constraints: in a block of constraints each line is the
/// beginning of its eight fields one space apart, and among those the field
/// at a position stands at the same character column in every line, the one
/// that the widths alone give. So the fields of a line stand at those
/// columns as far as the line reaches.
pub proof fn lemma_constraint_fields_align(
    constraints: Seq<ConstraintView>,
    row: int,
    position: int,
)
    requires
        !any_unnamed(constraints),
        0 <= row < constraints.len(),
        0 <= position < CONSTRAINT_ARITY,
    ensures
        ({
            let rows = constraint_segments(constraints);
            let widths = widths_of(rows, CONSTRAINT_ARITY as nat);
            let field_widths = constraint_field_widths(widths);
            let whole = constraint_line(rows[row], widths);
            &&& begins(whole, constraint_lines(rows)[row])
            &&& constraint_lines(rows)[row].len() > 0
            &&& whole.len() == field_start(field_widths, CONSTRAINT_ARITY as int) - 1
            &&& field_of(whole, field_widths, position) == constraint_field(
                rows[row],
                widths,
                position,
            )
        }),
{
    let rows = constraint_segments(constraints);
    let widths = widths_of(rows, CONSTRAINT_ARITY as nat);
    let field_widths = constraint_field_widths(widths);
    let fields = constraint_fields(rows[row], widths);
    assert forall|p: int| 0 <= p < fields.len() implies (#[trigger] fields[p]).len()
        == field_widths[p] by {
        lemma_constraint_field_fills_width(rows, row, p);
    }
    lemma_joined_places_fields(fields, field_widths, position);
    lemma_constraint_line_begins(constraints, row);
    lemma_trimmed_begins(constraint_line(rows[row], widths));
}

/// What a constraint row shows of the segment at `position`: a column list
/// in parentheses unless it is empty, any other segment as it is.
pub open spec fn shown(segments: Seq<Seq<char>>, position: int) -> Seq<char> {
    if is_list(position) {
        parenthesized(segments[position])
    } else {
        segments[position]
    }
}

/// Trimming the end keeps a text at least up to any character of it that
/// is not whitespace.
proof fn lemma_trimmed_end_keeps(s: Seq<char>, at: int)
    requires
        0 <= at < s.len(),
        !is_whitespace(s[at]),
    ensures
        trimmed_end(s).len() > at,
    decreases s.len(),
{
    if is_whitespace(s.last()) {
        lemma_trimmed_end_keeps(s.drop_last(), at);
    }
}

/// Alignment of what is left of a constraint line: a segment that is not
/// empty and does not end in whitespace stands whole on its line, as the
/// row shows it, at the character column that the widths alone give; and
/// the line does not end in whitespace. So lines of one block differ only
/// in the fields that they leave out at their end.
pub proof fn lemma_constraint_field_stands_whole(
    constraints: Seq<ConstraintView>,
    row: int,
    position: int,
)
    requires
        !any_unnamed(constraints),
        0 <= row < constraints.len(),
        0 <= position < CONSTRAINT_ARITY,
        constraint_segments(constraints)[row][position].len() > 0,
        !is_whitespace(constraint_segments(constraints)[row][position].last()),
    ensures
        ({
            let rows = constraint_segments(constraints);
            let field_widths = constraint_field_widths(
                widths_of(rows, CONSTRAINT_ARITY as nat),
            );
            let line = constraint_lines(rows)[row];
            let start = field_start(field_widths, position) as int;
            let text = shown(rows[row], position);
            &&& text.len() <= field_widths[position]
            &&& start + text.len() <= line.len()
            &&& line.subrange(start, start + text.len()) == text
            &&& !is_whitespace(line.last())
        }),
{
    let rows = constraint_segments(constraints);
    let widths = widths_of(rows, CONSTRAINT_ARITY as nat);
    let field_widths = constraint_field_widths(widths);
    let whole = constraint_line(rows[row], widths);
    let line = constraint_lines(rows)[row];
    let start = field_start(field_widths, position) as int;
    let text = shown(rows[row], position);
    let field = constraint_field(rows[row], widths, position);
    lemma_constraint_fields_align(constraints, row, position);
    lemma_constraint_field_fills_width(rows, row, position);
    lemma_field_start_grows(field_widths, position, CONSTRAINT_ARITY as int);
    reveal_strlit("(");
    reveal_strlit(")");
    assert(text.len() > 0 && !is_whitespace(text.last()));
    assert(field == left_justified(text, field_widths[position]));
    assert(field.take(text.len() as int) =~= text);
    let end = start + text.len();
    assert(whole[end - 1] == field_of(whole, field_widths, position)[text.len() - 1]);
    assert(whole[end - 1] == text.last());
    lemma_constraint_line_begins(constraints, row);
    assert(trimmed_start(whole) == whole);
    lemma_trimmed_end_keeps(whole, end - 1);
    assert(line == trimmed_end(whole));
    assert(line.subrange(start, end) =~= field_of(whole, field_widths, position).take(
        text.len() as int,
    ));
    lemma_trimmed_has_no_outer_whitespace(whole);
}

/// A constraint line before trimming begins with the `C` of `CONSTRAINT`.
proof fn lemma_constraint_line_begins(constraints: Seq<ConstraintView>, row: int)
    requires
        !any_unnamed(constraints),
        0 <= row < constraints.len(),
    ensures
        ({
            let rows = constraint_segments(constraints);
            let whole = constraint_line(rows[row], widths_of(rows, CONSTRAINT_ARITY as nat));
            whole.len() > 0 && whole[0] == 'C'
        }),
{
    let rows = constraint_segments(constraints);
    let widths = widths_of(rows, CONSTRAINT_ARITY as nat);
    let field_widths = constraint_field_widths(widths);
    let fields = constraint_fields(rows[row], widths);
    assert forall|p: int| 0 <= p < fields.len() implies (#[trigger] fields[p]).len()
        == field_widths[p] by {
        lemma_constraint_field_fills_width(rows, row, p);
    }
    lemma_joined_places_fields(fields, field_widths, 0);
    let whole = constraint_line(rows[row], widths);
    assert(constraints[row].name().is_some());
    let name = constraints[row].name().unwrap();
    let first = constraints[row].segment_texts(name)[0];
    assert(first == "CONSTRAINT "@ + name);
    reveal_strlit("CONSTRAINT ");
    assert(first[0] == 'C');
    assert(fields[0] == left_justified(first, widths[0]));
    assert(fields[0][0] == 'C');
    lemma_field_start_grows(field_widths, 0, CONSTRAINT_ARITY as int);
    assert(field_of(whole, field_widths, 0)[0] == whole[0]);
}

/// Statements are formatted each on its own: the text of two lists of
/// statements, one behind the other, is the text of the first followed by
/// the text of the second, and the first error among them is the error of
/// the whole.
pub proof fn lemma_formatted_in_order(first: Seq<SqlStatementView>, second: Seq<SqlStatementView>)
    ensures
        formatted(first + second) == match formatted(first) {
            Err(error) => Err::<Seq<char>, Error>(error),
            Ok(before) => match formatted(second) {
                Err(error) => Err(error),
                Ok(after) => Ok(before + after),
            },
        },
    decreases second.len(),
{
    if second.len() == 0 {
        assert(first + second =~= first);
        if let Ok(before) = formatted(first) {
            assert(before + Seq::<char>::empty() =~= before);
        }
    } else {
        let all = first + second;
        assert(all.drop_last() =~= first + second.drop_last());
        assert(all.last() == second.last());
        lemma_formatted_in_order(first, second.drop_last());
        if let Ok(before) = formatted(first) {
            if let Ok(middle) = formatted(second.drop_last()) {
                if let Ok(text) = second.last().formatted() {
                    assert((before + middle) + text =~= before + (middle + text));
                }
            }
        }
    }
}

/// A table without constraints has no constraint block: behind the block of
/// its columns stands the line break and at once the closing parenthesis.
pub proof fn lemma_no_constraints_no_block(name: Seq<char>, columns: Seq<ColumnView>)
    requires
        !any_unsupported_option(columns),
    ensures
        formatted_create_table(name, columns, Seq::empty()) == Ok::<Seq<char>, Error>(
            "CREATE TABLE "@ + name + " (\n"@ + "    "@ + block(
                column_lines(column_segments(columns)),
            ) + "\n"@ + ")\n;"@,
        ),
{
    let none = Seq::<ConstraintView>::empty();
    assert(constraint_segments(none).len() == 0);
    let text = create_table_text(name, column_segments(columns), constraint_segments(none));
    assert(text =~= "CREATE TABLE "@ + name + " (\n"@ + "    "@ + block(
        column_lines(column_segments(columns)),
    ) + "\n"@ + ")\n;"@);
}

} // verus!
