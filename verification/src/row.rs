//! The row renderer: one aligned line from the segments of a column or of a
//! table constraint and the widths of its category.

use crate::segments::{COLUMN_ARITY, CONSTRAINT_ARITY};
use crate::text::{
    joined, left_justified, push_left_justified, push_right_justified, push_spaces,
    right_justified, trim, trimmed,
};
use crate::widths::as_nats;
use vstd::prelude::*;

verus! {

/// The position of the nullability keyword among a column's segments: the
/// one field that is right-justified.
pub const NULLABILITY: usize = 2;

/// The position of the column list among a constraint's segments.
pub const COLUMN_LIST: usize = 2;

/// The position of the referenced column list among a constraint's segments.
pub const REFERRED_LIST: usize = 5;

/// Whether the constraint segment at `position` is a column list, which is
/// shown in parentheses.
pub open spec fn is_list(position: int) -> bool {
    position == COLUMN_LIST || position == REFERRED_LIST
}

/// `s` in parentheses; an empty `s` stays empty.
pub open spec fn parenthesized(s: Seq<char>) -> Seq<char> {
    if s.len() == 0 {
        s
    } else {
        "("@ + s + ")"@
    }
}

/// The field at `position` of a column row: the segment brought to the
/// width of its position, the nullability keyword right-justified and the
/// others left-justified.
pub open spec fn column_field(segments: Seq<Seq<char>>, widths: Seq<nat>, position: int) -> Seq<
    char,
> {
    if position == NULLABILITY {
        right_justified(segments[position], widths[position])
    } else {
        left_justified(segments[position], widths[position])
    }
}

/// The fields of a column row, in order.
pub open spec fn column_fields(segments: Seq<Seq<char>>, widths: Seq<nat>) -> Seq<Seq<char>> {
    Seq::new(COLUMN_ARITY as nat, |position: int| column_field(segments, widths, position))
}

/// A column row: its four fields with one space between each two.
pub open spec fn column_row(segments: Seq<Seq<char>>, widths: Seq<nat>) -> Seq<char> {
    joined(column_fields(segments, widths), " "@)
}

/// The field at `position` of a constraint row: the segment left-justified
/// to the width of its position. A column list stands in parentheses unless
/// it is empty, and its field is two characters wider to make room for them.
pub open spec fn constraint_field(
    segments: Seq<Seq<char>>,
    widths: Seq<nat>,
    position: int,
) -> Seq<char> {
    if is_list(position) {
        left_justified(parenthesized(segments[position]), widths[position] + 2)
    } else {
        left_justified(segments[position], widths[position])
    }
}

/// The fields of a constraint row, in order.
pub open spec fn constraint_fields(segments: Seq<Seq<char>>, widths: Seq<nat>) -> Seq<
    Seq<char>,
> {
    Seq::new(
        CONSTRAINT_ARITY as nat,
        |position: int| constraint_field(segments, widths, position),
    )
}

/// A constraint row before trimming: its eight fields with one space between
/// each two.
pub open spec fn constraint_line(segments: Seq<Seq<char>>, widths: Seq<nat>) -> Seq<char> {
    joined(constraint_fields(segments, widths), " "@)
}

/// A constraint row: the line of its eight fields, without the whitespace at
/// either end.
pub open spec fn constraint_row(segments: Seq<Seq<char>>, widths: Seq<nat>) -> Seq<char> {
    trimmed(constraint_line(segments, widths))
}

/// Appends a column list to `out` as its field of a constraint row.
fn push_list(out: &mut String, list: &str, width: usize)
    ensures
        final(out)@ == old(out)@ + left_justified(parenthesized(list@), width as nat + 2),
{
    let len = list.unicode_len();
    if len == 0 {
        push_spaces(out, width);
        push_spaces(out, 2);
    } else {
        out.append("(");
        out.append(list);
        out.append(")");
        if len < width {
            push_spaces(out, width - len);
        }
    }
    proof {
        reveal_strlit("(");
        reveal_strlit(")");
        assert(out@ =~= old(out)@ + left_justified(parenthesized(list@), width as nat + 2));
    }
}

/// Renders the line of one column: name, data type and default clause
/// left-justified, the nullability keyword right-justified, each to the
/// width of its position, with one space between each two fields. Spaces at
/// the end of the line stay.
pub fn render_column_row(segments: &Vec<String>, widths: &Vec<usize>) -> (out: String)
    requires
        segments.len() == COLUMN_ARITY,
        widths.len() == COLUMN_ARITY,
    ensures
        out@ == column_row(segments.deep_view(), as_nats(widths@)),
{
    let ghost fields = column_fields(segments.deep_view(), as_nats(widths@));
    let mut out = String::new();
    let mut position: usize = 0;
    while position < COLUMN_ARITY
        invariant
            position <= COLUMN_ARITY,
            segments.len() == COLUMN_ARITY,
            widths.len() == COLUMN_ARITY,
            fields == column_fields(segments.deep_view(), as_nats(widths@)),
            out@ == joined(fields.take(position as int), " "@),
        decreases COLUMN_ARITY - position,
    {
        if position > 0 {
            out.append(" ");
        }
        let segment = segments[position].as_str();
        if position == NULLABILITY {
            push_right_justified(&mut out, segment, widths[position]);
        } else {
            push_left_justified(&mut out, segment, widths[position]);
        }
        proof {
            let grown = fields.take(position + 1);
            assert(grown.drop_last() =~= fields.take(position as int));
            assert(grown.last() == fields[position as int]);
        }
        position = position + 1;
    }
    proof {
        assert(fields.take(position as int) =~= fields);
    }
    out
}

/// Renders the line of one table constraint: each of the eight segments
/// left-justified to the width of its position, the two column lists in
/// parentheses unless empty and in fields two characters wider, with one
/// space between each two fields; then the whitespace at either end is cut
/// off.
pub fn render_constraint_row(segments: &Vec<String>, widths: &Vec<usize>) -> (out: String)
    requires
        segments.len() == CONSTRAINT_ARITY,
        widths.len() == CONSTRAINT_ARITY,
    ensures
        out@ == constraint_row(segments.deep_view(), as_nats(widths@)),
{
    let ghost fields = constraint_fields(segments.deep_view(), as_nats(widths@));
    let mut line = String::new();
    let mut position: usize = 0;
    while position < CONSTRAINT_ARITY
        invariant
            position <= CONSTRAINT_ARITY,
            segments.len() == CONSTRAINT_ARITY,
            widths.len() == CONSTRAINT_ARITY,
            fields == constraint_fields(segments.deep_view(), as_nats(widths@)),
            line@ == joined(fields.take(position as int), " "@),
        decreases CONSTRAINT_ARITY - position,
    {
        if position > 0 {
            line.append(" ");
        }
        let segment = segments[position].as_str();
        if position == COLUMN_LIST || position == REFERRED_LIST {
            push_list(&mut line, segment, widths[position]);
        } else {
            push_left_justified(&mut line, segment, widths[position]);
        }
        proof {
            let grown = fields.take(position + 1);
            assert(grown.drop_last() =~= fields.take(position as int));
            assert(grown.last() == fields[position as int]);
        }
        position = position + 1;
    }
    proof {
        assert(fields.take(position as int) =~= fields);
    }
    trim(line.as_str())
}

} // verus!
