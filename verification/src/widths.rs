//! The width calculator: for each segment position, the greatest length
//! among the rows of one category.

use crate::text::{byte_len, measure};
use vstd::prelude::*;

verus! {

/// The greatest length of the segment at `position` among `rows`; 0 where
/// there are no rows.
pub open spec fn column_width(rows: Seq<Seq<Seq<char>>>, position: int) -> nat
    decreases rows.len(),
{
    if rows.len() == 0 {
        0
    } else {
        let before = column_width(rows.drop_last(), position);
        let here = byte_len(rows.last()[position]);
        if here > before {
            here
        } else {
            before
        }
    }
}

/// The width of each of the `arity` segment positions of `rows`.
pub open spec fn widths_of(rows: Seq<Seq<Seq<char>>>, arity: nat) -> Seq<nat> {
    Seq::new(arity, |position: int| column_width(rows, position))
}

/// Widths as natural numbers.
pub open spec fn as_nats(widths: Seq<usize>) -> Seq<nat> {
    Seq::new(widths.len(), |position: int| widths[position] as nat)
}

/// Whether each of `rows` has exactly `arity` segments.
pub open spec fn uniform(rows: Seq<Seq<Seq<char>>>, arity: nat) -> bool {
    forall|row: int| 0 <= row < rows.len() ==> (#[trigger] rows[row]).len() == arity
}

/// The width of a position is at least the length of every row's segment
/// there.
pub proof fn lemma_width_covers_row(rows: Seq<Seq<Seq<char>>>, position: int, row: int)
    requires
        0 <= row < rows.len(),
    ensures
        byte_len(rows[row][position]) <= column_width(rows, position),
    decreases rows.len(),
{
    if row < rows.len() - 1 {
        lemma_width_covers_row(rows.drop_last(), position, row);
    }
}

/// The width of a position is the length of some row's segment there,
/// unless there are no rows.
pub proof fn lemma_width_is_attained(rows: Seq<Seq<Seq<char>>>, position: int) -> (row: int)
    requires
        rows.len() > 0,
    ensures
        0 <= row < rows.len(),
        byte_len(rows[row][position]) == column_width(rows, position),
    decreases rows.len(),
{
    let before = column_width(rows.drop_last(), position);
    let here = byte_len(rows.last()[position]);
    if here > before || rows.len() == 1 {
        rows.len() - 1
    } else {
        lemma_width_is_attained(rows.drop_last(), position)
    }
}

/// Computes the width of each of the `arity` segment positions of `rows`:
/// the greatest length found there, 0 where there are no rows.
pub fn widths(rows: &Vec<Vec<String>>, arity: usize) -> (out: Vec<usize>)
    requires
        uniform(rows.deep_view(), arity as nat),
    ensures
        out.len() == arity,
        as_nats(out@) == widths_of(rows.deep_view(), arity as nat),
{
    let ghost texts = rows.deep_view();
    let mut out: Vec<usize> = Vec::new();
    let mut position: usize = 0;
    while position < arity
        invariant
            position <= arity,
            texts == rows.deep_view(),
            uniform(texts, arity as nat),
            out.len() == position,
            forall|p: int| 0 <= p < position ==> out[p] as nat == column_width(texts, p),
        decreases arity - position,
    {
        let mut width: usize = 0;
        let mut row: usize = 0;
        proof {
            assert(texts.take(0).len() == 0);
        }
        while row < rows.len()
            invariant
                row <= rows.len(),
                position < arity,
                texts == rows.deep_view(),
                uniform(texts, arity as nat),
                width as nat == column_width(texts.take(row as int), position as int),
            decreases rows.len() - row,
        {
            proof {
                assert(texts[row as int].len() == arity);
                assert(texts[row as int] == rows[row as int].deep_view());
                assert(texts.take(row + 1).drop_last() =~= texts.take(row as int));
                assert(texts.take(row + 1).last() == texts[row as int]);
            }
            let here = measure(rows[row][position].as_str());
            if here > width {
                width = here;
            }
            row = row + 1;
        }
        proof {
            assert(texts.take(row as int) =~= texts);
        }
        out.push(width);
        position = position + 1;
    }
    proof {
        assert(as_nats(out@) =~= widths_of(texts, arity as nat));
    }
    out
}

} // verus!
