//! The statement renderer: from parsed statements to the formatted text.

use crate::model::{
    Column, ColumnView, Constraint, ConstraintView, Error, SqlStatement, SqlStatementView,
};
use crate::row::{column_row, constraint_row, render_column_row, render_constraint_row};
use crate::segments::{COLUMN_ARITY, CONSTRAINT_ARITY};
use crate::text::{join, joined};
use crate::widths::{as_nats, uniform, widths, widths_of};
use vstd::prelude::*;

verus! {

/// The lines of the columns whose segments are `rows`, each aligned to the
/// widths of all of them.
pub open spec fn column_lines(rows: Seq<Seq<Seq<char>>>) -> Seq<Seq<char>> {
    Seq::new(rows.len(), |row: int| column_row(rows[row], widths_of(rows, COLUMN_ARITY as nat)))
}

/// The lines of the constraints whose segments are `rows`, each aligned to
/// the widths of all of them.
pub open spec fn constraint_lines(rows: Seq<Seq<Seq<char>>>) -> Seq<Seq<char>> {
    Seq::new(
        rows.len(),
        |row: int| constraint_row(rows[row], widths_of(rows, CONSTRAINT_ARITY as nat)),
    )
}

/// Lines as one block: each line after the first begins on a new line,
/// behind a comma.
pub open spec fn block(lines: Seq<Seq<char>>) -> Seq<char> {
    joined(lines, "\n  , "@)
}

/// The text of a `CREATE TABLE` statement, given the segments of its columns
/// and of its constraints. Without constraints there is no constraint block.
pub open spec fn create_table_text(
    name: Seq<char>,
    columns: Seq<Seq<Seq<char>>>,
    constraints: Seq<Seq<Seq<char>>>,
) -> Seq<char> {
    let head = "CREATE TABLE "@ + name + " (\n"@;
    let column_part = "    "@ + block(column_lines(columns)) + "\n"@;
    let constraint_part = if constraints.len() > 0 {
        "  , "@ + block(constraint_lines(constraints)) + "\n"@
    } else {
        Seq::empty()
    };
    head + column_part + constraint_part + ")\n;"@
}

/// The segments of each of `columns`.
pub open spec fn column_segments(columns: Seq<ColumnView>) -> Seq<Seq<Seq<char>>> {
    Seq::new(columns.len(), |i: int| columns[i].segment_texts())
}

/// The segments of each of `constraints`, all of them named.
pub open spec fn constraint_segments(constraints: Seq<ConstraintView>) -> Seq<
    Seq<Seq<char>>,
> {
    Seq::new(
        constraints.len(),
        |i: int| constraints[i].segment_texts(constraints[i].name().unwrap()),
    )
}

/// Whether one of `columns` has an option that the layout has no field for.
pub open spec fn any_unsupported_option(columns: Seq<ColumnView>) -> bool {
    exists|i: int| 0 <= i < columns.len() && (#[trigger] columns[i]).has_unsupported_option()
}

/// Whether one of `constraints` has no name.
pub open spec fn any_unnamed(constraints: Seq<ConstraintView>) -> bool {
    exists|i: int| 0 <= i < constraints.len() && (#[trigger] constraints[i]).name().is_none()
}

/// What formatting a `CREATE TABLE` statement gives: its text, or the error
/// of an unsupported column option, or else that of an unnamed constraint.
pub open spec fn formatted_create_table(
    name: Seq<char>,
    columns: Seq<ColumnView>,
    constraints: Seq<ConstraintView>,
) -> Result<Seq<char>, Error> {
    if any_unsupported_option(columns) {
        Err(Error::UnsupportedColumnOption)
    } else if any_unnamed(constraints) {
        Err(Error::MissingConstraintName)
    } else {
        Ok(create_table_text(name, column_segments(columns), constraint_segments(constraints)))
    }
}

impl SqlStatementView {
    /// What formatting the statement gives: only a `CREATE TABLE` has a
    /// text.
    pub open spec fn formatted(self) -> Result<Seq<char>, Error> {
        match self {
            SqlStatementView::CreateTable { name, columns, constraints } => formatted_create_table(
                name,
                columns,
                constraints,
            ),
            SqlStatementView::Other => Err(Error::UnsupportedStatement),
        }
    }
}

/// What formatting `statements` gives: their texts one after the other, or
/// the error of the first statement that has one.
pub open spec fn formatted(statements: Seq<SqlStatementView>) -> Result<Seq<char>, Error>
    decreases statements.len(),
{
    if statements.len() == 0 {
        Ok(Seq::empty())
    } else {
        match formatted(statements.drop_last()) {
            Err(error) => Err(error),
            Ok(before) => match statements.last().formatted() {
                Err(error) => Err(error),
                Ok(text) => Ok(before + text),
            },
        }
    }
}

/// Renders the block of the columns whose segments are `rows`: one line
/// each, aligned to the widths of all of them.
pub fn render_column_block(rows: &Vec<Vec<String>>) -> (out: String)
    requires
        uniform(rows.deep_view(), COLUMN_ARITY as nat),
    ensures
        out@ == block(column_lines(rows.deep_view())),
{
    let ghost texts = rows.deep_view();
    let widths = widths(rows, COLUMN_ARITY);
    let mut lines: Vec<String> = Vec::new();
    let mut row: usize = 0;
    while row < rows.len()
        invariant
            row <= rows.len(),
            texts == rows.deep_view(),
            uniform(texts, COLUMN_ARITY as nat),
            widths.len() == COLUMN_ARITY,
            as_nats(widths@) == widths_of(texts, COLUMN_ARITY as nat),
            lines.len() == row,
            forall|i: int| 0 <= i < row ==> (#[trigger] lines[i])@ == column_lines(texts)[i],
        decreases rows.len() - row,
    {
        proof {
            assert(texts[row as int].len() == COLUMN_ARITY);
            assert(texts[row as int] == rows[row as int].deep_view());
        }
        lines.push(render_column_row(&rows[row], &widths));
        row = row + 1;
    }
    proof {
        assert(lines.deep_view() =~= column_lines(texts));
    }
    join(&lines, "\n  , ")
}

/// Renders the block of the constraints whose segments are `rows`: one line
/// each, aligned to the widths of all of them.
pub fn render_constraint_block(rows: &Vec<Vec<String>>) -> (out: String)
    requires
        uniform(rows.deep_view(), CONSTRAINT_ARITY as nat),
    ensures
        out@ == block(constraint_lines(rows.deep_view())),
{
    let ghost texts = rows.deep_view();
    let widths = widths(rows, CONSTRAINT_ARITY);
    let mut lines: Vec<String> = Vec::new();
    let mut row: usize = 0;
    while row < rows.len()
        invariant
            row <= rows.len(),
            texts == rows.deep_view(),
            uniform(texts, CONSTRAINT_ARITY as nat),
            widths.len() == CONSTRAINT_ARITY,
            as_nats(widths@) == widths_of(texts, CONSTRAINT_ARITY as nat),
            lines.len() == row,
            forall|i: int| 0 <= i < row ==> (#[trigger] lines[i])@ == constraint_lines(texts)[i],
        decreases rows.len() - row,
    {
        proof {
            assert(texts[row as int].len() == CONSTRAINT_ARITY);
            assert(texts[row as int] == rows[row as int].deep_view());
        }
        lines.push(render_constraint_row(&rows[row], &widths));
        row = row + 1;
    }
    proof {
        assert(lines.deep_view() =~= constraint_lines(texts));
    }
    join(&lines, "\n  , ")
}

/// Formats one `CREATE TABLE` statement: the head, the block of its columns
/// and, where it has constraints, the block of those, then the closing
/// parenthesis and the semicolon on a line of its own. Fails, with no text,
/// on a column option that is neither nullability nor default, or else on a
/// constraint without a name.
pub fn render_create_table(
    name: &str,
    columns: &Vec<Column>,
    constraints: &Vec<Constraint>,
) -> (out: Result<String, Error>)
    ensures
        match out {
            Ok(text) => formatted_create_table(
                name@,
                columns.deep_view(),
                constraints.deep_view(),
            ) == Ok::<Seq<char>, Error>(text@),
            Err(error) => formatted_create_table(
                name@,
                columns.deep_view(),
                constraints.deep_view(),
            ) == Err::<Seq<char>, Error>(error),
        },
{
    let ghost column_views = columns.deep_view();
    let ghost constraint_views = constraints.deep_view();
    let mut column_rows: Vec<Vec<String>> = Vec::new();
    let mut at: usize = 0;
    while at < columns.len()
        invariant
            at <= columns.len(),
            column_views == columns.deep_view(),
            column_rows.len() == at,
            forall|i: int|
                0 <= i < at ==> !(#[trigger] column_views[i]).has_unsupported_option(),
            forall|i: int|
                0 <= i < at ==> (#[trigger] column_rows[i]).deep_view()
                    == column_views[i].segment_texts(),
        decreases columns.len() - at,
    {
        assert(column_views[at as int] == columns[at as int]@);
        match columns[at].segments() {
            Ok(segments) => {
                column_rows.push(segments);
            },
            Err(error) => {
                assert(column_views[at as int].has_unsupported_option());
                return Err(error);
            },
        }
        at = at + 1;
    }
    let mut constraint_rows: Vec<Vec<String>> = Vec::new();
    let mut at: usize = 0;
    while at < constraints.len()
        invariant
            at <= constraints.len(),
            column_views == columns.deep_view(),
            constraint_views == constraints.deep_view(),
            !any_unsupported_option(column_views),
            constraint_rows.len() == at,
            forall|i: int| 0 <= i < at ==> (#[trigger] constraint_views[i]).name().is_some(),
            forall|i: int|
                0 <= i < at ==> (#[trigger] constraint_rows[i]).deep_view()
                    == constraint_views[i].segment_texts(constraint_views[i].name().unwrap()),
        decreases constraints.len() - at,
    {
        assert(constraint_views[at as int] == constraints[at as int]@);
        match constraints[at].segments() {
            Ok(segments) => {
                constraint_rows.push(segments);
            },
            Err(error) => {
                assert(constraint_views[at as int].name().is_none());
                return Err(error);
            },
        }
        at = at + 1;
    }
    proof {
        assert(column_rows.deep_view() =~= column_segments(column_views));
        assert(constraint_rows.deep_view() =~= constraint_segments(constraint_views));
    }
    let mut text = String::from_str("CREATE TABLE ");
    text.append(name);
    text.append(" (\n");
    text.append("    ");
    text.append(render_column_block(&column_rows).as_str());
    text.append("\n");
    if constraint_rows.len() > 0 {
        text.append("  , ");
        text.append(render_constraint_block(&constraint_rows).as_str());
        text.append("\n");
    }
    text.append(")\n;");
    proof {
        assert(text@ =~= create_table_text(
            name@,
            column_segments(column_views),
            constraint_segments(constraint_views),
        ));
    }
    Ok(text)
}

impl SqlStatement {
    /// Formats the statement: a `CREATE TABLE` as [`render_create_table`]
    /// does; any other statement is an error.
    pub fn render(&self) -> (out: Result<String, Error>)
        ensures
            match out {
                Ok(text) => self@.formatted() == Ok::<Seq<char>, Error>(text@),
                Err(error) => self@.formatted() == Err::<Seq<char>, Error>(error),
            },
    {
        match self {
            SqlStatement::CreateTable { name, columns, constraints } => render_create_table(
                name.as_str(),
                columns,
                constraints,
            ),
            SqlStatement::Other => Err(Error::UnsupportedStatement),
        }
    }
}

/// Formats `statements` in order and returns their texts one after the
/// other. Fails, with no text, on the first statement that cannot be
/// formatted.
pub fn render(statements: &Vec<SqlStatement>) -> (out: Result<String, Error>)
    ensures
        match out {
            Ok(text) => formatted(statements.deep_view()) == Ok::<Seq<char>, Error>(text@),
            Err(error) => formatted(statements.deep_view()) == Err::<Seq<char>, Error>(error),
        },
{
    let ghost views = statements.deep_view();
    let mut text = String::new();
    let mut at: usize = 0;
    while at < statements.len()
        invariant
            at <= statements.len(),
            views == statements.deep_view(),
            formatted(views.take(at as int)) == Ok::<Seq<char>, Error>(text@),
        decreases statements.len() - at,
    {
        proof {
            assert(views.take(at + 1).drop_last() =~= views.take(at as int));
            assert(views.take(at + 1).last() == statements[at as int]@);
        }
        match statements[at].render() {
            Ok(piece) => {
                text.append(piece.as_str());
            },
            Err(error) => {
                proof {
                    lemma_error_stays(views, at + 1);
                }
                return Err(error);
            },
        }
        at = at + 1;
    }
    proof {
        assert(views.take(at as int) =~= views);
    }
    Ok(text)
}

/// Once the first `upto` statements give an error, all of them give that
/// error.
proof fn lemma_error_stays(statements: Seq<SqlStatementView>, upto: int)
    requires
        0 <= upto <= statements.len(),
        formatted(statements.take(upto)).is_err(),
    ensures
        formatted(statements) == formatted(statements.take(upto)),
    decreases statements.len() - upto,
{
    if upto == statements.len() {
        assert(statements.take(upto) =~= statements);
    } else {
        assert(statements.take(upto + 1).drop_last() =~= statements.take(upto));
        lemma_error_stays(statements, upto + 1);
    }
}

} // verus!
