//! From the parser's statements to the library's own: what the layout reads
//! of each, as plain data.
//!
//! A value of the parser is opaque here, so nothing can be said of how what
//! is read depends on it. Each `read_` function therefore only has the value
//! taken apart and hands the parts on; what is built from given parts is
//! stated where it is built.

use crate::admission::{admitted, is_admitted};
use crate::model::{
    Column, ColumnOption, Constraint, Dialect, Error, Lexeme, SqlStatement,
};
use crate::outside::{
    action_text, column_option_kind, column_option_text, column_parts, constraint_parts,
    create_table_parts, data_type_text, expr_text, ident_text, lexeme, object_name_text,
    parse_statements, parsed, tokenized, ConstraintParts,
};
use vstd::prelude::*;

verus! {

/// The identifiers of a list as SQL text, in order.
fn read_idents(idents: &Vec<sqlparser::ast::Ident>) -> (texts: Vec<String>)
    ensures
        texts.len() == idents.len(),
{
    let mut texts: Vec<String> = Vec::new();
    let mut at: usize = 0;
    while at < idents.len()
        invariant
            at <= idents.len(),
            texts.len() == at,
        decreases idents.len() - at,
    {
        texts.push(ident_text(&idents[at]));
        at = at + 1;
    }
    texts
}

/// The name of a constraint as SQL text, if it has one.
fn read_name(name: &Option<sqlparser::ast::Ident>) -> (text: Option<String>)
    ensures
        text.is_some() == name.is_some(),
{
    match name {
        Some(ident) => Some(ident_text(ident)),
        None => None,
    }
}

/// A referential action as SQL text, if there is one.
fn read_action(action: &Option<sqlparser::ast::ReferentialAction>) -> (text: Option<String>)
    ensures
        text.is_some() == action.is_some(),
{
    match action {
        Some(action) => Some(action_text(action)),
        None => None,
    }
}

/// What the layout reads of one parsed column.
fn read_column(column: &sqlparser::ast::ColumnDef) -> (read: Column) {
    column_from_parts(column_parts(column))
}

/// What the layout reads of one parsed table constraint.
fn read_constraint(constraint: &sqlparser::ast::TableConstraint) -> (read: Constraint) {
    constraint_from_parts(constraint_parts(constraint))
}

/// What the layout reads of one parsed statement: the name, columns and
/// constraints of a `CREATE TABLE`, and of any other statement only that it
/// is another.
fn read_statement(statement: &sqlparser::ast::Statement) -> (read: SqlStatement) {
    statement_from_parts(create_table_parts(statement))
}

/// The column with the given parts: name and data type as SQL text, and
/// one option for each parsed one, in order.
fn column_from_parts(
    parts: (
        &sqlparser::ast::Ident,
        &sqlparser::ast::DataType,
        &Vec<sqlparser::ast::ColumnOptionDef>,
    ),
) -> (read: Column)
    ensures
        read.options.len() == parts.2.len(),
{
    let (name, data_type, parsed_options) = parts;
    let mut options: Vec<ColumnOption> = Vec::new();
    let mut at: usize = 0;
    while at < parsed_options.len()
        invariant
            at <= parsed_options.len(),
            options.len() == at,
        decreases parsed_options.len() - at,
    {
        let option = &parsed_options[at];
        options.push(
            ColumnOption { kind: column_option_kind(option), text: column_option_text(option) },
        );
        at = at + 1;
    }
    Column { name: ident_text(name), data_type: data_type_text(data_type), options }
}

/// The constraint with the given parts: of the same kind, named if and
/// only if the parsed one is, with one column for each parsed one, in order,
/// and with an action where the parsed one has one.
fn constraint_from_parts(parts: ConstraintParts<'_>) -> (read: Constraint)
    ensures
        match parts {
            ConstraintParts::Unique { name, columns, is_primary } => {
                &&& read matches Constraint::Unique {
                    name: read_name,
                    columns: read_columns,
                    is_primary: read_primary,
                }
                &&& read_name.is_some() == name.is_some()
                &&& read_columns.len() == columns.len()
                &&& read_primary == is_primary
            },
            ConstraintParts::ForeignKey {
                name,
                columns,
                referred_columns,
                on_delete,
                on_update,
                ..
            } => {
                &&& read matches Constraint::ForeignKey {
                    name: read_name,
                    columns: read_columns,
                    referred_columns: read_referred,
                    on_delete: read_delete,
                    on_update: read_update,
                    ..
                }
                &&& read_name.is_some() == name.is_some()
                &&& read_columns.len() == columns.len()
                &&& read_referred.len() == referred_columns.len()
                &&& read_delete.is_some() == on_delete.is_some()
                &&& read_update.is_some() == on_update.is_some()
            },
            ConstraintParts::Check { name, .. } => {
                &&& read matches Constraint::Check { name: read_name, .. }
                &&& read_name.is_some() == name.is_some()
            },
        },
{
    match parts {
        ConstraintParts::Unique { name, columns, is_primary } => Constraint::Unique {
            name: read_name(name),
            columns: read_idents(columns),
            is_primary,
        },
        ConstraintParts::ForeignKey {
            name,
            columns,
            foreign_table,
            referred_columns,
            on_delete,
            on_update,
        } => Constraint::ForeignKey {
            name: read_name(name),
            columns: read_idents(columns),
            foreign_table: object_name_text(foreign_table),
            referred_columns: read_idents(referred_columns),
            on_delete: read_action(on_delete),
            on_update: read_action(on_update),
        },
        ConstraintParts::Check { name, expr } => Constraint::Check {
            name: read_name(name),
            expr: expr_text(expr),
        },
    }
}

/// The statement with the given parts: a `CREATE TABLE` with one column
/// and one constraint for each parsed one, in order, where there are parts;
/// another statement where there are none.
fn statement_from_parts(
    parts: Option<
        (
            &sqlparser::ast::ObjectName,
            &Vec<sqlparser::ast::ColumnDef>,
            &Vec<sqlparser::ast::TableConstraint>,
        ),
    >,
) -> (read: SqlStatement)
    ensures
        match parts {
            Some((_, parsed_columns, parsed_constraints)) => {
                &&& read matches SqlStatement::CreateTable { columns, constraints, .. }
                &&& columns.len() == parsed_columns.len()
                &&& constraints.len() == parsed_constraints.len()
            },
            None => read is Other,
        },
{
    match parts {
        Some((name, parsed_columns, parsed_constraints)) => {
            let mut columns: Vec<Column> = Vec::new();
            let mut at: usize = 0;
            while at < parsed_columns.len()
                invariant
                    at <= parsed_columns.len(),
                    columns.len() == at,
                decreases parsed_columns.len() - at,
            {
                columns.push(read_column(&parsed_columns[at]));
                at = at + 1;
            }
            let mut constraints: Vec<Constraint> = Vec::new();
            let mut at: usize = 0;
            while at < parsed_constraints.len()
                invariant
                    at <= parsed_constraints.len(),
                    constraints.len() == at,
                decreases parsed_constraints.len() - at,
            {
                constraints.push(read_constraint(&parsed_constraints[at]));
                at = at + 1;
            }
            SqlStatement::CreateTable { name: object_name_text(name), columns, constraints }
        },
        None => SqlStatement::Other,
    }
}

/// What kind of token each token is, in order.
pub(crate) fn read_tokens(found: &Vec<sqlparser::tokenizer::Token>) -> (read: Vec<Lexeme>)
    ensures
        read.len() == found.len(),
{
    let mut lexemes: Vec<Lexeme> = Vec::new();
    let mut at: usize = 0;
    while at < found.len()
        invariant
            at <= found.len(),
            lexemes.len() == at,
        decreases found.len() - at,
    {
        lexemes.push(lexeme(&found[at]));
        at = at + 1;
    }
    lexemes
}

/// What the layout reads of each parsed statement, in order.
pub(crate) fn read_statements(parsed: &Vec<sqlparser::ast::Statement>) -> (read: Vec<
    SqlStatement,
>)
    ensures
        read.len() == parsed.len(),
{
    let mut statements: Vec<SqlStatement> = Vec::new();
    let mut at: usize = 0;
    while at < parsed.len()
        invariant
            at <= parsed.len(),
            statements.len() == at,
        decreases parsed.len() - at,
    {
        statements.push(read_statement(&parsed[at]));
        at = at + 1;
    }
    statements
}

/// Parses `sql` in the given dialect and returns its statements in order,
/// as far as the layout reads them. A text whose tokens are not admitted
/// is refused and never reaches the parser; the only other error is the
/// parser's own, handed on as it is.
pub fn parse(dialect: Dialect, sql: &str) -> (out: Result<Vec<SqlStatement>, Error>)
    ensures
        !admitted(tokenized(dialect, sql@)) ==> out == Err::<Vec<SqlStatement>, Error>(
            Error::Refused,
        ),
        admitted(tokenized(dialect, sql@)) ==> match parsed(dialect, sql@) {
            Ok(statements) => out matches Ok(read) && read.deep_view() == statements,
            Err(error) => out == Err::<Vec<SqlStatement>, Error>(Error::Parse(error)),
        },
{
    if !is_admitted(dialect, sql) {
        return Err(Error::Refused);
    }
    match parse_statements(dialect, sql) {
        Ok(statements) => Ok(statements),
        Err(error) => Err(Error::Parse(error)),
    }
}

} // verus!
