//! The boundary to the SQL parser. Everything in this file is believed, not
//! proved: the parser's types are opaque to the verifier, and each function
//! here makes one call into the parser or takes one of its values apart.
//! Of what the parser returns only this is claimed: that it depends on
//! nothing but the dialect and the text. The parser is only handed a text
//! that it can be trusted to come back from.
//!
//! The functions that read a value are only ever handed what the parser
//! itself has built, and the parser builds nothing that its own `Display`
//! impls cannot print.

use crate::admission::admitted;
use crate::model::{
    ColumnOptionKind, Dialect, Lexeme, LexemeView, SqlStatement, SqlStatementView,
};
use crate::reader::{read_statements, read_tokens};
use sqlparser::ast::{
    ColumnDef, ColumnOption, ColumnOptionDef, DataType, Expr, Ident, ObjectName,
    ReferentialAction, Statement, TableConstraint,
};
use sqlparser::dialect::{
    AnsiDialect, ClickHouseDialect, GenericDialect, HiveDialect, MsSqlDialect, MySqlDialect,
    PostgreSqlDialect, RedshiftSqlDialect, SQLiteDialect, SnowflakeDialect,
};
use sqlparser::parser::{Parser, ParserError};
use sqlparser::tokenizer::{Token, Tokenizer};
use vstd::prelude::*;

verus! {

/// `sqlparser::parser::ParserError`: the library hands such an error on and
/// never looks inside.
#[verifier::external_type_specification]
#[verifier::external_body]
pub struct ExParserError(sqlparser::parser::ParserError);

/// `sqlparser::tokenizer::Token`, one token of a text.
#[verifier::external_type_specification]
#[verifier::external_body]
pub struct ExToken(sqlparser::tokenizer::Token);

/// `sqlparser::ast::Statement`, one parsed statement.
#[verifier::external_type_specification]
#[verifier::external_body]
pub struct ExStatement(sqlparser::ast::Statement);

/// `sqlparser::ast::ColumnDef`, one column of a `CREATE TABLE`.
#[verifier::external_type_specification]
#[verifier::external_body]
pub struct ExColumnDef(sqlparser::ast::ColumnDef);

/// `sqlparser::ast::ColumnOptionDef`, one option of a column.
#[verifier::external_type_specification]
#[verifier::external_body]
pub struct ExColumnOptionDef(sqlparser::ast::ColumnOptionDef);

/// `sqlparser::ast::TableConstraint`, one table-level constraint.
#[verifier::external_type_specification]
#[verifier::external_body]
pub struct ExTableConstraint(sqlparser::ast::TableConstraint);

/// `sqlparser::ast::Ident`, an identifier with its quoting.
#[verifier::external_type_specification]
#[verifier::external_body]
pub struct ExIdent(sqlparser::ast::Ident);

/// `sqlparser::ast::ObjectName`, a possibly qualified name.
#[verifier::external_type_specification]
#[verifier::external_body]
pub struct ExObjectName(sqlparser::ast::ObjectName);

/// `sqlparser::ast::DataType`, the type of a column.
#[verifier::external_type_specification]
#[verifier::external_body]
pub struct ExDataType(sqlparser::ast::DataType);

/// `sqlparser::ast::ReferentialAction`, what a foreign key does on delete
/// or update.
#[verifier::external_type_specification]
#[verifier::external_body]
pub struct ExReferentialAction(sqlparser::ast::ReferentialAction);

/// `sqlparser::ast::Expr`, an expression.
#[verifier::external_type_specification]
#[verifier::external_body]
pub struct ExExpr(sqlparser::ast::Expr);

/// The parts of a parsed table constraint, one variant for each of the
/// parser's.
pub(crate) enum ConstraintParts<'a> {
    Unique { name: &'a Option<Ident>, columns: &'a Vec<Ident>, is_primary: bool },
    ForeignKey {
        name: &'a Option<Ident>,
        columns: &'a Vec<Ident>,
        foreign_table: &'a ObjectName,
        referred_columns: &'a Vec<Ident>,
        on_delete: &'a Option<ReferentialAction>,
        on_update: &'a Option<ReferentialAction>,
    },
    Check { name: &'a Option<Ident>, expr: &'a Expr },
}

/// What `sqlparser::tokenizer::Tokenizer::tokenize` makes of `sql` in
/// `dialect`: the tokens in order, as far as this library reads them, or
/// `None` where the tokenizer reports an error.
pub uninterp spec fn tokenized(dialect: Dialect, sql: Seq<char>) -> Option<Seq<LexemeView>>;

/// Calls `sqlparser::tokenizer::Tokenizer::tokenize` with the parser's own
/// dialect of that name, and has the tokens that it returns converted by
/// [`read_tokens`]. The tokenizer works on its two arguments alone, so what
/// comes back is [`tokenized`] of them; no more is claimed. It goes through
/// the text in one loop and calls itself nowhere.
#[verifier::external_body]
pub(crate) fn tokens(dialect: Dialect, sql: &str) -> (out: Option<Vec<Lexeme>>)
    ensures
        out.deep_view() == tokenized(dialect, sql@),
{
    let dialect: Box<dyn sqlparser::dialect::Dialect> = match dialect {
        Dialect::Ansi => Box::new(AnsiDialect {}),
        Dialect::ClickHouse => Box::new(ClickHouseDialect {}),
        Dialect::Generic => Box::new(GenericDialect {}),
        Dialect::Hive => Box::new(HiveDialect {}),
        Dialect::MsSql => Box::new(MsSqlDialect {}),
        Dialect::MySql => Box::new(MySqlDialect {}),
        Dialect::PostgreSql => Box::new(PostgreSqlDialect {}),
        Dialect::Redshift => Box::new(RedshiftSqlDialect {}),
        Dialect::Snowflake => Box::new(SnowflakeDialect {}),
        Dialect::SQLite => Box::new(SQLiteDialect {}),
    };
    Some(read_tokens(&Tokenizer::new(&*dialect, sql).tokenize().ok()?))
}

/// What kind of token a `sqlparser::tokenizer::Token` is: blank space; a
/// word, with the name of its `keyword` as `Debug` prints it; a literal or
/// stray character; or any of the other variants, which are the brackets,
/// punctuation marks and operators, as the `Display` impl of `Token`
/// writes it.
#[verifier::external_body]
pub(crate) fn lexeme(token: &Token) -> (read: Lexeme) {
    match token {
        Token::Whitespace(_) => Lexeme::Space,
        Token::Word(word) => Lexeme::Word(format!("{:?}", word.keyword)),
        Token::EOF => Lexeme::Other,
        Token::Number(_, _) => Lexeme::Other,
        Token::Char(_) => Lexeme::Other,
        Token::SingleQuotedString(_) => Lexeme::Other,
        Token::NationalStringLiteral(_) => Lexeme::Other,
        Token::HexStringLiteral(_) => Lexeme::Other,
        Token::Placeholder(_) => Lexeme::Other,
        mark => Lexeme::Mark(mark.to_string()),
    }
}

/// What `sqlparser::parser::Parser::parse_sql` makes of `sql` in `dialect`:
/// the statements in order, as far as this library reads them, or the
/// parser's error.
pub uninterp spec fn parsed(dialect: Dialect, sql: Seq<char>) -> Result<
    Seq<SqlStatementView>,
    ParserError,
>;

/// Calls `sqlparser::parser::Parser::parse_sql` with the parser's own
/// dialect of that name, and has the statements that it returns converted
/// by [`read_statements`]. The parser works on its two arguments alone, so
/// what comes back is [`parsed`] of them; no more is claimed.
///
/// Only a text whose tokens are admitted may be handed over, for two
/// reasons. The parser unwraps a failed result behind the keywords `GRANTED
/// BY`. And it calls itself without a limit: once for each bracket that is
/// open, each prefix operator (`+ - !! |/ ||/ @ ~`, `NOT`), each `CASE`,
/// `IS DISTINCT FROM` and JSON arrow whose operand it is in, and each
/// `EXPLAIN`, `DESCRIBE`, `PREPARE` and `INSERT` whose statement it is in;
/// between two of these it goes down a fixed number of calls only. What it
/// builds is one deeper with each operator in a row, and is printed and
/// dropped by calls as deep. How much stack a call takes depends on the
/// build and the machine, so no limit follows from the parser's source; the
/// limits of [`admitted`] are this library's choice, narrow enough for the
/// stack that a thread has by default. A text that the tokenizer rejects
/// may be handed over: the parser then returns the tokenizer's error.
#[verifier::external_body]
pub(crate) fn parse_statements(dialect: Dialect, sql: &str) -> (out: Result<
    Vec<SqlStatement>,
    ParserError,
>)
    requires
        admitted(tokenized(dialect, sql@)),
    ensures
        match out {
            Ok(statements) => parsed(dialect, sql@) == Ok::<_, ParserError>(
                statements.deep_view(),
            ),
            Err(error) => parsed(dialect, sql@) == Err::<Seq<SqlStatementView>, _>(error),
        },
{
    let dialect: Box<dyn sqlparser::dialect::Dialect> = match dialect {
        Dialect::Ansi => Box::new(AnsiDialect {}),
        Dialect::ClickHouse => Box::new(ClickHouseDialect {}),
        Dialect::Generic => Box::new(GenericDialect {}),
        Dialect::Hive => Box::new(HiveDialect {}),
        Dialect::MsSql => Box::new(MsSqlDialect {}),
        Dialect::MySql => Box::new(MySqlDialect {}),
        Dialect::PostgreSql => Box::new(PostgreSqlDialect {}),
        Dialect::Redshift => Box::new(RedshiftSqlDialect {}),
        Dialect::Snowflake => Box::new(SnowflakeDialect {}),
        Dialect::SQLite => Box::new(SQLiteDialect {}),
    };
    Ok(read_statements(&Parser::parse_sql(&*dialect, sql)?))
}

/// Name, columns and constraints of a `sqlparser::ast::Statement::CreateTable`;
/// `None` for every other variant.
#[verifier::external_body]
pub(crate) fn create_table_parts(statement: &Statement) -> (parts: Option<
    (&ObjectName, &Vec<ColumnDef>, &Vec<TableConstraint>),
>) {
    match statement {
        Statement::CreateTable { name, columns, constraints, .. } => Some(
            (name, columns, constraints),
        ),
        _ => None,
    }
}

/// The fields `name`, `data_type` and `options` of a
/// `sqlparser::ast::ColumnDef`.
#[verifier::external_body]
pub(crate) fn column_parts(column: &ColumnDef) -> (parts: (
    &Ident,
    &DataType,
    &Vec<ColumnOptionDef>,
)) {
    (&column.name, &column.data_type, &column.options)
}

/// Which of the nine variants of `sqlparser::ast::ColumnOption` the option
/// is, each under its own name.
#[verifier::external_body]
pub(crate) fn column_option_kind(option: &ColumnOptionDef) -> (kind: ColumnOptionKind) {
    match option.option {
        ColumnOption::Null => ColumnOptionKind::Null,
        ColumnOption::NotNull => ColumnOptionKind::NotNull,
        ColumnOption::Default(_) => ColumnOptionKind::DefaultValue,
        ColumnOption::Unique { .. } => ColumnOptionKind::Unique,
        ColumnOption::ForeignKey { .. } => ColumnOptionKind::ForeignKey,
        ColumnOption::Check(_) => ColumnOptionKind::Check,
        ColumnOption::DialectSpecific(_) => ColumnOptionKind::DialectSpecific,
        ColumnOption::CharacterSet(_) => ColumnOptionKind::CharacterSet,
        ColumnOption::Comment(_) => ColumnOptionKind::Comment,
    }
}

/// The fields of a `sqlparser::ast::TableConstraint`, variant by variant.
#[verifier::external_body]
pub(crate) fn constraint_parts(constraint: &TableConstraint) -> (parts: ConstraintParts<'_>) {
    match constraint {
        TableConstraint::Unique { name, columns, is_primary } => {
            ConstraintParts::Unique { name, columns, is_primary: *is_primary }
        },
        TableConstraint::ForeignKey {
            name, columns, foreign_table, referred_columns, on_delete, on_update,
        } => ConstraintParts::ForeignKey {
            name, columns, foreign_table, referred_columns, on_delete, on_update,
        },
        TableConstraint::Check { name, expr } => ConstraintParts::Check { name, expr },
    }
}

/// An identifier as SQL text, by the `Display` impl of
/// `sqlparser::ast::Ident`: the value, inside its quotes if it has any.
#[verifier::external_body]
pub(crate) fn ident_text(ident: &Ident) -> (text: String) {
    ident.to_string()
}

/// A name as SQL text, by the `Display` impl of
/// `sqlparser::ast::ObjectName`: its identifiers with dots between them.
#[verifier::external_body]
pub(crate) fn object_name_text(name: &ObjectName) -> (text: String) {
    name.to_string()
}

/// A data type as SQL text, by the `Display` impl of
/// `sqlparser::ast::DataType`.
#[verifier::external_body]
pub(crate) fn data_type_text(data_type: &DataType) -> (text: String) {
    data_type.to_string()
}

/// A column option as SQL text, by the `Display` impl of
/// `sqlparser::ast::ColumnOption`.
#[verifier::external_body]
pub(crate) fn column_option_text(option: &ColumnOptionDef) -> (text: String) {
    option.option.to_string()
}

/// A referential action as SQL text, by the `Display` impl of
/// `sqlparser::ast::ReferentialAction`.
#[verifier::external_body]
pub(crate) fn action_text(action: &ReferentialAction) -> (text: String) {
    action.to_string()
}

/// An expression as SQL text, by the `Display` impl of
/// `sqlparser::ast::Expr`.
#[verifier::external_body]
pub(crate) fn expr_text(expr: &Expr) -> (text: String) {
    expr.to_string()
}

} // verus!
