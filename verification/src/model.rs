//! What the layout engine reads of a parsed statement: plain data, with a
//! mathematical view of each type.

use vstd::prelude::*;

verus! {

/// The SQL dialects that the parser offers. The dialect decides how a text
/// is split into tokens, and which statements and clauses are known.
#[derive(Clone, Copy, Debug, PartialEq, Eq, Structural)]
pub enum Dialect {
    /// ANSI SQL:2011.
    Ansi,
    /// ClickHouse.
    ClickHouse,
    /// No dialect in particular: permissive, accepts what most dialects do.
    Generic,
    /// Apache Hive.
    Hive,
    /// Microsoft SQL Server.
    MsSql,
    /// MySQL.
    MySql,
    /// PostgreSQL.
    PostgreSql,
    /// Amazon Redshift.
    Redshift,
    /// Snowflake.
    Snowflake,
    /// SQLite.
    SQLite,
}

/// One token of a text, as far as it matters how deep the parser goes on
/// it.
#[derive(Clone, Debug, PartialEq, Eq)]
pub enum Lexeme {
    /// Blank space or a comment.
    Space,
    /// A word that is not quoted, with the name of the keyword that it is:
    /// the keyword in upper case, or `NoKeyword`. A quoted name is no
    /// keyword.
    Word(String),
    /// A bracket, a punctuation mark or an operator, as it is written.
    Mark(String),
    /// A number, a text between quotes, a placeholder, or a character that
    /// is none of the above.
    Other,
}

/// The view of a [`Lexeme`].
pub enum LexemeView {
    Space,
    Word(Seq<char>),
    Mark(Seq<char>),
    Other,
}

impl View for Lexeme {
    type V = LexemeView;

    open spec fn view(&self) -> LexemeView {
        match self {
            Lexeme::Space => LexemeView::Space,
            Lexeme::Word(keyword) => LexemeView::Word(keyword@),
            Lexeme::Mark(text) => LexemeView::Mark(text@),
            Lexeme::Other => LexemeView::Other,
        }
    }
}

impl DeepView for Lexeme {
    type V = LexemeView;

    open spec fn deep_view(&self) -> LexemeView {
        self@
    }
}

/// What kind of option a column option is. The layout has a field for the
/// first three kinds only.
#[derive(Clone, Copy, Debug, PartialEq, Eq, Structural)]
pub enum ColumnOptionKind {
    /// `NULL`
    Null,
    /// `NOT NULL`
    NotNull,
    /// `DEFAULT <expression>`
    DefaultValue,
    /// `PRIMARY KEY` or `UNIQUE`
    Unique,
    /// `REFERENCES <table> (<columns>)`
    ForeignKey,
    /// `CHECK (<expression>)`
    Check,
    /// An option of one dialect, such as `AUTO_INCREMENT`.
    DialectSpecific,
    /// `CHARACTER SET <name>`
    CharacterSet,
    /// `COMMENT '<text>'`
    Comment,
}

/// One option of a column: its kind and its rendering.
#[derive(Clone, Debug, PartialEq, Eq)]
pub struct ColumnOption {
    pub kind: ColumnOptionKind,
    /// The option as SQL text, such as `NOT NULL` or `DEFAULT 0`.
    pub text: String,
}

/// One column of a table definition.
#[derive(Clone, Debug, PartialEq, Eq)]
pub struct Column {
    pub name: String,
    /// The data type as SQL text.
    pub data_type: String,
    pub options: Vec<ColumnOption>,
}

/// One table-level constraint. Names, columns, actions and expressions are
/// held as SQL text.
#[derive(Clone, Debug, PartialEq, Eq)]
pub enum Constraint {
    /// `CONSTRAINT <name> { PRIMARY KEY | UNIQUE } (<columns>)`
    Unique { name: Option<String>, columns: Vec<String>, is_primary: bool },
    /// `CONSTRAINT <name> FOREIGN KEY (<columns>) REFERENCES <foreign_table>
    /// (<referred_columns>) [ON DELETE <action>] [ON UPDATE <action>]`
    ForeignKey {
        name: Option<String>,
        columns: Vec<String>,
        foreign_table: String,
        referred_columns: Vec<String>,
        on_delete: Option<String>,
        on_update: Option<String>,
    },
    /// `CONSTRAINT <name> CHECK (<expression>)`
    Check { name: Option<String>, expr: String },
}

/// One parsed statement.
#[derive(Clone, Debug, PartialEq, Eq)]
pub enum SqlStatement {
    CreateTable { name: String, columns: Vec<Column>, constraints: Vec<Constraint> },
    /// Any statement other than `CREATE TABLE`.
    Other,
}

/// Why a text could not be formatted.
#[derive(Debug, PartialEq)]
pub enum Error {
    /// The input is not handed to the parser: it nests deeper or has more
    /// operators in a row than the parser can be trusted with, or it holds
    /// the keywords `GRANTED BY`.
    Refused,
    /// The input is not valid SQL in the chosen dialect; holds the parser's
    /// own error.
    Parse(sqlparser::parser::ParserError),
    /// A statement is not a `CREATE TABLE`.
    UnsupportedStatement,
    /// A column has an option other than nullability and default.
    UnsupportedColumnOption,
    /// A table constraint has no name.
    MissingConstraintName,
}

/// The view of a [`ColumnOption`].
pub struct ColumnOptionView {
    pub kind: ColumnOptionKind,
    pub text: Seq<char>,
}

/// The view of a [`Column`].
pub struct ColumnView {
    pub name: Seq<char>,
    pub data_type: Seq<char>,
    pub options: Seq<ColumnOptionView>,
}

/// The view of a [`Constraint`].
pub enum ConstraintView {
    Unique { name: Option<Seq<char>>, columns: Seq<Seq<char>>, is_primary: bool },
    ForeignKey {
        name: Option<Seq<char>>,
        columns: Seq<Seq<char>>,
        foreign_table: Seq<char>,
        referred_columns: Seq<Seq<char>>,
        on_delete: Option<Seq<char>>,
        on_update: Option<Seq<char>>,
    },
    Check { name: Option<Seq<char>>, expr: Seq<char> },
}

/// The view of a [`SqlStatement`].
pub enum SqlStatementView {
    CreateTable {
        name: Seq<char>,
        columns: Seq<ColumnView>,
        constraints: Seq<ConstraintView>,
    },
    Other,
}

impl View for ColumnOption {
    type V = ColumnOptionView;

    open spec fn view(&self) -> ColumnOptionView {
        ColumnOptionView { kind: self.kind, text: self.text@ }
    }
}

impl DeepView for ColumnOption {
    type V = ColumnOptionView;

    open spec fn deep_view(&self) -> ColumnOptionView {
        self@
    }
}

impl View for Column {
    type V = ColumnView;

    open spec fn view(&self) -> ColumnView {
        ColumnView {
            name: self.name@,
            data_type: self.data_type@,
            options: self.options.deep_view(),
        }
    }
}

impl DeepView for Column {
    type V = ColumnView;

    open spec fn deep_view(&self) -> ColumnView {
        self@
    }
}

impl View for Constraint {
    type V = ConstraintView;

    open spec fn view(&self) -> ConstraintView {
        match self {
            Constraint::Unique { name, columns, is_primary } => ConstraintView::Unique {
                name: name.deep_view(),
                columns: columns.deep_view(),
                is_primary: *is_primary,
            },
            Constraint::ForeignKey {
                name,
                columns,
                foreign_table,
                referred_columns,
                on_delete,
                on_update,
            } => ConstraintView::ForeignKey {
                name: name.deep_view(),
                columns: columns.deep_view(),
                foreign_table: foreign_table@,
                referred_columns: referred_columns.deep_view(),
                on_delete: on_delete.deep_view(),
                on_update: on_update.deep_view(),
            },
            Constraint::Check { name, expr } => ConstraintView::Check {
                name: name.deep_view(),
                expr: expr@,
            },
        }
    }
}

impl DeepView for Constraint {
    type V = ConstraintView;

    open spec fn deep_view(&self) -> ConstraintView {
        self@
    }
}

impl View for SqlStatement {
    type V = SqlStatementView;

    open spec fn view(&self) -> SqlStatementView {
        match self {
            SqlStatement::CreateTable { name, columns, constraints } => {
                SqlStatementView::CreateTable {
                    name: name@,
                    columns: columns.deep_view(),
                    constraints: constraints.deep_view(),
                }
            },
            SqlStatement::Other => SqlStatementView::Other,
        }
    }
}

impl DeepView for SqlStatement {
    type V = SqlStatementView;

    open spec fn deep_view(&self) -> SqlStatementView {
        self@
    }
}

} // verus!
