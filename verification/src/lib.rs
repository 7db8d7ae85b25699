//! Aligned pretty-printing of SQL `CREATE TABLE` statements.
//!
//! A statement is parsed, the display segments of its columns and of its
//! table constraints are extracted, the width of each segment position is
//! computed over all rows of its category, and each row is rendered as one
//! line of fixed-width fields:
//!
//! ```text
//! CREATE TABLE t (
//!     a  INT  NOT NULL
//!   , bb TEXT     NULL
//!   , CONSTRAINT uq UNIQUE      (a, bb)
//!   , CONSTRAINT fk FOREIGN KEY (a)     REFERENCES other (id)
//! )
//! ;
//! ```
//!
//! [`AntFarmer::mierenneuke`] does all of it; [`render`] formats statements
//! that are already at hand. Parsing is the work of the `sqlparser` crate;
//! everything before and behind it is verified. The parser has no limit on
//! how deep it descends, so the tokens of a text are counted first, and the
//! text is refused where it could take the parser too deep: see
//! [`admission`].

pub mod admission;
pub mod document;
pub mod farmer;
pub mod laws;
pub mod model;
pub mod outside;
pub mod reader;
pub mod row;
pub mod segments;
pub mod text;
pub mod widths;

pub use admission::is_admitted;
pub use document::render;
pub use farmer::AntFarmer;
pub use model::{
    Column, ColumnOption, ColumnOptionKind, Constraint, Dialect, Error, Lexeme, SqlStatement,
};
pub use reader::parse;
