//! The formatter as callers see it: a dialect, and SQL text in, formatted
//! text out.

use crate::admission::admitted;
use crate::document::{formatted, render};
use crate::model::{Dialect, Error};
use crate::outside::{parsed, tokenized};
use crate::reader::parse;
use vstd::prelude::*;
use vstd::std_specs::convert::FromSpecImpl;

verus! {

/// The nit-picking engine: formats `CREATE TABLE` statements, parsed in the
/// dialect that it holds.
#[derive(Clone, Copy, Debug)]
pub struct AntFarmer {
    /// The dialect in which `sql` is parsed.
    pub dialect: Dialect,
}

impl From<Dialect> for AntFarmer {
    fn from(dialect: Dialect) -> (farmer: AntFarmer) {
        AntFarmer { dialect }
    }
}

impl FromSpecImpl<Dialect> for AntFarmer {
    open spec fn obeys_from_spec() -> bool {
        true
    }

    open spec fn from_spec(dialect: Dialect) -> AntFarmer {
        AntFarmer { dialect }
    }
}

impl AntFarmer {
    /// Parses `sql` and returns its statements formatted, one after the
    /// other.
    ///
    /// Only `CREATE TABLE` is supported. A text whose tokens are not
    /// admitted is refused. Where the parser reports an error, that error comes back;
    /// else the result is what [`render`] gives for the statements that the
    /// parser found: their texts in order, or the error of the first
    /// statement that cannot be formatted.
    pub fn mierenneuke(&self, sql: &str) -> (out: Result<String, Error>)
        ensures
            !admitted(tokenized(self.dialect, sql@)) ==> out == Err::<String, Error>(
                Error::Refused,
            ),
            admitted(tokenized(self.dialect, sql@)) ==> match parsed(self.dialect, sql@) {
                Ok(statements) => match out {
                    Ok(text) => formatted(statements) == Ok::<Seq<char>, Error>(text@),
                    Err(error) => formatted(statements) == Err::<Seq<char>, Error>(error),
                },
                Err(error) => out == Err::<String, Error>(Error::Parse(error)),
            },
    {
        match parse(self.dialect, sql) {
            Ok(statements) => render(&statements),
            Err(error) => Err(error),
        }
    }
}

} // verus!
