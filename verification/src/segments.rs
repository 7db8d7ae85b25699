//! The field extractor: the display segments of a column (four) and of a
//! table constraint (eight).

use crate::model::{
    Column, ColumnOptionKind, ColumnOptionView, ColumnView, Constraint, ConstraintView, Error,
};
use crate::text::{join, joined};
use vstd::prelude::*;

verus! {

/// The number of segments of a column.
pub const COLUMN_ARITY: usize = 4;

/// The number of segments of a table constraint, whatever its kind.
pub const CONSTRAINT_ARITY: usize = 8;

/// Whether an option of this kind says if the column takes `NULL`.
pub open spec fn is_nullability(kind: ColumnOptionKind) -> bool {
    kind == ColumnOptionKind::Null || kind == ColumnOptionKind::NotNull
}

/// Whether an option of this kind gives the column's default value.
pub open spec fn is_default(kind: ColumnOptionKind) -> bool {
    kind == ColumnOptionKind::DefaultValue
}

/// Whether the layout has a field for an option of this kind.
pub open spec fn is_supported(kind: ColumnOptionKind) -> bool {
    is_nullability(kind) || is_default(kind)
}

/// The text of the first option whose kind is `wanted`; empty where there is
/// none.
pub open spec fn first_text(
    options: Seq<ColumnOptionView>,
    wanted: spec_fn(ColumnOptionKind) -> bool,
) -> Seq<char>
    decreases options.len(),
{
    if options.len() == 0 {
        Seq::empty()
    } else if wanted(options[0].kind) {
        options[0].text
    } else {
        first_text(options.drop_first(), wanted)
    }
}

impl ColumnView {
    /// Whether one of the options is of a kind that the layout has no field
    /// for.
    pub open spec fn has_unsupported_option(self) -> bool {
        exists|i: int|
            0 <= i < self.options.len() && !is_supported((#[trigger] self.options[i]).kind)
    }

    /// Name, data type, nullability keyword and default clause, the last two
    /// each taken from the first option of its kind.
    pub open spec fn segment_texts(self) -> Seq<Seq<char>> {
        seq![
            self.name,
            self.data_type,
            first_text(self.options, |kind: ColumnOptionKind| is_nullability(kind)),
            first_text(self.options, |kind: ColumnOptionKind| is_default(kind)),
        ]
    }

    /// The segments of the column, or the error that an unsupported option
    /// gives.
    pub open spec fn segments(self) -> Result<Seq<Seq<char>>, Error> {
        if self.has_unsupported_option() {
            Err(Error::UnsupportedColumnOption)
        } else {
            Ok(self.segment_texts())
        }
    }
}

impl ConstraintView {
    /// The name of the constraint, if it has one.
    pub open spec fn name(self) -> Option<Seq<char>> {
        match self {
            ConstraintView::Unique { name, .. } => name,
            ConstraintView::ForeignKey { name, .. } => name,
            ConstraintView::Check { name, .. } => name,
        }
    }

    /// The eight segments of a constraint called `name`.
    pub open spec fn segment_texts(self, name: Seq<char>) -> Seq<Seq<char>> {
        match self {
            ConstraintView::Unique { columns, is_primary, .. } => seq![
                "CONSTRAINT "@ + name,
                if is_primary {
                    "PRIMARY KEY"@
                } else {
                    "UNIQUE"@
                },
                joined(columns, ", "@),
                Seq::empty(),
                Seq::empty(),
                Seq::empty(),
                Seq::empty(),
                Seq::empty(),
            ],
            ConstraintView::ForeignKey {
                columns,
                foreign_table,
                referred_columns,
                on_delete,
                on_update,
                ..
            } => seq![
                "CONSTRAINT "@ + name,
                "FOREIGN KEY"@,
                joined(columns, ", "@),
                "REFERENCES"@,
                foreign_table,
                joined(referred_columns, ", "@),
                match on_delete {
                    Some(action) => "ON DELETE "@ + action,
                    None => Seq::empty(),
                },
                match on_update {
                    Some(action) => "ON UPDATE "@ + action,
                    None => Seq::empty(),
                },
            ],
            ConstraintView::Check { expr, .. } => seq![
                "CONSTRAINT "@ + name,
                "CHECK ("@ + expr + ")"@,
                Seq::empty(),
                Seq::empty(),
                Seq::empty(),
                Seq::empty(),
                Seq::empty(),
                Seq::empty(),
            ],
        }
    }

    /// The segments of the constraint, or the error that a missing name
    /// gives.
    pub open spec fn segments(self) -> Result<Seq<Seq<char>>, Error> {
        match self.name() {
            Some(name) => Ok(self.segment_texts(name)),
            None => Err(Error::MissingConstraintName),
        }
    }
}

/// Looking for the first option of a kind in the options from `at` on is
/// looking at option `at` and then in those after it.
proof fn lemma_first_text_step(
    options: Seq<ColumnOptionView>,
    wanted: spec_fn(ColumnOptionKind) -> bool,
    at: int,
)
    requires
        0 <= at < options.len(),
    ensures
        first_text(options.skip(at), wanted) == if wanted(options[at].kind) {
            options[at].text
        } else {
            first_text(options.skip(at + 1), wanted)
        },
{
    assert(options.skip(at).drop_first() =~= options.skip(at + 1));
}

/// `prefix` followed by `rest`, as a new string.
fn concat(prefix: &str, rest: &str) -> (out: String)
    ensures
        out@ == prefix@ + rest@,
{
    let mut out = String::from_str(prefix);
    out.append(rest);
    out
}

/// `prefix` followed by the text in `rest`; empty where there is none.
fn prefixed(prefix: &str, rest: &Option<String>) -> (out: String)
    ensures
        out@ == match rest.deep_view() {
            Some(text) => prefix@ + text,
            None => Seq::empty(),
        },
{
    match rest {
        Some(text) => concat(prefix, text.as_str()),
        None => String::new(),
    }
}

impl Column {
    /// The four display segments of the column: name, data type, nullability
    /// keyword and default clause. Fails on an option that is neither.
    pub fn segments(&self) -> (out: Result<Vec<String>, Error>)
        ensures
            match out {
                Ok(segments) => self@.segments() == Ok::<Seq<Seq<char>>, Error>(
                    segments.deep_view(),
                ),
                Err(error) => self@.segments() == Err::<Seq<Seq<char>>, Error>(error),
            },
            out matches Ok(segments) ==> segments.len() == COLUMN_ARITY,
    {
        let ghost options = self@.options;
        let ghost nullability = |kind: ColumnOptionKind| is_nullability(kind);
        let ghost default = |kind: ColumnOptionKind| is_default(kind);
        let mut nullable: Option<String> = None;
        let mut default_clause: Option<String> = None;
        let mut at: usize = 0;
        proof {
            assert(options.skip(0) =~= options);
        }
        while at < self.options.len()
            invariant
                at <= self.options.len(),
                options == self@.options,
                options.len() == self.options.len(),
                nullability == |kind: ColumnOptionKind| is_nullability(kind),
                default == |kind: ColumnOptionKind| is_default(kind),
                forall|i: int|
                    0 <= i < at ==> is_supported((#[trigger] options[i]).kind),
                first_text(options, nullability) == match nullable {
                    Some(text) => text@,
                    None => first_text(options.skip(at as int), nullability),
                },
                first_text(options, default) == match default_clause {
                    Some(text) => text@,
                    None => first_text(options.skip(at as int), default),
                },
            decreases self.options.len() - at,
        {
            let option = &self.options[at];
            proof {
                assert(options[at as int] == option@);
                lemma_first_text_step(options, nullability, at as int);
                lemma_first_text_step(options, default, at as int);
            }
            match option.kind {
                ColumnOptionKind::Null | ColumnOptionKind::NotNull => {
                    if nullable.is_none() {
                        nullable = Some(option.text.clone());
                    }
                },
                ColumnOptionKind::DefaultValue => {
                    if default_clause.is_none() {
                        default_clause = Some(option.text.clone());
                    }
                },
                ColumnOptionKind::Unique
                | ColumnOptionKind::ForeignKey
                | ColumnOptionKind::Check
                | ColumnOptionKind::DialectSpecific
                | ColumnOptionKind::CharacterSet
                | ColumnOptionKind::Comment => {
                    return Err(Error::UnsupportedColumnOption);
                },
            }
            at = at + 1;
        }
        let mut segments: Vec<String> = Vec::new();
        segments.push(self.name.clone());
        segments.push(self.data_type.clone());
        segments.push(
            match nullable {
                Some(text) => text,
                None => String::new(),
            },
        );
        segments.push(
            match default_clause {
                Some(text) => text,
                None => String::new(),
            },
        );
        proof {
            assert(segments.deep_view() =~= self@.segment_texts());
        }
        Ok(segments)
    }
}

impl Constraint {
    /// The name of the constraint, if it has one.
    pub fn name(&self) -> (out: &Option<String>)
        ensures
            out.deep_view() == self@.name(),
    {
        match self {
            Constraint::Unique { name, .. } => name,
            Constraint::ForeignKey { name, .. } => name,
            Constraint::Check { name, .. } => name,
        }
    }

    /// The eight display segments of the constraint: name, kind, columns,
    /// `REFERENCES`, referenced table, referenced columns and the two
    /// actions, those that its kind does not have left empty. Fails on a
    /// constraint without a name.
    pub fn segments(&self) -> (out: Result<Vec<String>, Error>)
        ensures
            match out {
                Ok(segments) => self@.segments() == Ok::<Seq<Seq<char>>, Error>(
                    segments.deep_view(),
                ),
                Err(error) => self@.segments() == Err::<Seq<Seq<char>>, Error>(error),
            },
            out matches Ok(segments) ==> segments.len() == CONSTRAINT_ARITY,
    {
        let name = match self.name() {
            Some(name) => name,
            None => {
                return Err(Error::MissingConstraintName);
            },
        };
        let mut segments: Vec<String> = Vec::new();
        segments.push(concat("CONSTRAINT ", name.as_str()));
        match self {
            Constraint::Unique { columns, is_primary, .. } => {
                if *is_primary {
                    segments.push(String::from_str("PRIMARY KEY"));
                } else {
                    segments.push(String::from_str("UNIQUE"));
                }
                segments.push(join(columns, ", "));
                segments.push(String::new());
                segments.push(String::new());
                segments.push(String::new());
                segments.push(String::new());
                segments.push(String::new());
            },
            Constraint::ForeignKey {
                columns,
                foreign_table,
                referred_columns,
                on_delete,
                on_update,
                ..
            } => {
                segments.push(String::from_str("FOREIGN KEY"));
                segments.push(join(columns, ", "));
                segments.push(String::from_str("REFERENCES"));
                segments.push(foreign_table.clone());
                segments.push(join(referred_columns, ", "));
                segments.push(prefixed("ON DELETE ", on_delete));
                segments.push(prefixed("ON UPDATE ", on_update));
            },
            Constraint::Check { expr, .. } => {
                let mut check = concat("CHECK (", expr.as_str());
                check.append(")");
                segments.push(check);
                segments.push(String::new());
                segments.push(String::new());
                segments.push(String::new());
                segments.push(String::new());
                segments.push(String::new());
                segments.push(String::new());
            },
        }
        proof {
            assert(segments.deep_view() =~= self@.segment_texts(name@));
        }
        Ok(segments)
    }
}

} // verus!
