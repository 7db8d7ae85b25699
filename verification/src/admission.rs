//! Which texts are handed to the parser.
//!
//! The parser is a recursive descent without a limit of its own. It calls
//! itself once more for each bracket that a text opens, for each prefix
//! operator, and for each of a few keywords; and what it builds, and what
//! is later printed and dropped by calls as deep, grows one deeper with
//! each operator in a row. It also fails outright behind the keywords
//! `GRANTED BY`. A text is admitted where none of this can go far: where it
//! never has more than [`LIMIT`] openers pending at once, nor more than
//! [`CHAIN_LIMIT`] operators in a row, and does not hold `GRANTED BY`.
//!
//! The count goes by the tokens that the parser's own tokenizer finds, so a
//! text between quotes, a comment and a quoted name count for nothing.

use crate::model::{Dialect, Lexeme, LexemeView};
use crate::outside::{tokenized, tokens};
use vstd::prelude::*;

verus! {

/// The greatest number of pending openers with which a text is admitted.
pub const LIMIT: usize = 6;

/// The greatest number of operators in a row with which a text is admitted.
pub const CHAIN_LIMIT: usize = 64;

/// What a token counts as.
#[derive(Clone, Copy, Debug, PartialEq, Eq, Structural)]
pub enum Role {
    /// Blank space or a comment: the parser skips it.
    Blank,
    /// `(` or `[`.
    Open,
    /// `)`.
    Close,
    /// `]`, which closes like `)`; but each `[]` behind a data type makes
    /// the type one deeper, so it counts as an operator too.
    Shut,
    /// `,`, which ends an operand.
    Comma,
    /// `;`, which ends a statement.
    Semicolon,
    /// A prefix operator: the parser descends into the operand behind it,
    /// and it may stand between operands as well.
    Sign,
    /// A JSON arrow: an operator behind which the parser descends into a
    /// whole expression.
    Arrow,
    /// `NOT`, which is a prefix operator and part of operators between
    /// operands.
    Not,
    /// `CASE` or `DISTINCT`: the parser descends into the operand behind it.
    Nest,
    /// `EXPLAIN`, `DESCRIBE`, `PREPARE` or `INSERT`: the parser descends
    /// into a statement or a query behind it.
    Statement,
    /// `AND` or `OR`: the operators that bind least.
    Junction,
    /// `=`, `==`, `<>`, `<`, `>`, `<=`, `>=` or `<=>`.
    Compare,
    /// Any other operator between or behind operands.
    Link,
    /// `UNION`, `EXCEPT` or `INTERSECT`: an operator between queries.
    SetLink,
    /// The keyword `GRANTED`.
    Granted,
    /// The keyword `BY`.
    By,
    /// Anything else.
    Plain,
}

/// What a word counts as, by the name of its keyword.
pub open spec fn word_role(keyword: Seq<char>) -> Role {
    if keyword == "NOT"@ {
        Role::Not
    } else if keyword == "CASE"@ || keyword == "DISTINCT"@ {
        Role::Nest
    } else if keyword == "EXPLAIN"@ || keyword == "DESCRIBE"@ || keyword == "PREPARE"@ || keyword
        == "INSERT"@ {
        Role::Statement
    } else if keyword == "AND"@ || keyword == "OR"@ {
        Role::Junction
    } else if keyword == "XOR"@ || keyword == "IS"@ || keyword == "IN"@ || keyword == "LIKE"@
        || keyword == "ILIKE"@ || keyword == "BETWEEN"@ {
        Role::Link
    } else if keyword == "UNION"@ || keyword == "EXCEPT"@ || keyword == "INTERSECT"@ {
        Role::SetLink
    } else if keyword == "GRANTED"@ {
        Role::Granted
    } else if keyword == "BY"@ {
        Role::By
    } else {
        Role::Plain
    }
}

/// What a mark counts as, by how it is written. Every mark that is no
/// bracket, comma, semicolon, period or prefix operator counts as an
/// operator between operands.
pub open spec fn mark_role(text: Seq<char>) -> Role {
    if text == "("@ || text == "["@ {
        Role::Open
    } else if text == ")"@ {
        Role::Close
    } else if text == "]"@ {
        Role::Shut
    } else if text == ","@ {
        Role::Comma
    } else if text == ";"@ {
        Role::Semicolon
    } else if text == "."@ {
        Role::Plain
    } else if text == "-"@ || text == "+"@ || text == "!!"@ || text == "|/"@ || text == "||/"@
        || text == "@"@ || text == "~"@ {
        Role::Sign
    } else if text == "->"@ || text == "->>"@ || text == "#>"@ || text == "#>>"@ {
        Role::Arrow
    } else if text == "="@ || text == "=="@ || text == "<>"@ || text == "<"@ || text == ">"@
        || text == "<="@ || text == ">="@ || text == "<=>"@ {
        Role::Compare
    } else {
        Role::Link
    }
}

/// What a token counts as.
pub open spec fn role_of(lexeme: LexemeView) -> Role {
    match lexeme {
        LexemeView::Space => Role::Blank,
        LexemeView::Word(keyword) => word_role(keyword),
        LexemeView::Mark(text) => mark_role(text),
        LexemeView::Other => Role::Plain,
    }
}

/// How far a prefix operator with a single token behind it has got.
#[derive(Clone, Copy, Debug, PartialEq, Eq, Structural)]
pub enum Pending {
    /// No prefix operator has just stood.
    Nothing,
    /// The last token is a prefix operator other than `NOT`.
    Sign,
    /// The last token is `NOT`.
    Not,
    /// The last two tokens are a prefix operator other than `NOT` and one
    /// token that may be its whole operand.
    SignOperand,
    /// The last two tokens are `NOT` and one token that may be its whole
    /// operand.
    NotOperand,
}

/// Whether the parser is back from the operand of the prefix operator
/// when a token of this role follows: behind `NOT` and one token at `AND`
/// and `OR`, which bind less than `NOT`; behind another prefix operator and
/// one token also at a comparison and at `+` and `-` and their like, which
/// bind no more than it.
pub open spec fn releases(pending: Pending, role: Role) -> bool {
    ||| pending == Pending::NotOperand && role == Role::Junction
    ||| pending == Pending::SignOperand && (role == Role::Junction || role == Role::Compare
        || role == Role::Sign)
}

/// How far a prefix operator has got behind a token of this role.
pub open spec fn pending_behind(pending: Pending, role: Role) -> Pending {
    if role == Role::Sign {
        Pending::Sign
    } else if role == Role::Not {
        Pending::Not
    } else if role == Role::Plain && pending == Pending::Sign {
        Pending::SignOperand
    } else if role == Role::Plain && pending == Pending::Not {
        Pending::NotOperand
    } else {
        Pending::Nothing
    }
}

/// What has been counted up to a place in a text.
pub struct Scan {
    /// For each bracket that is open: `load`, `floor`, `chain` and
    /// `chain_floor` as they were before it.
    pub saved: Seq<(nat, nat, nat, nat)>,
    /// The number of openers pending here.
    pub load: nat,
    /// What `load` falls back to at the next comma.
    pub floor: nat,
    /// The number of operators in a row here, those round the open brackets
    /// included.
    pub chain: nat,
    /// What `chain` falls back to at the next comma.
    pub chain_floor: nat,
    /// The greatest `load` so far.
    pub peak: nat,
    /// The greatest `chain` so far.
    pub chain_peak: nat,
    /// How far a prefix operator with a single token behind it has got.
    pub pending: Pending,
    /// Whether the last token that was not blank is `GRANTED`.
    pub after_granted: bool,
    /// Whether `BY` has stood behind `GRANTED`.
    pub granted_by: bool,
}

/// The count before the first token.
pub open spec fn start() -> Scan {
    Scan {
        saved: Seq::empty(),
        load: 0,
        floor: 0,
        chain: 0,
        chain_floor: 0,
        peak: 0,
        chain_peak: 0,
        pending: Pending::Nothing,
        after_granted: false,
        granted_by: false,
    }
}

/// Openers and operators behind a closing bracket: those before the last
/// bracket that is open, if one is.
pub open spec fn closed(scan: Scan) -> Scan {
    if scan.saved.len() > 0 {
        Scan {
            saved: scan.saved.drop_last(),
            load: scan.saved.last().0,
            floor: scan.saved.last().1,
            chain: scan.saved.last().2,
            chain_floor: scan.saved.last().3,
            ..scan
        }
    } else {
        scan
    }
}

/// Openers and operators behind a token that is not blank, from those
/// before it.
///
/// An opening bracket adds one opener and is remembered; a closing bracket
/// takes off the last one that is open and all that was added inside. A
/// comma takes off the operands and operators since the last comma or
/// bracket, a semicolon everything. A prefix operator, a JSON arrow and a
/// keyword of an operand add one opener; a keyword of a statement or query
/// adds one that no comma takes off. An operator adds one to the operators in a row; one
/// between queries is not taken off by a comma.
pub open spec fn moved(scan: Scan, role: Role) -> Scan {
    match role {
        Role::Open => Scan {
            saved: scan.saved.push((scan.load, scan.floor, scan.chain, scan.chain_floor)),
            load: scan.load + 1,
            floor: scan.load + 1,
            chain_floor: scan.chain,
            ..scan
        },
        Role::Close => closed(scan),
        Role::Shut => Scan { chain: closed(scan).chain + 1, ..closed(scan) },
        Role::Comma => Scan { load: scan.floor, chain: scan.chain_floor, ..scan },
        Role::Semicolon => Scan {
            saved: Seq::empty(),
            load: 0,
            floor: 0,
            chain: 0,
            chain_floor: 0,
            ..scan
        },
        Role::Sign | Role::Not | Role::Arrow => Scan {
            load: scan.load + 1,
            chain: scan.chain + 1,
            ..scan
        },
        Role::Nest => Scan { load: scan.load + 1, ..scan },
        Role::Statement => Scan { load: scan.load + 1, floor: scan.load + 1, ..scan },
        Role::Junction | Role::Compare | Role::Link => Scan { chain: scan.chain + 1, ..scan },
        Role::SetLink => Scan { chain: scan.chain + 1, chain_floor: scan.chain + 1, ..scan },
        Role::Blank | Role::Granted | Role::By | Role::Plain => scan,
    }
}

/// The count before a token that is not blank, with the opener of a
/// prefix operator taken off where the token shows that the parser is back
/// from its operand.
pub open spec fn released(scan: Scan, role: Role) -> Scan {
    if releases(scan.pending, role) && scan.load > 0 {
        Scan { load: (scan.load - 1) as nat, ..scan }
    } else {
        scan
    }
}

/// The count behind a token, from the count before it. A blank changes
/// nothing.
pub open spec fn step(scan: Scan, role: Role) -> Scan {
    if role == Role::Blank {
        scan
    } else {
        let counted = moved(released(scan, role), role);
        Scan {
            peak: if counted.load > scan.peak {
                counted.load
            } else {
                scan.peak
            },
            chain_peak: if counted.chain > scan.chain_peak {
                counted.chain
            } else {
                scan.chain_peak
            },
            pending: pending_behind(scan.pending, role),
            after_granted: role == Role::Granted,
            granted_by: scan.granted_by || (scan.after_granted && role == Role::By),
            ..counted
        }
    }
}

/// The count behind the first `upto` of `lexemes`.
pub open spec fn scanned(lexemes: Seq<LexemeView>, upto: int) -> Scan
    decreases upto,
{
    if upto <= 0 {
        start()
    } else {
        step(scanned(lexemes, upto - 1), role_of(lexemes[upto - 1]))
    }
}

/// Whether these tokens never have more than [`LIMIT`] openers pending nor
/// more than [`CHAIN_LIMIT`] operators in a row, and never the keyword `BY`
/// behind the keyword `GRANTED`.
pub open spec fn within_limits(lexemes: Seq<LexemeView>) -> bool {
    let scan = scanned(lexemes, lexemes.len() as int);
    &&& scan.peak <= LIMIT
    &&& scan.chain_peak <= CHAIN_LIMIT
    &&& !scan.granted_by
}

/// Whether a text with these tokens is handed to the parser. A text that
/// the tokenizer rejects is: the parser does no more than tokenize it again
/// and return the error.
pub open spec fn admitted(lexemes: Option<Seq<LexemeView>>) -> bool {
    match lexemes {
        Some(lexemes) => within_limits(lexemes),
        None => true,
    }
}

/// Neither peak ever falls as the count goes on, and `GRANTED BY` stays
/// found.
pub proof fn lemma_scan_grows(lexemes: Seq<LexemeView>, earlier: int, later: int)
    requires
        0 <= earlier <= later,
    ensures
        scanned(lexemes, earlier).peak <= scanned(lexemes, later).peak,
        scanned(lexemes, earlier).chain_peak <= scanned(lexemes, later).chain_peak,
        scanned(lexemes, earlier).granted_by ==> scanned(lexemes, later).granted_by,
    decreases later - earlier,
{
    if earlier < later {
        lemma_scan_grows(lexemes, earlier, later - 1);
    }
}

/// Tells whether `text` is written as `other` is.
fn same(text: &String, other: &str) -> (same: bool)
    ensures
        same == (text@ == other@),
{
    let other = String::from_str(other);
    *text == other
}

/// Tells what a word counts as.
fn role_of_word(keyword: &String) -> (role: Role)
    ensures
        role == word_role(keyword@),
{
    if same(keyword, "NOT") {
        Role::Not
    } else if same(keyword, "CASE") || same(keyword, "DISTINCT") {
        Role::Nest
    } else if same(keyword, "EXPLAIN") || same(keyword, "DESCRIBE") || same(keyword, "PREPARE")
        || same(keyword, "INSERT") {
        Role::Statement
    } else if same(keyword, "AND") || same(keyword, "OR") {
        Role::Junction
    } else if same(keyword, "XOR") || same(keyword, "IS") || same(keyword, "IN") || same(
        keyword,
        "LIKE",
    ) || same(keyword, "ILIKE") || same(keyword, "BETWEEN") {
        Role::Link
    } else if same(keyword, "UNION") || same(keyword, "EXCEPT") || same(keyword, "INTERSECT") {
        Role::SetLink
    } else if same(keyword, "GRANTED") {
        Role::Granted
    } else if same(keyword, "BY") {
        Role::By
    } else {
        Role::Plain
    }
}

/// Tells what a mark counts as.
fn role_of_mark(text: &String) -> (role: Role)
    ensures
        role == mark_role(text@),
{
    if same(text, "(") || same(text, "[") {
        Role::Open
    } else if same(text, ")") {
        Role::Close
    } else if same(text, "]") {
        Role::Shut
    } else if same(text, ",") {
        Role::Comma
    } else if same(text, ";") {
        Role::Semicolon
    } else if same(text, ".") {
        Role::Plain
    } else if same(text, "-") || same(text, "+") || same(text, "!!") || same(text, "|/") || same(
        text,
        "||/",
    ) || same(text, "@") || same(text, "~") {
        Role::Sign
    } else if same(text, "->") || same(text, "->>") || same(text, "#>") || same(text, "#>>") {
        Role::Arrow
    } else if same(text, "=") || same(text, "==") || same(text, "<>") || same(text, "<") || same(
        text,
        ">",
    ) || same(text, "<=") || same(text, ">=") || same(text, "<=>") {
        Role::Compare
    } else {
        Role::Link
    }
}

/// Tells what a token counts as.
pub fn role(lexeme: &Lexeme) -> (role: Role)
    ensures
        role == role_of(lexeme@),
{
    match lexeme {
        Lexeme::Space => Role::Blank,
        Lexeme::Word(keyword) => role_of_word(keyword),
        Lexeme::Mark(text) => role_of_mark(text),
        Lexeme::Other => Role::Plain,
    }
}

/// Tells whether `lexemes` are within the limits and without `GRANTED BY`.
pub fn are_within_limits(lexemes: &Vec<Lexeme>) -> (within: bool)
    ensures
        within == within_limits(lexemes.deep_view()),
{
    let ghost views = lexemes.deep_view();
    let mut saved: Vec<(usize, usize, usize, usize)> = Vec::new();
    let mut load: usize = 0;
    let mut floor: usize = 0;
    let mut chain: usize = 0;
    let mut chain_floor: usize = 0;
    let mut pending = Pending::Nothing;
    let mut after_granted = false;
    let mut at: usize = 0;
    while at < lexemes.len()
        invariant
            at <= lexemes.len(),
            views == lexemes.deep_view(),
            load <= LIMIT,
            floor <= LIMIT,
            chain <= CHAIN_LIMIT,
            chain_floor <= CHAIN_LIMIT,
            forall|j: int|
                0 <= j < saved.len() ==> (#[trigger] saved[j]).0 <= LIMIT && saved[j].1 <= LIMIT
                    && saved[j].2 <= CHAIN_LIMIT && saved[j].3 <= CHAIN_LIMIT,
            scanned(views, at as int).load == load,
            scanned(views, at as int).floor == floor,
            scanned(views, at as int).chain == chain,
            scanned(views, at as int).chain_floor == chain_floor,
            scanned(views, at as int).pending == pending,
            scanned(views, at as int).after_granted == after_granted,
            scanned(views, at as int).peak <= LIMIT,
            scanned(views, at as int).chain_peak <= CHAIN_LIMIT,
            !scanned(views, at as int).granted_by,
            scanned(views, at as int).saved.len() == saved.len(),
            forall|j: int|
                0 <= j < saved.len() ==> #[trigger] scanned(views, at as int).saved[j] == (
                    saved[j].0 as nat,
                    saved[j].1 as nat,
                    saved[j].2 as nat,
                    saved[j].3 as nat,
                ),
        decreases lexemes.len() - at,
    {
        let role = role(&lexemes[at]);
        let mut found = false;
        proof {
            assert(views[at as int] == lexemes[at as int]@);
        }
        if load > 0 && (pending == Pending::NotOperand && role == Role::Junction || pending
            == Pending::SignOperand && (role == Role::Junction || role == Role::Compare || role
            == Role::Sign)) {
            load = load - 1;
        }
        match role {
            Role::Blank => {},
            Role::Open => {
                saved.push((load, floor, chain, chain_floor));
                load = load + 1;
                floor = load;
                chain_floor = chain;
            },
            Role::Close | Role::Shut => {
                if saved.len() > 0 {
                    let outer = saved[saved.len() - 1];
                    saved.pop();
                    load = outer.0;
                    floor = outer.1;
                    chain = outer.2;
                    chain_floor = outer.3;
                }
                if role == Role::Shut {
                    chain = chain + 1;
                }
            },
            Role::Comma => {
                load = floor;
                chain = chain_floor;
            },
            Role::Semicolon => {
                saved = Vec::new();
                load = 0;
                floor = 0;
                chain = 0;
                chain_floor = 0;
            },
            Role::Sign | Role::Not | Role::Arrow => {
                load = load + 1;
                chain = chain + 1;
            },
            Role::Nest => {
                load = load + 1;
            },
            Role::Statement => {
                load = load + 1;
                floor = load;
            },
            Role::Junction | Role::Compare | Role::Link => {
                chain = chain + 1;
            },
            Role::SetLink => {
                chain = chain + 1;
                chain_floor = chain;
            },
            Role::By => {
                found = after_granted;
            },
            Role::Granted | Role::Plain => {},
        }
        match role {
            Role::Blank => {},
            Role::Granted => {
                after_granted = true;
                pending = Pending::Nothing;
            },
            Role::Sign => {
                after_granted = false;
                pending = Pending::Sign;
            },
            Role::Not => {
                after_granted = false;
                pending = Pending::Not;
            },
            Role::Plain => {
                after_granted = false;
                pending = match pending {
                    Pending::Sign => Pending::SignOperand,
                    Pending::Not => Pending::NotOperand,
                    _ => Pending::Nothing,
                };
            },
            _ => {
                after_granted = false;
                pending = Pending::Nothing;
            },
        }
        at = at + 1;
        proof {
            assert(scanned(views, at as int) == step(
                scanned(views, at - 1),
                role_of(views[at - 1]),
            ));
        }
        if found || load > LIMIT || chain > CHAIN_LIMIT {
            proof {
                lemma_scan_grows(views, at as int, views.len() as int);
            }
            return false;
        }
    }
    true
}

/// Tells whether `sql` is handed to the parser in `dialect`.
pub fn is_admitted(dialect: Dialect, sql: &str) -> (ok: bool)
    ensures
        ok == admitted(tokenized(dialect, sql@)),
{
    match tokens(dialect, sql) {
        Some(lexemes) => are_within_limits(&lexemes),
        None => true,
    }
}

} // verus!
