use ant_farmer::admission::{are_within_limits, is_admitted, role, Role, CHAIN_LIMIT, LIMIT};
use ant_farmer::{parse, AntFarmer, Dialect, Error, Lexeme};

fn farmer() -> AntFarmer {
    AntFarmer::from(Dialect::PostgreSql)
}

fn admitted(sql: &str) -> bool {
    is_admitted(Dialect::PostgreSql, sql)
}

fn word(keyword: &str) -> Lexeme {
    Lexeme::Word(keyword.to_string())
}

fn mark(text: &str) -> Lexeme {
    Lexeme::Mark(text.to_string())
}

fn times(lexemes: &[Lexeme], count: usize) -> Vec<Lexeme> {
    let mut all = Vec::new();
    for _ in 0..count {
        all.extend(lexemes.iter().cloned());
    }
    all
}

#[test]
fn limits_are_as_documented() {
    assert_eq!(LIMIT, 6);
    assert_eq!(CHAIN_LIMIT, 64);
}

#[test]
fn words_count_by_their_keyword() {
    assert_eq!(role(&word("NOT")), Role::Not);
    for keyword in ["CASE", "DISTINCT"] {
        assert_eq!(role(&word(keyword)), Role::Nest);
    }
    for keyword in ["EXPLAIN", "DESCRIBE", "PREPARE", "INSERT"] {
        assert_eq!(role(&word(keyword)), Role::Statement);
    }
    for keyword in ["AND", "OR"] {
        assert_eq!(role(&word(keyword)), Role::Junction);
    }
    for keyword in ["XOR", "IS", "IN", "LIKE", "ILIKE", "BETWEEN"] {
        assert_eq!(role(&word(keyword)), Role::Link);
    }
    for keyword in ["UNION", "EXCEPT", "INTERSECT"] {
        assert_eq!(role(&word(keyword)), Role::SetLink);
    }
    assert_eq!(role(&word("GRANTED")), Role::Granted);
    assert_eq!(role(&word("BY")), Role::By);
    for keyword in ["NoKeyword", "SELECT", "TABLE", "not", "NOTES", ""] {
        assert_eq!(role(&word(keyword)), Role::Plain);
    }
}

#[test]
fn marks_count_by_how_they_are_written() {
    assert_eq!(role(&mark("(")), Role::Open);
    assert_eq!(role(&mark("[")), Role::Open);
    assert_eq!(role(&mark(")")), Role::Close);
    assert_eq!(role(&mark("]")), Role::Shut);
    assert_eq!(role(&mark(",")), Role::Comma);
    assert_eq!(role(&mark(";")), Role::Semicolon);
    assert_eq!(role(&mark(".")), Role::Plain);
    for sign in ["-", "+", "!!", "|/", "||/", "@", "~"] {
        assert_eq!(role(&mark(sign)), Role::Sign);
    }
    for arrow in ["->", "->>", "#>", "#>>"] {
        assert_eq!(role(&mark(arrow)), Role::Arrow);
    }
    for comparison in ["=", "==", "<>", "<", ">", "<=", ">=", "<=>"] {
        assert_eq!(role(&mark(comparison)), Role::Compare);
    }
    for link in ["*", "/", "%", "||", "|", "&", "^", "#", "<<", ">>", "~*", "!~", "!~*", "::", ":", "!", "=>", "{", "}", "\\"] {
        assert_eq!(role(&mark(link)), Role::Link);
    }
    assert_eq!(role(&Lexeme::Space), Role::Blank);
    assert_eq!(role(&Lexeme::Other), Role::Plain);
}

#[test]
fn brackets_count_while_they_are_open() {
    let open = [mark("(")];
    let pair = [mark("("), Lexeme::Other, mark(")"), mark(",")];

    assert!(are_within_limits(&times(&open, 6)));
    assert!(!are_within_limits(&times(&open, 7)));
    assert!(are_within_limits(&times(&pair, 500)));
    assert!(are_within_limits(&Vec::new()));
}

#[test]
fn a_comma_ends_operands_and_operators() {
    let column = [word("NoKeyword"), word("INT"), word("NOT"), word("NULL"), mark(",")];
    let negation = [word("NOT")];
    let sum = [Lexeme::Other, mark("*")];
    let term = [Lexeme::Other, mark("*"), Lexeme::Other, mark(",")];

    assert!(are_within_limits(&times(&column, 500)));
    assert!(are_within_limits(&times(&negation, 6)));
    assert!(!are_within_limits(&times(&negation, 7)));
    assert!(are_within_limits(&times(&sum, 64)));
    assert!(!are_within_limits(&times(&sum, 65)));
    assert!(are_within_limits(&times(&term, 500)));
}

#[test]
fn a_prefix_operator_with_one_token_behind_it_ends_where_less_binds() {
    let negative = [Lexeme::Other, mark(">"), mark("-"), Lexeme::Other, word("AND")];
    let negated = [word("NOT"), word("NoKeyword"), Lexeme::Space, word("OR")];
    let sums = [mark("-"), Lexeme::Other, mark("+"), Lexeme::Other, mark(",")];
    let compared = [word("NOT"), word("NoKeyword"), mark("="), Lexeme::Other, word("AND")];
    let product = [mark("-"), Lexeme::Other, mark("*")];
    let typed = [mark("-"), word("DATE"), Lexeme::Other, mark("*")];
    let between = [word("NOT"), word("NoKeyword"), word("BETWEEN"), Lexeme::Other, word("AND")];
    let arrows = [word("NoKeyword"), mark("->"), word("NoKeyword"), word("AND")];
    let cases = [word("CASE"), word("NoKeyword"), word("AND")];

    assert!(are_within_limits(&times(&negative, 21)));
    assert!(!are_within_limits(&times(&negative, 22)));
    assert!(are_within_limits(&times(&negated, 32)));
    assert!(are_within_limits(&times(&sums, 500)));
    for kept in [&compared[..], &product[..], &typed[..], &between[..], &arrows[..], &cases[..]] {
        assert!(are_within_limits(&times(kept, 6)));
        assert!(!are_within_limits(&times(kept, 7)));
    }
}

#[test]
fn a_comma_does_not_end_a_statement_or_a_union() {
    let insert = [word("INSERT"), mark(",")];
    let union = [word("UNION"), mark(",")];

    assert!(are_within_limits(&times(&insert, 6)));
    assert!(!are_within_limits(&times(&insert, 7)));
    assert!(are_within_limits(&times(&union, 64)));
    assert!(!are_within_limits(&times(&union, 65)));
}

#[test]
fn a_semicolon_ends_everything() {
    let statement = [word("EXPLAIN"), mark("("), word("NOT"), Lexeme::Other, word("UNION"), mark(";")];

    assert!(are_within_limits(&times(&statement, 500)));
}

#[test]
fn a_closing_bracket_takes_off_what_was_inside() {
    let nested = [mark("("), word("CASE"), word("NOT"), mark("-"), word("INSERT"), Lexeme::Other, mark(")")];
    let stray = [mark(")"), mark("]")];

    assert!(are_within_limits(&times(&nested, 500)));
    assert!(are_within_limits(&times(&stray, 30)));
}

#[test]
fn square_brackets_in_a_row_count_as_operators() {
    let array = [mark("["), mark("]")];

    assert!(are_within_limits(&times(&array, 64)));
    assert!(!are_within_limits(&times(&array, 65)));
}

#[test]
fn blanks_count_for_nothing() {
    let spaced = [Lexeme::Space, mark("("), Lexeme::Space];

    assert!(are_within_limits(&times(&spaced, 6)));
    assert!(!are_within_limits(&times(&spaced, 7)));
    assert!(are_within_limits(&times(&[Lexeme::Space], 5000)));
}

#[test]
fn by_behind_granted_is_refused() {
    assert!(!are_within_limits(&vec![word("GRANTED"), word("BY")]));
    assert!(!are_within_limits(&vec![word("GRANTED"), Lexeme::Space, Lexeme::Space, word("BY")]));
    assert!(are_within_limits(&vec![word("GRANTED"), Lexeme::Other, word("BY")]));
    assert!(are_within_limits(&vec![word("BY"), word("GRANTED")]));
    assert!(are_within_limits(&vec![word("GRANTED"), word("GRANTED"), mark(","), word("BY")]));
    assert!(!are_within_limits(&vec![word("GRANTED"), word("GRANTED"), word("BY"), mark(";")]));
}

#[test]
fn ordinary_tables_are_admitted() {
    assert!(admitted(""));
    assert!(admitted("CREATE TABLE t (granted_by INT)"));
    assert!(admitted("CREATE TABLE t (granted INT, by_whom INT, \"GRANTED\" INT)"));
    assert!(admitted("CREATE TABLE notes (case_id INT NOT NULL, prepared_at INT, explained INT)"));
    assert!(admitted(
        "CREATE TABLE t (a INT DEFAULT -1, b VARCHAR(10), c VARCHAR(10), d VARCHAR(10), e VARCHAR(10), f VARCHAR(10), g VARCHAR(10))"
    ));
    assert!(admitted(&format!("CREATE TABLE t ({}z INT)", "a NUMERIC(10, 2) NOT NULL DEFAULT -1, ".repeat(500))));
    assert!(admitted(&format!(
        "CREATE TABLE t (a INT, CONSTRAINT c CHECK (a > -1{}))",
        " AND a > -1 AND NOT a AND a <> +1".repeat(7)
    )));
    assert!(admitted(&"INSERT INTO inserts VALUES (1); ".repeat(50)));
    assert!(admitted(&"EXPLAIN SELECT 1; ".repeat(50)));
    assert!(admitted("CREATE TABLE t (a TEXT DEFAULT '((((((((((', b TEXT) -- ((((((((("));
    assert!(admitted("CREATE TABLE t (a TEXT) /* (((((((((( NOT NOT NOT NOT NOT NOT NOT */"));
}

#[test]
fn quoting_goes_by_the_dialect() {
    let backticks = format!("CREATE TABLE `t` ({}`z` INT)", "`a(` INT, ".repeat(20));

    assert!(is_admitted(Dialect::MySql, &backticks));
    assert!(!is_admitted(Dialect::PostgreSql, &backticks));
    assert!(is_admitted(Dialect::MsSql, &format!("SELECT {}1", "[a(b] + ".repeat(3))));
}

#[test]
fn what_the_tokenizer_rejects_is_left_to_the_parser() {
    let unfinished = format!("SELECT '{}", "(".repeat(100));

    assert!(admitted(&unfinished));
    assert!(matches!(farmer().mierenneuke(&unfinished), Err(Error::Parse(_))));
}

#[test]
fn a_parser_error_comes_back_unchanged() {
    let sql = "CREATE TABLE t (granted_by INT, DEFAULT -1 (";
    let expected = sqlparser::parser::Parser::parse_sql(&sqlparser::dialect::MySqlDialect {}, sql)
        .unwrap_err();

    assert_eq!(AntFarmer::from(Dialect::MySql).mierenneuke(sql), Err(Error::Parse(expected)));
}

#[test]
fn a_table_with_a_column_called_granted_by_is_formatted() {
    let result = AntFarmer::from(Dialect::MySql).mierenneuke("CREATE TABLE t (granted_by INT)");

    assert_eq!(result, Ok("CREATE TABLE t (\n    granted_by INT  \n)\n;".to_string()));
}

#[test]
fn granted_by_is_refused_before_the_parser() {
    for sql in [
        "GRANT SELECT ON t TO u GRANTED BY 1",
        "GRANT SELECT ON t TO u GRANTED BY",
        "GRANT SELECT ON t TO u granted /* who */ by 1",
        "REVOKE SELECT ON t FROM u GRANTED BY 1",
    ] {
        assert!(!admitted(sql));
        assert_eq!(farmer().mierenneuke(sql), Err(Error::Refused));
        assert_eq!(parse(Dialect::MySql, sql), Err(Error::Refused));
    }
    assert!(matches!(farmer().mierenneuke("GRANT SELECT ON t TO u"), Err(Error::UnsupportedStatement)));
}

#[test]
fn deep_nesting_is_refused_before_the_parser() {
    let brackets = format!(
        "CREATE TABLE t (a INT DEFAULT {}1{})",
        "(".repeat(50_000),
        ")".repeat(50_000)
    );
    let negations = format!("CREATE TABLE t (a INT DEFAULT {}1)", "NOT ".repeat(50_000));
    let signs = format!("CREATE TABLE t (a INT DEFAULT {}1)", "- ".repeat(50_000));
    let products = format!("CREATE TABLE t (a INT DEFAULT 1{})", " * - 1".repeat(50_000));
    let cases = format!(
        "CREATE TABLE t (a INT DEFAULT {}1{})",
        "CASE WHEN ".repeat(50_000),
        " THEN 1 END".repeat(50_000)
    );
    let distinct = format!("SELECT 1{}", " IS DISTINCT FROM 1".repeat(50_000));
    let arrows = format!("SELECT a{}", " -> a".repeat(50_000));
    let explains = format!("{}SELECT 1", "EXPLAIN ".repeat(50_000));
    let prepares = format!("{}SELECT 1", "PREPARE a AS ".repeat(50_000));
    let inserts = format!("{}SELECT 1", "INSERT INTO t ".repeat(50_000));
    let betweens = format!("SELECT {}b", "NOT a BETWEEN 1 AND ".repeat(50_000));
    let typed = format!("SELECT {}1", "- DATE 'x' * ".repeat(50_000));
    let zoned = format!("SELECT {}1", "- TIMESTAMP WITH TIME ZONE 'x' * ".repeat(50_000));
    let called = format!("SELECT {}1", "- f(1) * ".repeat(50_000));
    let dotted = format!("SELECT {}1", "- a.b * ".repeat(50_000));
    let conjunction =
        format!("CREATE TABLE t (a INT, CONSTRAINT c CHECK (a{}))", " AND a".repeat(50_000));
    let casts = format!("CREATE TABLE t (a INT DEFAULT 1{})", "::INT".repeat(50_000));
    let arrays = format!("CREATE TABLE t (a INT{})", "[]".repeat(50_000));
    let unions = format!("CREATE TABLE t AS SELECT 1{}", " UNION SELECT 1".repeat(50_000));
    let squares = format!("SELECT {}1{}", "[".repeat(50_000), "]".repeat(50_000));

    for sql in [
        brackets, negations, signs, products, cases, distinct, arrows, explains, prepares,
        inserts, betweens, typed, zoned, called, dotted, conjunction, casts, arrays, unions,
        squares,
    ] {
        assert_eq!(farmer().mierenneuke(&sql), Err(Error::Refused));
        assert_eq!(parse(Dialect::Generic, &sql), Err(Error::Refused));
    }
}

#[test]
fn the_heaviest_admitted_texts_come_back() {
    let subqueries = format!(
        "SELECT 1 FROM t WHERE {}1{}",
        "1 OR 1 AND 1 = 1 * (SELECT 1 UNION SELECT 1 INTERSECT SELECT 1 FROM t JOIN u ON ".repeat(6),
        ")".repeat(6)
    );
    let explains = format!("{}SELECT 1", "EXPLAIN ".repeat(6));
    let prepares = format!("{}SELECT 1", "PREPARE a AS ".repeat(6));
    let derived = format!("SELECT 1 FROM {}t{}", "(SELECT 1 FROM ".repeat(6), ") AS x".repeat(6));
    let check = format!(
        "CREATE TABLE t (a INT, CONSTRAINT c CHECK ({}1{}))",
        "1 OR 1 AND x IN (SELECT 1 FROM t WHERE ".repeat(4),
        ")".repeat(4)
    );
    let arrays = format!("CREATE TABLE t (a INT{})", "[]".repeat(64));
    let signed = format!(
        "SELECT 1 FROM t WHERE {}1{}",
        "- 1 AND NOT a AND - 1 AND NOT a OR 1 * (SELECT 1 FROM t WHERE ".repeat(6),
        ")".repeat(6)
    );
    let products = format!("SELECT 1 FROM t WHERE (1{})", " * - 1".repeat(5));

    for sql in [&subqueries, &explains, &prepares, &derived, &signed, &products] {
        assert!(admitted(sql));
        assert_eq!(farmer().mierenneuke(sql), Err(Error::UnsupportedStatement));
    }
    assert!(admitted(&check));
    assert!(farmer().mierenneuke(&check).is_ok());
    assert!(admitted(&arrays));
    assert!(farmer().mierenneuke(&arrays).is_ok());
}

#[test]
fn the_longest_admitted_chain_is_printed() {
    let check = format!("CREATE TABLE t (a INT, CONSTRAINT c CHECK (a{}))", " AND a".repeat(64));

    let text = farmer().mierenneuke(&check).unwrap();

    assert!(text.contains(&format!("CHECK (a{})", " AND a".repeat(64))));
    assert_eq!(
        farmer().mierenneuke(&check.replace("CHECK (a", "CHECK (a AND a")),
        Err(Error::Refused)
    );
}
