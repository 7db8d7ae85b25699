use ant_farmer::{is_admitted, AntFarmer, Dialect, Error};
use sqlparser::keywords::ALL_KEYWORDS;

const TIMES: usize = 1200;

fn marks() -> Vec<String> {
    let singles = "!\"#$%&'()*+,-./:;<=>?@[\\]^_`{|}~";
    let mut marks: Vec<String> = singles.chars().map(|c| c.to_string()).collect();
    for pair in ["::", "||", "!!", "|/", "||/", "->", "->>", "#>", "#>>", "<>", "!=", "<=", ">=", "<<", ">>", "<=>", "=>", "!~", "~*", "!~*", "==", "--", "/*", "*/", "''", "\"\"", "()", "[]"] {
        marks.push(pair.to_string());
    }
    marks
}

fn words() -> Vec<String> {
    let mut words: Vec<String> = ALL_KEYWORDS.iter().map(|word| word.to_string()).collect();
    words.extend(marks());
    words.push("a".to_string());
    words.push("1".to_string());
    words
}

fn come_back(dialect: Dialect, texts: impl Iterator<Item = String>) {
    let farmer = AntFarmer::from(dialect);
    for sql in texts {
        let result = farmer.mierenneuke(&sql);
        assert_eq!(result == Err(Error::Refused), !is_admitted(dialect, &sql));
    }
}

fn in_front(head: &'static str, tail: &'static str) -> impl Iterator<Item = String> {
    words().into_iter().map(move |word| format!("{}{}1{}", head, format!("{} ", word).repeat(TIMES), tail))
}

fn between(head: &'static str, tail: &'static str) -> impl Iterator<Item = String> {
    words().into_iter().map(move |word| format!("{}1{}{}", head, format!(" {} 1", word).repeat(TIMES), tail))
}

fn behind(head: &'static str, tail: &'static str) -> impl Iterator<Item = String> {
    words().into_iter().map(move |word| format!("{}a{}{}", head, format!(" {}", word).repeat(TIMES), tail))
}

fn paired(head: &'static str, second: &'static str, tail: &'static str) -> impl Iterator<Item = String> {
    words().into_iter().map(move |word| {
        format!("{}1{}{}", head, format!(" {} {}", word, second).repeat(TIMES), tail)
    })
}

#[test]
fn words_in_a_row_in_front_of_a_statement() {
    come_back(Dialect::Generic, in_front("", ""));
    come_back(Dialect::Generic, in_front("", " SELECT 1"));
}

#[test]
fn words_in_a_row_in_a_select_list() {
    come_back(Dialect::Generic, in_front("SELECT ", ""));
    come_back(Dialect::Generic, between("SELECT ", ""));
    come_back(Dialect::Generic, behind("SELECT ", ""));
}

#[test]
fn words_in_a_row_in_a_default() {
    come_back(Dialect::MySql, in_front("CREATE TABLE t (a INT DEFAULT ", ")"));
    come_back(Dialect::MySql, between("CREATE TABLE t (a INT DEFAULT ", ")"));
    come_back(Dialect::MySql, behind("CREATE TABLE t (a INT DEFAULT ", ")"));
}

#[test]
fn words_in_a_row_in_a_check() {
    come_back(Dialect::PostgreSql, in_front("CREATE TABLE t (a INT, CONSTRAINT c CHECK (", "))"));
    come_back(Dialect::PostgreSql, between("CREATE TABLE t (a INT, CONSTRAINT c CHECK (", "))"));
    come_back(Dialect::PostgreSql, behind("CREATE TABLE t (a INT, CONSTRAINT c CHECK (", "))"));
}

#[test]
fn words_in_a_row_in_a_from_clause() {
    come_back(Dialect::Generic, in_front("SELECT 1 FROM ", ""));
    come_back(Dialect::Generic, behind("SELECT 1 FROM ", ""));
    come_back(Dialect::Generic, paired("SELECT 1 FROM ", "a", ""));
}

#[test]
fn words_in_a_row_in_a_where_clause() {
    come_back(Dialect::PostgreSql, in_front("SELECT 1 FROM t WHERE ", ""));
    come_back(Dialect::PostgreSql, between("SELECT 1 FROM t WHERE ", ""));
    come_back(Dialect::PostgreSql, behind("SELECT 1 FROM t WHERE ", ""));
}

fn pairs_in_a_default(second: &'static str) {
    let texts = words().into_iter().map(move |word| {
        format!("CREATE TABLE t (a INT DEFAULT 1{})", format!(" {} {}", word, second).repeat(TIMES))
    });
    come_back(Dialect::Generic, texts);
}

fn pairs_in_front_of_a_statement(second: &'static str) {
    let texts = words().into_iter().map(move |word| {
        format!("{}SELECT 1", format!("{} {} ", word, second).repeat(TIMES))
    });
    come_back(Dialect::Generic, texts);
}

#[test]
fn words_and_null_in_a_row_in_a_default() {
    pairs_in_a_default("NULL");
}

#[test]
fn words_and_not_in_a_row_in_a_default() {
    pairs_in_a_default("NOT");
}

#[test]
fn words_and_by_in_a_row_in_a_default() {
    pairs_in_a_default("BY");
}

#[test]
fn words_and_names_in_a_row_in_a_default() {
    pairs_in_a_default("a");
}

#[test]
fn words_and_table_in_a_row_in_front_of_a_statement() {
    pairs_in_front_of_a_statement("TABLE");
}

#[test]
fn words_and_into_in_a_row_in_front_of_a_statement() {
    pairs_in_front_of_a_statement("INTO");
}

#[test]
fn words_and_as_in_a_row_in_front_of_a_statement() {
    pairs_in_front_of_a_statement("AS");
}

#[test]
fn words_and_names_in_a_row_in_front_of_a_statement() {
    pairs_in_front_of_a_statement("a");
}

#[test]
fn words_in_a_row_in_column_types_and_options() {
    come_back(Dialect::Generic, in_front("CREATE TABLE t (a ", ")"));
    come_back(Dialect::Generic, behind("CREATE TABLE t (a INT ", ")"));
    come_back(Dialect::MySql, behind("CREATE TABLE t (", " INT)"));
}

#[test]
fn words_in_a_row_between_brackets() {
    let texts = words().into_iter().map(|word| {
        format!("SELECT 1{}", format!(" {} (1)", word).repeat(TIMES))
    });
    come_back(Dialect::Generic, texts);
    let texts = words().into_iter().map(|word| {
        format!("CREATE TABLE t (a INT{})", format!(" {} []", word).repeat(TIMES))
    });
    come_back(Dialect::PostgreSql, texts);
}

#[test]
fn words_in_a_row_behind_commas_and_semicolons() {
    let texts = words().into_iter().map(|word| {
        format!("SELECT 1{}", format!(", {} 1", word).repeat(TIMES))
    });
    come_back(Dialect::Generic, texts);
    let texts = words().into_iter().map(|word| {
        format!("COPY t FROM STDIN; {}", format!("{} ; ", word).repeat(TIMES))
    });
    come_back(Dialect::PostgreSql, texts);
}

fn prefixed(sign: &'static str, ender: &'static str) {
    let texts = words().into_iter().map(move |word| {
        format!("SELECT {}1", format!("{} {} {} ", sign, word, ender).repeat(TIMES))
    });
    come_back(Dialect::PostgreSql, texts);
}

#[test]
fn signs_with_one_word_behind_them_in_front_of_and() {
    prefixed("-", "AND");
}

#[test]
fn signs_with_one_word_behind_them_in_front_of_a_comparison() {
    prefixed("~", "=");
}

#[test]
fn signs_with_one_word_behind_them_in_front_of_a_sign() {
    prefixed("+", "-");
}

#[test]
fn signs_with_one_word_behind_them_in_front_of_or() {
    prefixed("@", "OR");
}

#[test]
fn negations_with_one_word_behind_them_in_front_of_and() {
    prefixed("NOT", "AND");
}

#[test]
fn negations_with_one_word_behind_them_in_front_of_or() {
    prefixed("NOT", "OR");
}
