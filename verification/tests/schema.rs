use ponoma::db::schema_statements;
use ponoma::text::split_char;

#[test]
fn statements_are_split_and_trimmed() {
    let sql = "CREATE TABLE a (x INT); -- signed cash impact\nCREATE TABLE b (y INT);\n\n";
    assert_eq!(schema_statements(sql), vec!["CREATE TABLE a (x INT)", "CREATE TABLE b (y INT)"]);
}

#[test]
fn comment_text_never_reaches_the_next_statement() {
    let sql = "CREATE TABLE t (\n  cash REAL -- signed; cash impact\n);\nCREATE INDEX i ON t(cash);";
    assert_eq!(
        schema_statements(sql),
        vec!["CREATE TABLE t (\n  cash REAL \n)", "CREATE INDEX i ON t(cash)"]
    );
}

#[test]
fn crlf_and_empty_schemas() {
    assert_eq!(schema_statements("A;\r\nB;"), vec!["A", "B"]);
    assert!(schema_statements("").is_empty());
    assert!(schema_statements("-- only a comment\n;;\n").is_empty());
    assert_eq!(schema_statements("X -- trailing\r"), vec!["X"]);
}

#[test]
fn split_keeps_empty_pieces() {
    assert_eq!(split_char("a;;b;", ';'), vec!["a", "", "b", ""]);
    assert_eq!(split_char("", ';'), vec![""]);
}
