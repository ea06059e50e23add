//! The SQL script splitter.
use dbgate::query_splitter::{split_sql, split_sql_dialect};

#[test]
fn splits_multiple_statements_dropping_terminators() {
    assert_eq!(split_sql("SELECT 1; SELECT 2"), vec!["SELECT 1", "SELECT 2"]);
    assert_eq!(split_sql("SELECT 1; SELECT 2;"), vec!["SELECT 1", "SELECT 2"]);
}

#[test]
fn keeps_statements_together_holding_semicolons_in_strings() {
    assert_eq!(split_sql("SELECT 'a;b'"), vec!["SELECT 'a;b'"]);
    assert_eq!(
        split_sql("SELECT 'a;''b'; SELECT 2"),
        vec!["SELECT 'a;''b'", "SELECT 2"]
    );
    assert_eq!(
        split_sql("SELECT \"a;b\"; SELECT 2"),
        vec!["SELECT \"a;b\"", "SELECT 2"]
    );
    assert_eq!(split_sql("SELECT `a;b`"), vec!["SELECT `a;b`"]);
}

#[test]
fn keeps_semicolons_in_block_and_line_comments() {
    assert_eq!(
        split_sql("SELECT 1 /* ; */ ; SELECT 2"),
        vec!["SELECT 1 /* ; */", "SELECT 2"]
    );
    assert_eq!(
        split_sql("SELECT 1 -- ;\n; SELECT 2"),
        vec!["SELECT 1 -- ;", "SELECT 2"]
    );
}

#[test]
fn drops_empty_statements_and_trailing_terminators() {
    assert_eq!(split_sql("SELECT 1;;SELECT 2"), vec!["SELECT 1", "SELECT 2"]);
    assert_eq!(split_sql(";SELECT 1"), vec!["SELECT 1"]);
    assert_eq!(split_sql("SELECT 1;"), vec!["SELECT 1"]);
}

#[test]
fn escaped_quotes_do_not_close_the_string() {
    assert_eq!(split_sql("SELECT 'it''s'"), vec!["SELECT 'it''s'"]);
}

#[test]
fn split_sql_delegates_to_dialect_with_single_quote_escape() {
    for sql in [
        "SELECT 1; SELECT 2",
        "SELECT 'a;b'",
        "SELECT 1 /* ; */ ; SELECT 2",
        "SELECT 'it''s'",
    ] {
        assert_eq!(split_sql(sql), split_sql_dialect(sql, '\''));
    }
}

#[test]
fn the_escape_char_does_not_change_the_statements() {
    let sql = "SELECT 'it''s; ok', \"a\"\"b;\" ; SELECT 2";
    assert_eq!(split_sql_dialect(sql, '\''), split_sql_dialect(sql, '\\'));
    assert_eq!(split_sql(sql).len(), 2);
}

#[test]
fn each_statement_splits_to_itself() {
    for statement in split_sql("  SELECT 'a;b' ;\n/* ; */ SELECT 2 ; -- end ;\n") {
        assert_eq!(split_sql(&statement), vec![statement.clone()]);
        assert_eq!(statement.trim(), statement);
    }
}

#[test]
fn an_open_string_or_comment_runs_to_the_end() {
    assert_eq!(split_sql("SELECT 'a; SELECT 2"), vec!["SELECT 'a; SELECT 2"]);
    assert_eq!(split_sql("SELECT 1 /* ; SELECT 2"), vec!["SELECT 1 /* ; SELECT 2"]);
    assert!(split_sql("  \n ; ").is_empty());
}

#[test]
fn scripts_put_together_give_the_statements_of_both() {
    let first = "SELECT 'a;b'; SELECT 2";
    let second = "INSERT INTO t VALUES (1); SELECT 3 -- end";
    let mut both = split_sql(first);
    both.extend(split_sql(second));
    assert_eq!(split_sql(&format!("{first};{second}")), both);
    assert_eq!(both.len(), 4);
}

#[test]
fn scripts_with_an_open_string_run_into_the_next() {
    assert_eq!(split_sql("SELECT 'a;SELECT 2"), vec!["SELECT 'a;SELECT 2"]);
}

#[test]
fn a_quoted_text_is_one_statement_whatever_it_holds() {
    for text in ["", ";", "a;b", "it's; here", "/* ; */ -- ;", "\n;\n"] {
        let quoted = format!("'{}'", text.replace('\'', "''"));
        assert_eq!(split_sql(&quoted), vec![quoted.clone()]);
    }
}

#[test]
fn a_comment_is_one_stretch_whatever_it_holds() {
    for text in ["", ";", " a; 'b; ", "/* ; "] {
        let line = format!("--{text}");
        assert_eq!(split_sql(&line), vec![line.trim().to_string()]);
        let block = format!("/*{text}*/");
        assert_eq!(split_sql(&block), vec![block.clone()]);
    }
}

#[test]
fn statements_joined_again_split_into_the_same_statements() {
    for script in [
        "",
        ";;",
        "SELECT 1; SELECT 2",
        "SELECT 1 -- ;\n; SELECT ';' ; /* ; */ x",
        "SELECT 1; SELECT 'open; string",
        "a -- b;c",
    ] {
        let statements = split_sql(script);
        assert_eq!(split_sql(&statements.join("\n;\n")), statements);
        assert_eq!(split_sql_dialect(&statements.join("\n;\n"), '\\'), statements);
    }
}
