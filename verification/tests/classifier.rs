use sqltight::code::{succeeded, SQLITE_DONE, SQLITE_OK, SQLITE_ROW};
use sqltight::text::{remove_all, starts_with};
use sqltight::{c_string, sqlite_err, Error};

#[test]
fn the_three_outcomes_that_are_not_errors() {
    assert!(succeeded(SQLITE_OK));
    assert!(succeeded(SQLITE_ROW));
    assert!(succeeded(SQLITE_DONE));
    assert!(succeeded(0) && succeeded(100) && succeeded(101));
    for code in [1, 5, 19, 21, 99, 102, -1, 2067] {
        assert!(!succeeded(code));
    }
}

#[test]
fn a_unique_violation_carries_the_columns() {
    assert_eq!(
        sqlite_err(19, 1, "UNIQUE constraint failed: user.email"),
        Error::UniqueConstraint("user.email".to_string())
    );
    assert_eq!(
        sqlite_err(2067, 7, "UNIQUE constraint failed: t.a, t.b"),
        Error::UniqueConstraint("t.a, t.b".to_string())
    );
    assert_eq!(
        sqlite_err(19, 1, "UNIQUE constraint failed: "),
        Error::UniqueConstraint(String::new())
    );
}

#[test]
fn a_duplicate_column_carries_its_name() {
    assert_eq!(
        sqlite_err(1, 1, "duplicate column name: v"),
        Error::DuplicateColumnName("v".to_string())
    );
}

#[test]
fn the_known_beginning_is_taken_out_wherever_it_stands() {
    assert_eq!(
        sqlite_err(19, 1, "UNIQUE constraint failed: a.b UNIQUE constraint failed: c"),
        Error::UniqueConstraint("a.b c".to_string())
    );
}

#[test]
fn any_other_text_is_carried_with_its_code() {
    assert_eq!(
        sqlite_err(1, 1, "near \"selec\": syntax error"),
        Error::Sqlite { text: "near \"selec\": syntax error".to_string(), code: 1 }
    );
    assert_eq!(
        sqlite_err(19, 1, "NOT NULL constraint failed: t.v"),
        Error::Sqlite { text: "NOT NULL constraint failed: t.v".to_string(), code: 19 }
    );
    assert_eq!(
        sqlite_err(19, 1, "a UNIQUE constraint failed: t.v"),
        Error::Sqlite { text: "a UNIQUE constraint failed: t.v".to_string(), code: 19 }
    );
    assert_eq!(
        sqlite_err(19, 1, "UNIQUE constraint failed:"),
        Error::Sqlite { text: "UNIQUE constraint failed:".to_string(), code: 19 }
    );
    assert_eq!(sqlite_err(5, 1, ""), Error::Sqlite { text: String::new(), code: 5 });
}

#[test]
fn without_a_handle_there_is_no_text_to_go_by() {
    let expected = Error::Sqlite { text: "The sqlite db pointer is null".to_string(), code: -1 };
    assert_eq!(sqlite_err(14, 0, ""), expected);
    assert_eq!(sqlite_err(19, 0, "UNIQUE constraint failed: user.email"), expected);
}

#[test]
fn a_c_string_ends_with_a_nul() {
    assert_eq!(c_string(""), Ok(vec![0]));
    assert_eq!(c_string(":memory:"), Ok(b":memory:\0".to_vec()));
    assert_eq!(c_string("é"), Ok(vec![0xc3, 0xa9, 0]));
}

#[test]
fn a_nul_inside_is_an_error_at_its_place() {
    assert_eq!(c_string("\0"), Err(Error::Null(0)));
    assert_eq!(c_string("select\0 1"), Err(Error::Null(6)));
    assert_eq!(c_string("é\0\0"), Err(Error::Null(2)));
}

#[test]
fn starts_with_compares_the_beginning() {
    assert!(starts_with("abc", ""));
    assert!(starts_with("abc", "ab"));
    assert!(starts_with("abc", "abc"));
    assert!(!starts_with("abc", "abcd"));
    assert!(!starts_with("abc", "b"));
    assert!(!starts_with("", "a"));
    assert!(starts_with("éa", "é"));
}

#[test]
fn remove_all_takes_out_every_occurrence() {
    for (text, pattern) in [
        ("", "a"),
        ("a", "a"),
        ("aaa", "aa"),
        ("aab", "ab"),
        ("abcabc", "bc"),
        ("abc", "abcd"),
        ("xabxabx", "ab"),
        ("ééaé", "é"),
        ("UNIQUE constraint failed: t.v", "UNIQUE constraint failed: "),
    ] {
        assert_eq!(remove_all(text, pattern), text.replace(pattern, ""));
    }
    assert_eq!(remove_all("aaa", "aa"), "a");
    assert_eq!(remove_all("xabxabx", "ab"), "xxx");
}
