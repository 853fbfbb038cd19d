use polyglot::dialect::{canonical_name, dialect_from_name, dialect_names, Dialect};
use polyglot::errors::ErrorKind;

#[test]
fn every_canonical_name_resolves_to_its_dialect() {
    let names = dialect_names();
    assert_eq!(names.len(), 33);
    for name in &names {
        let d = dialect_from_name(name).unwrap();
        assert_eq!(canonical_name(d), name.as_str());
    }
}

#[test]
fn uppercase_names_resolve() {
    for name in dialect_names() {
        let upper = name.to_uppercase();
        assert_eq!(
            dialect_from_name(&upper).unwrap(),
            dialect_from_name(&name).unwrap()
        );
    }
}

#[test]
fn separators_are_ignored() {
    assert_eq!(dialect_from_name("post_gres").unwrap(), Dialect::PostgreSQL);
    assert_eq!(dialect_from_name("POST-GRES").unwrap(), Dialect::PostgreSQL);
    assert_eq!(dialect_from_name("Big-Query").unwrap(), Dialect::BigQuery);
    assert_eq!(dialect_from_name("t_s-q_l").unwrap(), Dialect::TSQL);
    assert_eq!(dialect_from_name("__duck--db__").unwrap(), Dialect::DuckDB);
}

#[test]
fn mixed_case_names_resolve() {
    assert_eq!(dialect_from_name("PostgreSQL").unwrap(), Dialect::PostgreSQL);
    assert_eq!(dialect_from_name("ClickHouse").unwrap(), Dialect::ClickHouse);
    assert_eq!(dialect_from_name("SQLite").unwrap(), Dialect::SQLite);
}

#[test]
fn postgres_and_its_alias_agree() {
    let a = dialect_from_name("postgres").unwrap();
    let b = dialect_from_name("postgresql").unwrap();
    let c = dialect_from_name("POSTGRE_SQL").unwrap();
    assert_eq!(a, b);
    assert_eq!(b, c);
    assert_eq!(a, Dialect::PostgreSQL);
}

#[test]
fn unknown_dialect_quotes_the_input() {
    let err = dialect_from_name("not_a_real_dialect").unwrap_err();
    assert_eq!(err.kind, ErrorKind::UnknownDialect);
    assert!(err.message.contains("not_a_real_dialect"));
    assert_eq!(
        err.message,
        "unknown dialect: 'not_a_real_dialect'. Use Polyglot.dialects to see supported dialects"
    );
}

#[test]
fn unknown_dialect_keeps_given_spelling() {
    let err = dialect_from_name("My-SQL-Server").unwrap_err();
    assert_eq!(err.kind, ErrorKind::UnknownDialect);
    assert!(err.message.contains("'My-SQL-Server'"));
}

#[test]
fn empty_and_separator_only_names_are_unknown() {
    assert_eq!(dialect_from_name("").unwrap_err().kind, ErrorKind::UnknownDialect);
    assert_eq!(dialect_from_name("-_-").unwrap_err().kind, ErrorKind::UnknownDialect);
}

#[test]
fn dialect_names_are_in_registration_order() {
    let names = dialect_names();
    assert_eq!(names[0], "generic");
    assert_eq!(names[1], "athena");
    assert_eq!(names[18], "postgres");
    assert_eq!(names[32], "tsql");
    assert!(!names.iter().any(|n| n == "postgresql"));
}

#[test]
fn dialect_names_are_distinct() {
    let names = dialect_names();
    for i in 0..names.len() {
        for j in (i + 1)..names.len() {
            assert_ne!(names[i], names[j]);
        }
    }
}

#[test]
fn dialect_names_are_stable() {
    assert_eq!(dialect_names(), dialect_names());
}
