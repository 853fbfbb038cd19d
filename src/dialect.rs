use crate::errors::{ErrorKind, PolyglotError};
use vstd::prelude::*;

verus! {

/// The closed set of SQL dialects that names resolve to.
#[derive(Debug, Clone, Copy, PartialEq, Eq, Structural)]
pub enum Dialect {
    Generic,
    Athena,
    BigQuery,
    ClickHouse,
    CockroachDB,
    Databricks,
    Doris,
    Dremio,
    Drill,
    Druid,
    DuckDB,
    Dune,
    Exasol,
    Fabric,
    Hive,
    Materialize,
    MySQL,
    Oracle,
    PostgreSQL,
    Presto,
    Redshift,
    RisingWave,
    SingleStore,
    Snowflake,
    Solr,
    Spark,
    SQLite,
    StarRocks,
    Tableau,
    Teradata,
    TiDB,
    Trino,
    TSQL,
}

/// The dialects in registration order: the order of `dialect_names`.
pub open spec fn registry() -> Seq<Dialect> {
    seq![
        Dialect::Generic, Dialect::Athena, Dialect::BigQuery, Dialect::ClickHouse,
        Dialect::CockroachDB, Dialect::Databricks, Dialect::Doris, Dialect::Dremio,
        Dialect::Drill, Dialect::Druid, Dialect::DuckDB, Dialect::Dune, Dialect::Exasol,
        Dialect::Fabric, Dialect::Hive, Dialect::Materialize, Dialect::MySQL, Dialect::Oracle,
        Dialect::PostgreSQL, Dialect::Presto, Dialect::Redshift, Dialect::RisingWave,
        Dialect::SingleStore, Dialect::Snowflake, Dialect::Solr, Dialect::Spark,
        Dialect::SQLite, Dialect::StarRocks, Dialect::Tableau, Dialect::Teradata,
        Dialect::TiDB, Dialect::Trino, Dialect::TSQL,
    ]
}

/// The canonical name of a dialect.
pub open spec fn canonical(d: Dialect) -> Seq<char> {
    match d {
        Dialect::Generic => "generic"@,
        Dialect::Athena => "athena"@,
        Dialect::BigQuery => "bigquery"@,
        Dialect::ClickHouse => "clickhouse"@,
        Dialect::CockroachDB => "cockroachdb"@,
        Dialect::Databricks => "databricks"@,
        Dialect::Doris => "doris"@,
        Dialect::Dremio => "dremio"@,
        Dialect::Drill => "drill"@,
        Dialect::Druid => "druid"@,
        Dialect::DuckDB => "duckdb"@,
        Dialect::Dune => "dune"@,
        Dialect::Exasol => "exasol"@,
        Dialect::Fabric => "fabric"@,
        Dialect::Hive => "hive"@,
        Dialect::Materialize => "materialize"@,
        Dialect::MySQL => "mysql"@,
        Dialect::Oracle => "oracle"@,
        Dialect::PostgreSQL => "postgres"@,
        Dialect::Presto => "presto"@,
        Dialect::Redshift => "redshift"@,
        Dialect::RisingWave => "risingwave"@,
        Dialect::SingleStore => "singlestore"@,
        Dialect::Snowflake => "snowflake"@,
        Dialect::Solr => "solr"@,
        Dialect::Spark => "spark"@,
        Dialect::SQLite => "sqlite"@,
        Dialect::StarRocks => "starrocks"@,
        Dialect::Tableau => "tableau"@,
        Dialect::Teradata => "teradata"@,
        Dialect::TiDB => "tidb"@,
        Dialect::Trino => "trino"@,
        Dialect::TSQL => "tsql"@,
    }
}

/// The further accepted spellings of a dialect.
pub open spec fn aliases(d: Dialect) -> Seq<Seq<char>> {
    match d {
        Dialect::PostgreSQL => seq!["postgresql"@],
        _ => seq![],
    }
}

/// Whether the normalized name `n` names dialect `d`.
pub open spec fn names(d: Dialect, n: Seq<char>) -> bool {
    canonical(d) == n || aliases(d).contains(n)
}

/// The first dialect at or after position `i` of the registry that `n` names.
pub open spec fn lookup_from(n: Seq<char>, i: int) -> Option<Dialect>
    decreases registry().len() - i,
{
    if i < 0 || i >= registry().len() {
        None
    } else if names(registry()[i], n) {
        Some(registry()[i])
    } else {
        lookup_from(n, i + 1)
    }
}

/// The dialect that the normalized name `n` resolves to, if any.
pub open spec fn lookup(n: Seq<char>) -> Option<Dialect> {
    lookup_from(n, 0)
}

/// Whether `c` is removed by normalization.
pub open spec fn is_separator(c: char) -> bool {
    c == '-' || c == '_'
}

/// `s` without its `-` and `_` characters.
pub open spec fn strip_separators(s: Seq<char>) -> Seq<char> {
    s.filter(|c: char| !is_separator(c))
}


/// The canonical name of a dialect.
pub fn canonical_name(d: Dialect) -> (r: &'static str)
    ensures
        r@ == canonical(d),
{
    match d {
        Dialect::Generic => "generic",
        Dialect::Athena => "athena",
        Dialect::BigQuery => "bigquery",
        Dialect::ClickHouse => "clickhouse",
        Dialect::CockroachDB => "cockroachdb",
        Dialect::Databricks => "databricks",
        Dialect::Doris => "doris",
        Dialect::Dremio => "dremio",
        Dialect::Drill => "drill",
        Dialect::Druid => "druid",
        Dialect::DuckDB => "duckdb",
        Dialect::Dune => "dune",
        Dialect::Exasol => "exasol",
        Dialect::Fabric => "fabric",
        Dialect::Hive => "hive",
        Dialect::Materialize => "materialize",
        Dialect::MySQL => "mysql",
        Dialect::Oracle => "oracle",
        Dialect::PostgreSQL => "postgres",
        Dialect::Presto => "presto",
        Dialect::Redshift => "redshift",
        Dialect::RisingWave => "risingwave",
        Dialect::SingleStore => "singlestore",
        Dialect::Snowflake => "snowflake",
        Dialect::Solr => "solr",
        Dialect::Spark => "spark",
        Dialect::SQLite => "sqlite",
        Dialect::StarRocks => "starrocks",
        Dialect::Tableau => "tableau",
        Dialect::Teradata => "teradata",
        Dialect::TiDB => "tidb",
        Dialect::Trino => "trino",
        Dialect::TSQL => "tsql",
    }
}

/// The further accepted spellings of a dialect.
fn alias_names(d: Dialect) -> (r: Vec<&'static str>)
    ensures
        r@.len() == aliases(d).len(),
        forall|k: int| 0 <= k < r@.len() ==> (#[trigger] r@[k])@ == aliases(d)[k],
{
    match d {
        Dialect::PostgreSQL => vec!["postgresql"],
        _ => Vec::new(),
    }
}

/// The dialects in registration order.
fn registry_order() -> (r: Vec<Dialect>)
    ensures
        r@ == registry(),
{
    let r = vec![Dialect::Generic, Dialect::Athena, Dialect::BigQuery, Dialect::ClickHouse, Dialect::CockroachDB, Dialect::Databricks, Dialect::Doris, Dialect::Dremio, Dialect::Drill, Dialect::Druid, Dialect::DuckDB, Dialect::Dune, Dialect::Exasol, Dialect::Fabric, Dialect::Hive, Dialect::Materialize, Dialect::MySQL, Dialect::Oracle, Dialect::PostgreSQL, Dialect::Presto, Dialect::Redshift, Dialect::RisingWave, Dialect::SingleStore, Dialect::Snowflake, Dialect::Solr, Dialect::Spark, Dialect::SQLite, Dialect::StarRocks, Dialect::Tableau, Dialect::Teradata, Dialect::TiDB, Dialect::Trino, Dialect::TSQL];
    assert(r@ =~= registry());
    r
}

/// Whether `r` lists the canonical names of all dialects in registration order.
pub open spec fn is_dialect_listing(r: Seq<String>) -> bool {
    r.len() == registry().len() && forall|k: int| 0 <= k < r.len() ==> (#[trigger] r[k])@ == canonical(registry()[k])
}

/// The canonical names of all dialects, in registration order.
pub fn dialect_names() -> (r: Vec<String>)
    ensures
        is_dialect_listing(r@),
{
    let order = registry_order();
    let mut r: Vec<String> = Vec::new();
    let mut i: usize = 0;
    while i < order.len()
        invariant
            order@ == registry(),
            i <= order@.len(),
            r@.len() == i,
            forall|k: int| 0 <= k < i ==> (#[trigger] r@[k])@ == canonical(registry()[k]),
        decreases order@.len() - i,
    {
        r.push(String::from_str(canonical_name(order[i])));
        i = i + 1;
    }
    r
}

/// Whether every character of `s` is ASCII.
pub open spec fn all_ascii(s: Seq<char>) -> bool {
    forall|k: int| 0 <= k < s.len() ==> (s[k] as u32) < 128
}

/// The ASCII lowercase of one character; other characters are kept.
pub open spec fn ascii_lower_char(c: char) -> char {
    if 'A' <= c && c <= 'Z' {
        ((c as u32) + 32) as char
    } else {
        c
    }
}

/// The ASCII uppercase of one character; other characters are kept.
pub open spec fn ascii_upper_char(c: char) -> char {
    if 'a' <= c && c <= 'z' {
        ((c as u32) - 32) as char
    } else {
        c
    }
}

/// `s` with its ASCII letters lowercased.
pub open spec fn ascii_lower(s: Seq<char>) -> Seq<char> {
    s.map_values(|c: char| ascii_lower_char(c))
}

/// `s` with its ASCII letters uppercased.
pub open spec fn ascii_upper(s: Seq<char>) -> Seq<char> {
    s.map_values(|c: char| ascii_upper_char(c))
}

/// What `str::to_lowercase` returns for `s`: the Unicode lowercase mapping.
pub uninterp spec fn lower_of(s: Seq<char>) -> Seq<char>;

/// Relies on `str::to_lowercase`: the result depends on the characters alone,
/// and on ASCII text it lowercases exactly the letters `A` to `Z`.
#[verifier::external_body]
fn lowercase(s: &str) -> (r: String)
    ensures
        r@ == lower_of(s@),
        all_ascii(s@) ==> r@ == ascii_lower(s@),
{
    s.to_lowercase()
}

/// The normalized form of a dialect name: lowercased, without separators.
pub open spec fn normalize(name: Seq<char>) -> Seq<char> {
    strip_separators(lower_of(name))
}

/// The text of the error for a name that resolves to no dialect.
pub open spec fn unknown_dialect_message(name: Seq<char>) -> Seq<char> {
    "unknown dialect: '"@ + name + "'. Use Polyglot.dialects to see supported dialects"@
}

/// `s` without its separators, as characters.
fn strip_separator_chars(s: &str) -> (r: Vec<char>)
    ensures
        r@ == strip_separators(s@),
{
    let n = s.unicode_len();
    let mut r: Vec<char> = Vec::new();
    let mut i: usize = 0;
    while i < n
        invariant
            n == s@.len(),
            i <= n,
            r@ == strip_separators(s@.subrange(0, i as int)),
        decreases n - i,
    {
        let c = s.get_char(i);
        proof {
            broadcast use Seq::lemma_filter_push;

            assert(s@.subrange(0, i + 1) =~= s@.subrange(0, i as int).push(c));
            assert(strip_separators(s@.subrange(0, i as int).push(c)) == if is_separator(c) {
                strip_separators(s@.subrange(0, i as int))
            } else {
                strip_separators(s@.subrange(0, i as int)).push(c)
            });
        }
        if c != '-' && c != '_' {
            r.push(c);
        }
        i = i + 1;
    }
    assert(s@.subrange(0, n as int) =~= s@);
    r
}

/// Whether the characters `a` spell `b`.
fn spells(a: &Vec<char>, b: &str) -> (r: bool)
    ensures
        r == (a@ == b@),
{
    let n = b.unicode_len();
    if a.len() != n {
        return false;
    }
    let mut i: usize = 0;
    while i < n
        invariant
            n == b@.len(),
            a@.len() == n,
            i <= n,
            forall|k: int| 0 <= k < i ==> a@[k] == b@[k],
        decreases n - i,
    {
        if a[i] != b.get_char(i) {
            return false;
        }
        i = i + 1;
    }
    assert(a@ =~= b@);
    true
}

/// Whether the characters `n` name dialect `d`.
fn is_named(d: Dialect, n: &Vec<char>) -> (r: bool)
    ensures
        r == names(d, n@),
{
    if spells(n, canonical_name(d)) {
        return true;
    }
    let others = alias_names(d);
    let mut i: usize = 0;
    while i < others.len()
        invariant
            others@.len() == aliases(d).len(),
            forall|k: int| 0 <= k < others@.len() ==> (#[trigger] others@[k])@ == aliases(d)[k],
            i <= others@.len(),
            canonical(d) != n@,
            forall|k: int| 0 <= k < i ==> aliases(d)[k] != n@,
        decreases others@.len() - i,
    {
        if spells(n, others[i]) {
            assert(aliases(d)[i as int] == n@);
            return true;
        }
        i = i + 1;
    }
    assert(!aliases(d).contains(n@));
    false
}

/// Resolves a user-supplied dialect name: it is lowercased and stripped of
/// `-` and `_`, then matched against each canonical name and alias. A name
/// that matches none is an `UnknownDialect` error that quotes it as given.
pub fn dialect_from_name(name: &str) -> (r: Result<Dialect, PolyglotError>)
    ensures
        r is Ok <==> lookup(normalize(name@)) is Some,
        r is Ok ==> lookup(normalize(name@)) == Some(r->Ok_0),
        r is Err ==> r->Err_0.kind == ErrorKind::UnknownDialect,
        r is Err ==> r->Err_0.message@ == unknown_dialect_message(name@),
        all_ascii(name@) ==> normalize(name@) == strip_separators(ascii_lower(name@)),
{
    let lowered = lowercase(name);
    let normalized = strip_separator_chars(lowered.as_str());
    let order = registry_order();
    let mut i: usize = 0;
    while i < order.len()
        invariant
            order@ == registry(),
            i <= order@.len(),
            normalized@ == normalize(name@),
            all_ascii(name@) ==> lower_of(name@) == ascii_lower(name@),
            lookup(normalized@) == lookup_from(normalized@, i as int),
        decreases order@.len() - i,
    {
        if is_named(order[i], &normalized) {
            return Ok(order[i]);
        }
        i = i + 1;
    }
    let mut message = String::from_str("unknown dialect: '");
    message.append(name);
    message.append("'. Use Polyglot.dialects to see supported dialects");
    Err(PolyglotError { kind: ErrorKind::UnknownDialect, message })
}


/// The characters of each dialect name and alias.
proof fn lemma_name_literals()
    ensures
        "generic"@ == seq!['g', 'e', 'n', 'e', 'r', 'i', 'c'],
        "athena"@ == seq!['a', 't', 'h', 'e', 'n', 'a'],
        "bigquery"@ == seq!['b', 'i', 'g', 'q', 'u', 'e', 'r', 'y'],
        "clickhouse"@ == seq!['c', 'l', 'i', 'c', 'k', 'h', 'o', 'u', 's', 'e'],
        "cockroachdb"@ == seq!['c', 'o', 'c', 'k', 'r', 'o', 'a', 'c', 'h', 'd', 'b'],
        "databricks"@ == seq!['d', 'a', 't', 'a', 'b', 'r', 'i', 'c', 'k', 's'],
        "doris"@ == seq!['d', 'o', 'r', 'i', 's'],
        "dremio"@ == seq!['d', 'r', 'e', 'm', 'i', 'o'],
        "drill"@ == seq!['d', 'r', 'i', 'l', 'l'],
        "druid"@ == seq!['d', 'r', 'u', 'i', 'd'],
        "duckdb"@ == seq!['d', 'u', 'c', 'k', 'd', 'b'],
        "dune"@ == seq!['d', 'u', 'n', 'e'],
        "exasol"@ == seq!['e', 'x', 'a', 's', 'o', 'l'],
        "fabric"@ == seq!['f', 'a', 'b', 'r', 'i', 'c'],
        "hive"@ == seq!['h', 'i', 'v', 'e'],
        "materialize"@ == seq!['m', 'a', 't', 'e', 'r', 'i', 'a', 'l', 'i', 'z', 'e'],
        "mysql"@ == seq!['m', 'y', 's', 'q', 'l'],
        "oracle"@ == seq!['o', 'r', 'a', 'c', 'l', 'e'],
        "postgres"@ == seq!['p', 'o', 's', 't', 'g', 'r', 'e', 's'],
        "presto"@ == seq!['p', 'r', 'e', 's', 't', 'o'],
        "redshift"@ == seq!['r', 'e', 'd', 's', 'h', 'i', 'f', 't'],
        "risingwave"@ == seq!['r', 'i', 's', 'i', 'n', 'g', 'w', 'a', 'v', 'e'],
        "singlestore"@ == seq!['s', 'i', 'n', 'g', 'l', 'e', 's', 't', 'o', 'r', 'e'],
        "snowflake"@ == seq!['s', 'n', 'o', 'w', 'f', 'l', 'a', 'k', 'e'],
        "solr"@ == seq!['s', 'o', 'l', 'r'],
        "spark"@ == seq!['s', 'p', 'a', 'r', 'k'],
        "sqlite"@ == seq!['s', 'q', 'l', 'i', 't', 'e'],
        "starrocks"@ == seq!['s', 't', 'a', 'r', 'r', 'o', 'c', 'k', 's'],
        "tableau"@ == seq!['t', 'a', 'b', 'l', 'e', 'a', 'u'],
        "teradata"@ == seq!['t', 'e', 'r', 'a', 'd', 'a', 't', 'a'],
        "tidb"@ == seq!['t', 'i', 'd', 'b'],
        "trino"@ == seq!['t', 'r', 'i', 'n', 'o'],
        "tsql"@ == seq!['t', 's', 'q', 'l'],
        "postgresql"@ == seq!['p', 'o', 's', 't', 'g', 'r', 'e', 's', 'q', 'l'],
{
    reveal_strlit("generic");
    reveal_strlit("athena");
    reveal_strlit("bigquery");
    reveal_strlit("clickhouse");
    reveal_strlit("cockroachdb");
    reveal_strlit("databricks");
    reveal_strlit("doris");
    reveal_strlit("dremio");
    reveal_strlit("drill");
    reveal_strlit("druid");
    reveal_strlit("duckdb");
    reveal_strlit("dune");
    reveal_strlit("exasol");
    reveal_strlit("fabric");
    reveal_strlit("hive");
    reveal_strlit("materialize");
    reveal_strlit("mysql");
    reveal_strlit("oracle");
    reveal_strlit("postgres");
    reveal_strlit("presto");
    reveal_strlit("redshift");
    reveal_strlit("risingwave");
    reveal_strlit("singlestore");
    reveal_strlit("snowflake");
    reveal_strlit("solr");
    reveal_strlit("spark");
    reveal_strlit("sqlite");
    reveal_strlit("starrocks");
    reveal_strlit("tableau");
    reveal_strlit("teradata");
    reveal_strlit("tidb");
    reveal_strlit("trino");
    reveal_strlit("tsql");
    reveal_strlit("postgresql");
    assert("generic"@ =~= seq!['g', 'e', 'n', 'e', 'r', 'i', 'c']);
    assert("athena"@ =~= seq!['a', 't', 'h', 'e', 'n', 'a']);
    assert("bigquery"@ =~= seq!['b', 'i', 'g', 'q', 'u', 'e', 'r', 'y']);
    assert("clickhouse"@ =~= seq!['c', 'l', 'i', 'c', 'k', 'h', 'o', 'u', 's', 'e']);
    assert("cockroachdb"@ =~= seq!['c', 'o', 'c', 'k', 'r', 'o', 'a', 'c', 'h', 'd', 'b']);
    assert("databricks"@ =~= seq!['d', 'a', 't', 'a', 'b', 'r', 'i', 'c', 'k', 's']);
    assert("doris"@ =~= seq!['d', 'o', 'r', 'i', 's']);
    assert("dremio"@ =~= seq!['d', 'r', 'e', 'm', 'i', 'o']);
    assert("drill"@ =~= seq!['d', 'r', 'i', 'l', 'l']);
    assert("druid"@ =~= seq!['d', 'r', 'u', 'i', 'd']);
    assert("duckdb"@ =~= seq!['d', 'u', 'c', 'k', 'd', 'b']);
    assert("dune"@ =~= seq!['d', 'u', 'n', 'e']);
    assert("exasol"@ =~= seq!['e', 'x', 'a', 's', 'o', 'l']);
    assert("fabric"@ =~= seq!['f', 'a', 'b', 'r', 'i', 'c']);
    assert("hive"@ =~= seq!['h', 'i', 'v', 'e']);
    assert("materialize"@ =~= seq!['m', 'a', 't', 'e', 'r', 'i', 'a', 'l', 'i', 'z', 'e']);
    assert("mysql"@ =~= seq!['m', 'y', 's', 'q', 'l']);
    assert("oracle"@ =~= seq!['o', 'r', 'a', 'c', 'l', 'e']);
    assert("postgres"@ =~= seq!['p', 'o', 's', 't', 'g', 'r', 'e', 's']);
    assert("presto"@ =~= seq!['p', 'r', 'e', 's', 't', 'o']);
    assert("redshift"@ =~= seq!['r', 'e', 'd', 's', 'h', 'i', 'f', 't']);
    assert("risingwave"@ =~= seq!['r', 'i', 's', 'i', 'n', 'g', 'w', 'a', 'v', 'e']);
    assert("singlestore"@ =~= seq!['s', 'i', 'n', 'g', 'l', 'e', 's', 't', 'o', 'r', 'e']);
    assert("snowflake"@ =~= seq!['s', 'n', 'o', 'w', 'f', 'l', 'a', 'k', 'e']);
    assert("solr"@ =~= seq!['s', 'o', 'l', 'r']);
    assert("spark"@ =~= seq!['s', 'p', 'a', 'r', 'k']);
    assert("sqlite"@ =~= seq!['s', 'q', 'l', 'i', 't', 'e']);
    assert("starrocks"@ =~= seq!['s', 't', 'a', 'r', 'r', 'o', 'c', 'k', 's']);
    assert("tableau"@ =~= seq!['t', 'a', 'b', 'l', 'e', 'a', 'u']);
    assert("teradata"@ =~= seq!['t', 'e', 'r', 'a', 'd', 'a', 't', 'a']);
    assert("tidb"@ =~= seq!['t', 'i', 'd', 'b']);
    assert("trino"@ =~= seq!['t', 'r', 'i', 'n', 'o']);
    assert("tsql"@ =~= seq!['t', 's', 'q', 'l']);
    assert("postgresql"@ =~= seq!['p', 'o', 's', 't', 'g', 'r', 'e', 's', 'q', 'l']);
}

/// The only alias is `postgresql`, of PostgreSQL.
proof fn lemma_aliases(d: Dialect, n: Seq<char>)
    ensures
        #[trigger] aliases(d).contains(n) <==> (d == Dialect::PostgreSQL && n == "postgresql"@),
{
    if d == Dialect::PostgreSQL && n == "postgresql"@ {
        assert(aliases(d)[0] == n);
    }
}

/// Every canonical name resolves to its own dialect.
#[verifier::rlimit(100)]
pub proof fn lemma_canonical_resolves(d: Dialect)
    ensures
        lookup(canonical(d)) == Some(d),
{
    assert forall|d2: Dialect, n: Seq<char>|
        #[trigger] aliases(d2).contains(n) <==> (d2 == Dialect::PostgreSQL && n == "postgresql"@) by {
        lemma_aliases(d2, n);
    }
    lemma_name_literals();
    reveal_with_fuel(lookup_from, 34);
    match d {
        Dialect::Generic => {},
        Dialect::Athena => {},
        Dialect::BigQuery => {},
        Dialect::ClickHouse => {},
        Dialect::CockroachDB => {},
        Dialect::Databricks => {
            assert("clickhouse"@[0] != "databricks"@[0]);
        },
        Dialect::Doris => {},
        Dialect::Dremio => {
            assert("athena"@[0] != "dremio"@[0]);
        },
        Dialect::Drill => {
            assert("doris"@[1] != "drill"@[1]);
        },
        Dialect::Druid => {
            assert("doris"@[1] != "druid"@[1]);
            assert("drill"@[2] != "druid"@[2]);
        },
        Dialect::DuckDB => {
            assert("athena"@[0] != "duckdb"@[0]);
            assert("dremio"@[1] != "duckdb"@[1]);
        },
        Dialect::Dune => {},
        Dialect::Exasol => {
            assert("athena"@[0] != "exasol"@[0]);
            assert("dremio"@[0] != "exasol"@[0]);
            assert("duckdb"@[0] != "exasol"@[0]);
        },
        Dialect::Fabric => {
            assert("athena"@[0] != "fabric"@[0]);
            assert("dremio"@[0] != "fabric"@[0]);
            assert("duckdb"@[0] != "fabric"@[0]);
            assert("exasol"@[0] != "fabric"@[0]);
        },
        Dialect::Hive => {
            assert("dune"@[0] != "hive"@[0]);
        },
        Dialect::Materialize => {
            assert("cockroachdb"@[0] != "materialize"@[0]);
        },
        Dialect::MySQL => {
            assert("doris"@[0] != "mysql"@[0]);
            assert("drill"@[0] != "mysql"@[0]);
            assert("druid"@[0] != "mysql"@[0]);
        },
        Dialect::Oracle => {
            assert("athena"@[0] != "oracle"@[0]);
            assert("dremio"@[0] != "oracle"@[0]);
            assert("duckdb"@[0] != "oracle"@[0]);
            assert("exasol"@[0] != "oracle"@[0]);
            assert("fabric"@[0] != "oracle"@[0]);
        },
        Dialect::PostgreSQL => {
            assert("bigquery"@[0] != "postgres"@[0]);
        },
        Dialect::Presto => {
            assert("athena"@[0] != "presto"@[0]);
            assert("dremio"@[0] != "presto"@[0]);
            assert("duckdb"@[0] != "presto"@[0]);
            assert("exasol"@[0] != "presto"@[0]);
            assert("fabric"@[0] != "presto"@[0]);
            assert("oracle"@[0] != "presto"@[0]);
        },
        Dialect::Redshift => {
            assert("bigquery"@[0] != "redshift"@[0]);
            assert("postgres"@[0] != "redshift"@[0]);
        },
        Dialect::RisingWave => {
            assert("clickhouse"@[0] != "risingwave"@[0]);
            assert("databricks"@[0] != "risingwave"@[0]);
            assert("postgresql"@[0] != "risingwave"@[0]);
        },
        Dialect::SingleStore => {
            assert("cockroachdb"@[0] != "singlestore"@[0]);
            assert("materialize"@[0] != "singlestore"@[0]);
        },
        Dialect::Snowflake => {},
        Dialect::Solr => {
            assert("dune"@[0] != "solr"@[0]);
            assert("hive"@[0] != "solr"@[0]);
        },
        Dialect::Spark => {
            assert("doris"@[0] != "spark"@[0]);
            assert("drill"@[0] != "spark"@[0]);
            assert("druid"@[0] != "spark"@[0]);
            assert("mysql"@[0] != "spark"@[0]);
        },
        Dialect::SQLite => {
            assert("athena"@[0] != "sqlite"@[0]);
            assert("dremio"@[0] != "sqlite"@[0]);
            assert("duckdb"@[0] != "sqlite"@[0]);
            assert("exasol"@[0] != "sqlite"@[0]);
            assert("fabric"@[0] != "sqlite"@[0]);
            assert("oracle"@[0] != "sqlite"@[0]);
            assert("presto"@[0] != "sqlite"@[0]);
        },
        Dialect::StarRocks => {
            assert("snowflake"@[1] != "starrocks"@[1]);
        },
        Dialect::Tableau => {
            assert("generic"@[0] != "tableau"@[0]);
        },
        Dialect::Teradata => {
            assert("bigquery"@[0] != "teradata"@[0]);
            assert("postgres"@[0] != "teradata"@[0]);
            assert("redshift"@[0] != "teradata"@[0]);
        },
        Dialect::TiDB => {
            assert("dune"@[0] != "tidb"@[0]);
            assert("hive"@[0] != "tidb"@[0]);
            assert("solr"@[0] != "tidb"@[0]);
        },
        Dialect::Trino => {
            assert("doris"@[0] != "trino"@[0]);
            assert("drill"@[0] != "trino"@[0]);
            assert("druid"@[0] != "trino"@[0]);
            assert("mysql"@[0] != "trino"@[0]);
            assert("spark"@[0] != "trino"@[0]);
        },
        Dialect::TSQL => {
            assert("dune"@[0] != "tsql"@[0]);
            assert("hive"@[0] != "tsql"@[0]);
            assert("solr"@[0] != "tsql"@[0]);
            assert("tidb"@[1] != "tsql"@[1]);
        },
    }
}

/// Every alias resolves to the dialect it belongs to.
#[verifier::rlimit(100)]
pub proof fn lemma_alias_resolves(d: Dialect, n: Seq<char>)
    requires
        aliases(d).contains(n),
    ensures
        lookup(n) == Some(d),
{
    assert forall|d2: Dialect, m: Seq<char>|
        #[trigger] aliases(d2).contains(m) <==> (d2 == Dialect::PostgreSQL && m == "postgresql"@) by {
        lemma_aliases(d2, m);
    }
    if d == Dialect::PostgreSQL {
        lemma_name_literals();
        assert("clickhouse"@[0] != "postgresql"@[0]);
        assert("databricks"@[0] != "postgresql"@[0]);
        reveal_with_fuel(lookup_from, 20);
    }
}

/// Names are unique: no normalized name names two dialects, whether as a
/// canonical name or as an alias.
pub proof fn lemma_names_unique(d1: Dialect, d2: Dialect, n: Seq<char>)
    requires
        names(d1, n),
        names(d2, n),
    ensures
        d1 == d2,
{
    if canonical(d1) == n {
        lemma_canonical_resolves(d1);
    } else {
        lemma_alias_resolves(d1, n);
    }
    if canonical(d2) == n {
        lemma_canonical_resolves(d2);
    } else {
        lemma_alias_resolves(d2, n);
    }
}

/// Whether `s` consists of the letters `a` to `z` alone.
pub open spec fn is_lower_word(s: Seq<char>) -> bool {
    forall|k: int| 0 <= k < s.len() ==> 'a' <= #[trigger] s[k] && s[k] <= 'z'
}

/// Canonical names are written in the letters `a` to `z` alone.
#[verifier::rlimit(100)]
pub proof fn lemma_canonical_lower(d: Dialect)
    ensures
        is_lower_word(canonical(d)),
{
    lemma_name_literals();
    match d {
        Dialect::Generic => {},
        Dialect::Athena => {},
        Dialect::BigQuery => {},
        Dialect::ClickHouse => {},
        Dialect::CockroachDB => {},
        Dialect::Databricks => {},
        Dialect::Doris => {},
        Dialect::Dremio => {},
        Dialect::Drill => {},
        Dialect::Druid => {},
        Dialect::DuckDB => {},
        Dialect::Dune => {},
        Dialect::Exasol => {},
        Dialect::Fabric => {},
        Dialect::Hive => {},
        Dialect::Materialize => {},
        Dialect::MySQL => {},
        Dialect::Oracle => {},
        Dialect::PostgreSQL => {},
        Dialect::Presto => {},
        Dialect::Redshift => {},
        Dialect::RisingWave => {},
        Dialect::SingleStore => {},
        Dialect::Snowflake => {},
        Dialect::Solr => {},
        Dialect::Spark => {},
        Dialect::SQLite => {},
        Dialect::StarRocks => {},
        Dialect::Tableau => {},
        Dialect::Teradata => {},
        Dialect::TiDB => {},
        Dialect::Trino => {},
        Dialect::TSQL => {},
    }
}

/// Filtering out separators keeps a word without separators unchanged.
proof fn lemma_strip_lower_word(s: Seq<char>)
    requires
        is_lower_word(s),
    ensures
        strip_separators(s) == s,
    decreases s.len(),
{
    reveal(Seq::filter);
    if s.len() > 0 {
        lemma_strip_lower_word(s.drop_last());
    }
}

/// A lowercase word is its own normalized form.
pub proof fn lemma_lower_word_normal(s: Seq<char>)
    requires
        is_lower_word(s),
    ensures
        strip_separators(ascii_lower(s)) == s,
{
    assert(ascii_lower(s) =~= s);
    lemma_strip_lower_word(s);
}

/// Lowercasing after uppercasing is the same as lowercasing.
pub proof fn lemma_upper_then_lower(s: Seq<char>)
    ensures
        ascii_lower(ascii_upper(s)) == ascii_lower(s),
{
    assert(ascii_lower(ascii_upper(s)) =~= ascii_lower(s));
}

/// A separator inserted anywhere in a name leaves its normalized form unchanged.
pub proof fn lemma_separator_ignored(s: Seq<char>, k: int, c: char)
    requires
        0 <= k <= s.len(),
        is_separator(c),
    ensures
        strip_separators(ascii_lower(s.insert(k, c))) == strip_separators(ascii_lower(s)),
{
    let a = s.subrange(0, k);
    let b = s.subrange(k, s.len() as int);
    assert(s.insert(k, c) =~= a + seq![c] + b);
    assert(s =~= a + b);
    assert(ascii_lower(a + seq![c] + b) =~= ascii_lower(a) + seq![c] + ascii_lower(b));
    assert(ascii_lower(a + b) =~= ascii_lower(a) + ascii_lower(b));
    let keep = |x: char| !is_separator(x);
    Seq::filter_distributes_over_add(ascii_lower(a) + seq![c], ascii_lower(b), keep);
    Seq::filter_distributes_over_add(ascii_lower(a), seq![c], keep);
    Seq::filter_distributes_over_add(ascii_lower(a), ascii_lower(b), keep);
    reveal(Seq::filter);
    assert(seq![c].drop_last() =~= Seq::<char>::empty());
    assert(Seq::<char>::empty().filter(keep) =~= Seq::<char>::empty());
    assert(!keep(seq![c].last()));
    assert(seq![c].filter(keep) =~= Seq::<char>::empty());
    assert(ascii_lower(a).filter(keep) + Seq::<char>::empty() =~= ascii_lower(a).filter(keep));
}

/// Any spelling that differs from a canonical name only in the case of ASCII
/// letters and in `-` and `_` separators resolves to that name's dialect. This
/// holds of the canonical name itself, of its uppercase form, and of it with
/// separators inserted.
pub proof fn lemma_spelling_resolves(s: Seq<char>, d: Dialect)
    requires
        strip_separators(ascii_lower(s)) == canonical(d),
    ensures
        lookup(strip_separators(ascii_lower(s))) == Some(d),
{
    lemma_canonical_resolves(d);
}

/// A canonical name, and its uppercase form, are spellings of it.
pub proof fn lemma_canonical_spellings(d: Dialect)
    ensures
        strip_separators(ascii_lower(canonical(d))) == canonical(d),
        strip_separators(ascii_lower(ascii_upper(canonical(d)))) == canonical(d),
        lookup(strip_separators(ascii_lower(ascii_upper(canonical(d))))) == Some(d),
{
    lemma_canonical_lower(d);
    lemma_lower_word_normal(canonical(d));
    lemma_upper_then_lower(canonical(d));
    lemma_canonical_resolves(d);
}

/// The registry holds every dialect.
pub proof fn lemma_registry_complete(d: Dialect)
    ensures
        registry().contains(d),
{
    match d {
        Dialect::Generic => {
            assert(registry()[0] == d);
        },
        Dialect::Athena => {
            assert(registry()[1] == d);
        },
        Dialect::BigQuery => {
            assert(registry()[2] == d);
        },
        Dialect::ClickHouse => {
            assert(registry()[3] == d);
        },
        Dialect::CockroachDB => {
            assert(registry()[4] == d);
        },
        Dialect::Databricks => {
            assert(registry()[5] == d);
        },
        Dialect::Doris => {
            assert(registry()[6] == d);
        },
        Dialect::Dremio => {
            assert(registry()[7] == d);
        },
        Dialect::Drill => {
            assert(registry()[8] == d);
        },
        Dialect::Druid => {
            assert(registry()[9] == d);
        },
        Dialect::DuckDB => {
            assert(registry()[10] == d);
        },
        Dialect::Dune => {
            assert(registry()[11] == d);
        },
        Dialect::Exasol => {
            assert(registry()[12] == d);
        },
        Dialect::Fabric => {
            assert(registry()[13] == d);
        },
        Dialect::Hive => {
            assert(registry()[14] == d);
        },
        Dialect::Materialize => {
            assert(registry()[15] == d);
        },
        Dialect::MySQL => {
            assert(registry()[16] == d);
        },
        Dialect::Oracle => {
            assert(registry()[17] == d);
        },
        Dialect::PostgreSQL => {
            assert(registry()[18] == d);
        },
        Dialect::Presto => {
            assert(registry()[19] == d);
        },
        Dialect::Redshift => {
            assert(registry()[20] == d);
        },
        Dialect::RisingWave => {
            assert(registry()[21] == d);
        },
        Dialect::SingleStore => {
            assert(registry()[22] == d);
        },
        Dialect::Snowflake => {
            assert(registry()[23] == d);
        },
        Dialect::Solr => {
            assert(registry()[24] == d);
        },
        Dialect::Spark => {
            assert(registry()[25] == d);
        },
        Dialect::SQLite => {
            assert(registry()[26] == d);
        },
        Dialect::StarRocks => {
            assert(registry()[27] == d);
        },
        Dialect::Tableau => {
            assert(registry()[28] == d);
        },
        Dialect::Teradata => {
            assert(registry()[29] == d);
        },
        Dialect::TiDB => {
            assert(registry()[30] == d);
        },
        Dialect::Trino => {
            assert(registry()[31] == d);
        },
        Dialect::TSQL => {
            assert(registry()[32] == d);
        },
    }
}

/// Two listings of the dialects spell the same names in the same order.
pub proof fn lemma_listing_stable(a: Seq<String>, b: Seq<String>)
    requires
        is_dialect_listing(a),
        is_dialect_listing(b),
    ensures
        a.len() == b.len(),
        forall|k: int| 0 <= k < a.len() ==> (#[trigger] a[k])@ == b[k]@,
{
}

/// The error for an unknown name quotes the name as it was given.
pub proof fn lemma_unknown_message_quotes(name: Seq<char>)
    ensures
        unknown_dialect_message(name).subrange(
            "unknown dialect: '"@.len() as int,
            ("unknown dialect: '"@.len() + name.len()) as int,
        ) == name,
{
    let m = unknown_dialect_message(name);
    let p = "unknown dialect: '"@;
    assert(m.subrange(p.len() as int, (p.len() + name.len()) as int) =~= name);
}

} // verus!
