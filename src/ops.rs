use crate::dialect::{dialect_from_name, dialect_names, is_dialect_listing, lookup, normalize, Dialect};
use crate::errors::{class_of, map_polyglot_error, EngineFailure, ErrorKind, PolyglotError};
use vstd::prelude::*;

verus! {

/// The separator placed between formatted statements.
pub const STATEMENT_SEPARATOR: &'static str = "; \n";

/// The version of the SQL engine that the operations run on.
pub const ENGINE_VERSION: &'static str = "0.13.3";

/// `parts` joined by `sep`, with no separator after the last part.
pub open spec fn join(parts: Seq<Seq<char>>, sep: Seq<char>) -> Seq<char>
    decreases parts.len(),
{
    if parts.len() == 0 {
        seq![]
    } else if parts.len() == 1 {
        parts[0]
    } else {
        join(parts.drop_last(), sep) + sep + parts.last()
    }
}

/// The texts of a sequence of strings.
pub open spec fn texts(parts: Seq<String>) -> Seq<Seq<char>> {
    parts.map_values(|p: String| p@)
}

/// Joins formatted statements with `"; \n"` between each two of them.
pub fn join_statements(parts: &Vec<String>) -> (r: String)
    ensures
        r@ == join(texts(parts@), STATEMENT_SEPARATOR@),
{
    if parts.len() == 0 {
        return String::new();
    }
    let mut r = parts[0].clone();
    let mut i: usize = 1;
    while i < parts.len()
        invariant
            1 <= i <= parts@.len(),
            r@ == join(texts(parts@.subrange(0, i as int)), STATEMENT_SEPARATOR@),
        decreases parts@.len() - i,
    {
        proof {
            let next = parts@.subrange(0, i + 1);
            assert(texts(next).drop_last() =~= texts(parts@.subrange(0, i as int)));
            assert(texts(next).last() == parts@[i as int]@);
        }
        r.append(STATEMENT_SEPARATOR);
        r.append(parts[i].as_str());
        i = i + 1;
    }
    assert(parts@.subrange(0, parts@.len() as int) =~= parts@);
    r
}

/// Two statements are joined by one separator, with none after the second.
pub proof fn lemma_join_two(a: Seq<char>, b: Seq<char>, sep: Seq<char>)
    ensures
        join(seq![a, b], sep) == a + sep + b,
{
    assert(seq![a, b].drop_last() =~= seq![a]);
    assert(join(seq![a], sep) == a);
    assert(seq![a, b].last() == b);
}

/// A join of one or more parts ends with the last part: no separator trails.
pub proof fn lemma_join_ends_with_last(parts: Seq<Seq<char>>, sep: Seq<char>)
    requires
        parts.len() >= 1,
    ensures
        join(parts, sep).len() >= parts.last().len(),
        join(parts, sep).subrange(join(parts, sep).len() - parts.last().len(), join(parts, sep).len() as int)
            == parts.last(),
{
    let j = join(parts, sep);
    if parts.len() == 1 {
        assert(j.subrange(0, j.len() as int) =~= parts.last());
    } else {
        assert(j.subrange(j.len() - parts.last().len(), j.len() as int) =~= parts.last());
    }
}

/// Whether every item of `results` succeeded.
pub open spec fn all_ok(results: Seq<Result<String, EngineFailure>>) -> bool {
    forall|k: int| 0 <= k < results.len() ==> (#[trigger] results[k]) is Ok
}

/// The texts of the successful items of `results`.
pub open spec fn ok_texts(results: Seq<Result<String, EngineFailure>>) -> Seq<Seq<char>> {
    results.map_values(|x: Result<String, EngineFailure>| x->Ok_0@)
}

/// Whether `k` is the position of the first failure in `results`.
pub open spec fn first_failure(results: Seq<Result<String, EngineFailure>>, k: int) -> bool {
    0 <= k < results.len() && results[k] is Err && forall|j: int| 0 <= j < k ==> (#[trigger] results[j]) is Ok
}

/// The outcome of formatting, from the pretty rendering of each statement in
/// order: the renderings joined by `"; \n"` when all succeeded, else the first
/// failure, mapped to its exception class, with no partial output.
pub fn format_outcome(results: Vec<Result<String, EngineFailure>>) -> (r: Result<String, PolyglotError>)
    ensures
        r is Ok <==> all_ok(results@),
        r is Ok ==> r->Ok_0@ == join(ok_texts(results@), STATEMENT_SEPARATOR@),
        r is Err ==> exists|k: int|
            first_failure(results@, k)
            && r->Err_0.kind == class_of(results@[k]->Err_0.kind)
            && r->Err_0.message@ == results@[k]->Err_0.message@,
{
    let mut parts: Vec<String> = Vec::new();
    let mut i: usize = 0;
    while i < results.len()
        invariant
            i <= results@.len(),
            parts@.len() == i,
            forall|j: int| 0 <= j < i ==> (#[trigger] results@[j]) is Ok,
            forall|j: int| 0 <= j < i ==> (#[trigger] parts@[j])@ == results@[j]->Ok_0@,
        decreases results@.len() - i,
    {
        match &results[i] {
            Ok(text) => {
                parts.push(text.clone());
            },
            Err(e) => {
                let failure = EngineFailure { kind: e.kind, message: e.message.clone() };
                assert(first_failure(results@, i as int));
                return Err(map_polyglot_error(failure));
            },
        }
        i = i + 1;
    }
    assert(texts(parts@) =~= ok_texts(results@));
    Ok(join_statements(&parts))
}

/// The outcome of an engine call as the host sees it: a success is passed on
/// unchanged, a failure is mapped to its exception class.
pub fn engine_result<T>(outcome: Result<T, EngineFailure>) -> (r: Result<T, PolyglotError>)
    ensures
        outcome is Ok <==> r is Ok,
        outcome is Ok ==> r == Ok::<T, PolyglotError>(outcome->Ok_0),
        outcome is Err ==> r->Err_0.kind == class_of(outcome->Err_0.kind),
        outcome is Err ==> r->Err_0.message@ == outcome->Err_0.message@,
{
    match outcome {
        Ok(v) => Ok(v),
        Err(e) => Err(map_polyglot_error(e)),
    }
}

/// The text of the error for a syntax tree that could not be encoded.
pub open spec fn serialization_message(detail: Seq<char>) -> Seq<char> {
    "JSON serialization error: "@ + detail
}

/// The text of the error for a payload that is not a syntax tree.
pub open spec fn deserialization_message(detail: Seq<char>) -> Seq<char> {
    "JSON deserialization error: "@ + detail
}

/// The base-level error for a syntax tree or report that could not be encoded
/// as a payload; `detail` is the encoder's description.
pub fn serialization_error(detail: &str) -> (r: PolyglotError)
    ensures
        r.kind == ErrorKind::Base,
        r.message@ == serialization_message(detail@),
{
    let mut message = String::from_str("JSON serialization error: ");
    message.append(detail);
    PolyglotError { kind: ErrorKind::Base, message }
}

/// The base-level error for a payload that does not decode into a syntax
/// tree: a boundary failure, never a parse error.
pub fn deserialization_error(detail: &str) -> (r: PolyglotError)
    ensures
        r.kind == ErrorKind::Base,
        r.message@ == deserialization_message(detail@),
{
    let mut message = String::from_str("JSON deserialization error: ");
    message.append(detail);
    PolyglotError { kind: ErrorKind::Base, message }
}

/// Resolves the source and target dialects of a transpilation, the source
/// first: the first name that does not resolve is the error.
pub fn transpile_dialects(from: &str, to: &str) -> (r: Result<(Dialect, Dialect), PolyglotError>)
    ensures
        r is Ok <==> (lookup(normalize(from@)) is Some && lookup(normalize(to@)) is Some),
        r is Ok ==> Some(r->Ok_0.0) == lookup(normalize(from@)) && Some(r->Ok_0.1) == lookup(normalize(to@)),
        r is Err ==> r->Err_0.kind == ErrorKind::UnknownDialect,
        lookup(normalize(from@)) is None ==> r is Err && r->Err_0.message@ == crate::dialect::unknown_dialect_message(from@),
        (lookup(normalize(from@)) is Some && lookup(normalize(to@)) is None) ==> r is Err
            && r->Err_0.message@ == crate::dialect::unknown_dialect_message(to@),
{
    let source = match dialect_from_name(from) {
        Ok(d) => d,
        Err(e) => return Err(e),
    };
    let target = match dialect_from_name(to) {
        Ok(d) => d,
        Err(e) => return Err(e),
    };
    Ok((source, target))
}

/// The canonical names of all dialects, in registration order.
pub fn dialects() -> (r: Vec<String>)
    ensures
        is_dialect_listing(r@),
{
    dialect_names()
}

/// The version of the SQL engine.
pub fn version() -> (r: &'static str)
    ensures
        r@ == ENGINE_VERSION@,
{
    ENGINE_VERSION
}

} // verus!
