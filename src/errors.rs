use vstd::prelude::*;

verus! {

/// The host-visible exception classes. `Base` is the root of the hierarchy;
/// `Parse`, `Generate` and `Unsupported` specialise it. `UnknownDialect` is the
/// host's argument error, raised before any engine call.
#[derive(Debug, Clone, Copy, PartialEq, Eq, Structural)]
pub enum ErrorKind {
    Base,
    Parse,
    Generate,
    Unsupported,
    UnknownDialect,
}

/// The failure categories that the SQL engine reports.
#[derive(Debug, Clone, Copy, PartialEq, Eq, Structural)]
pub enum EngineErrorKind {
    Tokenize,
    Parse,
    Syntax,
    Generate,
    Unsupported,
    InvalidInput,
    ColumnResolution,
    Internal,
}

/// A failure of an operation: the exception class it belongs to and the
/// message, which is carried verbatim.
#[derive(Debug)]
pub struct PolyglotError {
    pub kind: ErrorKind,
    pub message: String,
}

/// A failure reported by the SQL engine: its category and rendered message.
#[derive(Debug)]
pub struct EngineFailure {
    pub kind: EngineErrorKind,
    pub message: String,
}

/// The exception class for each engine failure category.
pub open spec fn class_of(k: EngineErrorKind) -> ErrorKind {
    match k {
        EngineErrorKind::Tokenize | EngineErrorKind::Parse | EngineErrorKind::Syntax => ErrorKind::Parse,
        EngineErrorKind::Generate => ErrorKind::Generate,
        EngineErrorKind::Unsupported => ErrorKind::Unsupported,
        _ => ErrorKind::Base,
    }
}

/// The host exception class that an error is raised as.
#[derive(Debug, Clone, Copy, PartialEq, Eq, Structural)]
pub enum HostClass {
    /// The host's argument error.
    ArgumentError,
    /// The host's generic runtime error.
    RuntimeError,
    /// The library's base class.
    Base,
    /// The library's parse error class.
    Parse,
    /// The library's generation error class.
    Generate,
    /// The library's unsupported-construct class.
    Unsupported,
}

/// The host class for an error of `kind`, given whether the library's
/// exception classes have been registered. An unknown dialect is an argument
/// error. Before registration every other error falls back to the generic
/// runtime error; after it, each kind has its own class.
pub open spec fn host_class_of(kind: ErrorKind, registered: bool) -> HostClass {
    if kind == ErrorKind::UnknownDialect {
        HostClass::ArgumentError
    } else if !registered {
        HostClass::RuntimeError
    } else {
        match kind {
            ErrorKind::Parse => HostClass::Parse,
            ErrorKind::Generate => HostClass::Generate,
            ErrorKind::Unsupported => HostClass::Unsupported,
            _ => HostClass::Base,
        }
    }
}

/// Chooses the host class that an error of `kind` is raised as; the error's
/// message is raised unchanged whatever the class.
pub fn host_class(kind: ErrorKind, registered: bool) -> (c: HostClass)
    ensures
        c == host_class_of(kind, registered),
        kind == ErrorKind::UnknownDialect ==> c == HostClass::ArgumentError,
        kind != ErrorKind::UnknownDialect && !registered ==> c == HostClass::RuntimeError,
        registered && kind == ErrorKind::Base ==> c == HostClass::Base,
        registered && kind == ErrorKind::Parse ==> c == HostClass::Parse,
        registered && kind == ErrorKind::Generate ==> c == HostClass::Generate,
        registered && kind == ErrorKind::Unsupported ==> c == HostClass::Unsupported,
{
    match kind {
        ErrorKind::UnknownDialect => HostClass::ArgumentError,
        _ if !registered => HostClass::RuntimeError,
        ErrorKind::Parse => HostClass::Parse,
        ErrorKind::Generate => HostClass::Generate,
        ErrorKind::Unsupported => HostClass::Unsupported,
        _ => HostClass::Base,
    }
}

/// Before registration every engine failure is raised as the generic runtime
/// error; after it, as one of the library's own classes.
pub proof fn lemma_engine_failures_before_registration(k: EngineErrorKind)
    ensures
        host_class_of(class_of(k), false) == HostClass::RuntimeError,
        host_class_of(class_of(k), true) != HostClass::ArgumentError,
        host_class_of(class_of(k), true) != HostClass::RuntimeError,
{
}

/// A base-level error carrying `message`.
pub fn polyglot_error(message: String) -> (r: PolyglotError)
    ensures
        r.kind == ErrorKind::Base,
        r.message@ == message@,
{
    PolyglotError { kind: ErrorKind::Base, message }
}

/// A parse error carrying `message`.
pub fn parse_error(message: String) -> (r: PolyglotError)
    ensures
        r.kind == ErrorKind::Parse,
        r.message@ == message@,
{
    PolyglotError { kind: ErrorKind::Parse, message }
}

/// A generation error carrying `message`.
pub fn generate_error(message: String) -> (r: PolyglotError)
    ensures
        r.kind == ErrorKind::Generate,
        r.message@ == message@,
{
    PolyglotError { kind: ErrorKind::Generate, message }
}

/// An error for a construct that the target dialect does not support.
pub fn unsupported_error(message: String) -> (r: PolyglotError)
    ensures
        r.kind == ErrorKind::Unsupported,
        r.message@ == message@,
{
    PolyglotError { kind: ErrorKind::Unsupported, message }
}

/// Maps an engine failure to the host exception: the class follows
/// `class_of` its category, the message is kept as is.
pub fn map_polyglot_error(err: EngineFailure) -> (r: PolyglotError)
    ensures
        r.kind == class_of(err.kind),
        r.message@ == err.message@,
{
    match err.kind {
        EngineErrorKind::Tokenize | EngineErrorKind::Parse | EngineErrorKind::Syntax => parse_error(err.message),
        EngineErrorKind::Generate => generate_error(err.message),
        EngineErrorKind::Unsupported => unsupported_error(err.message),
        _ => polyglot_error(err.message),
    }
}

} // verus!
