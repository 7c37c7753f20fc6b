//! The errors that a command-line tool over scripts and feeds reports,
//! gathered into one type that carries the file and, where known, the
//! position in it.
use vstd::prelude::*;
use crate::statement::{SyntaxError, Token};

verus! {

/// A failure to load a file, with the path it concerns.
#[derive(Clone, Debug, PartialEq, Eq)]
pub enum LoadError {
    /// The file is unavailable for now; a later attempt may succeed.
    Retry(String),
    /// The file does not exist.
    NotFound(String),
    /// The file may not be read.
    PermissionDenied(String),
    /// The storage is in an inconsistent state.
    Dirty(String),
}

/// A failure while running a script: its text, and the token of the
/// statement where it arose, if known.
#[derive(Clone, Debug, PartialEq, Eq)]
pub struct InterpretError {
    pub message: String,
    pub origin: Option<Token>,
}

/// A failure of the store that results are written to.
#[derive(Clone, Debug, PartialEq, Eq)]
pub struct StorageError {
    pub message: String,
}

/// What went wrong, by the part of the tool where it went wrong.
#[derive(Clone, Debug)]
pub enum CliErrorKind {
    WrongAction,
    PluginPathIsNotADir(String),
    Openvas { args: Option<String>, err_msg: String },
    InterpretError(InterpretError),
    LoadError(LoadError),
    StorageError(StorageError),
    SyntaxError(SyntaxError),
    Corrupt(String),
}

/// A reportable error: the file it concerns and what went wrong.
#[derive(Clone, Debug)]
pub struct CliError {
    pub filename: String,
    pub kind: CliErrorKind,
}

/// The token that locates an error, where its kind carries one.
pub open spec fn token_of(k: CliErrorKind) -> Option<Token> {
    match k {
        CliErrorKind::InterpretError(e) => e.origin,
        CliErrorKind::SyntaxError(e) => e.token,
        _ => None,
    }
}

impl CliErrorKind {
    /// The token that locates this error: that of the statement where a
    /// script failed, or that where parsing failed; none for other kinds.
    pub fn as_token(&self) -> (r: Option<&Token>)
        ensures
            match token_of(*self) {
                Some(t) => r matches Some(x) && *x == t,
                None => r is None,
            },
    {
        match self {
            CliErrorKind::InterpretError(e) => match &e.origin {
                Some(t) => Some(t),
                None => None,
            },
            CliErrorKind::SyntaxError(e) => e.as_token(),
            _ => None,
        }
    }
}

/// The path that a load failure concerns.
pub open spec fn load_path(le: LoadError) -> Seq<char> {
    match le {
        LoadError::Retry(f) => f@,
        LoadError::NotFound(f) => f@,
        LoadError::PermissionDenied(f) => f@,
        LoadError::Dirty(f) => f@,
    }
}

/// The path that a load failure concerns, whatever its kind.
pub fn load_error_to_string(le: &LoadError) -> (r: String)
    ensures
        r@ == load_path(*le),
{
    match le {
        LoadError::Retry(f) => f.clone(),
        LoadError::NotFound(f) => f.clone(),
        LoadError::PermissionDenied(f) => f.clone(),
        LoadError::Dirty(f) => f.clone(),
    }
}

impl From<LoadError> for CliErrorKind {
    fn from(value: LoadError) -> (r: Self) {
        CliErrorKind::LoadError(value)
    }
}

impl vstd::std_specs::convert::FromSpecImpl<LoadError> for CliErrorKind {
    open spec fn obeys_from_spec() -> bool {
        true
    }

    open spec fn from_spec(v: LoadError) -> Self {
        CliErrorKind::LoadError(v)
    }
}

impl From<InterpretError> for CliErrorKind {
    fn from(value: InterpretError) -> (r: Self) {
        CliErrorKind::InterpretError(value)
    }
}

impl vstd::std_specs::convert::FromSpecImpl<InterpretError> for CliErrorKind {
    open spec fn obeys_from_spec() -> bool {
        true
    }

    open spec fn from_spec(v: InterpretError) -> Self {
        CliErrorKind::InterpretError(v)
    }
}

impl From<StorageError> for CliErrorKind {
    fn from(value: StorageError) -> (r: Self) {
        CliErrorKind::StorageError(value)
    }
}

impl vstd::std_specs::convert::FromSpecImpl<StorageError> for CliErrorKind {
    open spec fn obeys_from_spec() -> bool {
        true
    }

    open spec fn from_spec(v: StorageError) -> Self {
        CliErrorKind::StorageError(v)
    }
}

impl From<SyntaxError> for CliErrorKind {
    fn from(value: SyntaxError) -> (r: Self) {
        CliErrorKind::SyntaxError(value)
    }
}

impl vstd::std_specs::convert::FromSpecImpl<SyntaxError> for CliErrorKind {
    open spec fn obeys_from_spec() -> bool {
        true
    }

    open spec fn from_spec(v: SyntaxError) -> Self {
        CliErrorKind::SyntaxError(v)
    }
}

} // verus!
