//! Errors
pub mod codes;
pub mod sources;

pub use codes::ErrCode;
pub use sources::{ErrSource, VarError};

use crate::text::first_two_colons;
use toml::de::Error as DecodeError;
use toml::ser::Error as EncodeError;
use vstd::prelude::*;
use vstd::std_specs::convert::FromSpecImpl;
use vstd::string::{StrSliceExecFns, StringExecFns};

verus! {

/// What went wrong, as a caller tells failures apart.
#[derive(Copy, Clone, Debug, PartialEq, Eq, Structural)]
pub enum ErrorKind {
    /// A word that names no environment, or names one that has no record.
    Environment,
    /// A document that could not be decoded or encoded.
    Parse,
    /// A file that could not be opened or read.
    Io,
    /// The variable that names the current environment could not be read.
    VariableUnset,
    /// None of the above.
    Other,
}

/// What an error holds: its code, its reason and the failure behind it.
pub struct ErrorView {
    /// the code
    pub code: ErrCode,
    /// the reason
    pub reason: Seq<char>,
    /// the source
    pub source: Option<ErrSource>,
}

impl ErrorView {
    /// The one-line description: the code's word, a colon and a space, the reason.
    pub open spec fn description(self) -> Seq<char> {
        self.code.name() + ": "@ + self.reason
    }

    /// The kind of failure this is. A failure to read the variable counts as
    /// `VariableUnset` whatever the code; otherwise the code decides.
    pub open spec fn kind(self) -> ErrorKind {
        if self.source matches Some(ErrSource::Var(_)) {
            ErrorKind::VariableUnset
        } else {
            match self.code {
                ErrCode::Env => ErrorKind::Environment,
                ErrCode::Parse => ErrorKind::Parse,
                ErrCode::Io => ErrorKind::Io,
                _ => ErrorKind::Other,
            }
        }
    }

    /// The error for a word that names no environment.
    pub open spec fn invalid_runtime_environment(env: Seq<char>) -> ErrorView {
        ErrorView {
            code: ErrCode::Env,
            reason: "invalid runtime environment '"@ + env + "'"@,
            source: None,
        }
    }

    /// The error for a variable whose value selects no record.
    pub open spec fn invalid_current_environment(var: Seq<char>) -> ErrorView {
        ErrorView {
            code: ErrCode::Env,
            reason: "invalid current environment '"@ + var + "'"@,
            source: None,
        }
    }

    /// The error a text of the form `code:reason` stands for. The code is
    /// what precedes the first colon, the reason what lies between the first
    /// colon and the second; a text without a colon is all code.
    pub open spec fn parsed(text: Seq<char>) -> ErrorView {
        let first = crate::text::field_end(text, 0);
        let second = crate::text::field_end(text, first + 1);
        ErrorView {
            code: ErrCode::named(text.subrange(0, first)),
            reason: if first < text.len() {
                text.subrange(first + 1, second)
            } else {
                Seq::empty()
            },
            source: None,
        }
    }

    /// The error that wraps a failure to open or read a file.
    pub open spec fn io(inner: std::io::Error) -> ErrorView {
        ErrorView {
            code: ErrCode::Io,
            reason: "There was an error processing your request"@,
            source: Some(ErrSource::Io(inner)),
        }
    }

    /// The error that wraps a failure to decode a document.
    pub open spec fn toml_de(inner: DecodeError) -> ErrorView {
        ErrorView {
            code: ErrCode::Parse,
            reason: "There was an error deserializing TOML"@,
            source: Some(ErrSource::TomlDe(inner)),
        }
    }

    /// The error that wraps a failure to encode a document.
    pub open spec fn toml_ser(inner: EncodeError) -> ErrorView {
        ErrorView {
            code: ErrCode::Parse,
            reason: "There was an error serializing TOML"@,
            source: Some(ErrSource::TomlSer(inner)),
        }
    }

    /// The error that wraps a failure to read the variable.
    pub open spec fn var(inner: VarError) -> ErrorView {
        ErrorView {
            code: ErrCode::Env,
            reason: "There was an error processing your enviroment"@,
            source: Some(ErrSource::Var(inner)),
        }
    }
}

/// An error from the library
#[derive(Debug)]
pub struct Error {
    /// the code
    code: ErrCode,
    /// the reason
    reason: String,
    /// the description
    description: String,
    /// the source
    source: Option<ErrSource>,
}

impl View for Error {
    type V = ErrorView;

    closed spec fn view(&self) -> ErrorView {
        ErrorView { code: self.code, reason: self.reason@, source: self.source }
    }
}

impl Error {
    #[verifier::type_invariant]
    spec fn described(self) -> bool {
        self.description@ == self@.description()
    }

    /// An error with the given code, reason and source; its description is
    /// made of the code and the reason.
    pub fn new(code: ErrCode, reason: String, source: Option<ErrSource>) -> (error: Error)
        ensures
            error@ == (ErrorView { code, reason: reason@, source }),
    {
        let mut description = String::from_str(code.as_str());
        description.append(": ");
        description.append(reason.as_str());
        Error { code, reason, description, source }
    }

    /// Generate an invalid runtime environment error
    #[must_use]
    pub fn invalid_runtime_environment(env: &str) -> (error: Error)
        ensures
            error@ == ErrorView::invalid_runtime_environment(env@),
    {
        let mut reason = String::from_str("invalid runtime environment '");
        reason.append(env);
        reason.append("'");
        Error::new(ErrCode::Env, reason, None)
    }

    /// Generate an invalid current environment error
    #[must_use]
    pub fn invalid_current_environment(var: &str) -> (error: Error)
        ensures
            error@ == ErrorView::invalid_current_environment(var@),
    {
        let mut reason = String::from_str("invalid current environment '");
        reason.append(var);
        reason.append("'");
        Error::new(ErrCode::Env, reason, None)
    }

    /// the code
    pub fn code(&self) -> (code: &ErrCode)
        ensures
            *code == self@.code,
    {
        &self.code
    }

    /// the reason
    pub fn reason(&self) -> (reason: &String)
        ensures
            reason@ == self@.reason,
    {
        &self.reason
    }

    /// the description
    pub fn description(&self) -> (description: &String)
        ensures
            description@ == self@.description(),
    {
        proof {
            use_type_invariant(self);
        }
        &self.description
    }

    /// the source
    pub fn source(&self) -> (source: &Option<ErrSource>)
        ensures
            *source == self@.source,
    {
        &self.source
    }

    /// The kind of failure this error reports.
    pub fn kind(&self) -> (kind: ErrorKind)
        ensures
            kind == self@.kind(),
    {
        match &self.source {
            Some(ErrSource::Var(_)) => ErrorKind::VariableUnset,
            _ => match self.code {
                ErrCode::Env => ErrorKind::Environment,
                ErrCode::Parse => ErrorKind::Parse,
                ErrCode::Io => ErrorKind::Io,
                _ => ErrorKind::Other,
            },
        }
    }

    /// The description, as an owned string.
    pub fn to_string(&self) -> (text: String)
        ensures
            text@ == self@.description(),
    {
        proof {
            use_type_invariant(self);
        }
        self.description.clone()
    }
}

impl From<std::io::Error> for Error {
    fn from(inner: std::io::Error) -> (error: Error)
        ensures
            error@ == ErrorView::io(inner),
    {
        Error::new(
            ErrCode::Io,
            String::from_str("There was an error processing your request"),
            Some(ErrSource::Io(inner)),
        )
    }
}

// An `Error` owns strings, which no spec function can build. Each conversion
// into one therefore states its result in its own `ensures`, over the view,
// and promises nothing through `from_spec`.
impl FromSpecImpl<std::io::Error> for Error {
    open spec fn obeys_from_spec() -> bool {
        false
    }

    open spec fn from_spec(inner: std::io::Error) -> Error {
        arbitrary()
    }
}

impl From<DecodeError> for Error {
    fn from(inner: DecodeError) -> (error: Error)
        ensures
            error@ == ErrorView::toml_de(inner),
    {
        Error::new(
            ErrCode::Parse,
            String::from_str("There was an error deserializing TOML"),
            Some(ErrSource::TomlDe(inner)),
        )
    }
}

impl FromSpecImpl<DecodeError> for Error {
    open spec fn obeys_from_spec() -> bool {
        false
    }

    open spec fn from_spec(inner: DecodeError) -> Error {
        arbitrary()
    }
}

impl From<EncodeError> for Error {
    fn from(inner: EncodeError) -> (error: Error)
        ensures
            error@ == ErrorView::toml_ser(inner),
    {
        Error::new(
            ErrCode::Parse,
            String::from_str("There was an error serializing TOML"),
            Some(ErrSource::TomlSer(inner)),
        )
    }
}

impl FromSpecImpl<EncodeError> for Error {
    open spec fn obeys_from_spec() -> bool {
        false
    }

    open spec fn from_spec(inner: EncodeError) -> Error {
        arbitrary()
    }
}

impl From<VarError> for Error {
    fn from(inner: VarError) -> (error: Error)
        ensures
            error@ == ErrorView::var(inner),
    {
        Error::new(
            ErrCode::Env,
            String::from_str("There was an error processing your enviroment"),
            Some(ErrSource::Var(inner)),
        )
    }
}

impl FromSpecImpl<VarError> for Error {
    open spec fn obeys_from_spec() -> bool {
        false
    }

    open spec fn from_spec(inner: VarError) -> Error {
        arbitrary()
    }
}

impl From<String> for Error {
    fn from(text: String) -> (error: Error)
        ensures
            error@ == ErrorView::parsed(text@),
    {
        Error::from(text.as_str())
    }
}

impl FromSpecImpl<String> for Error {
    open spec fn obeys_from_spec() -> bool {
        false
    }

    open spec fn from_spec(text: String) -> Error {
        arbitrary()
    }
}

impl From<&str> for Error {
    fn from(text: &str) -> (error: Error)
        ensures
            error@ == ErrorView::parsed(text@),
    {
        let (first, second) = first_two_colons(text);
        let n = text.unicode_len();
        let code = ErrCode::from(text.substring_char(0, first));
        let reason = if first < n {
            String::from_str(text.substring_char(first + 1, second))
        } else {
            String::new()
        };
        Error::new(code, reason, None)
    }
}

impl FromSpecImpl<&str> for Error {
    open spec fn obeys_from_spec() -> bool {
        false
    }

    open spec fn from_spec(text: &str) -> Error {
        arbitrary()
    }
}

} // verus!
