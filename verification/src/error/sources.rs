//! Error sources
use toml::de::Error as DecodeError;
use toml::ser::Error as EncodeError;
use vstd::prelude::*;
use vstd::string::StringExecFns;

verus! {

/// `toml::de::Error`, a failure of the TOML decoder. It is carried as it
/// came: the proofs see nothing inside it.
#[verifier::external_type_specification]
#[verifier::external_body]
pub struct ExDecodeError(DecodeError);

/// `toml::ser::Error`, a failure of the TOML encoder. It is carried as it
/// came: the proofs see nothing inside it.
#[verifier::external_type_specification]
#[verifier::external_body]
pub struct ExEncodeError(EncodeError);

/// `std::io::Error`, a failure to open or read a file. It is carried as it
/// came: the proofs see nothing inside it.
#[verifier::external_type_specification]
#[verifier::external_body]
pub struct ExIoError(std::io::Error);

/// Why the variable that names the current environment could not be read.
#[derive(Debug, PartialEq, Eq)]
pub enum VarError {
    /// The variable is not set.
    NotPresent,
    /// The variable is set to something that is not valid unicode; the
    /// field holds a printable rendering of what it is set to.
    NotUnicode(String),
}

impl VarError {
    /// The message of this failure.
    pub open spec fn message(self) -> Seq<char> {
        match self {
            VarError::NotPresent => "environment variable not found"@,
            VarError::NotUnicode(found) => "environment variable was not valid unicode: "@
                + found@,
        }
    }

    /// The message of this failure.
    pub fn to_string(&self) -> (text: String)
        ensures
            text@ == self.message(),
    {
        match self {
            VarError::NotPresent => String::from_str("environment variable not found"),
            VarError::NotUnicode(found) => {
                let mut text = String::from_str("environment variable was not valid unicode: ");
                text.append(found.as_str());
                text
            },
        }
    }
}

/// The lower-level failure behind an error.
#[derive(Debug)]
pub enum ErrSource {
    /// An I/O error
    Io(std::io::Error),
    /// An error deserializing TOML
    TomlDe(DecodeError),
    /// An error serializing TOML
    TomlSer(EncodeError),
    /// An error reading an environment variable
    Var(VarError),
}

/// The message of an I/O failure, as `std::io::Error` displays it. Nothing
/// is claimed of the text.
#[verifier::external_body]
fn io_error_text(error: &std::io::Error) -> String {
    error.to_string()
}

/// The message of a decoding failure, as `toml::de::Error` displays it.
/// Nothing is claimed of the text.
#[verifier::external_body]
fn toml_de_error_text(error: &DecodeError) -> String {
    error.to_string()
}

/// The message of an encoding failure, as `toml::ser::Error` displays it.
/// Displaying `KeyNewline` or `ArrayMixedType` does not return, so these two
/// are given by their `Debug` form, which is the variant's name. Nothing is
/// claimed of the text.
#[verifier::external_body]
fn toml_ser_error_text(error: &EncodeError) -> String {
    match error {
        EncodeError::KeyNewline | EncodeError::ArrayMixedType => format!("{error:?}"),
        _ => error.to_string(),
    }
}

/// The decoding failure that carries `message` and nothing else, made by
/// `serde::de::Error::custom` as `toml::de::Error` implements it: a failure
/// of the custom kind with no position and no key. Nothing is claimed of it
/// here, since the failure is opaque to the proofs.
#[verifier::external_body]
pub(crate) fn custom_decode_error(message: &str) -> DecodeError {
    <DecodeError as serde::de::Error>::custom(message)
}

impl ErrSource {
    /// The message of the failure held, as that failure words it.
    pub fn to_string(&self) -> (text: String)
        ensures
            self matches ErrSource::Var(failure) ==> text@ == failure.message(),
    {
        match self {
            ErrSource::Io(source) => io_error_text(source),
            ErrSource::TomlDe(source) => toml_de_error_text(source),
            ErrSource::TomlSer(source) => toml_ser_error_text(source),
            ErrSource::Var(source) => source.to_string(),
        }
    }
}

} // verus!
