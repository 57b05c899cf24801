use tomlenv::text::{first_two_colons, spells};
use tomlenv::{ErrCode, ErrSource, Error, ErrorKind, VarError};

const CODES: [(ErrCode, &str); 9] = [
    (ErrCode::Client, "client"),
    (ErrCode::Env, "env"),
    (ErrCode::Framework, "framework"),
    (ErrCode::HttpClient, "httpclient"),
    (ErrCode::Io, "io"),
    (ErrCode::Parse, "parse"),
    (ErrCode::Server, "server"),
    (ErrCode::Unauthorized, "unauthorized"),
    (ErrCode::Unknown, "unknown"),
];

#[test]
fn code_words() {
    for (code, word) in CODES {
        assert_eq!(code.as_str(), word);
        assert_eq!(code.to_string(), word);
        assert_eq!(<&str>::from(code), word);
        assert_eq!(String::from(code), word);
    }
}

#[test]
fn code_from_word() {
    for (code, word) in CODES {
        assert_eq!(ErrCode::from(word), code);
        assert_eq!(ErrCode::from(code.as_str()), code);
    }
}

#[test]
fn code_from_any_other_word_is_unknown() {
    for word in ["", "Env", "ENV", " io", "io ", "parser", "pars", "http", "blah", "clien"] {
        assert_eq!(ErrCode::from(word), ErrCode::Unknown, "{word:?}");
    }
}

#[test]
fn new_describes_code_and_reason() {
    let error = Error::new(ErrCode::Server, String::from("it fell over"), None);
    assert_eq!(*error.code(), ErrCode::Server);
    assert_eq!(error.reason(), "it fell over");
    assert_eq!(error.description(), "server: it fell over");
    assert_eq!(error.to_string(), "server: it fell over");
    assert!(error.source().is_none());
    assert_eq!(error.kind(), ErrorKind::Other);
}

#[test]
fn new_with_an_empty_reason() {
    let error = Error::new(ErrCode::Io, String::new(), None);
    assert_eq!(error.description(), "io: ");
    assert_eq!(error.kind(), ErrorKind::Io);
}

#[test]
fn invalid_runtime_environment_quotes_the_word() {
    let error = Error::invalid_runtime_environment("blah");
    assert_eq!(*error.code(), ErrCode::Env);
    assert_eq!(error.reason(), "invalid runtime environment 'blah'");
    assert_eq!(error.description(), "env: invalid runtime environment 'blah'");
    assert!(error.source().is_none());
    assert_eq!(error.kind(), ErrorKind::Environment);
}

#[test]
fn invalid_current_environment_quotes_the_variable() {
    let error = Error::invalid_current_environment("TOMLENV");
    assert_eq!(*error.code(), ErrCode::Env);
    assert_eq!(error.reason(), "invalid current environment 'TOMLENV'");
    assert_eq!(
        error.description(),
        "env: invalid current environment 'TOMLENV'"
    );
    assert!(error.source().is_none());
    assert_eq!(error.kind(), ErrorKind::Environment);
}

#[test]
fn error_from_code_and_reason_text() {
    let error = Error::from("io:boom");
    assert_eq!(*error.code(), ErrCode::Io);
    assert_eq!(error.reason(), "boom");
    assert_eq!(error.description(), "io: boom");
    assert_eq!(error.kind(), ErrorKind::Io);
    assert!(error.source().is_none());
}

#[test]
fn error_from_text_takes_the_second_field_only() {
    let error = Error::from("parse:line 3:column 9");
    assert_eq!(*error.code(), ErrCode::Parse);
    assert_eq!(error.reason(), "line 3");
    assert_eq!(error.description(), "parse: line 3");
    assert_eq!(error.kind(), ErrorKind::Parse);
}

#[test]
fn error_from_text_without_a_colon() {
    let error = Error::from("env");
    assert_eq!(*error.code(), ErrCode::Env);
    assert_eq!(error.reason(), "");
    assert_eq!(error.description(), "env: ");

    let error = Error::from("something went wrong");
    assert_eq!(*error.code(), ErrCode::Unknown);
    assert_eq!(error.reason(), "");
    assert_eq!(error.description(), "unknown: ");
    assert_eq!(error.kind(), ErrorKind::Other);
}

#[test]
fn error_from_text_edge_cases() {
    let error = Error::from("");
    assert_eq!(*error.code(), ErrCode::Unknown);
    assert_eq!(error.reason(), "");

    let error = Error::from(":orphan");
    assert_eq!(*error.code(), ErrCode::Unknown);
    assert_eq!(error.reason(), "orphan");

    let error = Error::from("client:");
    assert_eq!(*error.code(), ErrCode::Client);
    assert_eq!(error.reason(), "");

    let error = Error::from("client::late");
    assert_eq!(*error.code(), ErrCode::Client);
    assert_eq!(error.reason(), "");

    let error = Error::from("server: caf\u{e9} \u{1f980} closed:again");
    assert_eq!(*error.code(), ErrCode::Server);
    assert_eq!(error.reason(), " caf\u{e9} \u{1f980} closed");
}

#[test]
fn error_from_owned_text() {
    let error = Error::from(String::from("unauthorized:no token"));
    assert_eq!(*error.code(), ErrCode::Unauthorized);
    assert_eq!(error.reason(), "no token");
    assert_eq!(error.description(), "unauthorized: no token");
}

#[test]
fn error_from_io_failure_keeps_the_cause() {
    let inner = std::io::Error::new(std::io::ErrorKind::NotFound, "no such file");
    let error = Error::from(inner);
    assert_eq!(*error.code(), ErrCode::Io);
    assert_eq!(error.kind(), ErrorKind::Io);
    assert_eq!(error.reason(), "There was an error processing your request");
    assert_eq!(
        error.description(),
        "io: There was an error processing your request"
    );
    match error.source() {
        Some(ErrSource::Io(cause)) => {
            assert_eq!(cause.kind(), std::io::ErrorKind::NotFound);
            assert_eq!(cause.to_string(), "no such file");
        }
        other => panic!("unexpected source: {other:?}"),
    }
    assert_eq!(error.source().as_ref().unwrap().to_string(), "no such file");
}

#[test]
fn error_from_decoding_failure_keeps_the_cause() {
    let inner = toml::from_str::<toml::Value>("[envs.prod\nname = \"Production\"\n").unwrap_err();
    let message = inner.to_string();
    let error = Error::from(inner.clone());
    assert_eq!(*error.code(), ErrCode::Parse);
    assert_eq!(error.kind(), ErrorKind::Parse);
    assert_eq!(error.reason(), "There was an error deserializing TOML");
    assert_eq!(
        error.description(),
        "parse: There was an error deserializing TOML"
    );
    match error.source() {
        Some(ErrSource::TomlDe(cause)) => assert_eq!(*cause, inner),
        other => panic!("unexpected source: {other:?}"),
    }
    assert_eq!(error.source().as_ref().unwrap().to_string(), message);
}

#[test]
fn error_from_encoding_failure_keeps_the_cause() {
    let inner = toml::to_string(&Option::<u8>::None).unwrap_err();
    let message = inner.to_string();
    let error = Error::from(inner.clone());
    assert_eq!(*error.code(), ErrCode::Parse);
    assert_eq!(error.kind(), ErrorKind::Parse);
    assert_eq!(error.reason(), "There was an error serializing TOML");
    assert_eq!(
        error.description(),
        "parse: There was an error serializing TOML"
    );
    match error.source() {
        Some(ErrSource::TomlSer(cause)) => assert_eq!(*cause, inner),
        other => panic!("unexpected source: {other:?}"),
    }
    assert_eq!(error.source().as_ref().unwrap().to_string(), message);
}

#[test]
fn error_from_variable_failure_keeps_the_cause() {
    let error = Error::from(VarError::NotPresent);
    assert_eq!(*error.code(), ErrCode::Env);
    assert_eq!(error.kind(), ErrorKind::VariableUnset);
    assert_eq!(
        error.reason(),
        "There was an error processing your enviroment"
    );
    assert_eq!(
        error.description(),
        "env: There was an error processing your enviroment"
    );
    match error.source() {
        Some(ErrSource::Var(cause)) => assert_eq!(*cause, VarError::NotPresent),
        other => panic!("unexpected source: {other:?}"),
    }
}

#[test]
fn variable_failure_messages() {
    assert_eq!(
        VarError::NotPresent.to_string(),
        "environment variable not found"
    );
    assert_eq!(
        VarError::NotUnicode(String::from("\"fo\\xFFo\"")).to_string(),
        "environment variable was not valid unicode: \"fo\\xFFo\""
    );
    assert_eq!(
        ErrSource::Var(VarError::NotPresent).to_string(),
        "environment variable not found"
    );
}

#[test]
fn every_encoding_failure_has_a_message() {
    assert_eq!(
        ErrSource::TomlSer(toml::ser::Error::KeyNotString).to_string(),
        "map key was not a string"
    );
    assert_eq!(
        ErrSource::TomlSer(toml::ser::Error::Custom(String::from("odd"))).to_string(),
        "odd"
    );
    assert_eq!(
        ErrSource::TomlSer(toml::ser::Error::KeyNewline).to_string(),
        "KeyNewline"
    );
    assert_eq!(
        ErrSource::TomlSer(toml::ser::Error::ArrayMixedType).to_string(),
        "ArrayMixedType"
    );
}

#[test]
fn kind_of_each_code() {
    assert_eq!(
        Error::new(ErrCode::Env, String::new(), None).kind(),
        ErrorKind::Environment
    );
    assert_eq!(
        Error::new(ErrCode::Parse, String::new(), None).kind(),
        ErrorKind::Parse
    );
    assert_eq!(
        Error::new(ErrCode::Io, String::new(), None).kind(),
        ErrorKind::Io
    );
    for code in [
        ErrCode::Client,
        ErrCode::Framework,
        ErrCode::HttpClient,
        ErrCode::Server,
        ErrCode::Unauthorized,
        ErrCode::Unknown,
    ] {
        assert_eq!(Error::new(code, String::new(), None).kind(), ErrorKind::Other);
    }
    let unreadable = Error::new(
        ErrCode::Io,
        String::new(),
        Some(ErrSource::Var(VarError::NotPresent)),
    );
    assert_eq!(unreadable.kind(), ErrorKind::VariableUnset);
}

#[test]
fn spells_compares_whole_words() {
    assert!(spells("", ""));
    assert!(spells("prod", "prod"));
    assert!(spells("caf\u{e9}", "caf\u{e9}"));
    assert!(!spells("prod", "prof"));
    assert!(!spells("prod", "pro"));
    assert!(!spells("pro", "prod"));
    assert!(!spells("prod", "Prod"));
    assert!(!spells("", "x"));
    assert!(!spells("cafe", "caf\u{e9}"));
}

#[test]
fn first_two_colons_finds_the_field_ends() {
    assert_eq!(first_two_colons(""), (0, 0));
    assert_eq!(first_two_colons("abc"), (3, 3));
    assert_eq!(first_two_colons(":"), (0, 1));
    assert_eq!(first_two_colons("a:"), (1, 2));
    assert_eq!(first_two_colons("a:b"), (1, 3));
    assert_eq!(first_two_colons("a:b:c"), (1, 3));
    assert_eq!(first_two_colons("a::c"), (1, 2));
    assert_eq!(first_two_colons("a:b:c:d"), (1, 3));
    // Indices count characters, not bytes.
    assert_eq!(first_two_colons("\u{e9}\u{e9}:\u{1f980}:x"), (2, 4));
}
