//! Error codes
use crate::text::spells;
use vstd::prelude::*;
use vstd::std_specs::convert::FromSpecImpl;
use vstd::string::StringExecFns;

verus! {

/// The broad class an error belongs to.
#[derive(Copy, Clone, Debug, PartialEq, Eq, Structural)]
pub enum ErrCode {
    /// An error caused by the client
    Client,
    /// An environmental error
    Env,
    /// A framework related error
    Framework,
    /// An error caused by HTTP client
    HttpClient,
    /// An I/O error
    Io,
    /// An error parsing
    Parse,
    /// An error caused by the server
    Server,
    /// Unauthorized to perform the requested actions
    Unauthorized,
    /// An unknown error
    Unknown,
}

impl ErrCode {
    /// The lowercase word a code is written as.
    pub open spec fn word(self) -> &'static str {
        match self {
            ErrCode::Client => "client",
            ErrCode::Env => "env",
            ErrCode::Framework => "framework",
            ErrCode::HttpClient => "httpclient",
            ErrCode::Io => "io",
            ErrCode::Parse => "parse",
            ErrCode::Server => "server",
            ErrCode::Unauthorized => "unauthorized",
            ErrCode::Unknown => "unknown",
        }
    }

    /// The characters of the word a code is written as.
    pub open spec fn name(self) -> Seq<char> {
        self.word()@
    }

    /// The code a word stands for; every word that names no other code reads as
    /// `Unknown`.
    pub open spec fn named(text: Seq<char>) -> ErrCode {
        if text == "client"@ {
            ErrCode::Client
        } else if text == "env"@ {
            ErrCode::Env
        } else if text == "framework"@ {
            ErrCode::Framework
        } else if text == "httpclient"@ {
            ErrCode::HttpClient
        } else if text == "io"@ {
            ErrCode::Io
        } else if text == "parse"@ {
            ErrCode::Parse
        } else if text == "server"@ {
            ErrCode::Server
        } else if text == "unauthorized"@ {
            ErrCode::Unauthorized
        } else {
            ErrCode::Unknown
        }
    }

    /// The word this code is written as.
    pub fn as_str(&self) -> (word: &'static str)
        ensures
            word == self.word(),
            word@ == self.name(),
    {
        match self {
            ErrCode::Client => "client",
            ErrCode::Env => "env",
            ErrCode::Framework => "framework",
            ErrCode::HttpClient => "httpclient",
            ErrCode::Io => "io",
            ErrCode::Parse => "parse",
            ErrCode::Server => "server",
            ErrCode::Unauthorized => "unauthorized",
            ErrCode::Unknown => "unknown",
        }
    }

    /// The word this code is written as, as an owned string.
    pub fn to_string(&self) -> (word: String)
        ensures
            word@ == self.name(),
    {
        String::from_str(self.as_str())
    }

    /// No two codes are written as the same word.
    pub proof fn lemma_name_injective(a: ErrCode, b: ErrCode)
        ensures
            a.name() == b.name() ==> a == b,
    {
        Self::lemma_name_lengths();
        reveal_strlit("env");
        reveal_strlit("io");
        reveal_strlit("client");
        reveal_strlit("server");
        reveal_strlit("parse");
        reveal_strlit("unknown");
        reveal_strlit("framework");
        reveal_strlit("httpclient");
        reveal_strlit("unauthorized");
        if a.name().len() == 6 && b.name().len() == 6 {
            assert("client"@[0] != "server"@[0]);
        }
    }

    proof fn lemma_name_lengths()
        ensures
            "client"@.len() == 6,
            "env"@.len() == 3,
            "framework"@.len() == 9,
            "httpclient"@.len() == 10,
            "io"@.len() == 2,
            "parse"@.len() == 5,
            "server"@.len() == 6,
            "unauthorized"@.len() == 12,
            "unknown"@.len() == 7,
    {
        reveal_strlit("env");
        reveal_strlit("io");
        reveal_strlit("client");
        reveal_strlit("server");
        reveal_strlit("parse");
        reveal_strlit("unknown");
        reveal_strlit("framework");
        reveal_strlit("httpclient");
        reveal_strlit("unauthorized");
    }

    /// Reading back the word a code is written as gives the code again.
    pub proof fn lemma_named_name(code: ErrCode)
        ensures
            ErrCode::named(code.name()) == code,
    {
        Self::lemma_name_injective(code, ErrCode::Client);
        Self::lemma_name_injective(code, ErrCode::Env);
        Self::lemma_name_injective(code, ErrCode::Framework);
        Self::lemma_name_injective(code, ErrCode::HttpClient);
        Self::lemma_name_injective(code, ErrCode::Io);
        Self::lemma_name_injective(code, ErrCode::Parse);
        Self::lemma_name_injective(code, ErrCode::Server);
        Self::lemma_name_injective(code, ErrCode::Unauthorized);
    }

    /// A word reads as a code other than `Unknown` only if it is that code's
    /// own word.
    pub proof fn lemma_name_named(text: Seq<char>)
        ensures
            ErrCode::named(text) != ErrCode::Unknown ==> ErrCode::named(text).name() == text,
            ErrCode::named(text) == ErrCode::Unknown <==> (forall|code: ErrCode|
                code != ErrCode::Unknown ==> #[trigger] code.name() != text),
    {
        if ErrCode::named(text) == ErrCode::Unknown {
            assert forall|code: ErrCode| code != ErrCode::Unknown implies #[trigger] code.name()
                != text by {}
        } else {
            Self::lemma_named_name(ErrCode::named(text));
        }
    }
}

impl From<&str> for ErrCode {
    fn from(text: &str) -> (code: ErrCode)
        ensures
            code == ErrCode::named(text@),
    {
        if spells(text, "client") {
            ErrCode::Client
        } else if spells(text, "env") {
            ErrCode::Env
        } else if spells(text, "framework") {
            ErrCode::Framework
        } else if spells(text, "httpclient") {
            ErrCode::HttpClient
        } else if spells(text, "io") {
            ErrCode::Io
        } else if spells(text, "parse") {
            ErrCode::Parse
        } else if spells(text, "server") {
            ErrCode::Server
        } else if spells(text, "unauthorized") {
            ErrCode::Unauthorized
        } else {
            ErrCode::Unknown
        }
    }
}

impl FromSpecImpl<&str> for ErrCode {
    open spec fn obeys_from_spec() -> bool {
        true
    }

    open spec fn from_spec(text: &str) -> ErrCode {
        ErrCode::named(text@)
    }
}

impl From<ErrCode> for String {
    fn from(code: ErrCode) -> (word: String)
        ensures
            word@ == code.name(),
    {
        code.to_string()
    }
}

// No spec function can build a `String`, so the result is stated by `from`
// itself, over the view, and nothing is promised through `from_spec`.
impl FromSpecImpl<ErrCode> for String {
    open spec fn obeys_from_spec() -> bool {
        false
    }

    open spec fn from_spec(code: ErrCode) -> String {
        arbitrary()
    }
}

impl From<ErrCode> for &'static str {
    fn from(code: ErrCode) -> (word: &'static str)
        ensures
            word == code.word(),
    {
        code.as_str()
    }
}

impl FromSpecImpl<ErrCode> for &'static str {
    open spec fn obeys_from_spec() -> bool {
        true
    }

    open spec fn from_spec(code: ErrCode) -> &'static str {
        code.word()
    }
}

} // verus!
