//! The default environment hierarchy.
use crate::env::hierarchy::Hierarchy;
use crate::error::{Error, ErrorKind, ErrorView};
use crate::text::spells;
use core::cmp::Ordering;
use vstd::prelude::*;
use vstd::std_specs::cmp::PartialOrdSpecImpl;
use vstd::std_specs::convert::TryFromSpecImpl;
use vstd::string::StringExecFns;

verus! {

/// A fairly standard environment hierarchy for use with `Environments`.
/// Prod -> Stage -> Test -> Dev -> Local
#[derive(Clone, Copy, Debug, Eq, Hash, Ord, PartialEq, Structural)]
pub enum Environment {
    /// Production
    Prod,
    /// Stage
    Stage,
    /// Test
    Test,
    /// Development
    Dev,
    /// Local
    Local,
}

impl Environment {
    /// The lowercase word an environment is written as.
    pub open spec fn word(self) -> &'static str {
        match self {
            Environment::Prod => "prod",
            Environment::Stage => "stage",
            Environment::Test => "test",
            Environment::Dev => "dev",
            Environment::Local => "local",
        }
    }

    /// The environment a word stands for. The match is exact: no other
    /// case, no surrounding space, no second spelling.
    pub open spec fn spelled(text: Seq<char>) -> Option<Environment> {
        if text == "prod"@ {
            Some(Environment::Prod)
        } else if text == "stage"@ {
            Some(Environment::Stage)
        } else if text == "test"@ {
            Some(Environment::Test)
        } else if text == "dev"@ {
            Some(Environment::Dev)
        } else if text == "local"@ {
            Some(Environment::Local)
        } else {
            None
        }
    }

    /// The position of an environment in the hierarchy, counted from `Prod`.
    pub open spec fn position(self) -> u64 {
        match self {
            Environment::Prod => 0,
            Environment::Stage => 1,
            Environment::Test => 2,
            Environment::Dev => 3,
            Environment::Local => 4,
        }
    }

    /// How an environment compares with another: the one nearer to `Prod`
    /// is the lesser.
    pub open spec fn compared(self, other: Environment) -> Ordering {
        if self.position() < other.position() {
            Ordering::Less
        } else if self.position() == other.position() {
            Ordering::Equal
        } else {
            Ordering::Greater
        }
    }

    /// What reading `text` as an environment gives: the environment it
    /// spells, or the error that quotes it.
    pub open spec fn read(text: Seq<char>) -> Result<Environment, ErrorView> {
        match Environment::spelled(text) {
            Some(env) => Ok(env),
            None => Err(ErrorView::invalid_runtime_environment(text)),
        }
    }

    /// Compares this environment with another by their places in the
    /// hierarchy.
    pub fn compare(&self, other: &Environment) -> (order: Ordering)
        ensures
            order == self.compared(*other),
    {
        let a = self.ordinal();
        let b = other.ordinal();
        if a < b {
            Ordering::Less
        } else if a == b {
            Ordering::Equal
        } else {
            Ordering::Greater
        }
    }

    /// The word this environment is written as.
    pub fn as_str(&self) -> (word: &'static str)
        ensures
            word == self.word(),
    {
        match self {
            Environment::Prod => "prod",
            Environment::Stage => "stage",
            Environment::Test => "test",
            Environment::Dev => "dev",
            Environment::Local => "local",
        }
    }

    /// The word this environment is written as, as an owned string.
    pub fn to_string(&self) -> (text: String)
        ensures
            text@ == self.word()@,
    {
        String::from_str(self.as_str())
    }

    proof fn lemma_word_lengths()
        ensures
            "prod"@.len() == 4,
            "stage"@.len() == 5,
            "test"@.len() == 4,
            "dev"@.len() == 3,
            "local"@.len() == 5,
            "prod"@[0] == 'p',
            "test"@[0] == 't',
            "stage"@[0] == 's',
            "local"@[0] == 'l',
    {
        reveal_strlit("prod");
        reveal_strlit("stage");
        reveal_strlit("test");
        reveal_strlit("dev");
        reveal_strlit("local");
    }

    /// No two environments are written as the same word.
    pub proof fn lemma_word_injective(a: Environment, b: Environment)
        ensures
            a.word()@ == b.word()@ ==> a == b,
    {
        Self::lemma_word_lengths();
    }

    /// Reading back the word an environment is written as gives that
    /// environment: rendering is undone by parsing.
    pub proof fn lemma_round_trip(env: Environment)
        ensures
            Environment::spelled(env.word()@) == Some(env),
            Environment::read(env.word()@) == Ok::<Environment, ErrorView>(env),
    {
        Self::lemma_word_lengths();
    }

    /// A text is read as an environment only if it is that environment's
    /// own word, so each accepted text stands for exactly one environment
    /// and every other text is rejected with the error that quotes it.
    pub proof fn lemma_rejects_other_text(text: Seq<char>)
        ensures
            Environment::spelled(text) matches Some(env) ==> env.word()@ == text,
            (forall|env: Environment| #[trigger] env.word()@ != text) <==> Environment::spelled(
                text,
            ) is None,
            Environment::spelled(text) is None ==> Environment::read(text) == Err::<
                Environment,
                ErrorView,
            >(ErrorView::invalid_runtime_environment(text)),
            ErrorView::invalid_runtime_environment(text).kind() == ErrorKind::Environment,
    {
        if Environment::spelled(text) is None {
            assert forall|env: Environment| #[trigger] env.word()@ != text by {}
        }
    }

    /// The order of the hierarchy is total: two environments compare equal
    /// only if they are the same, one comes before the other exactly if the
    /// other comes after it, and coming before carries over from one pair to
    /// the next. `Prod` comes first and `Local` last.
    pub proof fn lemma_total_order(a: Environment, b: Environment, c: Environment)
        ensures
            a.compared(b) == Ordering::Equal <==> a == b,
            a.compared(b) == Ordering::Less <==> b.compared(a) == Ordering::Greater,
            a.compared(b) == Ordering::Less && b.compared(c) == Ordering::Less ==> a.compared(c)
                == Ordering::Less,
            Environment::Prod.compared(Environment::Stage) == Ordering::Less,
            Environment::Stage.compared(Environment::Test) == Ordering::Less,
            Environment::Test.compared(Environment::Dev) == Ordering::Less,
            Environment::Dev.compared(Environment::Local) == Ordering::Less,
    {
    }
}

impl Hierarchy for Environment {
    open spec fn name(&self) -> Seq<char> {
        self.word()@
    }

    open spec fn rank(&self) -> u64 {
        self.position()
    }

    open spec fn named(text: Seq<char>) -> Option<Environment> {
        Environment::spelled(text)
    }

    proof fn lemma_rank_injective(a: Environment, b: Environment) {
    }

    proof fn lemma_named_name(key: Environment) {
        Environment::lemma_round_trip(key);
    }

    fn parse(text: &str) -> (key: Option<Environment>) {
        if spells(text, "prod") {
            Some(Environment::Prod)
        } else if spells(text, "stage") {
            Some(Environment::Stage)
        } else if spells(text, "test") {
            Some(Environment::Test)
        } else if spells(text, "dev") {
            Some(Environment::Dev)
        } else if spells(text, "local") {
            Some(Environment::Local)
        } else {
            None
        }
    }

    fn render(&self) -> (text: String) {
        self.to_string()
    }

    fn ordinal(&self) -> (n: u64) {
        match self {
            Environment::Prod => 0,
            Environment::Stage => 1,
            Environment::Test => 2,
            Environment::Dev => 3,
            Environment::Local => 4,
        }
    }
}

impl PartialOrd for Environment {
    fn partial_cmp(&self, other: &Environment) -> (order: Option<Ordering>) {
        Some(self.compare(other))
    }
}

impl PartialOrdSpecImpl for Environment {
    open spec fn obeys_partial_cmp_spec() -> bool {
        true
    }

    open spec fn partial_cmp_spec(&self, other: &Environment) -> Option<Ordering> {
        Some(self.compared(*other))
    }
}

impl TryFrom<&str> for Environment {
    type Error = Error;

    fn try_from(env: &str) -> (read: Result<Environment, Error>)
        ensures
            match Environment::read(env@) {
                Ok(found) => read == Ok::<Environment, Error>(found),
                Err(error) => read is Err && read->Err_0@ == error,
            },
    {
        match Environment::parse(env) {
            Some(found) => Ok(found),
            None => Err(Error::invalid_runtime_environment(env)),
        }
    }
}

// The error of a failed conversion owns strings, which no spec function can
// build, so `try_from` states its result in its own `ensures`, over
// `Environment::read`, and promises nothing through `try_from_spec`.
impl TryFromSpecImpl<&str> for Environment {
    open spec fn obeys_try_from_spec() -> bool {
        false
    }

    open spec fn try_from_spec(env: &str) -> Result<Environment, Error> {
        arbitrary()
    }
}

impl TryFrom<String> for Environment {
    type Error = Error;

    fn try_from(env: String) -> (read: Result<Environment, Error>)
        ensures
            match Environment::read(env@) {
                Ok(found) => read == Ok::<Environment, Error>(found),
                Err(error) => read is Err && read->Err_0@ == error,
            },
    {
        Environment::try_from(env.as_str())
    }
}

impl TryFromSpecImpl<String> for Environment {
    open spec fn obeys_try_from_spec() -> bool {
        false
    }

    open spec fn try_from_spec(env: String) -> Result<Environment, Error> {
        arbitrary()
    }
}

} // verus!
