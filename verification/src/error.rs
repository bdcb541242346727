use vstd::prelude::*;

use std::sync::Arc;

verus! {

/// The I/O error of the standard library, held as the cause of an error.
#[verifier::external_type_specification]
#[verifier::external_body]
pub struct ExIoError(std::io::Error);

/// The part of the platform that an error is attributed to.
#[derive(Clone, Copy, Debug, PartialEq, Eq, Structural)]
pub enum ErrorKind {
    Env,
    Fs,
    IO,
}

/// The name under which a kind of error is shown.
pub open spec fn kind_name(kind: ErrorKind) -> Seq<char> {
    match kind {
        ErrorKind::Env => seq!['E', 'n', 'v'],
        ErrorKind::Fs => seq!['F', 's'],
        ErrorKind::IO => seq!['I', 'O'],
    }
}

impl ErrorKind {
    /// Returns the name under which this kind of error is shown.
    pub fn to_string(&self) -> (name: String)
        ensures
            name@ == kind_name(*self),
    {
        let name = match self {
            ErrorKind::Env => "Env",
            ErrorKind::Fs => "Fs",
            ErrorKind::IO => "IO",
        };
        proof {
            reveal_strlit("Env");
            reveal_strlit("Fs");
            reveal_strlit("IO");
        }
        name.to_owned()
    }
}

/// The text under which an error is shown: the kind's name in square
/// brackets, a space, then the description.
pub open spec fn display_text(kind: ErrorKind, description: Seq<char>) -> Seq<char> {
    seq!['['] + kind_name(kind) + seq![']', ' '] + description
}

/// The text of an error is the text it has with an empty description,
/// followed by the whole description.
pub proof fn law_display_ends_with_description(kind: ErrorKind, description: Seq<char>)
    ensures
        display_text(kind, description) == display_text(kind, Seq::empty()) + description,
        display_text(kind, description).len() == display_text(kind, Seq::empty()).len()
            + description.len(),
{
    assert(display_text(kind, Seq::empty()) =~= seq!['['] + kind_name(kind) + seq![']', ' ']);
    assert(display_text(kind, description) =~= display_text(kind, Seq::empty()) + description);
}

/// With an empty description, an error reads `[IO] `, `[Env] ` or `[Fs] `
/// according to its kind.
pub proof fn law_display_prefix()
    ensures
        display_text(ErrorKind::IO, Seq::empty()) == seq!['[', 'I', 'O', ']', ' '],
        display_text(ErrorKind::Env, Seq::empty()) == seq!['[', 'E', 'n', 'v', ']', ' '],
        display_text(ErrorKind::Fs, Seq::empty()) == seq!['[', 'F', 's', ']', ' '],
{
    assert(display_text(ErrorKind::IO, Seq::empty()) =~= seq!['[', 'I', 'O', ']', ' ']);
    assert(display_text(ErrorKind::Env, Seq::empty()) =~= seq!['[', 'E', 'n', 'v', ']', ' ']);
    assert(display_text(ErrorKind::Fs, Seq::empty()) =~= seq!['[', 'F', 's', ']', ' ']);
}

/// A platform error with a description, a kind and, for an error that came
/// from an I/O error, that error as its cause.
#[derive(Debug, Clone)]
pub struct Error {
    description: String,
    kind: ErrorKind,
    cause: Option<Arc<std::io::Error>>,
}

impl Error {
    /// The description of this error.
    pub closed spec fn spec_description(&self) -> Seq<char> {
        self.description@
    }

    /// The kind of this error.
    pub closed spec fn spec_kind(&self) -> ErrorKind {
        self.kind
    }

    /// The I/O error that caused this error, if any.
    pub closed spec fn spec_cause(&self) -> Option<std::io::Error> {
        match self.cause {
            Some(c) => Some(*c),
            None => None,
        }
    }

    /// Returns the description of the error.
    pub fn description(&self) -> (d: &str)
        ensures
            d@ == self.spec_description(),
    {
        self.description.as_str()
    }

    /// Constructs a new error of kind `ErrorKind::IO` with the given
    /// description.
    pub fn io(description: &str) -> (e: Self)
        ensures
            e.spec_kind() == ErrorKind::IO,
            e.spec_description() == description@,
            e.spec_cause() is None,
    {
        Self::new(ErrorKind::IO, description.to_owned(), None)
    }

    /// Constructs a new error of kind `ErrorKind::Env` with the given
    /// description.
    pub fn env(description: &str) -> (e: Self)
        ensures
            e.spec_kind() == ErrorKind::Env,
            e.spec_description() == description@,
            e.spec_cause() is None,
    {
        Self::new(ErrorKind::Env, description.to_owned(), None)
    }

    /// Constructs a new error of kind `ErrorKind::Fs` with the given
    /// description.
    pub fn fs(description: &str) -> (e: Self)
        ensures
            e.spec_kind() == ErrorKind::Fs,
            e.spec_description() == description@,
            e.spec_cause() is None,
    {
        Self::new(ErrorKind::Fs, description.to_owned(), None)
    }

    /// Returns the kind of the error.
    pub fn kind(&self) -> (k: ErrorKind)
        ensures
            k == self.spec_kind(),
    {
        self.kind
    }

    /// Returns the I/O error that caused this error, if any.
    pub fn source(&self) -> (cause: Option<&std::io::Error>)
        ensures
            match cause {
                Some(c) => self.spec_cause() == Some(*c),
                None => self.spec_cause() is None,
            },
    {
        match &self.cause {
            Some(c) => Some(&**c),
            None => None,
        }
    }

    /// Returns the text under which the error is shown: `[KIND] description`.
    pub fn to_string(&self) -> (text: String)
        ensures
            text@ == display_text(self.spec_kind(), self.spec_description()),
    {
        let mut text = String::new();
        text.append("[");
        text.append(self.kind.to_string().as_str());
        text.append("] ");
        text.append(self.description.as_str());
        proof {
            reveal_strlit("[");
            reveal_strlit("] ");
        }
        assert(text@ =~= display_text(self.kind, self.description@));
        text
    }

    fn new(kind: ErrorKind, description: String, cause: Option<Arc<std::io::Error>>) -> (e: Self)
        ensures
            e.spec_kind() == kind,
            e.spec_description() == description@,
            e.spec_cause() == match cause {
                Some(c) => Some(*c),
                None => None::<std::io::Error>,
            },
    {
        Error { description, kind, cause }
    }
}

/// The conversion from an I/O error follows no spec function: the
/// description it takes is the I/O error's text, which the contract of
/// `from` ties to the error only through the text's own specification.
impl vstd::std_specs::convert::FromSpecImpl<std::io::Error> for Error {
    open spec fn obeys_from_spec() -> bool {
        false
    }

    open spec fn from_spec(v: std::io::Error) -> Error {
        arbitrary()
    }
}

/// Converts an I/O error into an error of kind `ErrorKind::IO` whose
/// description is the I/O error's text and whose cause is the I/O error.
impl From<std::io::Error> for Error {
    fn from(err: std::io::Error) -> (e: Self)
        ensures
            e.spec_kind() == ErrorKind::IO,
            e.spec_cause() == Some(err),
            exists|text: String|
                vstd::string::to_string_from_display_ensures::<std::io::Error>(&err, text)
                    && e.spec_description() == text@,
    {
        let text = err.to_string();
        Self::new(ErrorKind::IO, text, Some(Arc::new(err)))
    }
}

} // verus!
