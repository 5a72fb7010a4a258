use vstd::prelude::*;
use vstd::string::*;

verus! {

/// The standard library's I/O error, carried by [`Error::Io`].
#[verifier::external_type_specification]
#[verifier::external_body]
pub struct ExIoError(std::io::Error);

/// An error returned by vector database operations.
///
/// `Error` is non-exhaustive, so new categories can be added without breaking downstream matches.
/// Error messages are stable across dependency upgrades.
#[non_exhaustive]
#[derive(Debug)]
pub enum Error {
    /// A caller supplied an invalid argument or document value.
    #[non_exhaustive]
    InvalidArgument {
        /// An explanation of the invalid input.
        message: String,
    },
    /// A requested object does not exist.
    #[non_exhaustive]
    NotFound {
        /// A description of the missing object.
        message: String,
    },
    /// The object to be created already exists.
    #[non_exhaustive]
    AlreadyExists {
        /// A description of the conflicting object.
        message: String,
    },
    /// Stored data violates a persistence or encoding invariant.
    #[non_exhaustive]
    Corruption {
        /// A description of the corrupt data.
        message: String,
    },
    /// An operating-system I/O operation failed.
    ///
    /// The underlying [`std::io::Error`] is available through [`Error::source`].
    #[non_exhaustive]
    Io {
        /// The original standard-library I/O error.
        source: std::io::Error,
    },
    /// The requested behavior is intentionally unsupported.
    #[non_exhaustive]
    Unsupported {
        /// A description of the unsupported behavior.
        message: String,
    },
    /// An internal invariant was violated, with no evidence of persisted-data corruption.
    #[non_exhaustive]
    Internal {
        /// A description of the internal failure.
        message: String,
    },
}

/// A result whose error uses the vector database's stable error vocabulary.
pub type Result<T> = std::result::Result<T, Error>;

/// The error is an invalid-argument error with exactly this message.
pub open spec fn is_invalid_argument(e: Error, m: Seq<char>) -> bool {
    e matches Error::InvalidArgument { message } && message@ == m
}

/// The error is an unsupported-operation error with exactly this message.
pub open spec fn is_unsupported(e: Error, m: Seq<char>) -> bool {
    e matches Error::Unsupported { message } && message@ == m
}

/// The error is an internal error with exactly this message.
pub open spec fn is_internal(e: Error, m: Seq<char>) -> bool {
    e matches Error::Internal { message } && message@ == m
}

impl Error {
    /// The error's message; I/O errors have none.
    pub open spec fn spec_message(&self) -> Option<Seq<char>> {
        match self {
            Error::InvalidArgument { message } => Some(message@),
            Error::NotFound { message } => Some(message@),
            Error::AlreadyExists { message } => Some(message@),
            Error::Corruption { message } => Some(message@),
            Error::Io { .. } => None,
            Error::Unsupported { message } => Some(message@),
            Error::Internal { message } => Some(message@),
        }
    }

    /// The text that precedes the message when the error is displayed.
    pub open spec fn spec_prefix(&self) -> Seq<char> {
        match self {
            Error::InvalidArgument { .. } => "invalid argument: "@,
            Error::NotFound { .. } => "not found: "@,
            Error::AlreadyExists { .. } => "already exists: "@,
            Error::Corruption { .. } => "corruption: "@,
            Error::Io { .. } => "I/O error: "@,
            Error::Unsupported { .. } => "unsupported: "@,
            Error::Internal { .. } => "internal error: "@,
        }
    }

    /// Creates an invalid-argument error from a message.
    pub fn invalid_argument(message: &str) -> (e: Self)
        ensures
            is_invalid_argument(e, message@),
    {
        Error::InvalidArgument { message: message.to_owned() }
    }

    /// Creates a not-found error from a message.
    pub fn not_found(message: &str) -> (e: Self)
        ensures
            e matches Error::NotFound { message: m } && m@ == message@,
    {
        Error::NotFound { message: message.to_owned() }
    }

    /// Creates an already-exists error from a message.
    pub fn already_exists(message: &str) -> (e: Self)
        ensures
            e matches Error::AlreadyExists { message: m } && m@ == message@,
    {
        Error::AlreadyExists { message: message.to_owned() }
    }

    /// Creates a corruption error from a message.
    pub fn corruption(message: &str) -> (e: Self)
        ensures
            e matches Error::Corruption { message: m } && m@ == message@,
    {
        Error::Corruption { message: message.to_owned() }
    }

    /// Creates an I/O error that retains the standard-library error as its source.
    pub fn io(source: std::io::Error) -> (e: Self)
        ensures
            e == (Error::Io { source }),
    {
        Error::Io { source }
    }

    /// Creates an unsupported-operation error from a message.
    pub fn unsupported(message: &str) -> (e: Self)
        ensures
            is_unsupported(e, message@),
    {
        Error::Unsupported { message: message.to_owned() }
    }

    /// Creates an internal error from a message.
    pub fn internal(message: &str) -> (e: Self)
        ensures
            is_internal(e, message@),
    {
        Error::Internal { message: message.to_owned() }
    }

    /// Returns the error's message.
    ///
    /// I/O errors return `None`; their standard-library source is available through
    /// [`Error::source`].
    pub fn message(&self) -> (r: Option<&str>)
        ensures
            match self.spec_message() {
                Some(m) => r matches Some(s) && s@ == m,
                None => r is None,
            },
    {
        match self {
            Error::InvalidArgument { message } => Some(message.as_str()),
            Error::NotFound { message } => Some(message.as_str()),
            Error::AlreadyExists { message } => Some(message.as_str()),
            Error::Corruption { message } => Some(message.as_str()),
            Error::Io { .. } => None,
            Error::Unsupported { message } => Some(message.as_str()),
            Error::Internal { message } => Some(message.as_str()),
        }
    }

    /// Returns the standard-library error that caused an I/O error.
    pub fn source(&self) -> (r: Option<&std::io::Error>)
        ensures
            match self {
                Error::Io { source } => r == Some(source),
                _ => r is None,
            },
    {
        match self {
            Error::Io { source } => Some(source),
            _ => None,
        }
    }

    /// Renders the error as text: a category prefix followed by the message, or by the
    /// I/O error's own text.
    pub fn to_string(&self) -> (r: String)
        ensures
            match self {
                Error::Io { source } => exists|t: String|
                    to_string_from_display_ensures::<std::io::Error>(source, t)
                        && r@ == self.spec_prefix() + t@,
                _ => r@ == self.spec_prefix() + self.spec_message().unwrap(),
            },
    {
        match self {
            Error::InvalidArgument { message } => {
                let mut s = "invalid argument: ".to_owned();
                s.append(message.as_str());
                s
            },
            Error::NotFound { message } => {
                let mut s = "not found: ".to_owned();
                s.append(message.as_str());
                s
            },
            Error::AlreadyExists { message } => {
                let mut s = "already exists: ".to_owned();
                s.append(message.as_str());
                s
            },
            Error::Corruption { message } => {
                let mut s = "corruption: ".to_owned();
                s.append(message.as_str());
                s
            },
            Error::Io { source } => {
                let t = source.to_string();
                let mut s = "I/O error: ".to_owned();
                s.append(t.as_str());
                s
            },
            Error::Unsupported { message } => {
                let mut s = "unsupported: ".to_owned();
                s.append(message.as_str());
                s
            },
            Error::Internal { message } => {
                let mut s = "internal error: ".to_owned();
                s.append(message.as_str());
                s
            },
        }
    }
}

impl From<std::io::Error> for Error {
    fn from(source: std::io::Error) -> (e: Self) {
        Error::io(source)
    }
}

impl vstd::std_specs::convert::FromSpecImpl<std::io::Error> for Error {
    open spec fn obeys_from_spec() -> bool {
        true
    }

    open spec fn from_spec(v: std::io::Error) -> Error {
        Error::Io { source: v }
    }
}

} // verus!
