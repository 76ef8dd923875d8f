//! Why a configuration could not be turned into arguments.

use vstd::prelude::*;
use vstd::string::*;

verus! {

/// The structures that have no rendering as arguments.
#[derive(Clone, Copy, Debug, PartialEq, Eq, Structural)]
pub enum Shape {
    Array,
    Table,
}

/// Why one configuration could not be turned into arguments.
#[derive(Clone, Debug, PartialEq, Eq)]
pub enum Error {
    /// The configuration could not be read; holds the reader's complaint.
    Io(String),
    /// The bytes are no valid document; holds the parser's complaint.
    Parse(String),
    /// The value under `key` is a table, or an array that holds an array or
    /// a table; `shape` is the offending structure.
    UnsupportedShape { key: String, shape: Shape },
    /// The document's root is not a table.
    InvalidTopLevel,
}

/// What an [`Error`] stands for.
pub enum ErrorView {
    Io(Seq<char>),
    Parse(Seq<char>),
    UnsupportedShape { key: Seq<char>, shape: Shape },
    InvalidTopLevel,
}

impl View for Error {
    type V = ErrorView;

    open spec fn view(&self) -> ErrorView {
        match self {
            Error::Io(cause) => ErrorView::Io(cause@),
            Error::Parse(cause) => ErrorView::Parse(cause@),
            Error::UnsupportedShape { key, shape } => ErrorView::UnsupportedShape {
                key: key@,
                shape: *shape,
            },
            Error::InvalidTopLevel => ErrorView::InvalidTopLevel,
        }
    }
}

impl Shape {
    /// The structure's name as it appears in messages.
    pub open spec fn name(self) -> Seq<char> {
        match self {
            Shape::Array => "array"@,
            Shape::Table => "table"@,
        }
    }
}

impl ErrorView {
    /// The text that describes the failure.
    pub open spec fn message(self) -> Seq<char> {
        match self {
            ErrorView::Io(cause) => cause,
            ErrorView::Parse(cause) => "failed to parse TOML: "@ + cause,
            ErrorView::UnsupportedShape { key, shape } => "failed to parse TOML table: "@
                + shape.name() + " not supported for field `"@ + key + "`"@,
            ErrorView::InvalidTopLevel => "invalid config file format"@,
        }
    }
}

impl Error {
    /// Describes the failure in words.
    pub fn message(&self) -> (r: String)
        ensures
            r@ == self@.message(),
    {
        match self {
            Error::Io(cause) => cause.clone(),
            Error::Parse(cause) => {
                let mut r = String::from_str("failed to parse TOML: ");
                r.append(cause.as_str());
                r
            },
            Error::UnsupportedShape { key, shape } => {
                let mut r = String::from_str("failed to parse TOML table: ");
                match shape {
                    Shape::Array => r.append("array"),
                    Shape::Table => r.append("table"),
                }
                r.append(" not supported for field `");
                r.append(key.as_str());
                r.append("`");
                r
            },
            Error::InvalidTopLevel => String::from_str("invalid config file format"),
        }
    }
}

/// A configuration that failed, with the path it was to be read from.
#[derive(Clone, Debug, PartialEq, Eq)]
pub struct ConfigError {
    pub path: String,
    pub cause: Error,
}

/// What a [`ConfigError`] stands for.
pub struct ConfigErrorView {
    pub path: Seq<char>,
    pub cause: ErrorView,
}

impl View for ConfigError {
    type V = ConfigErrorView;

    open spec fn view(&self) -> ConfigErrorView {
        ConfigErrorView { path: self.path@, cause: self.cause@ }
    }
}

impl ConfigErrorView {
    /// The text that names the path and describes the failure.
    pub open spec fn message(self) -> Seq<char> {
        "Failed to parse config at `"@ + self.path + "`: "@ + self.cause.message()
    }
}

impl ConfigError {
    /// Names the path and describes the failure in words.
    pub fn message(&self) -> (r: String)
        ensures
            r@ == self@.message(),
    {
        let mut r = String::from_str("Failed to parse config at `");
        r.append(self.path.as_str());
        r.append("`: ");
        let cause = self.cause.message();
        r.append(cause.as_str());
        r
    }
}

} // verus!
