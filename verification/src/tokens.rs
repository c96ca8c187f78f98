use vstd::prelude::*;

verus! {

/// The value on the right-hand side of one `key = value` annotation
/// argument, reduced to the three shapes the grammar distinguishes.
#[derive(Debug)]
pub enum RawValue {
    /// A string literal, carrying its text.
    Str(String),
    /// A bare word used as a keyword (e.g. `debug` or `display`).
    Word(String),
    /// A literal of any other kind (integer, boolean, character, ...).
    OtherLit,
}

/// One `key = value` entry of an annotation argument list.
#[derive(Debug)]
pub struct RawArg {
    pub key: String,
    pub value: RawValue,
}

/// A grammar error raised while parsing an annotation argument list or a
/// field-level formatting override.
#[derive(Clone, Copy, Debug, PartialEq, Eq, Structural)]
pub enum ParseError {
    /// A key other than `desc` or `fmt` appeared.
    UnexpectedKey,
    /// The value of `desc` was not a string literal.
    DescNotString,
    /// The value of `fmt` was not `debug`, `display` or a string literal.
    FmtMalformed,
    /// `desc` appeared twice in one argument list.
    DescAlreadyDefined,
    /// `fmt` appeared twice in one argument list.
    FmtAlreadyDefined,
    /// The argument list held more than two entries.
    TooManyArgs,
}

impl ParseError {
    /// The diagnostic text reported for this error.
    pub open spec fn message_spec(self) -> Seq<char> {
        match self {
            ParseError::UnexpectedKey => "expected one of: `desc`, `fmt`"@,
            ParseError::DescNotString => "`desc` must be a string"@,
            ParseError::FmtMalformed => "`fmt` must be either `debug`, `display` or a custom string"@,
            ParseError::DescAlreadyDefined => "`desc` is already defined"@,
            ParseError::FmtAlreadyDefined => "`fmt` is already defined"@,
            ParseError::TooManyArgs => "`error` can't have more than 2 arguments"@,
        }
    }

    /// The diagnostic text reported for this error.
    pub fn message(&self) -> (r: &'static str)
        ensures
            r@ == self.message_spec(),
    {
        match self {
            ParseError::UnexpectedKey => "expected one of: `desc`, `fmt`",
            ParseError::DescNotString => "`desc` must be a string",
            ParseError::FmtMalformed => "`fmt` must be either `debug`, `display` or a custom string",
            ParseError::DescAlreadyDefined => "`desc` is already defined",
            ParseError::FmtAlreadyDefined => "`fmt` is already defined",
            ParseError::TooManyArgs => "`error` can't have more than 2 arguments",
        }
    }
}

} // verus!
