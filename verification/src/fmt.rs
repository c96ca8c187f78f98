use vstd::prelude::*;
use vstd::string::StringExecFns;
use crate::args::ErrorArgs;
use crate::tokens::{ParseError, RawValue};

verus! {

/// How one field's value is rendered into its template placeholder.
#[derive(Debug, PartialEq, Eq)]
pub enum Fmt {
    /// Plain rendering; contributes no placeholder suffix.
    Display,
    /// Structured, pretty rendering; contributes the suffix `:#?`.
    Debug,
    /// A custom pattern; contributes the suffix `:<pattern>`.
    Custom(String),
}

impl Clone for Fmt {
    fn clone(&self) -> (r: Self)
        ensures
            r == *self,
    {
        match self {
            Fmt::Display => Fmt::Display,
            Fmt::Debug => Fmt::Debug,
            Fmt::Custom(p) => Fmt::Custom(p.clone()),
        }
    }
}

impl Default for Fmt {
    /// The mode used when no level of the configuration sets one.
    fn default() -> (r: Self)
        ensures
            r == Fmt::Display,
    {
        Fmt::Display
    }
}

impl Fmt {
    /// The placeholder suffix this mode contributes: nothing for `Display`,
    /// `:#?` for `Debug`, and `:` followed by the pattern for `Custom`.
    pub open spec fn suffix_spec(self) -> Seq<char> {
        match self {
            Fmt::Display => Seq::<char>::empty(),
            Fmt::Debug => ":#?"@,
            Fmt::Custom(p) => ":"@ + p@,
        }
    }

    /// The placeholder suffix this mode contributes.
    pub fn suffix(&self) -> (r: String)
        ensures
            r@ == self.suffix_spec(),
    {
        match self {
            Fmt::Display => String::new(),
            Fmt::Debug => ":#?".to_owned(),
            Fmt::Custom(p) => {
                let mut s = ":".to_owned();
                s.append(p.as_str());
                s
            },
        }
    }

    /// The effective mode for one field, by strict level precedence: the
    /// field's own override, if present, wins outright; otherwise the
    /// case's `fmt`, if its configuration sets one; otherwise the root's
    /// `fmt`, if set; otherwise `Display`. Descriptions at any level play
    /// no part: the two aspects of a configuration are inherited
    /// independently.
    pub open spec fn derive_spec(
        root: ErrorArgs,
        variant: Option<ErrorArgs>,
        field: Option<Fmt>,
    ) -> Fmt {
        match field {
            Some(f) => f,
            None => match variant {
                Some(va) => match va.fmt {
                    Some(f) => f,
                    None => match root.fmt {
                        Some(f) => f,
                        None => Fmt::Display,
                    },
                },
                None => match root.fmt {
                    Some(f) => f,
                    None => Fmt::Display,
                },
            },
        }
    }

    /// Resolve the effective mode for one field from the three levels of
    /// configuration.
    pub fn derive(root: &ErrorArgs, variant: &Option<ErrorArgs>, field: &Option<Fmt>) -> (r: Fmt)
        ensures
            r == Self::derive_spec(*root, *variant, *field),
    {
        match field {
            Some(f) => f.clone(),
            None => match variant {
                Some(va) => match &va.fmt {
                    Some(f) => f.clone(),
                    None => match &root.fmt {
                        Some(f) => f.clone(),
                        None => Fmt::Display,
                    },
                },
                None => match &root.fmt {
                    Some(f) => f.clone(),
                    None => Fmt::Display,
                },
            },
        }
    }

    /// Parsing a `fmt` value: the bare keywords `debug` and `display` name
    /// the two fixed modes, a string literal is a custom pattern, and any
    /// other value is a grammar error.
    pub open spec fn parse_spec(v: RawValue) -> Result<Fmt, ParseError> {
        match v {
            RawValue::Word(w) => if w@ == "debug"@ {
                Ok(Fmt::Debug)
            } else if w@ == "display"@ {
                Ok(Fmt::Display)
            } else {
                Err(ParseError::FmtMalformed)
            },
            RawValue::Str(s) => Ok(Fmt::Custom(s)),
            RawValue::OtherLit => Err(ParseError::FmtMalformed),
        }
    }

    /// Parse a `fmt` value.
    pub fn parse(v: &RawValue) -> (r: Result<Fmt, ParseError>)
        ensures
            r == Self::parse_spec(*v),
    {
        match v {
            RawValue::Word(w) => {
                if *w == "debug".to_owned() {
                    Ok(Fmt::Debug)
                } else if *w == "display".to_owned() {
                    Ok(Fmt::Display)
                } else {
                    Err(ParseError::FmtMalformed)
                }
            },
            RawValue::Str(s) => Ok(Fmt::Custom(s.clone())),
            RawValue::OtherLit => Err(ParseError::FmtMalformed),
        }
    }
}

/// A field-level override decides the mode outright, whatever the case
/// and root configurations hold.
pub proof fn lemma_derive_field_wins(root: ErrorArgs, variant: Option<ErrorArgs>, f: Fmt)
    ensures
        Fmt::derive_spec(root, variant, Some(f)) == f,
{
}

/// Without a field override, a mode set by the case's configuration wins
/// over the root's.
pub proof fn lemma_derive_case_wins(root: ErrorArgs, va: ErrorArgs, f: Fmt)
    requires
        va.fmt == Some(f),
    ensures
        Fmt::derive_spec(root, Some(va), None) == f,
{
}

/// Without a field override or a case-level mode, the root's mode applies;
/// a case configuration that sets only a description does not block this
/// fallthrough.
pub proof fn lemma_derive_root_wins(root: ErrorArgs, variant: Option<ErrorArgs>, f: Fmt)
    requires
        root.fmt == Some(f),
        variant matches Some(va) ==> va.fmt is None,
    ensures
        Fmt::derive_spec(root, variant, None) == f,
{
}

/// With no mode set at any level, the default `Display` applies.
pub proof fn lemma_derive_default(root: ErrorArgs, variant: Option<ErrorArgs>)
    requires
        root.fmt is None,
        variant matches Some(va) ==> va.fmt is None,
    ensures
        Fmt::derive_spec(root, variant, None) == Fmt::Display,
{
}

/// The resolved mode is independent of the descriptions at every level:
/// two configurations that agree on their `fmt` aspects resolve alike,
/// whatever their `desc` aspects hold.
pub proof fn lemma_derive_ignores_desc(
    root1: ErrorArgs,
    root2: ErrorArgs,
    variant1: Option<ErrorArgs>,
    variant2: Option<ErrorArgs>,
    field: Option<Fmt>,
)
    requires
        root1.fmt == root2.fmt,
        match (variant1, variant2) {
            (Some(a), Some(b)) => a.fmt == b.fmt,
            (None, None) => true,
            _ => false,
        },
    ensures
        Fmt::derive_spec(root1, variant1, field) == Fmt::derive_spec(root2, variant2, field),
{
}

/// Resolution is idempotent: feeding the resolved mode back in as the
/// field-level override changes nothing.
pub proof fn lemma_derive_idempotent(root: ErrorArgs, variant: Option<ErrorArgs>, field: Option<Fmt>)
    ensures
        Fmt::derive_spec(root, variant, Some(Fmt::derive_spec(root, variant, field)))
            == Fmt::derive_spec(root, variant, field),
{
}

} // verus!
