use vstd::prelude::*;
use crate::fmt::Fmt;
use crate::tokens::{ParseError, RawArg, RawValue};

verus! {

/// One level of configuration: an optional description and an optional
/// formatting mode. Declarable at the root, at a case, or (the mode
/// alone) at a field.
#[derive(Debug, PartialEq, Eq)]
pub struct ErrorArgs {
    pub desc: Option<String>,
    pub fmt: Option<Fmt>,
}

impl Default for ErrorArgs {
    /// The configuration of a level whose argument list is absent or empty.
    fn default() -> (r: Self)
        ensures
            r.desc is None,
            r.fmt is None,
    {
        ErrorArgs { desc: None, fmt: None }
    }
}

impl ErrorArgs {
    /// Parsing a `desc` value: it must be a string literal.
    pub open spec fn parse_desc_spec(v: RawValue) -> Result<String, ParseError> {
        match v {
            RawValue::Str(s) => Ok(s),
            _ => Err(ParseError::DescNotString),
        }
    }

    /// Parse a `desc` value.
    pub fn parse_desc(v: &RawValue) -> (r: Result<String, ParseError>)
        ensures
            r == Self::parse_desc_spec(*v),
    {
        match v {
            RawValue::Str(s) => Ok(s.clone()),
            _ => Err(ParseError::DescNotString),
        }
    }

    /// Parse a `fmt` value.
    pub fn parse_fmt(v: &RawValue) -> (r: Result<Fmt, ParseError>)
        ensures
            r == Fmt::parse_spec(*v),
    {
        Fmt::parse(v)
    }

    /// The first argument of a list: its key decides which field it sets,
    /// and any key other than `desc` or `fmt` is rejected.
    pub open spec fn parse_first_spec(a: RawArg) -> Result<ErrorArgs, ParseError> {
        if a.key@ == "desc"@ {
            match Self::parse_desc_spec(a.value) {
                Ok(d) => Ok(ErrorArgs { desc: Some(d), fmt: None }),
                Err(e) => Err(e),
            }
        } else if a.key@ == "fmt"@ {
            match Fmt::parse_spec(a.value) {
                Ok(f) => Ok(ErrorArgs { desc: None, fmt: Some(f) }),
                Err(e) => Err(e),
            }
        } else {
            Err(ParseError::UnexpectedKey)
        }
    }

    /// The second argument of a list: a key already set by the first
    /// argument is a duplicate, checked before the value is looked at.
    pub open spec fn parse_second_spec(acc: ErrorArgs, a: RawArg) -> Result<ErrorArgs, ParseError> {
        if a.key@ == "desc"@ {
            if acc.desc is Some {
                Err(ParseError::DescAlreadyDefined)
            } else {
                match Self::parse_desc_spec(a.value) {
                    Ok(d) => Ok(ErrorArgs { desc: Some(d), fmt: acc.fmt }),
                    Err(e) => Err(e),
                }
            }
        } else if a.key@ == "fmt"@ {
            if acc.fmt is Some {
                Err(ParseError::FmtAlreadyDefined)
            } else {
                match Fmt::parse_spec(a.value) {
                    Ok(f) => Ok(ErrorArgs { desc: acc.desc, fmt: Some(f) }),
                    Err(e) => Err(e),
                }
            }
        } else {
            Err(ParseError::UnexpectedKey)
        }
    }

    /// Parsing a whole argument list: zero entries give the empty
    /// configuration, one or two entries set the fields their keys name,
    /// and a third entry is rejected. The first error, in left-to-right
    /// order, aborts the parse.
    pub open spec fn parse_spec(args: Seq<RawArg>) -> Result<ErrorArgs, ParseError> {
        if args.len() == 0 {
            Ok(ErrorArgs { desc: None, fmt: None })
        } else {
            match Self::parse_first_spec(args[0]) {
                Err(e) => Err(e),
                Ok(acc) => if args.len() == 1 {
                    Ok(acc)
                } else {
                    match Self::parse_second_spec(acc, args[1]) {
                        Err(e) => Err(e),
                        Ok(acc2) => if args.len() == 2 {
                            Ok(acc2)
                        } else {
                            Err(ParseError::TooManyArgs)
                        },
                    }
                },
            }
        }
    }

    /// Parse an annotation argument list into a configuration.
    pub fn parse(args: &Vec<RawArg>) -> (r: Result<ErrorArgs, ParseError>)
        ensures
            r == Self::parse_spec(args@),
    {
        if args.len() == 0 {
            return Ok(ErrorArgs { desc: None, fmt: None });
        }
        let a0 = &args[0];
        let acc = if a0.key == "desc".to_owned() {
            match Self::parse_desc(&a0.value) {
                Ok(d) => ErrorArgs { desc: Some(d), fmt: None },
                Err(e) => {
                    return Err(e);
                },
            }
        } else if a0.key == "fmt".to_owned() {
            match Fmt::parse(&a0.value) {
                Ok(f) => ErrorArgs { desc: None, fmt: Some(f) },
                Err(e) => {
                    return Err(e);
                },
            }
        } else {
            return Err(ParseError::UnexpectedKey);
        };
        if args.len() == 1 {
            return Ok(acc);
        }
        let a1 = &args[1];
        let acc2 = if a1.key == "desc".to_owned() {
            if acc.desc.is_some() {
                return Err(ParseError::DescAlreadyDefined);
            }
            match Self::parse_desc(&a1.value) {
                Ok(d) => ErrorArgs { desc: Some(d), fmt: acc.fmt },
                Err(e) => {
                    return Err(e);
                },
            }
        } else if a1.key == "fmt".to_owned() {
            if acc.fmt.is_some() {
                return Err(ParseError::FmtAlreadyDefined);
            }
            match Fmt::parse(&a1.value) {
                Ok(f) => ErrorArgs { desc: acc.desc, fmt: Some(f) },
                Err(e) => {
                    return Err(e);
                },
            }
        } else {
            return Err(ParseError::UnexpectedKey);
        };
        if args.len() == 2 {
            Ok(acc2)
        } else {
            Err(ParseError::TooManyArgs)
        }
    }
}

/// An empty argument list parses to the empty configuration: neither a
/// description nor a formatting mode is set.
pub proof fn lemma_parse_empty(args: Seq<RawArg>)
    requires
        args.len() == 0,
    ensures
        ErrorArgs::parse_spec(args) matches Ok(a) && a.desc is None && a.fmt is None,
{
}

/// A valid one-argument list sets exactly the field its key names; the
/// other field stays unset.
pub proof fn lemma_parse_single_key(args: Seq<RawArg>, a: ErrorArgs)
    requires
        args.len() == 1,
        ErrorArgs::parse_spec(args) == Ok::<ErrorArgs, ParseError>(a),
    ensures
        a.desc is Some <==> args[0].key@ == "desc"@,
        a.fmt is Some <==> args[0].key@ == "fmt"@,
        !(a.desc is Some && a.fmt is Some),
{
    reveal_strlit("desc");
    reveal_strlit("fmt");
    assert("desc"@.len() == 4);
    assert("fmt"@.len() == 3);
}

/// A valid two-argument list has two different keys and sets both fields.
pub proof fn lemma_parse_two_keys(args: Seq<RawArg>, a: ErrorArgs)
    requires
        args.len() == 2,
        ErrorArgs::parse_spec(args) == Ok::<ErrorArgs, ParseError>(a),
    ensures
        args[0].key@ != args[1].key@,
        a.desc is Some,
        a.fmt is Some,
{
    reveal_strlit("desc");
    reveal_strlit("fmt");
    assert("desc"@.len() == 4);
    assert("fmt"@.len() == 3);
}

/// A list of three or more arguments is always rejected.
pub proof fn lemma_parse_overfull(args: Seq<RawArg>)
    requires
        args.len() >= 3,
    ensures
        ErrorArgs::parse_spec(args) is Err,
{
}

} // verus!
