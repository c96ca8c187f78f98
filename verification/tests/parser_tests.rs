use justerror::args::ErrorArgs;
use justerror::digits::usize_to_dec;
use justerror::fmt::Fmt;
use justerror::tokens::{ParseError, RawArg, RawValue};

fn lit(s: &str) -> RawValue {
    RawValue::Str(s.to_string())
}

fn word(w: &str) -> RawValue {
    RawValue::Word(w.to_string())
}

fn arg(key: &str, value: RawValue) -> RawArg {
    RawArg {
        key: key.to_string(),
        value,
    }
}

#[test]
fn empty_list_parses_to_empty_configuration() {
    let parsed = ErrorArgs::parse(&vec![]).unwrap();

    assert_eq!(parsed.desc, None);
    assert_eq!(parsed.fmt, None);
}

#[test]
fn single_desc_leaves_fmt_unset() {
    let parsed = ErrorArgs::parse(&vec![arg("desc", lit("a description"))]).unwrap();

    assert_eq!(parsed.desc, Some("a description".to_string()));
    assert_eq!(parsed.fmt, None);
}

#[test]
fn single_fmt_leaves_desc_unset() {
    let parsed = ErrorArgs::parse(&vec![arg("fmt", word("debug"))]).unwrap();

    assert_eq!(parsed.desc, None);
    assert_eq!(parsed.fmt, Some(Fmt::Debug));
}

#[test]
fn two_distinct_keys_populate_both_fields() {
    let parsed = ErrorArgs::parse(&vec![
        arg("fmt", lit("05")),
        arg("desc", lit("a description")),
    ])
    .unwrap();

    assert_eq!(parsed.desc, Some("a description".to_string()));
    assert_eq!(parsed.fmt, Some(Fmt::Custom("05".to_string())));
}

#[test]
fn repeated_desc_is_rejected() {
    let parsed = ErrorArgs::parse(&vec![
        arg("desc", lit("one")),
        arg("desc", lit("two")),
    ]);

    assert_eq!(parsed, Err(ParseError::DescAlreadyDefined));
}

#[test]
fn repeated_fmt_is_rejected() {
    let parsed = ErrorArgs::parse(&vec![
        arg("fmt", word("debug")),
        arg("fmt", word("display")),
    ]);

    assert_eq!(parsed, Err(ParseError::FmtAlreadyDefined));
}

#[test]
fn three_arguments_are_rejected() {
    let parsed = ErrorArgs::parse(&vec![
        arg("desc", lit("one")),
        arg("fmt", word("debug")),
        arg("desc", lit("two")),
    ]);

    assert_eq!(parsed, Err(ParseError::TooManyArgs));
}

#[test]
fn unknown_key_is_rejected() {
    let parsed = ErrorArgs::parse(&vec![arg("describe", lit("one"))]);

    assert_eq!(parsed, Err(ParseError::UnexpectedKey));

    let second = ErrorArgs::parse(&vec![arg("desc", lit("one")), arg("dsc", lit("two"))]);

    assert_eq!(second, Err(ParseError::UnexpectedKey));
}

#[test]
fn desc_value_must_be_a_string() {
    assert_eq!(
        ErrorArgs::parse(&vec![arg("desc", RawValue::OtherLit)]),
        Err(ParseError::DescNotString)
    );
    assert_eq!(
        ErrorArgs::parse(&vec![arg("desc", word("debug"))]),
        Err(ParseError::DescNotString)
    );
}

#[test]
fn second_argument_error_precedes_overflow_check() {
    let parsed = ErrorArgs::parse(&vec![
        arg("desc", lit("one")),
        arg("fmt", RawValue::OtherLit),
        arg("desc", lit("two")),
    ]);

    assert_eq!(parsed, Err(ParseError::FmtMalformed));
}

#[test]
fn fmt_keywords_and_custom_patterns() {
    assert_eq!(Fmt::parse(&word("debug")), Ok(Fmt::Debug));
    assert_eq!(Fmt::parse(&word("display")), Ok(Fmt::Display));
    assert_eq!(
        Fmt::parse(&lit("^10")),
        Ok(Fmt::Custom("^10".to_string()))
    );
    assert_eq!(Fmt::parse(&word("nope")), Err(ParseError::FmtMalformed));
    assert_eq!(
        Fmt::parse(&RawValue::OtherLit),
        Err(ParseError::FmtMalformed)
    );
}

#[test]
fn fmt_suffixes() {
    assert_eq!(Fmt::Display.suffix(), "");
    assert_eq!(Fmt::Debug.suffix(), ":#?");
    assert_eq!(Fmt::Custom("05".to_string()).suffix(), ":05");
}

#[test]
fn fmt_default_is_display() {
    assert_eq!(Fmt::default(), Fmt::Display);
}

#[test]
fn derive_prefers_the_most_specific_level() {
    let root_debug = ErrorArgs {
        desc: None,
        fmt: Some(Fmt::Debug),
    };
    let case_display = ErrorArgs {
        desc: None,
        fmt: Some(Fmt::Display),
    };
    let case_desc_only = ErrorArgs {
        desc: Some("described".to_string()),
        fmt: None,
    };
    let empty = ErrorArgs {
        desc: None,
        fmt: None,
    };
    let field = Some(Fmt::Custom("^5".to_string()));

    assert_eq!(
        Fmt::derive(
            &root_debug,
            &Some(ErrorArgs {
                desc: None,
                fmt: Some(Fmt::Display),
            }),
            &field,
        ),
        Fmt::Custom("^5".to_string())
    );
    assert_eq!(
        Fmt::derive(&root_debug, &Some(case_display), &None),
        Fmt::Display
    );
    assert_eq!(
        Fmt::derive(&root_debug, &Some(case_desc_only), &None),
        Fmt::Debug
    );
    assert_eq!(Fmt::derive(&root_debug, &None, &None), Fmt::Debug);
    assert_eq!(Fmt::derive(&empty, &None, &None), Fmt::Display);
}

#[test]
fn parse_error_messages() {
    assert_eq!(
        ParseError::UnexpectedKey.message(),
        "expected one of: `desc`, `fmt`"
    );
    assert_eq!(ParseError::DescNotString.message(), "`desc` must be a string");
    assert_eq!(
        ParseError::FmtMalformed.message(),
        "`fmt` must be either `debug`, `display` or a custom string"
    );
    assert_eq!(
        ParseError::DescAlreadyDefined.message(),
        "`desc` is already defined"
    );
    assert_eq!(
        ParseError::FmtAlreadyDefined.message(),
        "`fmt` is already defined"
    );
    assert_eq!(
        ParseError::TooManyArgs.message(),
        "`error` can't have more than 2 arguments"
    );
}

#[test]
fn decimal_rendering() {
    assert_eq!(usize_to_dec(0), "0");
    assert_eq!(usize_to_dec(7), "7");
    assert_eq!(usize_to_dec(10), "10");
    assert_eq!(usize_to_dec(42), "42");
    assert_eq!(usize_to_dec(905), "905");
    assert_eq!(usize_to_dec(123456789), "123456789");
}
