use justerror::engine::{process, Case, Declaration, ProcessError};
use justerror::output::{Field, Fields};
use justerror::tokens::{ParseError, RawArg, RawValue};

fn lit(s: &str) -> RawValue {
    RawValue::Str(s.to_string())
}

fn word(w: &str) -> RawValue {
    RawValue::Word(w.to_string())
}

fn arg(key: &str, value: RawValue) -> RawArg {
    RawArg {
        key: key.to_string(),
        value,
    }
}

fn named(name: &str) -> Field {
    Field {
        name: Some(name.to_string()),
        fmt: None,
    }
}

fn named_fmt(name: &str, value: RawValue) -> Field {
    Field {
        name: Some(name.to_string()),
        fmt: Some(value),
    }
}

fn pos() -> Field {
    Field {
        name: None,
        fmt: None,
    }
}

fn pos_fmt(value: RawValue) -> Field {
    Field {
        name: None,
        fmt: Some(value),
    }
}

fn case(ident: &str, args: Option<Vec<RawArg>>, fields: Fields) -> Case {
    Case {
        ident: ident.to_string(),
        args,
        fields,
    }
}

fn enum_error() -> Declaration {
    Declaration::Enumeration {
        ident: "EnumError".to_string(),
        cases: vec![
            case("Foo", None, Fields::Unit),
            case("Bar", None, Fields::Named(vec![named("a"), named("b")])),
            case("Baz", None, Fields::Unnamed(vec![pos()])),
            case(
                "Qux",
                None,
                Fields::Unnamed(vec![pos_fmt(word("debug")), pos()]),
            ),
        ],
    }
}

fn enum_error_with_args() -> Declaration {
    Declaration::Enumeration {
        ident: "EnumErrorWithArgs".to_string(),
        cases: vec![
            case(
                "Foo",
                Some(vec![arg("desc", lit("Foo error"))]),
                Fields::Unit,
            ),
            case(
                "Bar",
                Some(vec![
                    arg("desc", lit("Bar error")),
                    arg("fmt", word("display")),
                ]),
                Fields::Named(vec![named("a"), named_fmt("b", lit("05"))]),
            ),
            case(
                "Baz",
                Some(vec![arg("desc", lit("Baz error"))]),
                Fields::Unnamed(vec![pos()]),
            ),
            case("Qux", None, Fields::Unnamed(vec![pos(), pos()])),
        ],
    }
}

fn with_args_root() -> Vec<RawArg> {
    vec![
        arg("desc", lit("My enum error")),
        arg("fmt", word("debug")),
    ]
}

#[test]
fn it_formats_enum_error_without_fields() {
    let actual = process(&enum_error(), &vec![]).unwrap();
    let expected = "EnumError::Foo";

    assert_eq!(actual[0].as_str(), expected);
}

#[test]
fn it_formats_enum_error_with_args_without_fields() {
    let actual = process(&enum_error_with_args(), &with_args_root()).unwrap();
    let expected = "EnumErrorWithArgs::Foo\nEnumErrorWithArgs: My enum error\nFoo: Foo error";

    assert_eq!(actual[0].as_str(), expected);
}

#[test]
fn template_named_fields() {
    let actual = process(&enum_error(), &vec![]).unwrap();
    let expected = "EnumError::Bar\n=== DEBUG DATA:\na: {a}\nb: {b}";

    assert_eq!(actual[1].as_str(), expected);
}

#[test]
fn template_single_unnamed_field() {
    let actual = process(&enum_error(), &vec![]).unwrap();
    let expected = "EnumError::Baz\n=== DEBUG DATA:\n{0}";

    assert_eq!(actual[2].as_str(), expected);
}

#[test]
fn template_multiple_unnamed_fields_with_override() {
    let actual = process(&enum_error(), &vec![]).unwrap();
    let expected = "EnumError::Qux\n=== DEBUG DATA:\n0: {0:#?}\n1: {1}";

    assert_eq!(actual[3].as_str(), expected);
}

#[test]
fn template_custom_field_format_beats_case_and_root() {
    let actual = process(&enum_error_with_args(), &with_args_root()).unwrap();
    let expected = "EnumErrorWithArgs::Bar\nEnumErrorWithArgs: My enum error\nBar: Bar error\n=== DEBUG DATA:\na: {a}\nb: {b:05}";

    assert_eq!(actual[1].as_str(), expected);
}

#[test]
fn template_case_desc_and_root_fmt() {
    let actual = process(&enum_error_with_args(), &with_args_root()).unwrap();
    let expected = "EnumErrorWithArgs::Baz\nEnumErrorWithArgs: My enum error\nBaz: Baz error\n=== DEBUG DATA:\n{0:#?}";

    assert_eq!(actual[2].as_str(), expected);
}

#[test]
fn template_root_desc_only_is_unprefixed() {
    let actual = process(&enum_error_with_args(), &with_args_root()).unwrap();
    let expected = "EnumErrorWithArgs::Qux\nMy enum error\n=== DEBUG DATA:\n0: {0:#?}\n1: {1:#?}";

    assert_eq!(actual[3].as_str(), expected);
}

#[test]
fn template_struct_named_fields() {
    let decl = Declaration::Record {
        ident: "MultipleNamedFieldsStructError".to_string(),
        fields: Fields::Named(vec![named("a"), named_fmt("b", lit(">5"))]),
    };
    let actual = process(&decl, &vec![arg("desc", lit("My struct error"))]).unwrap();
    let expected = "MultipleNamedFieldsStructError\nMy struct error\n=== DEBUG DATA:\na: {a}\nb: {b:>5}";

    assert_eq!(actual.len(), 1);
    assert_eq!(actual[0].as_str(), expected);
}

#[test]
fn template_struct_single_unnamed_field() {
    let decl = Declaration::Record {
        ident: "SingleUnnamedFieldStructError".to_string(),
        fields: Fields::Unnamed(vec![pos()]),
    };
    let actual = process(&decl, &vec![]).unwrap();
    let expected = "SingleUnnamedFieldStructError\n=== DEBUG DATA:\n{0}";

    assert_eq!(actual[0].as_str(), expected);
}

#[test]
fn zero_fields_produce_no_data_section() {
    let decl = Declaration::Record {
        ident: "EmptyBraces".to_string(),
        fields: Fields::Named(vec![]),
    };
    let actual = process(&decl, &vec![]).unwrap();

    assert_eq!(actual[0].as_str(), "EmptyBraces");
}

#[test]
fn union_shape_is_rejected() {
    let decl = Declaration::Union {
        ident: "UnionError".to_string(),
    };
    let actual = process(&decl, &vec![]);

    assert_eq!(actual, Err(ProcessError::UnsupportedShape));
}

#[test]
fn root_grammar_error_precedes_shape_error() {
    let decl = Declaration::Union {
        ident: "UnionError".to_string(),
    };
    let actual = process(&decl, &vec![arg("oops", lit("x"))]);

    assert_eq!(actual, Err(ProcessError::Grammar(ParseError::UnexpectedKey)));
}

#[test]
fn bad_case_args_abort_the_run() {
    let decl = Declaration::Enumeration {
        ident: "E".to_string(),
        cases: vec![
            case("Ok", None, Fields::Unit),
            case("Bad", Some(vec![arg("desc", word("oops"))]), Fields::Unit),
        ],
    };
    let actual = process(&decl, &vec![]);

    assert_eq!(actual, Err(ProcessError::Grammar(ParseError::DescNotString)));
}

#[test]
fn bad_field_override_aborts_the_run() {
    let decl = Declaration::Record {
        ident: "R".to_string(),
        fields: Fields::Unnamed(vec![pos_fmt(word("nope"))]),
    };
    let actual = process(&decl, &vec![]);

    assert_eq!(actual, Err(ProcessError::Grammar(ParseError::FmtMalformed)));
}

#[test]
fn process_is_deterministic() {
    let once = process(&enum_error_with_args(), &with_args_root()).unwrap();
    let twice = process(&enum_error_with_args(), &with_args_root()).unwrap();

    assert_eq!(once, twice);
}

#[test]
fn error_messages() {
    assert_eq!(
        ProcessError::UnsupportedShape.message(),
        "Untagged unions are not supported by the Error macro."
    );
    assert_eq!(
        ProcessError::Grammar(ParseError::TooManyArgs).message(),
        "`error` can't have more than 2 arguments"
    );
}
