use vstd::prelude::*;
use crate::args::ErrorArgs;
use crate::output::{
    data_section_spec, desc_line_spec, opt_str_view, opt_string_view, title_text_spec, Fields,
    Output,
};
use crate::tokens::{ParseError, RawArg};

verus! {

/// A named variant of an enumeration, or the sole implicit case of a
/// record: an identifier, an optional annotation argument list of its
/// own, and its fields.
pub struct Case {
    pub ident: String,
    pub args: Option<Vec<RawArg>>,
    pub fields: Fields,
}

/// The shape of a declaration handed to the processor.
pub enum Declaration {
    /// A tagged union: an ordered sequence of cases.
    Enumeration { ident: String, cases: Vec<Case> },
    /// A single record: one implicit case holding the whole type's fields.
    Record { ident: String, fields: Fields },
    /// The unsupported third shape, rejected outright.
    Union { ident: String },
}

/// Why a whole run produced no templates.
#[derive(Clone, Copy, Debug, PartialEq, Eq, Structural)]
pub enum ProcessError {
    /// A grammar error in an argument list or a field override.
    Grammar(ParseError),
    /// The declaration was an untagged union.
    UnsupportedShape,
}

impl ProcessError {
    /// The diagnostic text reported for this error.
    pub open spec fn message_spec(self) -> Seq<char> {
        match self {
            ProcessError::Grammar(e) => e.message_spec(),
            ProcessError::UnsupportedShape => "Untagged unions are not supported by the Error macro."@,
        }
    }

    /// The diagnostic text reported for this error.
    pub fn message(&self) -> (r: &'static str)
        ensures
            r@ == self.message_spec(),
    {
        match self {
            ProcessError::Grammar(e) => e.message(),
            ProcessError::UnsupportedShape => "Untagged unions are not supported by the Error macro.",
        }
    }
}

/// The description a case's own configuration contributes, if any.
pub open spec fn variant_desc(variant: Option<ErrorArgs>) -> Option<Seq<char>> {
    match variant {
        None => None,
        Some(va) => opt_string_view(va.desc),
    }
}

/// The description block under the title line: both descriptions present
/// gives two lines, each behind its identifier; one present gives that
/// one, unprefixed; none gives nothing.
pub open spec fn desc_block_spec(
    ty: Seq<char>,
    case: Option<Seq<char>>,
    root_desc: Option<Seq<char>>,
    case_desc: Option<Seq<char>>,
) -> Seq<char> {
    match (root_desc, case_desc) {
        (Some(r), Some(c)) => desc_line_spec(Some(ty), r) + desc_line_spec(case, c),
        (Some(r), None) => desc_line_spec(None, r),
        (None, Some(c)) => desc_line_spec(None, c),
        (None, None) => Seq::empty(),
    }
}

/// The whole template for one case: title line, description block, data
/// section, in that order. The first grammar error in the case's field
/// overrides aborts.
pub open spec fn rendered_case_spec(
    ty: Seq<char>,
    case: Option<Seq<char>>,
    root: ErrorArgs,
    variant: Option<ErrorArgs>,
    fields: Fields,
) -> Result<Seq<char>, ParseError> {
    match data_section_spec(fields, root, variant) {
        Err(e) => Err(e),
        Ok(s) => Ok(
            title_text_spec(ty, case) + desc_block_spec(
                ty,
                case,
                opt_string_view(root.desc),
                variant_desc(variant),
            ) + s,
        ),
    }
}

/// Render the template for one case.
pub fn render_case(
    ty: &String,
    case: Option<&String>,
    root: &ErrorArgs,
    variant: &Option<ErrorArgs>,
    fields: &Fields,
) -> (r: Result<String, ParseError>)
    ensures
        match r {
            Ok(s) => rendered_case_spec(ty@, opt_str_view(case), *root, *variant, *fields)
                matches Ok(t) && s@ == t,
            Err(e) => rendered_case_spec(ty@, opt_str_view(case), *root, *variant, *fields)
                == Err::<Seq<char>, ParseError>(e),
        },
{
    let mut out = Output::new();
    out.push_title(ty, case);
    match (&root.desc, variant) {
        (Some(rd), Some(va)) => match &va.desc {
            Some(vd) => {
                out.push_desc(Some(ty), rd);
                out.push_desc(case, vd);
            },
            None => {
                out.push_desc(None, rd);
            },
        },
        (Some(rd), None) => {
            out.push_desc(None, rd);
        },
        (None, Some(va)) => match &va.desc {
            Some(vd) => {
                out.push_desc(None, vd);
            },
            None => {},
        },
        (None, None) => {},
    }
    proof {
        assert(out@ =~= title_text_spec(ty@, opt_str_view(case)) + desc_block_spec(
            ty@,
            opt_str_view(case),
            opt_string_view(root.desc),
            variant_desc(*variant),
        ));
    }
    match out.push_fields(fields, root, variant) {
        Err(e) => Err(e),
        Ok(_) => {
            proof {
                assert(out@ =~= title_text_spec(ty@, opt_str_view(case)) + desc_block_spec(
                    ty@,
                    opt_str_view(case),
                    opt_string_view(root.desc),
                    variant_desc(*variant),
                ) + data_section_spec(*fields, *root, *variant)->Ok_0);
            }
            Ok(out.into_string())
        },
    }
}

/// Rendering is deterministic: the template is a function of the case
/// input alone, so any two renders of one input agree. There is no
/// nondeterministic field ordering — each field's line stands at its
/// declared position.
pub proof fn lemma_render_deterministic(
    ty: Seq<char>,
    case: Option<Seq<char>>,
    root: ErrorArgs,
    variant: Option<ErrorArgs>,
    fields: Fields,
    r1: Result<Seq<char>, ParseError>,
    r2: Result<Seq<char>, ParseError>,
)
    requires
        r1 == rendered_case_spec(ty, case, root, variant, fields),
        r2 == rendered_case_spec(ty, case, root, variant, fields),
    ensures
        r1 == r2,
{
}

/// A case's own argument list, parsed: a case without one has no
/// configuration of its own.
pub open spec fn parse_case_args_spec(args: Option<Vec<RawArg>>) -> Result<
    Option<ErrorArgs>,
    ParseError,
> {
    match args {
        None => Ok(None),
        Some(ra) => match ErrorArgs::parse_spec(ra@) {
            Ok(a) => Ok(Some(a)),
            Err(e) => Err(e),
        },
    }
}

/// The templates of an enumeration's cases, in declaration order; the
/// first grammar error aborts the whole run.
pub open spec fn process_cases_spec(ty: Seq<char>, cases: Seq<Case>, root: ErrorArgs) -> Result<
    Seq<Seq<char>>,
    ParseError,
>
    decreases cases.len(),
{
    if cases.len() == 0 {
        Ok(Seq::empty())
    } else {
        match parse_case_args_spec(cases[0].args) {
            Err(e) => Err(e),
            Ok(va) => match rendered_case_spec(
                ty,
                Some(cases[0].ident@),
                root,
                va,
                cases[0].fields,
            ) {
                Err(e) => Err(e),
                Ok(t) => match process_cases_spec(ty, cases.drop_first(), root) {
                    Err(e) => Err(e),
                    Ok(ts) => Ok(seq![t] + ts),
                },
            },
        }
    }
}

/// One whole run: parse the root argument list, dispatch on the shape,
/// and produce one template per case — or the first error found, with
/// no templates at all.
pub open spec fn process_spec(decl: Declaration, root_args: Seq<RawArg>) -> Result<
    Seq<Seq<char>>,
    ProcessError,
> {
    match ErrorArgs::parse_spec(root_args) {
        Err(e) => Err(ProcessError::Grammar(e)),
        Ok(root) => match decl {
            Declaration::Enumeration { ident, cases } => match process_cases_spec(
                ident@,
                cases@,
                root,
            ) {
                Err(e) => Err(ProcessError::Grammar(e)),
                Ok(ts) => Ok(ts),
            },
            Declaration::Record { ident, fields } => match rendered_case_spec(
                ident@,
                None,
                root,
                None,
                fields,
            ) {
                Err(e) => Err(ProcessError::Grammar(e)),
                Ok(t) => Ok(seq![t]),
            },
            Declaration::Union { .. } => Err(ProcessError::UnsupportedShape),
        },
    }
}

/// Process one declaration: one template per case, or the first error.
pub fn process(decl: &Declaration, root_args: &Vec<RawArg>) -> (r: Result<Vec<String>, ProcessError>)
    ensures
        match r {
            Ok(v) => process_spec(*decl, root_args@) matches Ok(ts) && v@.len() == ts.len()
                && forall|i: int| 0 <= i < ts.len() ==> (#[trigger] v@[i])@ == ts[i],
            Err(e) => process_spec(*decl, root_args@) == Err::<Seq<Seq<char>>, ProcessError>(e),
        },
{
    let root = match ErrorArgs::parse(root_args) {
        Ok(a) => a,
        Err(e) => {
            return Err(ProcessError::Grammar(e));
        },
    };
    match decl {
        Declaration::Enumeration { ident, cases } => {
            let mut out: Vec<String> = Vec::new();
            proof {
                assert(cases@.skip(0) =~= cases@);
            }
            let mut i: usize = 0;
            while i < cases.len()
                invariant
                    i <= cases@.len(),
                    *decl == (Declaration::Enumeration { ident: *ident, cases: *cases }),
                    ErrorArgs::parse_spec(root_args@) == Ok::<ErrorArgs, ParseError>(root),
                    out@.len() == i,
                    match process_cases_spec(ident@, cases@.skip(i as int), root) {
                        Err(e) => process_cases_spec(ident@, cases@, root) == Err::<
                            Seq<Seq<char>>,
                            ParseError,
                        >(e),
                        Ok(rem) => process_cases_spec(ident@, cases@, root) matches Ok(all) && out@
                            .map_values(|s: String| s@) + rem == all,
                    },
                decreases cases@.len() - i,
            {
                proof {
                    assert(cases@.skip(i as int).drop_first() =~= cases@.skip(i as int + 1));
                    assert(cases@.skip(i as int)[0] == cases@[i as int]);
                }
                let c = &cases[i];
                let va = match &c.args {
                    None => None,
                    Some(ra) => match ErrorArgs::parse(ra) {
                        Ok(a) => Some(a),
                        Err(e) => {
                            proof {
                                assert(process_cases_spec(ident@, cases@.skip(i as int), root)
                                    == Err::<Seq<Seq<char>>, ParseError>(e));
                            }
                            return Err(ProcessError::Grammar(e));
                        },
                    },
                };
                match render_case(ident, Some(&c.ident), &root, &va, &c.fields) {
                    Ok(s) => {
                        proof {
                            let rem1 = process_cases_spec(
                                ident@,
                                cases@.skip(i as int + 1),
                                root,
                            );
                            if rem1 is Ok {
                                let cons = seq![s@] + rem1->Ok_0;
                                assert(cons.drop_first() =~= rem1->Ok_0);
                                assert(out@.push(s).map_values(|t: String| t@) =~= out@.map_values(
                                    |t: String| t@,
                                ).push(s@));
                                assert(out@.map_values(|t: String| t@).push(s@) + rem1->Ok_0
                                    =~= out@.map_values(|t: String| t@) + cons);
                            }
                        }
                        out.push(s);
                    },
                    Err(e) => {
                        proof {
                            assert(process_cases_spec(ident@, cases@.skip(i as int), root) == Err::<
                                Seq<Seq<char>>,
                                ParseError,
                            >(e));
                        }
                        return Err(ProcessError::Grammar(e));
                    },
                }
                i += 1;
            }
            proof {
                assert(cases@.skip(cases@.len() as int) =~= Seq::<Case>::empty());
                let all = process_cases_spec(ident@, cases@, root)->Ok_0;
                assert(out@.map_values(|s: String| s@) + Seq::<Seq<char>>::empty() =~= out@
                    .map_values(|s: String| s@));
            }
            Ok(out)
        },
        Declaration::Record { ident, fields } => match render_case(
            ident,
            None,
            &root,
            &None,
            fields,
        ) {
            Ok(s) => {
                let mut v: Vec<String> = Vec::new();
                v.push(s);
                Ok(v)
            },
            Err(e) => Err(ProcessError::Grammar(e)),
        },
        Declaration::Union { .. } => Err(ProcessError::UnsupportedShape),
    }
}

} // verus!
