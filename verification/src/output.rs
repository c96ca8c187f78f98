use vstd::prelude::*;
use vstd::string::StringExecFns;
use crate::args::ErrorArgs;
use crate::digits::{dec_seq, usize_to_dec};
use crate::fmt::Fmt;
use crate::tokens::{ParseError, RawValue};

verus! {

/// One field of a case: named fields carry their name, positional fields
/// none (their identity is their index); either may carry the raw value
/// of a field-level formatting override, parsed during rendering.
pub struct Field {
    pub name: Option<String>,
    pub fmt: Option<RawValue>,
}

/// The field list of a case, in declaration order.
pub enum Fields {
    Named(Vec<Field>),
    Unnamed(Vec<Field>),
    Unit,
}

/// The field sequence behind a field list (empty for `Unit`).
pub open spec fn fields_seq(fields: Fields) -> Seq<Field> {
    match fields {
        Fields::Named(v) => v@,
        Fields::Unnamed(v) => v@,
        Fields::Unit => Seq::empty(),
    }
}

/// A field's formatting override, parsed: absent stays absent, a present
/// raw value must be a well-formed `fmt` value.
pub open spec fn field_fmt_spec(f: Field) -> Result<Option<Fmt>, ParseError> {
    match f.fmt {
        None => Ok(None),
        Some(v) => match Fmt::parse_spec(v) {
            Ok(m) => Ok(Some(m)),
            Err(e) => Err(e),
        },
    }
}

/// The view of an optional borrowed string.
pub open spec fn opt_str_view(o: Option<&String>) -> Option<Seq<char>> {
    match o {
        None => None,
        Some(s) => Some(s@),
    }
}

/// The view of an optional owned string.
pub open spec fn opt_string_view(o: Option<String>) -> Option<Seq<char>> {
    match o {
        None => None,
        Some(s) => Some(s@),
    }
}

/// The title line: the type identifier alone, or `Type::Case` for an
/// enumeration case.
pub open spec fn title_text_spec(head: Seq<char>, tail: Option<Seq<char>>) -> Seq<char> {
    match tail {
        None => head,
        Some(t) => head + "::"@ + t,
    }
}

/// One description line: a newline, then `prefix: ` if a prefix is given,
/// then the description.
pub open spec fn desc_line_spec(prefix: Option<Seq<char>>, desc: Seq<char>) -> Seq<char> {
    match prefix {
        None => "\n"@ + desc,
        Some(p) => "\n"@ + p + ": "@ + desc,
    }
}

/// The fixed marker line that opens the data section.
pub open spec fn debug_title_text() -> Seq<char> {
    "\n"@ + "=== DEBUG DATA:"@
}

/// One data line: a newline, the `ident: ` prefix where the layout asks
/// for one, then the placeholder `{ident<suffix>}`.
pub open spec fn field_line_spec(prefixed: bool, ident: Seq<char>, m: Fmt) -> Seq<char> {
    "\n"@ + (if prefixed {
        ident + ": "@
    } else {
        Seq::<char>::empty()
    }) + "{"@ + ident + m.suffix_spec() + "}"@
}

/// The data lines of a named field list, in order; a field without a name
/// is passed over. The first ill-formed override aborts.
pub open spec fn named_lines_spec(
    fields: Seq<Field>,
    root: ErrorArgs,
    variant: Option<ErrorArgs>,
) -> Result<Seq<Seq<char>>, ParseError>
    decreases fields.len(),
{
    if fields.len() == 0 {
        Ok(Seq::empty())
    } else {
        match fields[0].name {
            None => named_lines_spec(fields.drop_first(), root, variant),
            Some(n) => match field_fmt_spec(fields[0]) {
                Err(e) => Err(e),
                Ok(of) => match named_lines_spec(fields.drop_first(), root, variant) {
                    Err(e) => Err(e),
                    Ok(ls) => Ok(
                        seq![field_line_spec(true, n@, Fmt::derive_spec(root, variant, of))] + ls,
                    ),
                },
            },
        }
    }
}

/// The data lines of a positional field list starting at index `start`,
/// in order. The first ill-formed override aborts.
pub open spec fn unnamed_lines_spec(
    fields: Seq<Field>,
    start: nat,
    prefixed: bool,
    root: ErrorArgs,
    variant: Option<ErrorArgs>,
) -> Result<Seq<Seq<char>>, ParseError>
    decreases fields.len(),
{
    if fields.len() == 0 {
        Ok(Seq::empty())
    } else {
        match field_fmt_spec(fields[0]) {
            Err(e) => Err(e),
            Ok(of) => match unnamed_lines_spec(
                fields.drop_first(),
                start + 1,
                prefixed,
                root,
                variant,
            ) {
                Err(e) => Err(e),
                Ok(ls) => Ok(
                    seq![
                        field_line_spec(prefixed, dec_seq(start), Fmt::derive_spec(root, variant, of)),
                    ] + ls,
                ),
            },
        }
    }
}

/// The concatenation of a sequence of lines.
pub open spec fn concat_lines(ls: Seq<Seq<char>>) -> Seq<char>
    decreases ls.len(),
{
    if ls.len() == 0 {
        Seq::empty()
    } else {
        ls[0] + concat_lines(ls.drop_first())
    }
}

/// The whole data section of a case: nothing for a case without fields;
/// otherwise the marker line followed by one line per field — behind its
/// name for named fields, behind its index for two or more positional
/// fields, and bare for a single positional field.
pub open spec fn data_section_spec(
    fields: Fields,
    root: ErrorArgs,
    variant: Option<ErrorArgs>,
) -> Result<Seq<char>, ParseError> {
    match fields {
        Fields::Unit => Ok(Seq::empty()),
        Fields::Named(v) => if v@.len() == 0 {
            Ok(Seq::empty())
        } else {
            match named_lines_spec(v@, root, variant) {
                Err(e) => Err(e),
                Ok(ls) => Ok(debug_title_text() + concat_lines(ls)),
            }
        },
        Fields::Unnamed(v) => if v@.len() == 0 {
            Ok(Seq::empty())
        } else {
            match unnamed_lines_spec(v@, 0, v@.len() > 1, root, variant) {
                Err(e) => Err(e),
                Ok(ls) => Ok(debug_title_text() + concat_lines(ls)),
            }
        },
    }
}

/// The template string under construction for one case.
pub struct Output(String);

impl View for Output {
    type V = Seq<char>;

    closed spec fn view(&self) -> Seq<char> {
        self.0@
    }
}

impl Output {
    /// A fresh, empty template.
    pub fn new() -> (r: Self)
        ensures
            r@ == Seq::<char>::empty(),
    {
        Output(String::new())
    }

    /// Hand out the finished template.
    pub fn into_string(self) -> (r: String)
        ensures
            r@ == self@,
    {
        self.0
    }

    /// Append the title line.
    pub fn push_title(&mut self, head: &String, tail: Option<&String>)
        ensures
            final(self)@ == old(self)@ + title_text_spec(head@, opt_str_view(tail)),
    {
        self.0.append(head.as_str());
        match tail {
            None => {},
            Some(t) => {
                self.0.append("::");
                self.0.append(t.as_str());
            },
        }
        proof {
            assert(self@ =~= old(self)@ + title_text_spec(head@, opt_str_view(tail)));
        }
    }

    /// Append one description line, behind `prefix: ` when a prefix is
    /// given.
    pub fn push_desc(&mut self, prefix: Option<&String>, desc: &String)
        ensures
            final(self)@ == old(self)@ + desc_line_spec(opt_str_view(prefix), desc@),
    {
        self.0.append("\n");
        match prefix {
            None => {},
            Some(p) => {
                self.0.append(p.as_str());
                self.0.append(": ");
            },
        }
        self.0.append(desc.as_str());
        proof {
            assert(self@ =~= old(self)@ + desc_line_spec(opt_str_view(prefix), desc@));
        }
    }

    /// Append the fixed marker line that opens the data section.
    pub fn push_debug_title(&mut self)
        ensures
            final(self)@ == old(self)@ + debug_title_text(),
    {
        self.0.append("\n");
        self.0.append("=== DEBUG DATA:");
        proof {
            assert(self@ =~= old(self)@ + debug_title_text());
        }
    }

    /// Append one data line for a field: parse its override, resolve its
    /// mode against the case and root configuration, and render its
    /// placeholder. An ill-formed override aborts, leaving the template
    /// untouched.
    pub fn push_field(
        &mut self,
        field: &Field,
        ident: &String,
        prefixed: bool,
        root: &ErrorArgs,
        variant: &Option<ErrorArgs>,
    ) -> (r: Result<(), ParseError>)
        ensures
            match r {
                Ok(_) => field_fmt_spec(*field) matches Ok(of) && final(self)@ == old(self)@
                    + field_line_spec(prefixed, ident@, Fmt::derive_spec(*root, *variant, of)),
                Err(e) => field_fmt_spec(*field) == Err::<Option<Fmt>, ParseError>(e)
                    && final(self)@ == old(self)@,
            },
    {
        let of = match &field.fmt {
            None => None,
            Some(v) => match Fmt::parse(v) {
                Ok(m) => Some(m),
                Err(e) => {
                    return Err(e);
                },
            },
        };
        let m = Fmt::derive(root, variant, &of);
        let suffix = m.suffix();
        self.0.append("\n");
        if prefixed {
            self.0.append(ident.as_str());
            self.0.append(": ");
        }
        self.0.append("{");
        self.0.append(ident.as_str());
        self.0.append(suffix.as_str());
        self.0.append("}");
        proof {
            assert(self@ =~= old(self)@ + field_line_spec(
                prefixed,
                ident@,
                Fmt::derive_spec(*root, *variant, field_fmt_spec(*field)->Ok_0),
            ));
        }
        Ok(())
    }

    /// Append the whole data section for a case's field list: nothing for
    /// a case without fields, otherwise the marker line and one line per
    /// field in declaration order. The first ill-formed field override
    /// aborts with its error and no section is reported.
    pub fn push_fields(
        &mut self,
        fields: &Fields,
        error_args: &ErrorArgs,
        variant_error_args: &Option<ErrorArgs>,
    ) -> (r: Result<(), ParseError>)
        ensures
            match r {
                Ok(_) => data_section_spec(*fields, *error_args, *variant_error_args) matches Ok(s)
                    && final(self)@ == old(self)@ + s,
                Err(e) => data_section_spec(*fields, *error_args, *variant_error_args)
                    == Err::<Seq<char>, ParseError>(e),
            },
    {
        match fields {
            Fields::Unit => {
                proof {
                    assert(old(self)@ + Seq::<char>::empty() =~= old(self)@);
                }
                Ok(())
            },
            Fields::Named(v) => {
                if v.len() == 0 {
                    proof {
                        assert(old(self)@ + Seq::<char>::empty() =~= old(self)@);
                    }
                    return Ok(());
                }
                self.push_debug_title();
                proof {
                    assert(v@.skip(0) =~= v@);
                }
                let mut i: usize = 0;
                while i < v.len()
                    invariant
                        i <= v@.len(),
                        v@.len() > 0,
                        *fields == Fields::Named(*v),
                        match named_lines_spec(v@.skip(i as int), *error_args, *variant_error_args) {
                            Err(e) => named_lines_spec(v@, *error_args, *variant_error_args)
                                == Err::<Seq<Seq<char>>, ParseError>(e),
                            Ok(rem) => named_lines_spec(v@, *error_args, *variant_error_args)
                                matches Ok(all) && self@ + concat_lines(rem) == old(self)@
                                + debug_title_text() + concat_lines(all),
                        },
                    decreases v@.len() - i,
                {
                    proof {
                        assert(v@.skip(i as int).drop_first() =~= v@.skip(i as int + 1));
                        assert(v@.skip(i as int)[0] == v@[i as int]);
                    }
                    let fld = &v[i];
                    match &fld.name {
                        None => {},
                        Some(n) => {
                            match self.push_field(fld, n, true, error_args, variant_error_args) {
                                Ok(_) => {
                                    proof {
                                        let rem1 = named_lines_spec(
                                            v@.skip(i as int + 1),
                                            *error_args,
                                            *variant_error_args,
                                        );
                                        if rem1 is Ok {
                                            let line = field_line_spec(
                                                true,
                                                n@,
                                                Fmt::derive_spec(
                                                    *error_args,
                                                    *variant_error_args,
                                                    field_fmt_spec(v@[i as int])->Ok_0,
                                                ),
                                            );
                                            let cons = seq![line] + rem1->Ok_0;
                                            assert(cons.drop_first() =~= rem1->Ok_0);
                                            assert(concat_lines(cons) == line + concat_lines(
                                                rem1->Ok_0,
                                            ));
                                        }
                                    }
                                },
                                Err(e) => {
                                    proof {
                                        assert(named_lines_spec(
                                            v@.skip(i as int),
                                            *error_args,
                                            *variant_error_args,
                                        ) == Err::<Seq<Seq<char>>, ParseError>(e));
                                    }
                                    return Err(e);
                                },
                            }
                        },
                    }
                    i += 1;
                }
                proof {
                    assert(v@.skip(v@.len() as int) =~= Seq::<Field>::empty());
                    let all = named_lines_spec(v@, *error_args, *variant_error_args)->Ok_0;
                    assert(self@ + concat_lines(Seq::<Seq<char>>::empty()) =~= self@);
                    assert(self@ =~= old(self)@ + (debug_title_text() + concat_lines(all)));
                }
                Ok(())
            },
            Fields::Unnamed(v) => {
                if v.len() == 0 {
                    proof {
                        assert(old(self)@ + Seq::<char>::empty() =~= old(self)@);
                    }
                    return Ok(());
                }
                let prefixed = v.len() > 1;
                self.push_debug_title();
                proof {
                    assert(v@.skip(0) =~= v@);
                }
                let mut i: usize = 0;
                while i < v.len()
                    invariant
                        i <= v@.len(),
                        v@.len() > 0,
                        *fields == Fields::Unnamed(*v),
                        prefixed == (v@.len() > 1),
                        match unnamed_lines_spec(
                            v@.skip(i as int),
                            i as nat,
                            prefixed,
                            *error_args,
                            *variant_error_args,
                        ) {
                            Err(e) => unnamed_lines_spec(
                                v@,
                                0,
                                prefixed,
                                *error_args,
                                *variant_error_args,
                            ) == Err::<Seq<Seq<char>>, ParseError>(e),
                            Ok(rem) => unnamed_lines_spec(
                                v@,
                                0,
                                prefixed,
                                *error_args,
                                *variant_error_args,
                            ) matches Ok(all) && self@ + concat_lines(rem) == old(self)@
                                + debug_title_text() + concat_lines(all),
                        },
                    decreases v@.len() - i,
                {
                    proof {
                        assert(v@.skip(i as int).drop_first() =~= v@.skip(i as int + 1));
                        assert(v@.skip(i as int)[0] == v@[i as int]);
                    }
                    let fld = &v[i];
                    let ident = usize_to_dec(i);
                    match self.push_field(fld, &ident, prefixed, error_args, variant_error_args) {
                        Ok(_) => {
                            proof {
                                let rem1 = unnamed_lines_spec(
                                    v@.skip(i as int + 1),
                                    i as nat + 1,
                                    prefixed,
                                    *error_args,
                                    *variant_error_args,
                                );
                                if rem1 is Ok {
                                    let line = field_line_spec(
                                        prefixed,
                                        dec_seq(i as nat),
                                        Fmt::derive_spec(
                                            *error_args,
                                            *variant_error_args,
                                            field_fmt_spec(v@[i as int])->Ok_0,
                                        ),
                                    );
                                    let cons = seq![line] + rem1->Ok_0;
                                    assert(cons.drop_first() =~= rem1->Ok_0);
                                    assert(concat_lines(cons) == line + concat_lines(rem1->Ok_0));
                                }
                            }
                        },
                        Err(e) => {
                            proof {
                                assert(unnamed_lines_spec(
                                    v@.skip(i as int),
                                    i as nat,
                                    prefixed,
                                    *error_args,
                                    *variant_error_args,
                                ) == Err::<Seq<Seq<char>>, ParseError>(e));
                            }
                            return Err(e);
                        },
                    }
                    i += 1;
                }
                proof {
                    assert(v@.skip(v@.len() as int) =~= Seq::<Field>::empty());
                    let all = unnamed_lines_spec(
                        v@,
                        0,
                        prefixed,
                        *error_args,
                        *variant_error_args,
                    )->Ok_0;
                    assert(self@ + concat_lines(Seq::<Seq<char>>::empty()) =~= self@);
                    assert(self@ =~= old(self)@ + (debug_title_text() + concat_lines(all)));
                }
                Ok(())
            },
        }
    }
}

/// Each line of a well-formed positional field list renders the field at
/// its zero-based declared position, under the layout `prefixed` names.
pub proof fn lemma_unnamed_lines_indexed(
    fields: Seq<Field>,
    start: nat,
    prefixed: bool,
    root: ErrorArgs,
    variant: Option<ErrorArgs>,
    ls: Seq<Seq<char>>,
)
    requires
        unnamed_lines_spec(fields, start, prefixed, root, variant) == Ok::<
            Seq<Seq<char>>,
            ParseError,
        >(ls),
    ensures
        ls.len() == fields.len(),
        forall|i: int|
            0 <= i < fields.len() ==> ((#[trigger] field_fmt_spec(fields[i])) matches Ok(of)
                && ls[i] == field_line_spec(
                prefixed,
                dec_seq((start + i) as nat),
                Fmt::derive_spec(root, variant, of),
            )),
    decreases fields.len(),
{
    if fields.len() > 0 {
        let rest = unnamed_lines_spec(fields.drop_first(), start + 1, prefixed, root, variant);
        lemma_unnamed_lines_indexed(
            fields.drop_first(),
            start + 1,
            prefixed,
            root,
            variant,
            rest->Ok_0,
        );
        assert forall|i: int| 0 <= i < fields.len() implies ((#[trigger] field_fmt_spec(
            fields[i],
        )) matches Ok(of) && ls[i] == field_line_spec(
            prefixed,
            dec_seq((start + i) as nat),
            Fmt::derive_spec(root, variant, of),
        )) by {
            if i > 0 {
                assert(fields.drop_first()[i - 1] == fields[i]);
                assert(rest->Ok_0[i - 1] == ls[i]);
            }
        }
    }
}

/// A single positional field renders bare: the data section is the marker
/// line followed by one unprefixed `{0...}` placeholder line.
pub proof fn lemma_positional_single(
    fields: Fields,
    root: ErrorArgs,
    variant: Option<ErrorArgs>,
    s: Seq<char>,
)
    requires
        fields is Unnamed,
        fields_seq(fields).len() == 1,
        data_section_spec(fields, root, variant) == Ok::<Seq<char>, ParseError>(s),
    ensures
        field_fmt_spec(fields_seq(fields)[0]) matches Ok(of) && s == debug_title_text()
            + field_line_spec(false, dec_seq(0), Fmt::derive_spec(root, variant, of)),
{
    let v = fields_seq(fields);
    let ls = unnamed_lines_spec(v, 0, false, root, variant)->Ok_0;
    lemma_unnamed_lines_indexed(v, 0, false, root, variant, ls);
    assert(ls.drop_first() =~= Seq::<Seq<char>>::empty());
    assert(concat_lines(Seq::<Seq<char>>::empty()) =~= Seq::<char>::empty());
    assert(concat_lines(ls) =~= ls[0]);
}

/// Two or more positional fields each render behind their index: every
/// line of the data section is the `index: {index...}` prefixed form.
pub proof fn lemma_positional_multi(
    fields: Fields,
    root: ErrorArgs,
    variant: Option<ErrorArgs>,
    s: Seq<char>,
)
    requires
        fields is Unnamed,
        fields_seq(fields).len() >= 2,
        data_section_spec(fields, root, variant) == Ok::<Seq<char>, ParseError>(s),
    ensures
        unnamed_lines_spec(fields_seq(fields), 0, true, root, variant) matches Ok(ls) && s
            == debug_title_text() + concat_lines(ls) && ls.len() == fields_seq(fields).len()
            && forall|i: int|
            0 <= i < ls.len() ==> ((#[trigger] field_fmt_spec(fields_seq(fields)[i])) matches Ok(
                of,
            ) && ls[i] == field_line_spec(
                true,
                dec_seq(i as nat),
                Fmt::derive_spec(root, variant, of),
            )),
{
    let v = fields_seq(fields);
    let ls = unnamed_lines_spec(v, 0, true, root, variant)->Ok_0;
    lemma_unnamed_lines_indexed(v, 0, true, root, variant, ls);
}

} // verus!
