//! The ReasonML backend: configuration and declaration emitters.
//!
//! Each emitter appends one declaration's text to a growable output buffer;
//! the text it appends is pinned, character for character, by a spec
//! function of the declaration and the configuration alone.

use vstd::prelude::*;
use crate::ir::{
    ConstDecl, ConstExpr, Decl, EnumDecl, EnumVariant, Field, FormatError, StructDecl,
    TypeAliasDecl, VariantShared,
};
use crate::naming::{
    reasonml_property_aware_rename, spec_camel_case, spec_property_rename,
    spec_screaming_snake_case, to_camel_case, to_screaming_snake_case,
};
use crate::numtext::{append_i128_dec, int_str};
use crate::typefmt::{is_optional, is_optional_exec, spec_format_type};

verus! {

/// All information needed to generate ReasonML type-code.
pub struct ReasonML {
    /// Mappings from source type names to ReasonML type names, consulted
    /// before the camel-case convention. Built once per run, keys unique,
    /// read-only during emission.
    pub type_mappings: Vec<(String, String)>,
    /// Whether to exclude the version header that normally appears at the
    /// top of generated code.
    pub no_version_header: bool,
}

impl Default for ReasonML {
    /// An empty rename table and the version header enabled.
    fn default() -> (r: Self)
        ensures
            r.type_mappings@ == Seq::<(String, String)>::empty(),
            !r.no_version_header,
    {
        ReasonML { type_mappings: Vec::new(), no_version_header: false }
    }
}

/// The text the version header contributes at the top of a file: nothing
/// when it is suppressed.
pub open spec fn spec_header(no_version_header: bool) -> Seq<char> {
    if no_version_header {
        Seq::<char>::empty()
    } else {
        "/*\n * Generated by typeshare\n */\n\n"@
    }
}

impl ReasonML {
    /// The rename table, as consulted by the type formatter.
    pub fn type_map(&self) -> (r: &Vec<(String, String)>)
        ensures
            r == &self.type_mappings,
    {
        &self.type_mappings
    }

    /// The type names whose cross-module references are handled by the
    /// rename table and therefore need no import: the table's keys.
    pub fn ignored_reference_types(&self) -> (r: Vec<String>)
        ensures
            r@.len() == self.type_mappings@.len(),
            forall|i: int| 0 <= i < r@.len() ==> r@[i]@ == self.type_mappings@[i].0@,
    {
        let n: usize = self.type_mappings.len();
        let mut out: Vec<String> = Vec::new();
        let mut i: usize = 0;
        while i < n
            invariant
                i <= n,
                n == self.type_mappings@.len(),
                out@.len() == i,
                forall|j: int| 0 <= j < i ==> out@[j]@ == self.type_mappings@[j].0@,
            decreases n - i,
        {
            out.push(self.type_mappings[i].0.clone());
            i = i + 1;
        }
        out
    }

    /// Starts a module's output: appends the version header unless it is
    /// suppressed.
    pub fn begin_file(&self, out: &mut String)
        ensures
            final(out)@ == old(out)@ + spec_header(self.no_version_header),
    {
        if !self.no_version_header {
            out.append("/*\n * Generated by typeshare\n */\n\n");
        }
    }

    /// Writes a documentation comment at the given indent depth: nothing
    /// for no lines, a single-line comment for one line, a block comment
    /// with one interior line per source line for more.
    pub fn write_comments(&self, out: &mut String, indent: usize, comments: &Vec<String>)
        ensures
            final(out)@ == old(out)@ + spec_comments(comments@, indent as nat),
    {
        if comments.len() == 0 {
            return ;
        }
        let t = make_tab(indent);
        if comments.len() == 1 {
            out.append(t.as_str());
            out.append("/* ");
            out.append(comments[0].as_str());
            out.append(" */");
            out.append("\n");
            proof {
                assert(out@ =~= old(out)@ + spec_comments(comments@, indent as nat));
            }
        } else {
            out.append(t.as_str());
            out.append("/*\n");
            let n: usize = comments.len();
            let mut i: usize = 0;
            while i < n
                invariant
                    i <= n,
                    out@ == old(out)@ + tab(indent as nat) + "/*\n"@ + spec_comment_interior(
                        comments@,
                        indent as nat,
                        i as int,
                    ),
                decreases n - i,
            {
                out.append(t.as_str());
                out.append(" * ");
                out.append(comments[i].as_str());
                out.append("\n");
                proof {
                    assert(out@ =~= old(out)@ + tab(indent as nat) + "/*\n"@
                        + spec_comment_interior(comments@, indent as nat, i + 1));
                }
                i = i + 1;
            }
            out.append(t.as_str());
            out.append(" */");
            out.append("\n");
            proof {
                assert(out@ =~= old(out)@ + spec_comments(comments@, indent as nat));
            }
        }
    }

    /// Writes one field line: the field's comments, then the renamed field
    /// and its type, the backend override taking precedence over the
    /// formatted type. A field whose type is not already optional but which
    /// has a default value is emitted with its type wrapped in
    /// `option(...)`, since such a field may be absent on the wire. On a
    /// formatting error nothing is written.
    pub fn write_field(&self, out: &mut String, field: &Field, generic_types: &Vec<String>) -> (r:
        Result<(), FormatError>)
        ensures
            emit_matches(
                old(out)@,
                final(out)@,
                r,
                spec_field_text(self.type_mappings@, *field, generic_types@),
            ),
    {
        let ty_txt: String = match &field.type_override {
            Some(o) => o.clone(),
            None => match self.format_type(&field.ty, generic_types) {
                Ok(t) => t,
                Err(e) => {
                    return Err(e);
                },
            },
        };
        let marked: String = if field.has_default && !is_optional_exec(&field.ty) {
            let mut w = String::from_str("option(");
            w.append(ty_txt.as_str());
            w.append(")");
            w
        } else {
            ty_txt
        };
        self.write_comments(out, 1, &field.comments);
        out.append("    ");
        let rn = reasonml_property_aware_rename(field.id.renamed.as_str());
        out.append(rn.as_str());
        out.append(": ");
        out.append(marked.as_str());
        out.append(",\n");
        proof {
            assert(out@ =~= old(out)@ + (spec_comments(field.comments@, 1) + "    "@
                + spec_property_rename(field.id.renamed@) + ": "@ + marked@ + ",\n"@));
        }
        Ok(())
    }

    /// Writes every field line in order; stops at the first formatting
    /// error, which the caller treats by discarding the buffer.
    pub fn write_fields(&self, out: &mut String, fields: &Vec<Field>, generic_types: &Vec<
        String,
    >) -> (r: Result<(), FormatError>)
        ensures
            spec_fields_text(self.type_mappings@, fields@, generic_types@) matches Result::Ok(t)
                ==> r is Ok && final(out)@ == old(out)@ + t,
            spec_fields_text(self.type_mappings@, fields@, generic_types@) matches Result::Err(e)
                ==> r matches Result::Err(re) && re == e,
    {
        let n: usize = fields.len();
        let mut i: usize = 0;
        while i < n
            invariant
                i <= n,
                spec_fields_upto(self.type_mappings@, fields@, generic_types@, i as int)
                    matches Result::Ok(acc) && out@ == old(out)@ + acc,
            decreases n - i,
        {
            match self.write_field(out, &fields[i], generic_types) {
                Ok(_) => {},
                Err(e) => {
                    proof {
                        lemma_fields_err_propagates(
                            self.type_mappings@,
                            fields@,
                            generic_types@,
                            i + 1,
                            fields@.len() as int,
                        );
                    }
                    return Err(e);
                },
            }
            proof {
                let acc = spec_fields_upto(
                    self.type_mappings@,
                    fields@,
                    generic_types@,
                    i as int,
                )->Ok_0;
                let t = spec_field_text(self.type_mappings@, fields@[i as int], generic_types@)->Ok_0;
                assert(out@ =~= old(out)@ + (acc + t));
            }
            i = i + 1;
        }
        Ok(())
    }

    /// Writes a struct declaration: its comments, then an opaque type when
    /// it has no fields, else a record with one line per field. On a
    /// formatting error nothing is written.
    pub fn write_struct(&self, out: &mut String, rs: &StructDecl) -> (r: Result<(), FormatError>)
        ensures
            emit_matches(old(out)@, final(out)@, r, spec_struct_text(self.type_mappings@, *rs)),
    {
        let mut buf = String::new();
        self.write_comments(&mut buf, 0, &rs.comments);
        let name = to_camel_case(rs.id.renamed.as_str());
        if rs.fields.len() == 0 {
            buf.append("type ");
            buf.append(name.as_str());
            buf.append(";\n");
            out.append(buf.as_str());
            proof {
                assert(out@ =~= old(out)@ + (spec_comments(rs.comments@, 0) + "type "@
                    + spec_camel_case(rs.id.renamed@) + ";\n"@));
            }
            return Ok(());
        }
        let params = generic_params(&rs.generic_types);
        buf.append("type ");
        buf.append(name.as_str());
        buf.append(params.as_str());
        buf.append(" = {\n");
        match self.write_fields(&mut buf, &rs.fields, &rs.generic_types) {
            Ok(_) => {},
            Err(e) => {
                return Err(e);
            },
        }
        buf.append("};\n\n");
        out.append(buf.as_str());
        proof {
            let body = spec_fields_text(self.type_mappings@, rs.fields@, rs.generic_types@)->Ok_0;
            assert(out@ =~= old(out)@ + (spec_comments(rs.comments@, 0) + "type "@
                + spec_camel_case(rs.id.renamed@) + spec_generic_params(rs.generic_types@)
                + " = {\n"@ + body + "};\n\n"@));
        }
        Ok(())
    }

    /// Writes a type alias declaration: its comments, then
    /// `type name<generics> = aliased;`. On a formatting error nothing is
    /// written.
    pub fn write_type_alias(&self, out: &mut String, ty: &TypeAliasDecl) -> (r: Result<
        (),
        FormatError,
    >)
        ensures
            emit_matches(old(out)@, final(out)@, r, spec_alias_text(self.type_mappings@, *ty)),
    {
        let formatted = match self.format_type(&ty.ty, &ty.generic_types) {
            Ok(t) => t,
            Err(e) => {
                return Err(e);
            },
        };
        let mut buf = String::new();
        self.write_comments(&mut buf, 0, &ty.comments);
        let name = to_camel_case(ty.id.renamed.as_str());
        let params = generic_params(&ty.generic_types);
        buf.append("type ");
        buf.append(name.as_str());
        buf.append(params.as_str());
        buf.append(" = ");
        buf.append(formatted.as_str());
        buf.append(";\n\n");
        out.append(buf.as_str());
        proof {
            assert(out@ =~= old(out)@ + (spec_comments(ty.comments@, 0) + "type "@
                + spec_camel_case(ty.id.renamed@) + spec_generic_params(ty.generic_types@) + " = "@
                + formatted@ + ";\n\n"@));
        }
        Ok(())
    }

    /// Writes an integer constant declaration:
    /// `let NAME = (value: type);`. On a formatting error nothing is
    /// written.
    pub fn write_const(&self, out: &mut String, c: &ConstDecl) -> (r: Result<(), FormatError>)
        ensures
            emit_matches(old(out)@, final(out)@, r, spec_const_text(self.type_mappings@, *c)),
    {
        match &c.expr {
            ConstExpr::Int(val) => {
                let no_generics: Vec<String> = Vec::new();
                let formatted = match self.format_type(&c.ty, &no_generics) {
                    Ok(t) => t,
                    Err(e) => {
                        return Err(e);
                    },
                };
                let name = to_screaming_snake_case(c.id.renamed.as_str());
                let mut buf = String::from_str("let ");
                buf.append(name.as_str());
                buf.append(" = (");
                append_i128_dec(&mut buf, *val);
                buf.append(": ");
                buf.append(formatted.as_str());
                buf.append(");\n");
                out.append(buf.as_str());
                proof {
                    assert(no_generics@ =~= Seq::<String>::empty());
                    assert(out@ =~= old(out)@ + ("let "@ + spec_screaming_snake_case(
                        c.id.renamed@,
                    ) + " = ("@ + int_str(*val as int) + ": "@ + formatted@ + ");\n"@));
                }
                Ok(())
            },
        }
    }

    /// Writes the variant list of an enum. Unit-enum tags keep their
    /// literal names. Algebraic variants each carry the tag key literally,
    /// typed `string`, and payload-bearing variants add the content key
    /// with the payload's type, so a decoded value type-checks against the
    /// agreed wire shape. On a formatting error nothing is written.
    #[verifier::rlimit(60)]
    pub fn write_enum_variants(&self, out: &mut String, e: &EnumDecl) -> (r: Result<
        (),
        FormatError,
    >)
        ensures
            emit_matches(
                old(out)@,
                final(out)@,
                r,
                spec_enum_variants_text(self.type_mappings@, *e),
            ),
    {
        match e {
            EnumDecl::Unit { shared: _, variants } => {
                let n: usize = variants.len();
                let mut i: usize = 0;
                while i < n
                    invariant
                        i <= n,
                        out@ == old(out)@ + spec_unit_variants_upto(variants@, i as int),
                    decreases n - i,
                {
                    let v = &variants[i];
                    self.write_comments(out, 1, &v.comments);
                    out.append("  | ");
                    out.append(v.id.renamed.as_str());
                    out.append("\n");
                    proof {
                        assert(out@ =~= old(out)@ + spec_unit_variants_upto(variants@, i + 1));
                    }
                    i = i + 1;
                }
                Ok(())
            },
            EnumDecl::Algebraic { tag_key, content_key, shared, variants } => {
                let mut buf = String::new();
                let n: usize = variants.len();
                let mut i: usize = 0;
                while i < n
                    invariant
                        i <= n,
                        spec_alg_variants_upto(
                            self.type_mappings@,
                            variants@,
                            tag_key@,
                            content_key@,
                            shared.generic_types@,
                            i as int,
                        ) matches Result::Ok(acc) && buf@ == acc,
                    decreases n - i,
                {
                    match self.write_variant(
                        &mut buf,
                        &variants[i],
                        tag_key,
                        content_key,
                        &shared.generic_types,
                    ) {
                        Ok(_) => {},
                        Err(e2) => {
                            proof {
                                lemma_alg_variants_err_propagates(
                                    self.type_mappings@,
                                    variants@,
                                    tag_key@,
                                    content_key@,
                                    shared.generic_types@,
                                    i + 1,
                                    variants@.len() as int,
                                );
                            }
                            return Err(e2);
                        },
                    }
                    proof {
                        let acc = spec_alg_variants_upto(
                            self.type_mappings@,
                            variants@,
                            tag_key@,
                            content_key@,
                            shared.generic_types@,
                            i as int,
                        )->Ok_0;
                        let t = spec_variant_text(
                            self.type_mappings@,
                            variants@[i as int],
                            tag_key@,
                            content_key@,
                            shared.generic_types@,
                        )->Ok_0;
                        assert(buf@ =~= acc + t);
                    }
                    i = i + 1;
                }
                out.append(buf.as_str());
                Ok(())
            },
        }
    }

    /// Writes one algebraic-enum variant branch. On a formatting error
    /// nothing is written.
    fn write_variant(
        &self,
        buf: &mut String,
        v: &EnumVariant,
        tag_key: &String,
        content_key: &String,
        generic_types: &Vec<String>,
    ) -> (r: Result<(), FormatError>)
        ensures
            emit_matches(
                old(buf)@,
                final(buf)@,
                r,
                spec_variant_text(self.type_mappings@, *v, tag_key@, content_key@, generic_types@),
            ),
    {
        match v {
            EnumVariant::Unit { shared: vs } => {
                self.write_comments(buf, 1, &vs.comments);
                buf.append("  | ");
                buf.append(vs.id.renamed.as_str());
                buf.append("(");
                buf.append(tag_key.as_str());
                buf.append(": string)\n");
                proof {
                    assert(buf@ =~= old(buf)@ + (spec_comments(vs.comments@, 1) + "  | "@
                        + vs.id.renamed@ + "("@ + tag_key@ + ": string)\n"@));
                }
                Ok(())
            },
            EnumVariant::Tuple { ty, shared: vs } => {
                let t = match self.format_type(ty, generic_types) {
                    Ok(t) => t,
                    Err(e2) => {
                        return Err(e2);
                    },
                };
                self.write_comments(buf, 1, &vs.comments);
                buf.append("  | ");
                buf.append(vs.id.renamed.as_str());
                buf.append("(");
                buf.append(tag_key.as_str());
                buf.append(": string, ");
                buf.append(content_key.as_str());
                buf.append(": ");
                buf.append(t.as_str());
                buf.append(")\n");
                proof {
                    assert(buf@ =~= old(buf)@ + (spec_comments(vs.comments@, 1) + "  | "@
                        + vs.id.renamed@ + "("@ + tag_key@ + ": string, "@ + content_key@ + ": "@
                        + t@ + ")\n"@));
                }
                Ok(())
            },
            EnumVariant::AnonymousStruct { fields, shared: vs } => {
                let mut body = String::new();
                match self.write_fields(&mut body, fields, generic_types) {
                    Ok(_) => {},
                    Err(e2) => {
                        return Err(e2);
                    },
                }
                self.write_comments(buf, 1, &vs.comments);
                buf.append("  | ");
                buf.append(vs.id.renamed.as_str());
                buf.append("(");
                buf.append(tag_key.as_str());
                buf.append(": string, ");
                buf.append(content_key.as_str());
                buf.append(": {\n");
                buf.append(body.as_str());
                buf.append("  })\n");
                proof {
                    assert(buf@ =~= old(buf)@ + (spec_comments(vs.comments@, 1) + "  | "@
                        + vs.id.renamed@ + "("@ + tag_key@ + ": string, "@ + content_key@
                        + ": {\n"@ + body@ + "  })\n"@));
                }
                Ok(())
            },
        }
    }

    /// Writes an enum declaration: its comments, then for a unit enum the
    /// closed tag set, and for an algebraic enum an explicit unsupported
    /// placeholder with an opaque type, since ReasonML has no construct for
    /// the tagged-union wire shape. Never fails: the placeholder keeps the
    /// rest of the module's output flowing.
    pub fn write_enum(&self, out: &mut String, e: &EnumDecl) -> (r: Result<(), FormatError>)
        ensures
            emit_matches(old(out)@, final(out)@, r, spec_enum_text(self.type_mappings@, *e)),
    {
        let mut buf = String::new();
        self.write_comments(&mut buf, 0, &e.shared().comments);
        let name = to_camel_case(e.shared().id.renamed.as_str());
        match e {
            EnumDecl::Unit { shared, variants: _ } => {
                let params = generic_params(&shared.generic_types);
                buf.append("type ");
                buf.append(name.as_str());
                buf.append(params.as_str());
                buf.append(" =\n");
                match self.write_enum_variants(&mut buf, e) {
                    Ok(_) => {},
                    Err(_) => {
                        proof {
                            assert(false);
                        }
                    },
                }
                buf.append(";\n\n");
                out.append(buf.as_str());
                proof {
                    let variants = e->Unit_variants;
                    assert(out@ =~= old(out)@ + (spec_comments(e.spec_shared().comments@, 0)
                        + "type "@ + spec_camel_case(e.spec_shared().id.renamed@)
                        + spec_generic_params(shared.generic_types@) + " =\n"@
                        + spec_unit_variants_upto(variants@, variants@.len() as int) + ";\n\n"@));
                }
                Ok(())
            },
            EnumDecl::Algebraic { .. } => {
                buf.append("/* Unsupported Serde Serialisation */\n");
                buf.append("type ");
                buf.append(name.as_str());
                buf.append(";\n\n");
                out.append(buf.as_str());
                proof {
                    assert(out@ =~= old(out)@ + (spec_comments(e.spec_shared().comments@, 0)
                        + "/* Unsupported Serde Serialisation */\n"@ + "type "@ + spec_camel_case(
                        e.spec_shared().id.renamed@,
                    ) + ";\n\n"@));
                }
                Ok(())
            },
        }
    }

    /// Emits one `open` line per imported module path.
    pub fn write_imports(&self, out: &mut String, imports: &Vec<(String, Vec<String>)>)
        ensures
            final(out)@ == old(out)@ + spec_imports(imports@),
    {
        let n: usize = imports.len();
        let mut i: usize = 0;
        while i < n
            invariant
                i <= n,
                n == imports@.len(),
                out@ == old(out)@ + spec_imports_upto(imports@, i as int),
            decreases n - i,
        {
            out.append("open ");
            out.append(imports[i].0.as_str());
            out.append(";\n\n");
            proof {
                assert(out@ == old(out)@ + spec_imports_upto(imports@, i + 1 as int));
            }
            i = i + 1;
        }
    }
}

/// Relates an emitter's outcome to its specified text: on success the
/// specified text, and nothing else, was appended to the buffer; on failure
/// the specified error is returned and the buffer is untouched.
pub open spec fn emit_matches(
    old_out: Seq<char>,
    new_out: Seq<char>,
    r: Result<(), FormatError>,
    s: Result<Seq<char>, FormatError>,
) -> bool {
    match s {
        Result::Ok(t) => r is Ok && new_out == old_out + t,
        Result::Err(e) => r matches Result::Err(re) && re == e && new_out == old_out,
    }
}

/// The indentation for depth `n`: two spaces per level.
pub open spec fn tab(n: nat) -> Seq<char>
    decreases n,
{
    if n == 0 {
        Seq::<char>::empty()
    } else {
        tab((n - 1) as nat) + "  "@
    }
}

/// The interior lines of a block comment for the first `i` comment lines:
/// each source line becomes one output line `{tab} * {line}`.
pub open spec fn spec_comment_interior(cs: Seq<String>, ind: nat, i: int) -> Seq<char>
    decreases i,
{
    if i <= 0 {
        Seq::<char>::empty()
    } else {
        spec_comment_interior(cs, ind, i - 1) + tab(ind) + " * "@ + cs[i - 1]@ + "\n"@
    }
}

/// The rendered documentation comment at indent depth `ind`: no lines emit
/// nothing, one line emits a single-line comment, two or more lines emit a
/// block comment with one interior line per source line.
pub open spec fn spec_comments(cs: Seq<String>, ind: nat) -> Seq<char> {
    if cs.len() == 0 {
        Seq::<char>::empty()
    } else if cs.len() == 1 {
        tab(ind) + "/* "@ + cs[0]@ + " */"@ + "\n"@
    } else {
        tab(ind) + "/*\n"@ + spec_comment_interior(cs, ind, cs.len() as int) + tab(ind) + " */"@
            + "\n"@
    }
}

/// The generic-parameter list through the first `i` names; meaningful for
/// `i >= 1`, as `('` and the first name are laid down at `i == 1`.
pub open spec fn spec_generic_upto(g: Seq<String>, i: int) -> Seq<char>
    decreases i,
{
    if i <= 1 {
        "('"@ + g[0]@
    } else {
        spec_generic_upto(g, i - 1) + ", '"@ + g[i - 1]@
    }
}

/// The generic-parameter list of a declaration: empty when there are no
/// generic parameters, else `('a, 'b)` with each name prefixed by a quote.
pub open spec fn spec_generic_params(g: Seq<String>) -> Seq<char> {
    if g.len() == 0 {
        Seq::<char>::empty()
    } else {
        spec_generic_upto(g, g.len() as int) + ")"@
    }
}

/// The text of one field line, or the formatting error for its type. The
/// line is the field's comments, then `    {name}: {type},` where the name
/// goes through the quoted-identifier policy and the type is the field's
/// backend override when one is given, else its formatted type. A field is
/// optional when its underlying type is optional or it has a default value:
/// a defaulted field may be absent on the wire, so when its type does not
/// already carry the absence marker, its emitted type is wrapped in
/// `option(...)` — the conservative collapse, since ReasonML has no second
/// missing-state marker; an already-optional type is not wrapped twice.
pub open spec fn spec_field_text(m: Seq<(String, String)>, f: Field, g: Seq<String>) -> Result<
    Seq<char>,
    FormatError,
> {
    let ty_txt = match f.type_override {
        Option::Some(o) => Result::Ok(o@),
        Option::None => spec_format_type(m, f.ty, g),
    };
    match ty_txt {
        Result::Ok(t) => {
            let marked = if f.has_default && !is_optional(f.ty) {
                "option("@ + t + ")"@
            } else {
                t
            };
            Result::Ok(
                spec_comments(f.comments@, 1) + "    "@ + spec_property_rename(f.id.renamed@)
                    + ": "@ + marked + ",\n"@,
            )
        },
        Result::Err(e) => Result::Err(e),
    }
}

/// The concatenated text of the first `i` field lines, or the first
/// formatting error among them.
pub open spec fn spec_fields_upto(
    m: Seq<(String, String)>,
    fs: Seq<Field>,
    g: Seq<String>,
    i: int,
) -> Result<Seq<char>, FormatError>
    decreases i,
{
    if i <= 0 {
        Result::Ok(Seq::<char>::empty())
    } else {
        match spec_fields_upto(m, fs, g, i - 1) {
            Result::Ok(acc) => match spec_field_text(m, fs[i - 1], g) {
                Result::Ok(t) => Result::Ok(acc + t),
                Result::Err(e) => Result::Err(e),
            },
            Result::Err(e) => Result::Err(e),
        }
    }
}

/// The concatenated text of all field lines, or the first formatting error.
pub open spec fn spec_fields_text(
    m: Seq<(String, String)>,
    fs: Seq<Field>,
    g: Seq<String>,
) -> Result<Seq<char>, FormatError> {
    spec_fields_upto(m, fs, g, fs.len() as int)
}

/// Once a prefix of the field lines fails, the whole list fails with the
/// same error.
pub proof fn lemma_fields_err_propagates(
    m: Seq<(String, String)>,
    fs: Seq<Field>,
    g: Seq<String>,
    i: int,
    j: int,
)
    requires
        0 <= i <= j <= fs.len(),
        spec_fields_upto(m, fs, g, i) is Err,
    ensures
        spec_fields_upto(m, fs, g, j) == spec_fields_upto(m, fs, g, i),
    decreases j - i,
{
    if j > i {
        lemma_fields_err_propagates(m, fs, g, i, j - 1);
    }
}

/// The text of a struct declaration, or the first formatting error among
/// its fields. A struct with no fields becomes an opaque type declaration
/// `type name;`, never an empty record body; otherwise the struct becomes a
/// record with one line per field.
pub open spec fn spec_struct_text(m: Seq<(String, String)>, rs: StructDecl) -> Result<
    Seq<char>,
    FormatError,
> {
    let cs = spec_comments(rs.comments@, 0);
    let name = spec_camel_case(rs.id.renamed@);
    if rs.fields@.len() == 0 {
        Result::Ok(cs + "type "@ + name + ";\n"@)
    } else {
        match spec_fields_text(m, rs.fields@, rs.generic_types@) {
            Result::Ok(body) => Result::Ok(
                cs + "type "@ + name + spec_generic_params(rs.generic_types@) + " = {\n"@ + body
                    + "};\n\n"@,
            ),
            Result::Err(e) => Result::Err(e),
        }
    }
}

/// The text of a type alias declaration, or the error from formatting the
/// aliased type.
pub open spec fn spec_alias_text(m: Seq<(String, String)>, ty: TypeAliasDecl) -> Result<
    Seq<char>,
    FormatError,
> {
    match spec_format_type(m, ty.ty, ty.generic_types@) {
        Result::Ok(t) => Result::Ok(
            spec_comments(ty.comments@, 0) + "type "@ + spec_camel_case(ty.id.renamed@)
                + spec_generic_params(ty.generic_types@) + " = "@ + t + ";\n\n"@,
        ),
        Result::Err(e) => Result::Err(e),
    }
}

/// The text of an integer constant declaration, or the error from
/// formatting its type: `let NAME = (value: type);` with the name in the
/// constant-naming convention. A constant stands outside any declaration's
/// generic scope, so its type is formatted with no generic parameters.
pub open spec fn spec_const_text(m: Seq<(String, String)>, c: ConstDecl) -> Result<
    Seq<char>,
    FormatError,
> {
    match c.expr {
        ConstExpr::Int(v) => match spec_format_type(m, c.ty, Seq::<String>::empty()) {
            Result::Ok(t) => Result::Ok(
                "let "@ + spec_screaming_snake_case(c.id.renamed@) + " = ("@ + int_str(v as int)
                    + ": "@ + t + ");\n"@,
            ),
            Result::Err(e) => Result::Err(e),
        },
    }
}

/// The text of the first `i` variants of a unit enum: each bare tag keeps
/// its literal name, preceded by its comments.
pub open spec fn spec_unit_variants_upto(vs: Seq<VariantShared>, i: int) -> Seq<char>
    decreases i,
{
    if i <= 0 {
        Seq::<char>::empty()
    } else {
        spec_unit_variants_upto(vs, i - 1) + spec_comments(vs[i - 1].comments@, 1) + "  | "@
            + vs[i - 1].id.renamed@ + "\n"@
    }
}

/// The text of one algebraic-enum variant, or the formatting error for its
/// payload. The wire keys appear literally: a unit variant carries only the
/// tag field, a tuple variant adds one content field of the wrapped type,
/// and an anonymous-struct variant adds a content field holding an inline
/// record of its fields.
pub open spec fn spec_variant_text(
    m: Seq<(String, String)>,
    v: EnumVariant,
    tag: Seq<char>,
    content: Seq<char>,
    g: Seq<String>,
) -> Result<Seq<char>, FormatError> {
    match v {
        EnumVariant::Unit { shared } => Result::Ok(
            spec_comments(shared.comments@, 1) + "  | "@ + shared.id.renamed@ + "("@ + tag
                + ": string)\n"@,
        ),
        EnumVariant::Tuple { ty, shared } => match spec_format_type(m, ty, g) {
            Result::Ok(t) => Result::Ok(
                spec_comments(shared.comments@, 1) + "  | "@ + shared.id.renamed@ + "("@ + tag
                    + ": string, "@ + content + ": "@ + t + ")\n"@,
            ),
            Result::Err(e) => Result::Err(e),
        },
        EnumVariant::AnonymousStruct { fields, shared } => match spec_fields_text(m, fields@, g) {
            Result::Ok(body) => Result::Ok(
                spec_comments(shared.comments@, 1) + "  | "@ + shared.id.renamed@ + "("@ + tag
                    + ": string, "@ + content + ": {\n"@ + body + "  })\n"@,
            ),
            Result::Err(e) => Result::Err(e),
        },
    }
}

/// The concatenated text of the first `i` algebraic variants, or the first
/// formatting error among them.
pub open spec fn spec_alg_variants_upto(
    m: Seq<(String, String)>,
    vs: Seq<EnumVariant>,
    tag: Seq<char>,
    content: Seq<char>,
    g: Seq<String>,
    i: int,
) -> Result<Seq<char>, FormatError>
    decreases i,
{
    if i <= 0 {
        Result::Ok(Seq::<char>::empty())
    } else {
        match spec_alg_variants_upto(m, vs, tag, content, g, i - 1) {
            Result::Ok(acc) => match spec_variant_text(m, vs[i - 1], tag, content, g) {
                Result::Ok(t) => Result::Ok(acc + t),
                Result::Err(e) => Result::Err(e),
            },
            Result::Err(e) => Result::Err(e),
        }
    }
}

/// Once a prefix of the variants fails, the whole list fails with the same
/// error.
pub proof fn lemma_alg_variants_err_propagates(
    m: Seq<(String, String)>,
    vs: Seq<EnumVariant>,
    tag: Seq<char>,
    content: Seq<char>,
    g: Seq<String>,
    i: int,
    j: int,
)
    requires
        0 <= i <= j <= vs.len(),
        spec_alg_variants_upto(m, vs, tag, content, g, i) is Err,
    ensures
        spec_alg_variants_upto(m, vs, tag, content, g, j) == spec_alg_variants_upto(
            m,
            vs,
            tag,
            content,
            g,
            i,
        ),
    decreases j - i,
{
    if j > i {
        lemma_alg_variants_err_propagates(m, vs, tag, content, g, i, j - 1);
    }
}

/// The text of an enum's variant list: literal tags for a unit enum; for an
/// algebraic enum one branch per variant carrying the wire keys literally.
pub open spec fn spec_enum_variants_text(m: Seq<(String, String)>, e: EnumDecl) -> Result<
    Seq<char>,
    FormatError,
> {
    match e {
        EnumDecl::Unit { shared, variants } => Result::Ok(
            spec_unit_variants_upto(variants@, variants@.len() as int),
        ),
        EnumDecl::Algebraic { tag_key, content_key, shared, variants } => spec_alg_variants_upto(
            m,
            variants@,
            tag_key@,
            content_key@,
            shared.generic_types@,
            variants@.len() as int,
        ),
    }
}

/// The text of an enum declaration. A unit enum becomes a closed set of
/// literal tags. ReasonML has no construct for serde's tagged-union wire
/// shape, so an algebraic enum degrades to an explicit unsupported
/// placeholder and an opaque type, never a silently wrong approximation;
/// that degradation is not an error and the rest of the module completes.
pub open spec fn spec_enum_text(m: Seq<(String, String)>, e: EnumDecl) -> Result<
    Seq<char>,
    FormatError,
> {
    let cs = spec_comments(e.spec_shared().comments@, 0);
    let name = spec_camel_case(e.spec_shared().id.renamed@);
    match e {
        EnumDecl::Unit { shared, variants } => Result::Ok(
            cs + "type "@ + name + spec_generic_params(shared.generic_types@) + " =\n"@
                + spec_unit_variants_upto(variants@, variants@.len() as int) + ";\n\n"@,
        ),
        EnumDecl::Algebraic { .. } => Result::Ok(
            cs + "/* Unsupported Serde Serialisation */\n"@ + "type "@ + name + ";\n\n"@,
        ),
    }
}

/// Builds the generic-parameter list of a declaration.
fn generic_params(g: &Vec<String>) -> (r: String)
    ensures
        r@ == spec_generic_params(g@),
{
    if g.len() == 0 {
        return String::new();
    }
    let mut out = String::from_str("('");
    out.append(g[0].as_str());
    let n: usize = g.len();
    let mut i: usize = 1;
    while i < n
        invariant
            1 <= i <= n,
            out@ == spec_generic_upto(g@, i as int),
        decreases n - i,
    {
        out.append(", '");
        out.append(g[i].as_str());
        proof {
            assert(out@ =~= spec_generic_upto(g@, i + 1));
        }
        i = i + 1;
    }
    out.append(")");
    out
}

/// Builds the indentation string for depth `indent`.
fn make_tab(indent: usize) -> (r: String)
    ensures
        r@ == tab(indent as nat),
{
    let mut t = String::new();
    let mut i: usize = 0;
    while i < indent
        invariant
            i <= indent,
            t@ == tab(i as nat),
        decreases indent - i,
    {
        t.append("  ");
        i = i + 1;
    }
    t
}

/// The text of the import lines for the first `i` import pairs: `open P;`
/// and a blank line for each module path `P`.
pub open spec fn spec_imports_upto(imports: Seq<(String, Vec<String>)>, i: int) -> Seq<char>
    decreases i,
{
    if i <= 0 {
        Seq::<char>::empty()
    } else {
        spec_imports_upto(imports, i - 1) + "open "@ + imports[i - 1].0@ + ";\n\n"@
    }
}

/// The text of all import lines, in the given order.
pub open spec fn spec_imports(imports: Seq<(String, Vec<String>)>) -> Seq<char> {
    spec_imports_upto(imports, imports.len() as int)
}

/// The text of one declaration, by its kind, or the error that aborts the
/// module.
pub open spec fn spec_decl_text(m: Seq<(String, String)>, d: Decl) -> Result<
    Seq<char>,
    FormatError,
> {
    match d {
        Decl::Alias(a) => spec_alias_text(m, a),
        Decl::Struct(s) => spec_struct_text(m, s),
        Decl::Enum(e) => spec_enum_text(m, e),
        Decl::Const(c) => spec_const_text(m, c),
    }
}

/// The concatenated text of the first `i` declarations, or the first
/// error among them.
pub open spec fn spec_decls_upto(m: Seq<(String, String)>, ds: Seq<Decl>, i: int) -> Result<
    Seq<char>,
    FormatError,
>
    decreases i,
{
    if i <= 0 {
        Result::Ok(Seq::<char>::empty())
    } else {
        match spec_decls_upto(m, ds, i - 1) {
            Result::Ok(acc) => match spec_decl_text(m, ds[i - 1]) {
                Result::Ok(t) => Result::Ok(acc + t),
                Result::Err(e) => Result::Err(e),
            },
            Result::Err(e) => Result::Err(e),
        }
    }
}

/// Once a prefix of the declarations fails, the whole module fails with
/// the same error.
pub proof fn lemma_decls_err_propagates(
    m: Seq<(String, String)>,
    ds: Seq<Decl>,
    i: int,
    j: int,
)
    requires
        0 <= i <= j <= ds.len(),
        spec_decls_upto(m, ds, i) is Err,
    ensures
        spec_decls_upto(m, ds, j) == spec_decls_upto(m, ds, i),
    decreases j - i,
{
    if j > i {
        lemma_decls_err_propagates(m, ds, i, j - 1);
    }
}

/// The text of a whole module: the optional version header, the import
/// lines, then each declaration's text in source order — or the first
/// formatting error, which aborts the module with no partial output.
pub open spec fn spec_module_text(
    m: Seq<(String, String)>,
    no_version_header: bool,
    imports: Seq<(String, Vec<String>)>,
    ds: Seq<Decl>,
) -> Result<Seq<char>, FormatError> {
    match spec_decls_upto(m, ds, ds.len() as int) {
        Result::Ok(body) => Result::Ok(
            spec_header(no_version_header) + spec_imports(imports) + body,
        ),
        Result::Err(e) => Result::Err(e),
    }
}

impl ReasonML {
    /// Writes one declaration, dispatched by its kind. On a formatting
    /// error nothing is written.
    pub fn write_decl(&self, out: &mut String, d: &Decl) -> (r: Result<(), FormatError>)
        ensures
            emit_matches(old(out)@, final(out)@, r, spec_decl_text(self.type_mappings@, *d)),
    {
        match d {
            Decl::Alias(a) => self.write_type_alias(out, a),
            Decl::Struct(s) => self.write_struct(out, s),
            Decl::Enum(e) => self.write_enum(out, e),
            Decl::Const(c) => self.write_const(out, c),
        }
    }

    /// Writes a whole module: the optional version header, one `open` line
    /// per import, then every declaration in source order. On a formatting
    /// error nothing is written: no partial output of the module is
    /// treated as valid.
    pub fn write_module(
        &self,
        out: &mut String,
        imports: &Vec<(String, Vec<String>)>,
        decls: &Vec<Decl>,
    ) -> (r: Result<(), FormatError>)
        ensures
            emit_matches(
                old(out)@,
                final(out)@,
                r,
                spec_module_text(self.type_mappings@, self.no_version_header, imports@, decls@),
            ),
    {
        let mut buf = String::new();
        self.begin_file(&mut buf);
        self.write_imports(&mut buf, imports);
        let n: usize = decls.len();
        let mut i: usize = 0;
        while i < n
            invariant
                i <= n,
                spec_decls_upto(self.type_mappings@, decls@, i as int) matches Result::Ok(acc)
                    && buf@ == spec_header(self.no_version_header) + spec_imports(imports@) + acc,
            decreases n - i,
        {
            match self.write_decl(&mut buf, &decls[i]) {
                Ok(_) => {},
                Err(e) => {
                    proof {
                        lemma_decls_err_propagates(
                            self.type_mappings@,
                            decls@,
                            i + 1,
                            decls@.len() as int,
                        );
                    }
                    return Err(e);
                },
            }
            proof {
                let acc = spec_decls_upto(self.type_mappings@, decls@, i as int)->Ok_0;
                let t = spec_decl_text(self.type_mappings@, decls@[i as int])->Ok_0;
                assert(buf@ =~= spec_header(self.no_version_header) + spec_imports(imports@) + (acc
                    + t));
            }
            i = i + 1;
        }
        out.append(buf.as_str());
        proof {
            let body = spec_decls_upto(self.type_mappings@, decls@, decls@.len() as int)->Ok_0;
            assert(out@ =~= old(out)@ + (spec_header(self.no_version_header) + spec_imports(
                imports@,
            ) + body));
        }
        Ok(())
    }
}

} // verus!
