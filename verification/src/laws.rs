//! The general guarantees of the emitter, stated and proved once over the
//! spec functions that every writer's contract pins its output to.

use vstd::prelude::*;
use crate::ir::{ConstDecl, Decl, EnumDecl, FormatError, SpecialType, StructDecl, TypeAliasDecl};
use crate::naming::{needs_quoting, spec_camel_case, spec_property_rename};
use crate::reasonml::{
    spec_alias_text, spec_comment_interior, spec_comments, spec_const_text, spec_enum_text,
    spec_module_text, spec_struct_text, tab,
};
use crate::typefmt::{is_open_generic, spec_format_special, spec_format_type, wrap_ok};

verus! {

/// True of the 64-bit-class numeric kinds, the ones that can never format.
pub open spec fn is_wide64(sp: SpecialType) -> bool {
    match sp {
        SpecialType::U64 => true,
        SpecialType::I64 => true,
        SpecialType::ISize => true,
        SpecialType::USize => true,
        _ => false,
    }
}

/// Every special kind outside the 64-bit class formats structurally: a
/// leaf kind is always a token, and a wrapper kind is exactly its own
/// delimiters around whatever its nested type formats to, so composition
/// is structural (a list of an optional of a string is the list wrapper
/// applied to the optional wrapper applied to the string token).
pub proof fn lemma_composition_structural(
    m: Seq<(String, String)>,
    sp: SpecialType,
    g: Seq<String>,
)
    requires
        !is_wide64(sp),
    ensures
        match sp {
            SpecialType::List(t) => spec_format_special(m, sp, g) == wrap_ok(
                "array("@,
                spec_format_type(m, *t, g),
                ")"@,
            ),
            SpecialType::FixedArray(t, _len) => spec_format_special(m, sp, g) == wrap_ok(
                "array("@,
                spec_format_type(m, *t, g),
                ")"@,
            ),
            SpecialType::SliceView(t) => spec_format_special(m, sp, g) == wrap_ok(
                "array("@,
                spec_format_type(m, *t, g),
                ")"@,
            ),
            SpecialType::Optional(t) => spec_format_special(m, sp, g) == wrap_ok(
                "option("@,
                spec_format_type(m, *t, g),
                ")"@,
            ),
            SpecialType::AssocMap(k, v) => spec_format_special(m, sp, g) == (if is_open_generic(
                *k,
                g,
            ) {
                Result::<Seq<char>, FormatError>::Err(FormatError::GenericKeyForbidden)
            } else {
                wrap_ok("Js.Dict.t("@, spec_format_type(m, *v, g), ")"@)
            }),
            _ => spec_format_special(m, sp, g) is Ok,
        },
{
}

/// Formatting any 64-bit-class kind always fails with
/// UnsupportedNumericWidth; it never yields a token.
pub proof fn lemma_wide64_always_fails(m: Seq<(String, String)>, sp: SpecialType, g: Seq<String>)
    requires
        is_wide64(sp),
    ensures
        spec_format_special(m, sp, g) == Result::<Seq<char>, FormatError>::Err(
            FormatError::UnsupportedNumericWidth,
        ),
{
}

/// A map whose key type is an open generic parameter of the owning
/// declaration always fails with GenericKeyForbidden, whatever its value
/// type is.
pub proof fn lemma_generic_map_key_fails(m: Seq<(String, String)>, sp: SpecialType, g: Seq<String>)
    requires
        sp is AssocMap,
        is_open_generic(*sp->AssocMap_0, g),
    ensures
        spec_format_special(m, sp, g) == Result::<Seq<char>, FormatError>::Err(
            FormatError::GenericKeyForbidden,
        ),
{
}

/// The number of newline characters in `s`; since every emitted line ends
/// with a newline, this is the number of output lines.
pub open spec fn line_count(s: Seq<char>) -> int
    decreases s.len(),
{
    if s.len() == 0 {
        0
    } else {
        (if s[0] == '\n' {
            1int
        } else {
            0int
        }) + line_count(s.drop_first())
    }
}

/// Newlines in a concatenation are the newlines of the parts.
pub proof fn lemma_line_count_add(a: Seq<char>, b: Seq<char>)
    ensures
        line_count(a + b) == line_count(a) + line_count(b),
    decreases a.len(),
{
    if a.len() == 0 {
        assert(a + b =~= b);
    } else {
        assert((a + b).drop_first() =~= a.drop_first() + b);
        lemma_line_count_add(a.drop_first(), b);
    }
}

/// A text without newline characters has no lines.
pub proof fn lemma_line_count_zero(s: Seq<char>)
    requires
        forall|j: int| 0 <= j < s.len() ==> s[j] != '\n',
    ensures
        line_count(s) == 0,
    decreases s.len(),
{
    if s.len() > 0 {
        lemma_line_count_zero(s.drop_first());
    }
}

/// Indentation holds no newline.
pub proof fn lemma_line_count_tab(n: nat)
    ensures
        line_count(tab(n)) == 0,
    decreases n,
{
    if n == 0 {
    } else {
        lemma_line_count_tab((n - 1) as nat);
        reveal_strlit("  ");
        lemma_line_count_add(tab((n - 1) as nat), "  "@);
        lemma_line_count_zero("  "@);
    }
}

/// The newline literal is one line end.
proof fn lemma_line_count_newline()
    ensures
        line_count("\n"@) == 1,
{
    reveal_strlit("\n");
    assert("\n"@ =~= seq!['\n']);
    assert(line_count(seq!['\n'].drop_first()) == 0);
}

/// The interior of a block comment has exactly one output line per source
/// line, each carrying its own indentation.
proof fn lemma_line_count_interior(cs: Seq<String>, ind: nat, i: int)
    requires
        0 <= i <= cs.len(),
        forall|k: int, j: int|
            0 <= k < cs.len() && 0 <= j < cs[k]@.len() ==> cs[k]@[j] != '\n',
    ensures
        line_count(spec_comment_interior(cs, ind, i)) == i,
    decreases i,
{
    if i > 0 {
        lemma_line_count_interior(cs, ind, i - 1);
        let prev = spec_comment_interior(cs, ind, i - 1);
        lemma_line_count_tab(ind);
        reveal_strlit(" * ");
        lemma_line_count_zero(" * "@);
        lemma_line_count_zero(cs[i - 1]@);
        lemma_line_count_newline();
        lemma_line_count_add(prev, tab(ind));
        lemma_line_count_add(prev + tab(ind), " * "@);
        lemma_line_count_add(prev + tab(ind) + " * "@, cs[i - 1]@);
        lemma_line_count_add(prev + tab(ind) + " * "@ + cs[i - 1]@, "\n"@);
    }
}

/// The comment writer's shape, over newline-free comment lines: no lines
/// emit nothing; one line emits exactly one output line; N > 1 lines emit
/// a block of N + 2 output lines — the opening line, one interior line per
/// source line (each its own indentation, ` * `, and the source line), and
/// the closing line.
pub proof fn lemma_comment_line_counts(cs: Seq<String>, ind: nat)
    requires
        forall|k: int, j: int|
            0 <= k < cs.len() && 0 <= j < cs[k]@.len() ==> cs[k]@[j] != '\n',
    ensures
        cs.len() == 0 ==> spec_comments(cs, ind) == Seq::<char>::empty(),
        cs.len() == 1 ==> line_count(spec_comments(cs, ind)) == 1,
        cs.len() > 1 ==> line_count(spec_comments(cs, ind)) == cs.len() + 2,
{
    lemma_line_count_tab(ind);
    lemma_line_count_newline();
    if cs.len() == 1 {
        reveal_strlit("/* ");
        reveal_strlit(" */");
        lemma_line_count_zero("/* "@);
        lemma_line_count_zero(" */"@);
        lemma_line_count_zero(cs[0]@);
        lemma_line_count_add(tab(ind), "/* "@);
        lemma_line_count_add(tab(ind) + "/* "@, cs[0]@);
        lemma_line_count_add(tab(ind) + "/* "@ + cs[0]@, " */"@);
        lemma_line_count_add(tab(ind) + "/* "@ + cs[0]@ + " */"@, "\n"@);
    } else if cs.len() > 1 {
        reveal_strlit("/*\n");
        reveal_strlit(" */");
        reveal_strlit("\n");
        let s3 = seq!['/', '*', '\n'];
        assert("/*\n"@ =~= s3);
        assert(s3.drop_first() =~= seq!['*', '\n']);
        assert(seq!['*', '\n'].drop_first() =~= seq!['\n']);
        assert(seq!['\n'] =~= "\n"@);
        assert(line_count(seq!['\n']) == 1);
        assert(line_count(seq!['*', '\n']) == 1);
        assert(line_count(s3) == 1);
        assert(line_count("/*\n"@) == 1);
        lemma_line_count_zero(" */"@);
        let interior = spec_comment_interior(cs, ind, cs.len() as int);
        lemma_line_count_interior(cs, ind, cs.len() as int);
        lemma_line_count_add(tab(ind), "/*\n"@);
        lemma_line_count_add(tab(ind) + "/*\n"@, interior);
        lemma_line_count_add(tab(ind) + "/*\n"@ + interior, tab(ind));
        lemma_line_count_add(tab(ind) + "/*\n"@ + interior + tab(ind), " */"@);
        lemma_line_count_add(tab(ind) + "/*\n"@ + interior + tab(ind) + " */"@, "\n"@);
    }
}

/// The quoted identifier form preserves the literal name exactly: the
/// emitted characters are one double quote, the name unchanged, and one
/// double quote; a name that needs no quoting is emitted unchanged.
pub proof fn lemma_rename_preserves_literal(s: Seq<char>)
    ensures
        needs_quoting(s) ==> {
            let r = spec_property_rename(s);
            &&& r.len() == s.len() + 2
            &&& r[0] == '"'
            &&& r[s.len() as int + 1] == '"'
            &&& r.subrange(1, s.len() as int + 1) == s
        },
        !needs_quoting(s) ==> spec_property_rename(s) == s,
{
    reveal_strlit("\"");
    if needs_quoting(s) {
        assert("\""@ =~= seq!['"']);
        assert(spec_property_rename(s).subrange(1, s.len() as int + 1) =~= s);
    }
}

/// Emission is deterministic: every declaration's text is a mathematical
/// function of the rename table and the declaration alone, so re-running
/// the emitter on identical IR and configuration, starting from equal
/// buffers, yields byte-identical buffers.
pub proof fn lemma_emit_deterministic(
    m: Seq<(String, String)>,
    out1: Seq<char>,
    out2: Seq<char>,
    s: StructDecl,
    e: EnumDecl,
    a: TypeAliasDecl,
    c: ConstDecl,
    hdr: bool,
    imports: Seq<(String, Vec<String>)>,
    ds: Seq<Decl>,
)
    requires
        out1 == out2,
    ensures
        spec_struct_text(m, s) matches Result::Ok(t) ==> out1 + t == out2 + t,
        spec_enum_text(m, e) matches Result::Ok(t) ==> out1 + t == out2 + t,
        spec_alias_text(m, a) matches Result::Ok(t) ==> out1 + t == out2 + t,
        spec_const_text(m, c) matches Result::Ok(t) ==> out1 + t == out2 + t,
        spec_module_text(m, hdr, imports, ds) matches Result::Ok(t) ==> out1 + t == out2 + t,
{
}

/// A struct with no fields emits the opaque type declaration — its
/// comments, then `type name;` and a line end — never an empty record
/// body.
pub proof fn lemma_empty_struct_opaque(m: Seq<(String, String)>, rs: StructDecl)
    requires
        rs.fields@.len() == 0,
    ensures
        spec_struct_text(m, rs) == Result::<Seq<char>, FormatError>::Ok(
            spec_comments(rs.comments@, 0) + "type "@ + spec_camel_case(rs.id.renamed@) + ";\n"@,
        ),
{
}

} // verus!
