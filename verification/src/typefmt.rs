//! The recursive IR-type to ReasonML-token formatter.

use vstd::prelude::*;
use crate::ir::{FormatError, SpecialType, TypeNode};
use crate::naming::{spec_camel_case, str_eq, to_camel_case};
use crate::reasonml::ReasonML;

verus! {

/// The first mapping for `key` in the rename table, if any. The table is
/// built once per run with unique keys, so first-match is the only match.
pub open spec fn spec_lookup_from(m: Seq<(String, String)>, key: Seq<char>, i: int) -> Option<
    Seq<char>,
>
    decreases m.len() - i,
{
    if i < 0 || i >= m.len() {
        Option::None
    } else if m[i].0@ == key {
        Option::Some(m[i].1@)
    } else {
        spec_lookup_from(m, key, i + 1)
    }
}

/// The rename-table entry for `key`, if any.
pub open spec fn spec_lookup(m: Seq<(String, String)>, key: Seq<char>) -> Option<Seq<char>> {
    spec_lookup_from(m, key, 0)
}

/// True when `g` holds a name equal to `n`.
pub open spec fn seq_contains_string(g: Seq<String>, n: Seq<char>) -> bool {
    exists|i: int| 0 <= i < g.len() && g[i]@ == n
}

/// True when `t` is an open generic parameter of the enclosing declaration:
/// a bare nominal name, no arguments, equal to one of the declared generic
/// parameter names.
pub open spec fn is_open_generic(t: TypeNode, g: Seq<String>) -> bool {
    match t {
        TypeNode::Simple { name, args } => args.len() == 0 && seq_contains_string(g, name@),
        TypeNode::Special(_) => false,
    }
}

/// True when `t` is the optional special kind, so its token already carries
/// the absence marker.
pub open spec fn is_optional(t: TypeNode) -> bool {
    match t {
        TypeNode::Special(sp) => sp is Optional,
        TypeNode::Simple { .. } => false,
    }
}

/// True when `ty` is the optional special kind (executable form of
/// `is_optional`).
pub(crate) fn is_optional_exec(ty: &TypeNode) -> (r: bool)
    ensures
        r == is_optional(*ty),
{
    match ty {
        TypeNode::Special(SpecialType::Optional(_)) => true,
        _ => false,
    }
}

/// Wraps a successfully formatted inner token in `pre ... post`; passes an
/// error through unchanged.
pub open spec fn wrap_ok(pre: Seq<char>, r: Result<Seq<char>, FormatError>, post: Seq<char>) -> Result<
    Seq<char>,
    FormatError,
> {
    match r {
        Result::Ok(s) => Result::Ok(pre + s + post),
        Result::Err(e) => Result::Err(e),
    }
}

/// The token for a nominal type: the rename-table entry when there is one,
/// else the camel-cased name. Generic arguments do not alter the token.
pub open spec fn spec_format_simple(m: Seq<(String, String)>, name: Seq<char>) -> Seq<char> {
    match spec_lookup(m, name) {
        Option::Some(t) => t,
        Option::None => spec_camel_case(name),
    }
}

/// The ReasonML token for one IR type, or the error that aborts formatting.
pub open spec fn spec_format_type(
    m: Seq<(String, String)>,
    t: TypeNode,
    g: Seq<String>,
) -> Result<Seq<char>, FormatError>
    decreases t,
{
    match t {
        TypeNode::Simple { name, args } => Result::Ok(spec_format_simple(m, name@)),
        TypeNode::Special(sp) => spec_format_special(m, sp, g),
    }
}

/// The ReasonML token for one special kind. Lists, arrays and slices all
/// become `array(_)`; optionals nest structurally, so a double optional
/// renders as `option(option(_))`; a map keeps only its value type because
/// `Js.Dict.t` keys are always strings, but a key that is an open generic
/// parameter is refused; the 64-bit-class kinds are always refused.
pub open spec fn spec_format_special(
    m: Seq<(String, String)>,
    sp: SpecialType,
    g: Seq<String>,
) -> Result<Seq<char>, FormatError>
    decreases sp,
{
    match sp {
        SpecialType::List(t) => wrap_ok("array("@, spec_format_type(m, *t, g), ")"@),
        SpecialType::FixedArray(t, _len) => wrap_ok("array("@, spec_format_type(m, *t, g), ")"@),
        SpecialType::SliceView(t) => wrap_ok("array("@, spec_format_type(m, *t, g), ")"@),
        SpecialType::Optional(t) => wrap_ok("option("@, spec_format_type(m, *t, g), ")"@),
        SpecialType::AssocMap(k, v) => {
            if is_open_generic(*k, g) {
                Result::Err(FormatError::GenericKeyForbidden)
            } else {
                wrap_ok("Js.Dict.t("@, spec_format_type(m, *v, g), ")"@)
            }
        },
        SpecialType::Unit => Result::Ok("unit"@),
        SpecialType::DateTime => Result::Ok("Js.Date.t"@),
        SpecialType::Text => Result::Ok("string"@),
        SpecialType::SingleChar => Result::Ok("string"@),
        SpecialType::I8 => Result::Ok("float"@),
        SpecialType::U8 => Result::Ok("float"@),
        SpecialType::I16 => Result::Ok("float"@),
        SpecialType::U16 => Result::Ok("float"@),
        SpecialType::I32 => Result::Ok("float"@),
        SpecialType::U32 => Result::Ok("float"@),
        SpecialType::I54 => Result::Ok("float"@),
        SpecialType::U53 => Result::Ok("float"@),
        SpecialType::F32 => Result::Ok("float"@),
        SpecialType::F64 => Result::Ok("float"@),
        SpecialType::Bool => Result::Ok("bool"@),
        SpecialType::U64 => Result::Err(FormatError::UnsupportedNumericWidth),
        SpecialType::I64 => Result::Err(FormatError::UnsupportedNumericWidth),
        SpecialType::ISize => Result::Err(FormatError::UnsupportedNumericWidth),
        SpecialType::USize => Result::Err(FormatError::UnsupportedNumericWidth),
    }
}

/// Relates an executable formatting result to its specification: equal error,
/// or a token with the specified characters.
pub open spec fn result_text_matches(
    r: Result<String, FormatError>,
    s: Result<Seq<char>, FormatError>,
) -> bool {
    match s {
        Result::Ok(t) => r matches Result::Ok(rs) && rs@ == t,
        Result::Err(e) => r matches Result::Err(re) && re == e,
    }
}

impl ReasonML {
    /// The rename-table entry for `key`, if any.
    fn lookup_mapping(&self, key: &str) -> (r: Option<String>)
        ensures
            match spec_lookup(self.type_mappings@, key@) {
                Option::Some(v) => r matches Option::Some(rs) && rs@ == v,
                Option::None => r is None,
            },
    {
        let n: usize = self.type_mappings.len();
        let mut i: usize = 0;
        while i < n
            invariant
                i <= n,
                n == self.type_mappings@.len(),
                spec_lookup(self.type_mappings@, key@) == spec_lookup_from(
                    self.type_mappings@,
                    key@,
                    i as int,
                ),
            decreases n - i,
        {
            if str_eq(self.type_mappings[i].0.as_str(), key) {
                return Some(self.type_mappings[i].1.clone());
            }
            i = i + 1;
        }
        None
    }

    /// Formats a nominal type reference: the rename table is consulted first,
    /// else the name is camel-cased. Never fails; the `Result` mirrors the
    /// fallible formatting interface shared with the special kinds.
    pub fn format_simple_type(&self, base: &String, generic_types: &Vec<String>) -> (r: Result<
        String,
        FormatError,
    >)
        ensures
            r matches Result::Ok(rs) && rs@ == spec_format_simple(self.type_mappings@, base@),
    {
        match self.lookup_mapping(base.as_str()) {
            Some(mapped) => Ok(mapped),
            None => Ok(to_camel_case(base.as_str())),
        }
    }

    /// True when `ty` is an open generic parameter among `generic_types`.
    fn is_open_generic_exec(&self, ty: &TypeNode, generic_types: &Vec<String>) -> (r: bool)
        ensures
            r == is_open_generic(*ty, generic_types@),
    {
        match ty {
            TypeNode::Simple { name, args } => {
                if args.len() != 0 {
                    return false;
                }
                let n: usize = generic_types.len();
                let mut i: usize = 0;
                while i < n
                    invariant
                        i <= n,
                        n == generic_types@.len(),
                        forall|j: int| 0 <= j < i ==> generic_types@[j]@ != name@,
                    decreases n - i,
                {
                    if str_eq(generic_types[i].as_str(), name.as_str()) {
                        proof {
                            assert(generic_types@[i as int]@ == name@);
                            assert(seq_contains_string(generic_types@, name@));
                        }
                        return true;
                    }
                    i = i + 1;
                }
                false
            },
            TypeNode::Special(_) => false,
        }
    }

    /// Formats one special kind, recursing into nested element types.
    pub fn format_special_type(&self, special: &SpecialType, generic_types: &Vec<String>) -> (r:
        Result<String, FormatError>)
        ensures
            result_text_matches(
                r,
                spec_format_special(self.type_mappings@, *special, generic_types@),
            ),
        decreases special, 2int,
    {
        match special {
            SpecialType::List(t) => self.wrap_inner("array(", t, generic_types),
            SpecialType::FixedArray(t, _len) => self.wrap_inner("array(", t, generic_types),
            SpecialType::SliceView(t) => self.wrap_inner("array(", t, generic_types),
            SpecialType::Optional(t) => self.wrap_inner("option(", t, generic_types),
            SpecialType::AssocMap(k, v) => {
                if self.is_open_generic_exec(k, generic_types) {
                    Err(FormatError::GenericKeyForbidden)
                } else {
                    self.wrap_inner("Js.Dict.t(", v, generic_types)
                }
            },
            SpecialType::Unit => Ok(String::from_str("unit")),
            SpecialType::DateTime => Ok(String::from_str("Js.Date.t")),
            SpecialType::Text => Ok(String::from_str("string")),
            SpecialType::SingleChar => Ok(String::from_str("string")),
            SpecialType::I8 => Ok(String::from_str("float")),
            SpecialType::U8 => Ok(String::from_str("float")),
            SpecialType::I16 => Ok(String::from_str("float")),
            SpecialType::U16 => Ok(String::from_str("float")),
            SpecialType::I32 => Ok(String::from_str("float")),
            SpecialType::U32 => Ok(String::from_str("float")),
            SpecialType::I54 => Ok(String::from_str("float")),
            SpecialType::U53 => Ok(String::from_str("float")),
            SpecialType::F32 => Ok(String::from_str("float")),
            SpecialType::F64 => Ok(String::from_str("float")),
            SpecialType::Bool => Ok(String::from_str("bool")),
            SpecialType::U64 => Err(FormatError::UnsupportedNumericWidth),
            SpecialType::I64 => Err(FormatError::UnsupportedNumericWidth),
            SpecialType::ISize => Err(FormatError::UnsupportedNumericWidth),
            SpecialType::USize => Err(FormatError::UnsupportedNumericWidth),
        }
    }

    /// Formats `inner` and wraps the token in `pre ... )`.
    fn wrap_inner(&self, pre: &str, inner: &TypeNode, generic_types: &Vec<String>) -> (r: Result<
        String,
        FormatError,
    >)
        ensures
            result_text_matches(
                r,
                wrap_ok(pre@, spec_format_type(self.type_mappings@, *inner, generic_types@), ")"@),
            ),
        decreases inner, 1int,
    {
        match self.format_type(inner, generic_types) {
            Ok(t) => {
                let mut out = String::from_str(pre);
                out.append(t.as_str());
                out.append(")");
                Ok(out)
            },
            Err(e) => Err(e),
        }
    }

    /// Formats one IR type into its ReasonML token.
    pub fn format_type(&self, ty: &TypeNode, generic_types: &Vec<String>) -> (r: Result<
        String,
        FormatError,
    >)
        ensures
            result_text_matches(r, spec_format_type(self.type_mappings@, *ty, generic_types@)),
        decreases ty, 0int,
    {
        match ty {
            TypeNode::Simple { name, args: _ } => self.format_simple_type(name, generic_types),
            TypeNode::Special(sp) => self.format_special_type(sp, generic_types),
        }
    }
}

} // verus!
