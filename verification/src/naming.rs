//! Case conversion and identifier escaping for the ReasonML backend.
//!
//! Renaming is deterministic and pure: type names are lower-camel-cased,
//! constant names are upper-snake-cased, and field names that are ReasonML
//! keywords or contain a hyphen are emitted through ReasonML's quoted
//! identifier form, preserving the literal exactly.

use vstd::prelude::*;

verus! {

/// Relies on std's `String::push`: appends the given character to the end of
/// the string.
#[verifier::external_body]
pub(crate) fn push_char(s: &mut String, c: char)
    ensures
        final(s)@ == old(s)@ + seq![c],
{
    s.push(c)
}

/// Lower-cases an ASCII upper-case letter; leaves every other character alone.
pub open spec fn lower_char(c: char) -> char {
    if 65 <= c as u32 && c as u32 <= 90 {
        ((c as u32 + 32) as char)
    } else {
        c
    }
}

/// Upper-cases an ASCII lower-case letter; leaves every other character alone.
pub open spec fn upper_char(c: char) -> char {
    if 97 <= c as u32 && c as u32 <= 122 {
        ((c as u32 - 32) as char)
    } else {
        c
    }
}

/// True of the separator characters dropped by camel-casing.
pub open spec fn is_separator(c: char) -> bool {
    c == '-' || c == '_'
}

/// True of ASCII lower-case letters and digits: an upper-case letter directly
/// after one of these starts a new word.
pub open spec fn is_lower_or_digit(c: char) -> bool {
    (97 <= c as u32 && c as u32 <= 122) || (48 <= c as u32 && c as u32 <= 57)
}

/// Lower-cases one character (executable form of `lower_char`).
fn lower_char_exec(c: char) -> (r: char)
    ensures
        r == lower_char(c),
{
    let u: u32 = c as u32;
    if 65 <= u && u <= 90 {
        ((u + 32) as u8) as char
    } else {
        c
    }
}

/// Upper-cases one character (executable form of `upper_char`).
fn upper_char_exec(c: char) -> (r: char)
    ensures
        r == upper_char(c),
{
    let u: u32 = c as u32;
    if 97 <= u && u <= 122 {
        ((u - 32) as u8) as char
    } else {
        c
    }
}

/// One step of the camel-case fold: separators are dropped and capitalize the
/// next character; the first emitted character is lower-cased.
pub open spec fn camel_step(acc: Seq<char>, cap_next: bool, c: char) -> (Seq<char>, bool) {
    if is_separator(c) {
        (acc, true)
    } else if acc.len() == 0 {
        (acc.push(lower_char(c)), false)
    } else if cap_next {
        (acc.push(upper_char(c)), false)
    } else {
        (acc.push(c), false)
    }
}

/// Folds `camel_step` over the first `i` characters of `s`.
pub open spec fn camel_fold(s: Seq<char>, i: int) -> (Seq<char>, bool)
    decreases i,
{
    if i <= 0 {
        (Seq::<char>::empty(), false)
    } else {
        let prev = camel_fold(s, i - 1);
        camel_step(prev.0, prev.1, s[i - 1])
    }
}

/// The lower-camel-case rendering of a name.
pub open spec fn spec_camel_case(s: Seq<char>) -> Seq<char> {
    camel_fold(s, s.len() as int).0
}

/// Converts a name to lower camel case: separators (`-`, `_`) are dropped, a
/// character directly after a separator is upper-cased, and the first emitted
/// character is lower-cased.
pub fn to_camel_case(s: &str) -> (r: String)
    ensures
        r@ == spec_camel_case(s@),
{
    let n: usize = s.unicode_len();
    let mut out: String = String::new();
    let mut cap_next: bool = false;
    let mut started: bool = false;
    let mut i: usize = 0;
    while i < n
        invariant
            i <= n,
            n == s@.len(),
            out@ == camel_fold(s@, i as int).0,
            cap_next == camel_fold(s@, i as int).1,
            started == (out@.len() != 0),
        decreases n - i,
    {
        let c = s.get_char(i);
        if c == '-' || c == '_' {
            cap_next = true;
        } else if !started {
            push_char(&mut out, lower_char_exec(c));
            started = true;
            cap_next = false;
        } else if cap_next {
            push_char(&mut out, upper_char_exec(c));
            cap_next = false;
        } else {
            push_char(&mut out, c);
        }
        i = i + 1;
    }
    out
}

/// One step of the upper-snake-case fold: separators become `_`, a word
/// boundary (upper-case after lower-case or digit) inserts `_`, and every
/// letter is upper-cased. `prev` is the previous source character.
pub open spec fn snake_step(acc: Seq<char>, prev: Option<char>, c: char) -> (
    Seq<char>,
    Option<char>,
) {
    if is_separator(c) {
        (acc.push('_'), Option::Some('_'))
    } else if 65 <= c as u32 && c as u32 <= 90 && (prev matches Option::Some(p) && is_lower_or_digit(
        p,
    )) {
        (acc.push('_').push(c), Option::Some(c))
    } else {
        (acc.push(upper_char(c)), Option::Some(c))
    }
}

/// Folds `snake_step` over the first `i` characters of `s`.
pub open spec fn snake_fold(s: Seq<char>, i: int) -> (Seq<char>, Option<char>)
    decreases i,
{
    if i <= 0 {
        (Seq::<char>::empty(), Option::None)
    } else {
        let prev = snake_fold(s, i - 1);
        snake_step(prev.0, prev.1, s[i - 1])
    }
}

/// The upper-snake-case rendering of a name (the constant-naming convention).
pub open spec fn spec_screaming_snake_case(s: Seq<char>) -> Seq<char> {
    snake_fold(s, s.len() as int).0
}

/// Converts a name to upper snake case: `-` becomes `_`, an upper-case letter
/// directly after a lower-case letter or digit gets `_` inserted before it,
/// and all letters are upper-cased.
pub fn to_screaming_snake_case(s: &str) -> (r: String)
    ensures
        r@ == spec_screaming_snake_case(s@),
{
    let n: usize = s.unicode_len();
    let mut out: String = String::new();
    let mut prev: Option<char> = None;
    let mut i: usize = 0;
    while i < n
        invariant
            i <= n,
            n == s@.len(),
            out@ == snake_fold(s@, i as int).0,
            prev == snake_fold(s@, i as int).1,
        decreases n - i,
    {
        let c = s.get_char(i);
        if c == '-' || c == '_' {
            push_char(&mut out, '_');
            prev = Some('_');
        } else {
            let u: u32 = c as u32;
            let boundary: bool = if 65 <= u && u <= 90 {
                match prev {
                    Some(p) => {
                        let pu: u32 = p as u32;
                        (97 <= pu && pu <= 122) || (48 <= pu && pu <= 57)
                    },
                    None => false,
                }
            } else {
                false
            };
            if boundary {
                push_char(&mut out, '_');
                push_char(&mut out, c);
            } else {
                push_char(&mut out, upper_char_exec(c));
            }
            prev = Some(c);
        }
        i = i + 1;
    }
    out
}

/// True when the two string slices hold the same characters.
pub(crate) fn str_eq(a: &str, b: &str) -> (r: bool)
    ensures
        r == (a@ == b@),
{
    let na: usize = a.unicode_len();
    let nb: usize = b.unicode_len();
    if na != nb {
        return false;
    }
    let mut i: usize = 0;
    while i < na
        invariant
            i <= na,
            na == a@.len(),
            na == b@.len(),
            forall|j: int| 0 <= j < i ==> a@[j] == b@[j],
        decreases na - i,
    {
        if a.get_char(i) != b.get_char(i) {
            return false;
        }
        i = i + 1;
    }
    proof {
        assert(a@ =~= b@);
    }
    true
}

/// True when `s` holds a hyphen.
pub open spec fn has_hyphen(s: Seq<char>) -> bool {
    exists|i: int| 0 <= i < s.len() && s[i] == '-'
}

/// True when the string holds a hyphen (executable form of `has_hyphen`).
fn contains_hyphen(s: &str) -> (r: bool)
    ensures
        r == has_hyphen(s@),
{
    let n: usize = s.unicode_len();
    let mut i: usize = 0;
    while i < n
        invariant
            i <= n,
            n == s@.len(),
            forall|j: int| 0 <= j < i ==> s@[j] != '-',
        decreases n - i,
    {
        if s.get_char(i) == '-' {
            return true;
        }
        i = i + 1;
    }
    false
}

/// True when `s` is one of ReasonML's reserved words.
pub open spec fn spec_is_keyword(s: Seq<char>) -> bool {
    ||| s == "and"@
    ||| s == "as"@
    ||| s == "assert"@
    ||| s == "begin"@
    ||| s == "class"@
    ||| s == "constraint"@
    ||| s == "do"@
    ||| s == "done"@
    ||| s == "downto"@
    ||| s == "else"@
    ||| s == "end"@
    ||| s == "exception"@
    ||| s == "external"@
    ||| s == "false"@
    ||| s == "for"@
    ||| s == "fun"@
    ||| s == "function"@
    ||| s == "functor"@
    ||| s == "if"@
    ||| s == "in"@
    ||| s == "include"@
    ||| s == "inherit"@
    ||| s == "initializer"@
    ||| s == "lazy"@
    ||| s == "let"@
    ||| s == "match"@
    ||| s == "method"@
    ||| s == "module"@
    ||| s == "mutable"@
    ||| s == "new"@
    ||| s == "nonrec"@
    ||| s == "object"@
    ||| s == "of"@
    ||| s == "open"@
    ||| s == "or"@
    ||| s == "private"@
    ||| s == "rec"@
    ||| s == "sig"@
    ||| s == "struct"@
    ||| s == "switch"@
    ||| s == "then"@
    ||| s == "to"@
    ||| s == "true"@
    ||| s == "try"@
    ||| s == "type"@
    ||| s == "val"@
    ||| s == "virtual"@
    ||| s == "when"@
    ||| s == "while"@
    ||| s == "with"@
}

/// True when the name is a ReasonML reserved word.
fn is_reasonml_keyword(name: &str) -> (r: bool)
    ensures
        r == spec_is_keyword(name@),
{
    str_eq(name, "and") || str_eq(name, "as") || str_eq(name, "assert") || str_eq(name, "begin")
        || str_eq(name, "class") || str_eq(name, "constraint") || str_eq(name, "do") || str_eq(
        name,
        "done",
    ) || str_eq(name, "downto") || str_eq(name, "else") || str_eq(name, "end") || str_eq(
        name,
        "exception",
    ) || str_eq(name, "external") || str_eq(name, "false") || str_eq(name, "for") || str_eq(
        name,
        "fun",
    ) || str_eq(name, "function") || str_eq(name, "functor") || str_eq(name, "if") || str_eq(
        name,
        "in",
    ) || str_eq(name, "include") || str_eq(name, "inherit") || str_eq(name, "initializer")
        || str_eq(name, "lazy") || str_eq(name, "let") || str_eq(name, "match") || str_eq(
        name,
        "method",
    ) || str_eq(name, "module") || str_eq(name, "mutable") || str_eq(name, "new") || str_eq(
        name,
        "nonrec",
    ) || str_eq(name, "object") || str_eq(name, "of") || str_eq(name, "open") || str_eq(name, "or")
        || str_eq(name, "private") || str_eq(name, "rec") || str_eq(name, "sig") || str_eq(
        name,
        "struct",
    ) || str_eq(name, "switch") || str_eq(name, "then") || str_eq(name, "to") || str_eq(
        name,
        "true",
    ) || str_eq(name, "try") || str_eq(name, "type") || str_eq(name, "val") || str_eq(
        name,
        "virtual",
    ) || str_eq(name, "when") || str_eq(name, "while") || str_eq(name, "with")
}

/// A field name needs the quoted identifier form when it holds a hyphen or is
/// a reserved word.
pub open spec fn needs_quoting(s: Seq<char>) -> bool {
    has_hyphen(s) || spec_is_keyword(s)
}

/// The emitted form of a field name: quoted when it needs quoting, else the
/// name itself, the literal characters preserved exactly either way.
pub open spec fn spec_property_rename(s: Seq<char>) -> Seq<char> {
    if needs_quoting(s) {
        "\""@ + s + "\""@
    } else {
        s
    }
}

/// Emits a field name for ReasonML: names holding a hyphen and reserved words
/// go through the quoted identifier form, which preserves the literal name
/// exactly; every other name is kept as it is.
pub fn reasonml_property_aware_rename(name: &str) -> (r: String)
    ensures
        r@ == spec_property_rename(name@),
{
    if contains_hyphen(name) || is_reasonml_keyword(name) {
        let mut out = String::from_str("\"");
        out.append(name);
        out.append("\"");
        out
    } else {
        String::from_str(name)
    }
}

} // verus!
