//! The intermediate representation consumed by the emitter.
//!
//! Declarations are built once per module by an upstream scanner, read in
//! source order, and are immutable during emission.

use vstd::prelude::*;

verus! {

/// A declared name: the original source name and the backend-facing renamed
/// form chosen upstream (for example through serde-style rename attributes).
pub struct Id {
    /// The name as it stands in the source language.
    pub original: String,
    /// The name after upstream renaming; emission starts from this one.
    pub renamed: String,
}

/// The fixed vocabulary of built-in shape kinds, distinct from user-declared
/// nominal types. The 64-bit-class integer kinds are categorically
/// unrepresentable in a JSON-safe target and must never format successfully.
pub enum SpecialType {
    /// A growable list of elements.
    List(Box<TypeNode>),
    /// A fixed-length array; the length does not survive into ReasonML.
    FixedArray(Box<TypeNode>, usize),
    /// A borrowed view of contiguous elements.
    SliceView(Box<TypeNode>),
    /// A value that may be absent.
    Optional(Box<TypeNode>),
    /// An associative map from the first type to the second.
    AssocMap(Box<TypeNode>, Box<TypeNode>),
    /// The unit/void type.
    Unit,
    /// A point in time.
    DateTime,
    /// A text string.
    Text,
    /// A single-character string.
    SingleChar,
    /// Signed 8-bit integer.
    I8,
    /// Unsigned 8-bit integer.
    U8,
    /// Signed 16-bit integer.
    I16,
    /// Unsigned 16-bit integer.
    U16,
    /// Signed 32-bit integer.
    I32,
    /// Unsigned 32-bit integer.
    U32,
    /// Signed 54-bit integer: the widest signed integer that is JSON-safe.
    I54,
    /// Unsigned 53-bit integer: the widest unsigned integer that is JSON-safe.
    U53,
    /// 32-bit floating point, an opaque kind to this library.
    F32,
    /// 64-bit floating point, an opaque kind to this library.
    F64,
    /// Boolean.
    Bool,
    /// Unsigned 64-bit integer: rejected, too wide to survive JSON.
    U64,
    /// Signed 64-bit integer: rejected, too wide to survive JSON.
    I64,
    /// Pointer-sized signed integer: rejected, width is platform-dependent.
    ISize,
    /// Pointer-sized unsigned integer: rejected, width is platform-dependent.
    USize,
}

/// One IR type: a nominal name with generic arguments, or one of the special
/// kinds.
pub enum TypeNode {
    /// A user-declared nominal type, possibly applied to generic arguments.
    Simple { name: String, args: Vec<TypeNode> },
    /// One of the built-in shape kinds.
    Special(SpecialType),
}

/// One field of a struct or of an anonymous-struct enum variant.
pub struct Field {
    /// The field's name.
    pub id: Id,
    /// The field's type.
    pub ty: TypeNode,
    /// Documentation lines attached to the field.
    pub comments: Vec<String>,
    /// A literal replacement for the formatted type, when the source gave
    /// this backend an explicit override for the field.
    pub type_override: Option<String>,
    /// Decorators the source attached for this backend; ReasonML has no
    /// immutability or visibility markers, so they are carried but unused.
    pub decorators: Vec<String>,
    /// Whether the field has a default value upstream. Such a field may be
    /// absent on the wire, so it is emitted optional even when its type is
    /// not: its emitted type gains an `option(...)` wrapper unless the type
    /// already carries one.
    pub has_default: bool,
}

/// A struct declaration: a nominal record type.
pub struct StructDecl {
    /// The struct's name.
    pub id: Id,
    /// The declared generic parameter names; the only free type variables
    /// inside the fields' types.
    pub generic_types: Vec<String>,
    /// The fields, in source order.
    pub fields: Vec<Field>,
    /// Documentation lines attached to the struct.
    pub comments: Vec<String>,
}

/// The name and documentation shared by every enum-variant shape.
pub struct VariantShared {
    /// The variant's name.
    pub id: Id,
    /// Documentation lines attached to the variant.
    pub comments: Vec<String>,
}

/// One variant of an algebraic (tagged-union) enum.
pub enum EnumVariant {
    /// A bare tag with no payload.
    Unit { shared: VariantShared },
    /// A tag with one positional payload of the wrapped type.
    Tuple { ty: TypeNode, shared: VariantShared },
    /// A tag with a payload that is an inline record of the given fields.
    AnonymousStruct { fields: Vec<Field>, shared: VariantShared },
}

/// The name, generics and documentation shared by both enum forms.
pub struct EnumShared {
    /// The enum's name.
    pub id: Id,
    /// The declared generic parameter names.
    pub generic_types: Vec<String>,
    /// Documentation lines attached to the enum.
    pub comments: Vec<String>,
}

/// An enum declaration.
#[allow(inconsistent_fields)]
pub enum EnumDecl {
    /// A closed set of bare tags, no payloads.
    Unit { shared: EnumShared, variants: Vec<VariantShared> },
    /// A tagged union: on the wire each value carries its tag under
    /// `tag_key` and, for payload-bearing variants, its payload under
    /// `content_key`; both keys are fixed for all variants.
    Algebraic { tag_key: String, content_key: String, shared: EnumShared, variants: Vec<EnumVariant> },
}

impl EnumDecl {
    /// The name, generics and documentation of either enum form.
    pub fn shared(&self) -> (r: &EnumShared)
        ensures
            r == self.spec_shared(),
    {
        match self {
            EnumDecl::Unit { shared, .. } => shared,
            EnumDecl::Algebraic { shared, .. } => shared,
        }
    }

    /// Specification form of `shared`.
    pub open spec fn spec_shared(&self) -> EnumShared {
        match self {
            EnumDecl::Unit { shared, .. } => *shared,
            EnumDecl::Algebraic { shared, .. } => *shared,
        }
    }
}

/// A type alias declaration.
pub struct TypeAliasDecl {
    /// The alias's name.
    pub id: Id,
    /// The declared generic parameter names.
    pub generic_types: Vec<String>,
    /// The aliased type.
    pub ty: TypeNode,
    /// Documentation lines attached to the alias.
    pub comments: Vec<String>,
}

/// The value of a constant declaration.
pub enum ConstExpr {
    /// An integer literal.
    Int(i128),
}

/// An integer constant declaration.
pub struct ConstDecl {
    /// The constant's name.
    pub id: Id,
    /// The constant's declared type.
    pub ty: TypeNode,
    /// The constant's value.
    pub expr: ConstExpr,
}

/// One declaration of a module. A module is a finite ordered sequence of
/// these, visited in source order.
pub enum Decl {
    /// A type alias declaration.
    Alias(TypeAliasDecl),
    /// A struct declaration.
    Struct(StructDecl),
    /// An enum declaration.
    Enum(EnumDecl),
    /// An integer constant declaration.
    Const(ConstDecl),
}

/// The reasons formatting a type can fail. Either one aborts emission of the
/// current module; no partial output is treated as valid.
#[derive(Clone, Copy, Debug, PartialEq, Eq, Structural)]
pub enum FormatError {
    /// A 64-bit-class numeric kind was formatted: no backend may silently
    /// truncate its precision.
    UnsupportedNumericWidth,
    /// A map's key type is an open generic parameter of the enclosing
    /// declaration, which ReasonML's map syntax cannot constrain.
    GenericKeyForbidden,
}

impl FormatError {
    /// A human-readable description of the failure.
    pub fn describe(&self) -> (r: &'static str)
        ensures
            *self == FormatError::UnsupportedNumericWidth ==> r@ == "64-bit-class numeric types cannot be represented"@,
            *self == FormatError::GenericKeyForbidden ==> r@ == "map keys cannot be generic parameters"@,
    {
        match self {
            FormatError::UnsupportedNumericWidth => "64-bit-class numeric types cannot be represented",
            FormatError::GenericKeyForbidden => "map keys cannot be generic parameters",
        }
    }
}

} // verus!
