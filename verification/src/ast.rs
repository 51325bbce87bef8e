use vstd::prelude::*;

verus! {

/// A field's declared type, as the (trusted) front end reports it.
///
/// Indirection is kept explicit (`ReferenceType`) so that the resolver can
/// state reference-transparency; every syntactic form the resolver does not
/// recognise arrives as `Unsupported`.
#[derive(Debug)]
pub enum DeclaredType {
    /// An integer-like primitive of the given bit width; `bool` counts as a
    /// 1-bit numeric.
    Primitive { bits: u32, signed: bool },
    /// A textual field.
    StringType,
    /// A tuple of inner types; encoded by delegation, like a composite.
    TupleType(Vec<DeclaredType>),
    /// A reference to the inner type.
    ReferenceType(Box<DeclaredType>),
    /// A named user type or generic parameter, convertible by its own
    /// conversion.
    CompositeType(String),
    /// Any unrecognised syntactic form.
    Unsupported,
}

/// One named field: its binding name and its declared type.
#[derive(Debug)]
pub struct NamedField {
    pub name: String,
    pub ty: DeclaredType,
}

/// The shape of one field group.
#[derive(Debug)]
pub enum FieldGroup {
    /// Curly-brace fields, in declared order.
    NamedFields(Vec<NamedField>),
    /// Parenthesised fields, in declared order.
    UnnamedFields(Vec<DeclaredType>),
    /// No fields at all.
    Unit,
}

/// One variant of an enum declaration.
#[derive(Debug)]
pub struct VariantDecl {
    pub name: String,
    pub group: FieldGroup,
}

/// The body of a type declaration, by kind.
#[derive(Debug)]
pub enum TypeBody {
    StructBody(FieldGroup),
    EnumBody(Vec<VariantDecl>),
    UnionBody,
}

/// The host type's generic parameters and their constraints, carried through
/// to the emitted conversion verbatim.
#[derive(Debug)]
pub struct GenericsDecl {
    pub params: Vec<String>,
    pub constraints: Vec<String>,
}

/// A complete type declaration: the single input of one generation pass.
#[derive(Debug)]
pub struct TypeDeclaration {
    pub name: String,
    pub generics: GenericsDecl,
    pub body: TypeBody,
}

/// The views of a sequence of strings.
pub open spec fn str_views(v: Seq<String>) -> Seq<Seq<char>> {
    Seq::new(v.len(), |i: int| v[i]@)
}

/// The declared types of a group, in declared order.
pub open spec fn group_types(g: FieldGroup) -> Seq<DeclaredType> {
    match g {
        FieldGroup::NamedFields(fs) => Seq::new(fs@.len(), |i: int| fs@[i].ty),
        FieldGroup::UnnamedFields(ts) => ts@,
        FieldGroup::Unit => Seq::empty(),
    }
}

} // verus!
