//! The description of a type definition, and the one error of the generator.

use vstd::prelude::*;

verus! {

/// A named field: its name and its declared type, both kept as written.
/// The type expression is never inspected.
#[derive(Debug, Clone, PartialEq, Eq)]
pub struct Field {
    pub ident: String,
    pub ty: String,
}

/// The members of a struct.
#[derive(Debug, Clone, PartialEq, Eq)]
pub enum Fields {
    /// `struct S { a: A, b: B }`, in declaration order.
    Named(Vec<Field>),
    /// `struct S(A, B);`
    Unnamed,
    /// `struct S;`
    Unit,
}

/// The kind of a type definition.
#[derive(Debug, Clone, PartialEq, Eq)]
pub enum Data {
    Struct(Fields),
    Enum,
    Union,
}

/// A type definition: its name and what it is made of.
#[derive(Debug, Clone, PartialEq, Eq)]
pub struct Definition {
    pub ident: String,
    pub data: Data,
}

/// Why no builder was generated.
#[derive(Debug, Clone, PartialEq, Eq)]
pub enum ExpandError {
    /// The definition named `item` is not a struct with at least one
    /// named field.
    UnsupportedShape { item: String },
}

/// The mathematical value of a [`Field`].
pub struct FieldSpec {
    pub ident: Seq<char>,
    pub ty: Seq<char>,
}

/// The mathematical value of [`Fields`].
pub enum FieldsSpec {
    Named(Seq<FieldSpec>),
    Unnamed,
    Unit,
}

/// The mathematical value of [`Data`].
pub enum DataSpec {
    Struct(FieldsSpec),
    Enum,
    Union,
}

/// The mathematical value of a [`Definition`].
pub struct DefinitionSpec {
    pub ident: Seq<char>,
    pub data: DataSpec,
}

/// The mathematical value of an [`ExpandError`].
pub enum ExpandErrorSpec {
    UnsupportedShape { item: Seq<char> },
}

/// The values of a list of fields, in order.
pub open spec fn fields_view(fields: Seq<Field>) -> Seq<FieldSpec> {
    Seq::new(fields.len(), |i: int| fields[i]@)
}

/// The values of a list of texts, in order.
pub open spec fn texts_view(texts: Seq<String>) -> Seq<Seq<char>> {
    Seq::new(texts.len(), |i: int| texts[i]@)
}

impl View for Field {
    type V = FieldSpec;

    open spec fn view(&self) -> FieldSpec {
        FieldSpec { ident: self.ident@, ty: self.ty@ }
    }
}

impl View for Fields {
    type V = FieldsSpec;

    open spec fn view(&self) -> FieldsSpec {
        match self {
            Fields::Named(named) => FieldsSpec::Named(fields_view(named@)),
            Fields::Unnamed => FieldsSpec::Unnamed,
            Fields::Unit => FieldsSpec::Unit,
        }
    }
}

impl View for Data {
    type V = DataSpec;

    open spec fn view(&self) -> DataSpec {
        match self {
            Data::Struct(fields) => DataSpec::Struct(fields@),
            Data::Enum => DataSpec::Enum,
            Data::Union => DataSpec::Union,
        }
    }
}

impl View for Definition {
    type V = DefinitionSpec;

    open spec fn view(&self) -> DefinitionSpec {
        DefinitionSpec { ident: self.ident@, data: self.data@ }
    }
}

impl View for ExpandError {
    type V = ExpandErrorSpec;

    open spec fn view(&self) -> ExpandErrorSpec {
        match self {
            ExpandError::UnsupportedShape { item } => ExpandErrorSpec::UnsupportedShape {
                item: item@,
            },
        }
    }
}

impl DefinitionSpec {
    /// Whether the definition is a struct with at least one named field,
    /// the one shape for which a builder is generated. A struct in braces
    /// that declares no field is not.
    pub open spec fn is_supported(self) -> bool {
        self.data matches DataSpec::Struct(FieldsSpec::Named(named)) && named.len() > 0
    }

    /// The named fields of a supported definition, in declaration order.
    pub open spec fn named_fields(self) -> Seq<FieldSpec>
        recommends
            self.is_supported(),
    {
        match self.data {
            DataSpec::Struct(FieldsSpec::Named(named)) => named,
            _ => Seq::empty(),
        }
    }
}

impl ExpandError {
    /// The text of the diagnostic: the fixed word `error`.
    pub fn message(&self) -> (text: String)
        ensures
            text@ == "error"@,
    {
        String::from_str("error")
    }

    /// The name of the definition that was refused, to which the diagnostic
    /// is to be attached.
    pub fn item(&self) -> (name: &String)
        ensures
            self@ == (ExpandErrorSpec::UnsupportedShape { item: name@ }),
    {
        match self {
            ExpandError::UnsupportedShape { item } => item,
        }
    }
}

} // verus!
