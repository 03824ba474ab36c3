//! From a type definition to the source text of its builder.
//!
//! The generated items are described first as mathematical values
//! ([`BuilderSpec`], [`FactorySpec`]), then laid out as text. The executable
//! functions produce exactly that text.

use crate::model::{
    fields_view, texts_view, Data, DataSpec, Definition, DefinitionSpec, ExpandError,
    ExpandErrorSpec, Field, FieldSpec, Fields, FieldsSpec,
};
use vstd::prelude::*;
use vstd::string::StringExecFns;

verus! {

/// A field of the generated builder. Its declared type is
/// `std::option::Option<inner>`.
pub struct OptionalFieldSpec {
    pub ident: Seq<char>,
    pub inner: Seq<char>,
}

/// The generated builder struct.
pub struct BuilderSpec {
    pub ident: Seq<char>,
    pub fields: Seq<OptionalFieldSpec>,
}

/// One field of the value that the generated `builder()` returns.
/// `value` is `None` where the field starts out absent.
pub struct FieldInitSpec {
    pub ident: Seq<char>,
    pub value: Option<Seq<char>>,
}

/// The generated `builder()` function: an associated function of `owner`
/// without parameters, which returns a value of the type `returns` made of
/// `inits`.
pub struct FactorySpec {
    pub owner: Seq<char>,
    pub returns: Seq<char>,
    pub inits: Seq<FieldInitSpec>,
}

/// The name of the builder of the type named `ident`.
pub open spec fn builder_name_text(ident: Seq<char>) -> Seq<char> {
    ident + "Builder"@
}

/// The builder struct of a supported definition: one field for each of its
/// named fields, under the same name and in the same order.
pub open spec fn builder_of(st: DefinitionSpec) -> BuilderSpec
    recommends
        st.is_supported(),
{
    BuilderSpec {
        ident: builder_name_text(st.ident),
        fields: Seq::new(
            st.named_fields().len(),
            |i: int|
                OptionalFieldSpec {
                    ident: st.named_fields()[i].ident,
                    inner: st.named_fields()[i].ty,
                },
        ),
    }
}

/// The `builder()` function of a supported definition: it names
/// every field, in order, and supplies none.
pub open spec fn factory_of(st: DefinitionSpec) -> FactorySpec
    recommends
        st.is_supported(),
{
    FactorySpec {
        owner: st.ident,
        returns: builder_name_text(st.ident),
        inits: Seq::new(
            st.named_fields().len(),
            |i: int| FieldInitSpec { ident: st.named_fields()[i].ident, value: None },
        ),
    }
}

/// `parts` written one after the other with `sep` between neighbours.
pub open spec fn join(parts: Seq<Seq<char>>, sep: Seq<char>) -> Seq<char>
    decreases parts.len(),
{
    if parts.len() == 0 {
        Seq::empty()
    } else if parts.len() == 1 {
        parts[0]
    } else {
        join(parts.drop_last(), sep) + sep + parts.last()
    }
}

/// The declaration of one builder field.
pub open spec fn field_def_text(f: OptionalFieldSpec) -> Seq<char> {
    f.ident + ": std::option::Option<"@ + f.inner + ">"@
}

/// One field of the struct expression in `builder()`.
pub open spec fn field_init_text(f: FieldInitSpec) -> Seq<char> {
    match f.value {
        None => f.ident + ": std::option::Option::None"@,
        Some(value) => f.ident + ": std::option::Option::Some("@ + value + ")"@,
    }
}

/// The declarations of the builder's fields, one text for each.
pub open spec fn field_def_texts(fields: Seq<OptionalFieldSpec>) -> Seq<Seq<char>> {
    Seq::new(fields.len(), |i: int| field_def_text(fields[i]))
}

/// The fields of the struct expression in `builder()`, one text for each.
pub open spec fn field_init_texts(inits: Seq<FieldInitSpec>) -> Seq<Seq<char>> {
    Seq::new(inits.len(), |i: int| field_init_text(inits[i]))
}

/// The text of the builder struct.
pub open spec fn builder_text(b: BuilderSpec) -> Seq<char> {
    "pub struct "@ + b.ident + " { "@ + join(field_def_texts(b.fields), ", "@) + " }"@
}

/// The text of the impl block that holds `builder()`.
pub open spec fn factory_text(f: FactorySpec) -> Seq<char> {
    "impl "@ + f.owner + " { pub fn builder() -> "@ + f.returns + " { "@ + f.returns + " { "@
        + join(field_init_texts(f.inits), ", "@) + " } } }"@
}

/// Everything that is generated for a supported definition: the
/// builder struct, a space, and the impl block.
pub open spec fn expansion_text(st: DefinitionSpec) -> Seq<char>
    recommends
        st.is_supported(),
{
    builder_text(builder_of(st)) + " "@ + factory_text(factory_of(st))
}

/// The error for a definition of another shape: it carries the name of the
/// definition.
pub open spec fn unsupported(st: DefinitionSpec) -> ExpandErrorSpec {
    ExpandErrorSpec::UnsupportedShape { item: st.ident }
}

/// What the generator yields for a definition: the generated text, or the
/// error.
pub open spec fn expand_spec(st: DefinitionSpec) -> Result<Seq<char>, ExpandErrorSpec> {
    if st.is_supported() {
        Ok(expansion_text(st))
    } else {
        Err(unsupported(st))
    }
}

/// The mathematical value of what [`do_expand`] returns.
pub open spec fn result_view(res: Result<String, ExpandError>) -> Result<
    Seq<char>,
    ExpandErrorSpec,
> {
    match res {
        Ok(text) => Ok(text@),
        Err(e) => Err(e@),
    }
}

/// The named fields of `st`, of which there is at least one, or the error
/// if `st` is not a struct with at least one named field.
pub fn get_field_from_derive_input(st: &Definition) -> (res: Result<&Vec<Field>, ExpandError>)
    ensures
        match res {
            Ok(named) => st.data == Data::Struct(Fields::Named(*named)) && st@.is_supported()
                && named@.len() > 0 && fields_view(named@) == st@.named_fields(),
            Err(e) => !st@.is_supported() && e@ == unsupported(st@),
        },
{
    match &st.data {
        Data::Struct(Fields::Named(named)) => {
            if named.len() > 0 {
                Ok(named)
            } else {
                Err(ExpandError::UnsupportedShape { item: st.ident.clone() })
            }
        },
        _ => Err(ExpandError::UnsupportedShape { item: st.ident.clone() }),
    }
}

/// The name of the builder of the type named `ident`: `ident` followed by
/// `Builder`.
pub fn builder_name(ident: &str) -> (name: String)
    ensures
        name@ == builder_name_text(ident@),
{
    let mut name = String::from_str(ident);
    name.append("Builder");
    name
}

/// `parts` written one after the other with `sep` between neighbours.
pub fn join_texts(parts: &Vec<String>, sep: &str) -> (out: String)
    ensures
        out@ == join(texts_view(parts@), sep@),
{
    let mut out = String::new();
    let mut i: usize = 0;
    while i < parts.len()
        invariant
            i <= parts.len(),
            out@ == join(texts_view(parts@).take(i as int), sep@),
        decreases parts.len() - i,
    {
        let ghost before = texts_view(parts@).take(i as int);
        let ghost after = texts_view(parts@).take(i + 1);
        proof {
            assert(after.drop_last() =~= before);
            assert(after.last() == parts@[i as int]@);
        }
        if i > 0 {
            out.append(sep);
        }
        out.append(parts[i].as_str());
        i = i + 1;
    }
    proof {
        assert(texts_view(parts@).take(i as int) =~= texts_view(parts@));
    }
    out
}

/// The declaration of the builder field for `f`.
fn field_def(f: &Field) -> (out: String)
    ensures
        out@ == field_def_text(OptionalFieldSpec { ident: f@.ident, inner: f@.ty }),
{
    let mut out = f.ident.clone();
    out.append(": std::option::Option<");
    out.append(f.ty.as_str());
    out.append(">");
    out
}

/// The field for `f` in the struct expression of `builder()`.
fn field_init(f: &Field) -> (out: String)
    ensures
        out@ == field_init_text(FieldInitSpec { ident: f@.ident, value: None }),
{
    let mut out = f.ident.clone();
    out.append(": std::option::Option::None");
    out
}

/// The declarations of the builder's fields, separated by `, `: for each
/// named field of `st`, in order, `name: std::option::Option<type>`.
/// Fails where `st` is not a struct with at least one named field.
pub fn generate_builder_struct_fields_def(st: &Definition) -> (res: Result<String, ExpandError>)
    ensures
        match res {
            Ok(text) => st@.is_supported() && text@ == join(
                field_def_texts(builder_of(st@).fields),
                ", "@,
            ),
            Err(e) => !st@.is_supported() && e@ == unsupported(st@),
        },
{
    let fields = match get_field_from_derive_input(st) {
        Ok(fields) => fields,
        Err(e) => { return Err(e); },
    };
    let mut defs: Vec<String> = Vec::new();
    let mut i: usize = 0;
    while i < fields.len()
        invariant
            i <= fields.len(),
            defs@.len() == i,
            fields_view(fields@) == st@.named_fields(),
            forall|j: int|
                0 <= j < i ==> (#[trigger] defs@[j])@ == field_def_text(builder_of(st@).fields[j]),
        decreases fields.len() - i,
    {
        let def = field_def(&fields[i]);
        defs.push(def);
        i = i + 1;
    }
    proof {
        assert(texts_view(defs@) =~= field_def_texts(builder_of(st@).fields));
    }
    Ok(join_texts(&defs, ", "))
}

/// The fields of the struct expression in `builder()`: for each named field
/// of `st`, in order, `name: std::option::Option::None`.
/// Fails where `st` is not a struct with at least one named field.
pub fn generate_builder_struct_fields_init(st: &Definition) -> (res: Result<
    Vec<String>,
    ExpandError,
>)
    ensures
        match res {
            Ok(texts) => st@.is_supported() && texts_view(texts@) == field_init_texts(
                factory_of(st@).inits,
            ),
            Err(e) => !st@.is_supported() && e@ == unsupported(st@),
        },
{
    let fields = match get_field_from_derive_input(st) {
        Ok(fields) => fields,
        Err(e) => { return Err(e); },
    };
    let mut inits: Vec<String> = Vec::new();
    let mut i: usize = 0;
    while i < fields.len()
        invariant
            i <= fields.len(),
            inits@.len() == i,
            fields_view(fields@) == st@.named_fields(),
            forall|j: int|
                0 <= j < i ==> (#[trigger] inits@[j])@ == field_init_text(factory_of(st@).inits[j]),
        decreases fields.len() - i,
    {
        let init = field_init(&fields[i]);
        inits.push(init);
        i = i + 1;
    }
    proof {
        assert(texts_view(inits@) =~= field_init_texts(factory_of(st@).inits));
    }
    Ok(inits)
}

/// The source text generated for `st`: the builder struct, named after `st`
/// with `Builder` appended, in which each named field of `st` is declared
/// as an `Option` of its type; and an impl block that gives the type of
/// `st` a function `builder()`, which returns the builder with every field
/// `None`. Fails, and generates nothing, where `st` is not a struct with at
/// least one named field.
pub fn do_expand(st: &Definition) -> (res: Result<String, ExpandError>)
    ensures
        match res {
            Ok(text) => st@.is_supported() && text@ == expansion_text(st@),
            Err(e) => !st@.is_supported() && e@ == unsupported(st@),
        },
        result_view(res) == expand_spec(st@),
{
    let builder_name_literal = builder_name(st.ident.as_str());
    let builder_struct_fields_def = match generate_builder_struct_fields_def(st) {
        Ok(text) => text,
        Err(e) => { return Err(e); },
    };
    let builder_struct_fields_init = match generate_builder_struct_fields_init(st) {
        Ok(texts) => texts,
        Err(e) => { return Err(e); },
    };
    let inits = join_texts(&builder_struct_fields_init, ", ");
    let mut out = String::from_str("pub struct ");
    out.append(builder_name_literal.as_str());
    out.append(" { ");
    out.append(builder_struct_fields_def.as_str());
    out.append(" }");
    out.append(" ");
    out.append("impl ");
    out.append(st.ident.as_str());
    out.append(" { pub fn builder() -> ");
    out.append(builder_name_literal.as_str());
    out.append(" { ");
    out.append(builder_name_literal.as_str());
    out.append(" { ");
    out.append(inits.as_str());
    out.append(" } } }");
    proof {
        assert(out@ =~= expansion_text(st@));
    }
    Ok(out)
}

} // verus!
