//! What holds of every generated builder.

use crate::expand::{
    builder_name_text, builder_of, expand_spec, expansion_text, factory_of, field_def_text,
    field_def_texts, field_init_text, field_init_texts, result_view, unsupported,
};
use crate::model::{
    DataSpec, Definition, DefinitionSpec, ExpandError, ExpandErrorSpec, FieldsSpec,
};
use vstd::prelude::*;

verus! {

/// The builder of a supported struct has as many fields as the struct, at
/// least one, under the same names and in the same order, and the type of each
/// is the `Option` of the type that the struct declares for it.
pub proof fn builder_mirrors_fields(st: DefinitionSpec)
    requires
        st.is_supported(),
    ensures
        builder_of(st).fields.len() == st.named_fields().len(),
        builder_of(st).fields.len() > 0,
        field_def_texts(builder_of(st).fields).len() == st.named_fields().len(),
        forall|i: int|
            0 <= i < st.named_fields().len() ==> {
                &&& (#[trigger] builder_of(st).fields[i]).ident == st.named_fields()[i].ident
                &&& builder_of(st).fields[i].inner == st.named_fields()[i].ty
                &&& field_def_texts(builder_of(st).fields)[i] == st.named_fields()[i].ident
                    + ": std::option::Option<"@ + st.named_fields()[i].ty + ">"@
            },
{
}

/// `builder()` belongs to the struct, returns its builder, and names every
/// field of the struct once, in order, each without a value.
pub proof fn factory_leaves_every_field_absent(st: DefinitionSpec)
    requires
        st.is_supported(),
    ensures
        factory_of(st).owner == st.ident,
        factory_of(st).returns == builder_of(st).ident,
        factory_of(st).inits.len() == st.named_fields().len(),
        field_init_texts(factory_of(st).inits).len() == st.named_fields().len(),
        forall|i: int|
            0 <= i < st.named_fields().len() ==> {
                &&& (#[trigger] factory_of(st).inits[i]).ident == st.named_fields()[i].ident
                &&& factory_of(st).inits[i].value is None
                &&& field_init_texts(factory_of(st).inits)[i] == st.named_fields()[i].ident
                    + ": std::option::Option::None"@
            },
{
}

/// The builder's name is the struct's name, unchanged, followed by the
/// seven letters of `Builder` and nothing more.
pub proof fn builder_name_is_name_then_suffix(st: DefinitionSpec)
    ensures
        builder_of(st).ident == builder_name_text(st.ident),
        builder_name_text(st.ident) == st.ident + seq!['B', 'u', 'i', 'l', 'd', 'e', 'r'],
        builder_name_text(st.ident).len() == st.ident.len() + 7,
        builder_name_text(st.ident).subrange(0, st.ident.len() as int) == st.ident,
{
    reveal_strlit("Builder");
    let suffix = seq!['B', 'u', 'i', 'l', 'd', 'e', 'r'];
    assert("Builder"@ =~= suffix);
    assert(builder_name_text(st.ident).subrange(0, st.ident.len() as int) =~= st.ident);
}

/// For a struct with at least one named field the outcome is the text.
/// For every other definition it is the error, which names the
/// definition: for a tuple struct, a unit struct, an enum, a union, and
/// for a struct in braces that declares no field.
pub proof fn only_named_structs_expand(st: DefinitionSpec)
    ensures
        st.is_supported() ==> expand_spec(st) == Ok::<Seq<char>, ExpandErrorSpec>(
            expansion_text(st),
        ),
        !st.is_supported() ==> expand_spec(st) == Err::<Seq<char>, ExpandErrorSpec>(
            unsupported(st),
        ),
        expand_spec(st) is Err <==> !st.is_supported(),
        st.data == DataSpec::Struct(FieldsSpec::Named(Seq::empty())) ==> expand_spec(st) is Err,
{
}

/// Two runs on definitions with the same name, shape and fields give the
/// same outcome: the same text, or the same error.
pub proof fn expansion_is_deterministic(
    a: Definition,
    b: Definition,
    of_a: Result<String, ExpandError>,
    of_b: Result<String, ExpandError>,
)
    requires
        a@ == b@,
        result_view(of_a) == expand_spec(a@),
        result_view(of_b) == expand_spec(b@),
    ensures
        result_view(of_a) == result_view(of_b),
{
}

} // verus!
