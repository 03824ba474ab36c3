//! From the source text of a type definition to the source text of its
//! builder. The text is parsed by `syn`; what is generated from the parsed
//! definition is decided by [`do_expand`].

use crate::expand::{do_expand, expand_spec, expansion_text, unsupported};
use crate::model::{Data, Definition, DefinitionSpec, ExpandError, ExpandErrorSpec, Field, Fields};
use vstd::prelude::*;

verus! {

/// `syn`'s syntax tree of a struct, enum or union definition.
#[verifier::external_type_specification]
#[verifier::external_body]
pub struct ExDeriveInput(syn::DeriveInput);

/// `syn`'s parse error.
#[verifier::external_type_specification]
#[verifier::external_body]
pub struct ExError(syn::Error);

/// Why [`derive`] generated nothing.
#[derive(Debug, Clone, PartialEq, Eq)]
pub enum DeriveError {
    /// The text is not a struct, enum or union definition. `message` is
    /// the parser's.
    Syntax { message: String },
    /// It is one, of a shape that has no builder.
    Unsupported(ExpandError),
}

/// The mathematical value of a [`DeriveError`].
pub enum DeriveErrorSpec {
    Syntax { message: Seq<char> },
    Unsupported(ExpandErrorSpec),
}

impl View for DeriveError {
    type V = DeriveErrorSpec;

    open spec fn view(&self) -> DeriveErrorSpec {
        match self {
            DeriveError::Syntax { message } => DeriveErrorSpec::Syntax { message: message@ },
            DeriveError::Unsupported(e) => DeriveErrorSpec::Unsupported(e@),
        }
    }
}

/// The mathematical value of what [`derive`] returns.
pub open spec fn derive_view(res: Result<String, DeriveError>) -> Result<
    Seq<char>,
    DeriveErrorSpec,
> {
    match res {
        Ok(text) => Ok(text@),
        Err(e) => Err(e@),
    }
}

/// What is generated from the outcome of parsing: for a definition, what
/// [`expand_spec`] says; for a parser's message, the syntax error with it.
pub open spec fn derive_spec(parsed: Result<DefinitionSpec, Seq<char>>) -> Result<
    Seq<char>,
    DeriveErrorSpec,
> {
    match parsed {
        Ok(st) => match expand_spec(st) {
            Ok(text) => Ok(text),
            Err(e) => Err(DeriveErrorSpec::Unsupported(e)),
        },
        Err(message) => Err(DeriveErrorSpec::Syntax { message }),
    }
}

/// Calls `syn::parse_str` for a `syn::DeriveInput`. Nothing is claimed of
/// the outcome: `syn` hands the text to `proc-macro2`, which lexes it with
/// the compiler's lexer during a macro expansion and with its own
/// elsewhere.
#[verifier::external_body]
fn parse_definition(text: &str) -> (res: Result<syn::DeriveInput, syn::Error>) {
    syn::parse_str::<syn::DeriveInput>(text)
}

/// Calls `to_string` on a `syn::Error`, which gives the message of the
/// error. Nothing is claimed of the text.
#[verifier::external_body]
fn error_message(e: &syn::Error) -> (message: String) {
    e.to_string()
}

/// Calls `to_string` on the `ident` of a `syn::DeriveInput`: the name of
/// the definition. Nothing is claimed of the text.
#[verifier::external_body]
fn definition_name(st: &syn::DeriveInput) -> (name: String) {
    st.ident.to_string()
}

/// Reads the `data` of a `syn::DeriveInput` into [`Data`], variant for
/// variant. Of a struct with named fields it keeps each field's name, by
/// `to_string` on its `ident`, and each field's type, by `to_string` on
/// the tokens that `quote::ToTokens::to_token_stream` gives for it.
/// Nothing is claimed of the outcome: how the tokens of a type are spaced
/// in print depends, as the lexing does, on whether a macro is being
/// expanded.
#[verifier::external_body]
fn definition_data(st: &syn::DeriveInput) -> (data: Data) {
    match &st.data {
        syn::Data::Struct(s) => Data::Struct(match &s.fields {
            syn::Fields::Named(n) => Fields::Named(n.named.iter().map(|f| Field {
                ident: f.ident.iter().map(|i| i.to_string()).collect(),
                ty: quote::ToTokens::to_token_stream(&f.ty).to_string(),
            }).collect()),
            syn::Fields::Unnamed(_) => Fields::Unnamed,
            syn::Fields::Unit => Fields::Unit,
        }),
        syn::Data::Enum(_) => Data::Enum,
        syn::Data::Union(_) => Data::Union,
    }
}

/// What is generated from the outcome of parsing. A parsed definition
/// yields what [`do_expand`] yields for it; a parser's message becomes a
/// syntax error that carries it.
pub fn expand_parsed(parsed: Result<Definition, String>) -> (res: Result<String, DeriveError>)
    ensures
        derive_view(res) == derive_spec(
            match parsed {
                Ok(st) => Ok(st@),
                Err(message) => Err(message@),
            },
        ),
{
    match parsed {
        Ok(st) => match do_expand(&st) {
            Ok(text) => Ok(text),
            Err(e) => Err(DeriveError::Unsupported(e)),
        },
        Err(message) => Err(DeriveError::Syntax { message }),
    }
}

/// The builder for the definition written in `input`. The text is parsed
/// by `syn`, and [`expand_parsed`] decides on what the parser found. How
/// the parser reads a text is not stated here, so the contract speaks of
/// some definition: a text that comes out is the expansion of a struct
/// with at least one named field, and a shape error names a definition
/// of another shape. What is returned for each outcome of parsing is the
/// contract of [`expand_parsed`].
pub fn derive(input: &str) -> (res: Result<String, DeriveError>)
    ensures
        match res {
            Ok(text) => exists|st: DefinitionSpec|
                st.is_supported() && text@ == #[trigger] expansion_text(st),
            Err(DeriveError::Unsupported(e)) => exists|st: DefinitionSpec|
                !st.is_supported() && e@ == #[trigger] unsupported(st),
            Err(DeriveError::Syntax { .. }) => true,
        },
{
    let parsed = match parse_definition(input) {
        Ok(st) => Ok(Definition { ident: definition_name(&st), data: definition_data(&st) }),
        Err(e) => Err(error_message(&e)),
    };
    expand_parsed(parsed)
}

} // verus!
