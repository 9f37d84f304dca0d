//! The trusted boundary around the syntax crates.
//!
//! Everything the library takes from `syn`, `quote` and `proc-macro2` goes
//! through the declarations and wrappers in this module. The syntax trees
//! themselves are opaque here: the wrappers parse token streams, read single
//! fields out of a parsed method, and print parts back to token text.
//!
//! Parsing and printing are deterministic: what a token stream parses to,
//! and the printed text of a parsed value, depend on that value alone. So
//! the results are given names — [`trait_fn_of`] and [`args_of`] for what a
//! stream parses to, [`fn_model`], [`attr_model`] and [`arg_model`] for the
//! plain-text model of a parsed value, [`lexable`] for whether text lexes —
//! and each wrapper's contract ties its result to them. All decisions on
//! those results are made, and verified, elsewhere.

use vstd::prelude::*;
use quote::ToTokens;
use syn::parse::Parser;
use crate::model::{ArgV, AttrEntryV, MethodV, opt_text_view};

verus! {

/// `proc_macro2::TokenStream`: an opaque stream of tokens.
#[verifier::external_type_specification]
#[verifier::external_body]
pub struct ExTokenStream(proc_macro2::TokenStream);

/// `proc_macro2::LexError`: failure to lex text into tokens.
#[verifier::external_type_specification]
#[verifier::external_body]
pub struct ExLexError(proc_macro2::LexError);

/// `syn::TraitItemFn`: a parsed trait method.
#[verifier::external_type_specification]
#[verifier::external_body]
pub struct ExTraitItemFn(syn::TraitItemFn);

/// `syn::Attribute`: a parsed attribute.
#[verifier::external_type_specification]
#[verifier::external_body]
pub struct ExAttribute(syn::Attribute);

/// `syn::FnArg`: a parsed function argument.
#[verifier::external_type_specification]
#[verifier::external_body]
pub struct ExFnArg(syn::FnArg);

/// `syn::Error`: a parse failure.
#[verifier::external_type_specification]
#[verifier::external_body]
pub struct ExSynError(syn::Error);

/// The plain-text model of one parsed attribute: its single-identifier
/// name, its printed text, and its style. Printed text depends on the
/// parsed value alone.
pub uninterp spec fn attr_model(a: syn::Attribute) -> AttrEntryV;

/// The plain-text model of one parsed argument: its printed text and its
/// printed type.
pub uninterp spec fn arg_model(a: syn::FnArg) -> ArgV;

/// The plain-text model of a parsed trait method, field for field what the
/// wrappers below read out of it.
pub uninterp spec fn fn_model(f: syn::TraitItemFn) -> MethodV;

/// What the token stream parses to as a trait method: `None` when it does
/// not parse, else the model of the parsed method. Parsing depends on the
/// stream alone.
pub uninterp spec fn trait_fn_of(ts: proc_macro2::TokenStream) -> Option<MethodV>;

/// What the token stream parses to as a comma-separated list of function
/// arguments: `None` when it does not parse, else the models of the parsed
/// arguments, in order.
pub uninterp spec fn args_of(ts: proc_macro2::TokenStream) -> Option<Seq<ArgV>>;

/// Whether proc-macro2's own fallback lexer accepts the text — a function
/// of the text alone. Lexing through `from_str` may also consult the host
/// compiler's lexer, whose answer can differ between hosts, but it never
/// succeeds on text the fallback rejects: so success implies this, and no
/// more is claimed. (The lexed stream itself carries source positions, so
/// the stream value is not a function of the text and gets no name
/// either.)
pub uninterp spec fn lexable(s: Seq<char>) -> bool;

/// The models of a sequence of parsed attributes.
pub open spec fn attr_models(v: Seq<syn::Attribute>) -> Seq<AttrEntryV> {
    v.map_values(|a: syn::Attribute| attr_model(a))
}

/// The models of a sequence of parsed arguments.
pub open spec fn arg_models(v: Seq<syn::FnArg>) -> Seq<ArgV> {
    v.map_values(|a: syn::FnArg| arg_model(a))
}

/// Relies on `syn::parse2::<TraitItemFn>`: parses the token stream as a
/// trait method — `Ok` exactly when it is one.
#[verifier::external_body]
pub fn parse_trait_fn(ts: &proc_macro2::TokenStream) -> (r: Result<syn::TraitItemFn, syn::Error>)
    ensures
        r is Ok <==> trait_fn_of(*ts) is Some,
        (r matches Ok(f) ==> trait_fn_of(*ts) == Some(fn_model(f))),
{
    syn::parse2(ts.clone())
}

/// Relies on `syn::punctuated::Punctuated::parse_terminated` through
/// `syn::parse::Parser::parse2`: parses the token stream as a
/// comma-separated list of function arguments — `Ok` exactly when it is
/// one.
#[verifier::external_body]
pub fn parse_args_list(ts: &proc_macro2::TokenStream) -> (r: Result<Vec<syn::FnArg>, syn::Error>)
    ensures
        r is Ok <==> args_of(*ts) is Some,
        (r matches Ok(v) ==> args_of(*ts) == Some(arg_models(v@))),
{
    let parser = syn::punctuated::Punctuated::<syn::FnArg, syn::token::Comma>::parse_terminated;
    match Parser::parse2(parser, ts.clone()) {
        Ok(p) => Ok(p.into_iter().collect()),
        Err(e) => Err(e),
    }
}

/// Relies on `<proc_macro2::TokenStream as core::str::FromStr>::from_str`:
/// lexes text into a token stream. `from_str` validates with proc-macro2's
/// fallback lexer and, inside a macro expansion, lexes with the host
/// compiler's, so only the necessary condition is stated: success implies
/// the fallback accepts the text.
#[verifier::external_body]
pub fn lex_tokens(s: &str) -> (r: Result<proc_macro2::TokenStream, proc_macro2::LexError>)
    ensures
        r is Ok ==> lexable(s@),
{
    s.parse()
}

/// Relies on the field `TraitItemFn::attrs` and `Vec::clone`: the method's
/// attributes, in order; their models are the model's attribute list.
#[verifier::external_body]
pub fn fn_attrs(f: &syn::TraitItemFn) -> (r: Vec<syn::Attribute>)
    ensures
        attr_models(r@) == fn_model(*f).attrs,
{
    f.attrs.clone()
}

/// Relies on the field `Signature::inputs`: the method's arguments, in
/// order, collected out of the punctuated list; their models are the
/// model's argument list.
#[verifier::external_body]
pub fn fn_inputs(f: &syn::TraitItemFn) -> (r: Vec<syn::FnArg>)
    ensures
        arg_models(r@) == fn_model(*f).sig.inputs,
{
    f.sig.inputs.iter().cloned().collect()
}

/// Relies on `quote::ToTokens::to_tokens` of the `Signature` fields
/// `constness`, `asyncness`, `unsafety` and `abi`, in the order the
/// signature itself is printed, and on `proc_macro2::TokenStream`'s
/// `Display`: the printed qualifiers, empty when there are none.
#[verifier::external_body]
pub fn fn_lead_text(f: &syn::TraitItemFn) -> (r: String)
    ensures
        r@ == fn_model(*f).sig.lead,
{
    let mut t = proc_macro2::TokenStream::new();
    f.sig.constness.to_tokens(&mut t);
    f.sig.asyncness.to_tokens(&mut t);
    f.sig.unsafety.to_tokens(&mut t);
    f.sig.abi.to_tokens(&mut t);
    t.to_string()
}

/// Relies on `proc_macro2::Ident`'s `Display`: the method's name.
#[verifier::external_body]
pub fn fn_name_text(f: &syn::TraitItemFn) -> (r: String)
    ensures
        r@ == fn_model(*f).sig.name,
{
    f.sig.ident.to_string()
}

/// Relies on `quote::ToTokens` for `syn::Generics`, which prints the
/// parameter list in angle brackets and not the `where` clause, and on
/// `proc_macro2::TokenStream`'s `Display`.
#[verifier::external_body]
pub fn fn_generics_text(f: &syn::TraitItemFn) -> (r: String)
    ensures
        r@ == fn_model(*f).sig.generics,
{
    f.sig.generics.to_token_stream().to_string()
}

/// Relies on `quote::ToTokens` for `syn::WhereClause` and on
/// `proc_macro2::TokenStream`'s `Display`: the printed `where` clause,
/// empty when there is none.
#[verifier::external_body]
pub fn fn_where_text(f: &syn::TraitItemFn) -> (r: String)
    ensures
        r@ == fn_model(*f).sig.where_text,
{
    match &f.sig.generics.where_clause {
        Some(w) => w.to_token_stream().to_string(),
        None => String::new(),
    }
}

/// Relies on the field `Signature::variadic` and `quote::ToTokens` for
/// `syn::Variadic`: the printed variadic marker (`...`, with its
/// attributes and pattern), or `None` when the signature has none.
#[verifier::external_body]
pub fn fn_variadic_text(f: &syn::TraitItemFn) -> (r: Option<String>)
    ensures
        opt_text_view(r) == fn_model(*f).sig.variadic,
{
    match &f.sig.variadic {
        Some(v) => Some(v.to_token_stream().to_string()),
        None => None,
    }
}

/// Relies on the field `Signature::output` and `quote::ToTokens` for
/// `syn::Type`: the printed return type without the arrow, or `None` when
/// the signature declares none.
#[verifier::external_body]
pub fn fn_output_text(f: &syn::TraitItemFn) -> (r: Option<String>)
    ensures
        opt_text_view(r) == fn_model(*f).sig.output,
{
    match &f.sig.output {
        syn::ReturnType::Default => None,
        syn::ReturnType::Type(_, ty) => Some(ty.to_token_stream().to_string()),
    }
}

/// Relies on the field `TraitItemFn::default` and `quote::ToTokens` for
/// `syn::Block`: the printed default body with its braces, or `None` for a
/// bare declaration.
#[verifier::external_body]
pub fn fn_body_text(f: &syn::TraitItemFn) -> (r: Option<String>)
    ensures
        opt_text_view(r) == fn_model(*f).body,
{
    match &f.default {
        Some(b) => Some(b.to_token_stream().to_string()),
        None => None,
    }
}

/// Relies on `syn::Meta::path` and `syn::Path::get_ident`: the identifier
/// naming the attribute when its path is a single plain identifier, else
/// `None`.
#[verifier::external_body]
pub fn attr_name_text(a: &syn::Attribute) -> (r: Option<String>)
    ensures
        opt_text_view(r) == attr_model(*a).name,
{
    match a.meta.path().get_ident() {
        Some(i) => Some(i.to_string()),
        None => None,
    }
}

/// Relies on the field `Attribute::style`, one match arm per
/// `syn::AttrStyle` variant: whether the attribute is an inner one,
/// hoisted out of the default body at parse time.
#[verifier::external_body]
pub fn attr_is_inner(a: &syn::Attribute) -> (r: bool)
    ensures
        r == attr_model(*a).inner,
{
    match a.style {
        syn::AttrStyle::Outer => false,
        syn::AttrStyle::Inner(_) => true,
    }
}

/// Relies on `quote::ToTokens` for `syn::Attribute` and on
/// `proc_macro2::TokenStream`'s `Display`: the printed attribute,
/// `#[...]` included.
#[verifier::external_body]
pub fn attr_text(a: &syn::Attribute) -> (r: String)
    ensures
        r@ == attr_model(*a).text,
{
    a.to_token_stream().to_string()
}

/// Relies on `quote::ToTokens` for `syn::FnArg` and on
/// `proc_macro2::TokenStream`'s `Display`: the printed argument.
#[verifier::external_body]
pub fn arg_text(a: &syn::FnArg) -> (r: String)
    ensures
        r@ == arg_model(*a).text,
{
    a.to_token_stream().to_string()
}

/// Relies on the fields `Receiver::ty` and `PatType::ty`, one match arm per
/// `syn::FnArg` variant, and `quote::ToTokens` for `syn::Type`: the printed
/// type of the argument. For a shorthand receiver, `syn` reconstructs the
/// type as `Self`, `&Self` or `&mut Self`, with the reference's lifetime
/// when one is written.
#[verifier::external_body]
pub fn arg_type_text(a: &syn::FnArg) -> (r: String)
    ensures
        r@ == arg_model(*a).ty_text,
{
    match a {
        syn::FnArg::Receiver(r) => r.ty.to_token_stream().to_string(),
        syn::FnArg::Typed(p) => p.ty.to_token_stream().to_string(),
    }
}

} // verus!
