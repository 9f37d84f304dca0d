//! The builder that wraps one trait method and rewrites it.
//!
//! Mirrors the attribute's pipeline: parse the attribute's arguments and the
//! annotated method, mark the wanted system shape, and print the rewritten
//! method. The marks are ordinary marker attributes on the held method, so
//! marking by builder call and writing the marker attribute in source are
//! the same thing.

use vstd::prelude::*;
use crate::convert::{arg_entries, method_model};
use crate::emit::{BuildError, build_source, missing_input_arg, rewritten_source};
use crate::model::{Arg, ArgV, AttrEntry, AttrEntryV, Method, MethodV, args_view, attrs_view};
use crate::syntax::{args_of, lex_tokens, lexable, parse_args_list, parse_trait_fn, trait_fn_of};

verus! {

/// Why a token stream cannot be rewritten.
#[derive(Debug)]
pub enum RewriteError {
    /// The attribute's arguments do not parse as a comma-separated list of
    /// function arguments.
    ArgsParse(syn::Error),
    /// The annotated item does not parse as a trait method.
    NotTraitFn(syn::Error),
    /// `#[with_input]` asks for a system input type, but the argument list
    /// that would supply it is empty.
    MissingInputArg,
    /// The rewritten text does not lex back into a token stream.
    Lex(proc_macro2::LexError),
}

/// Wraps a trait method and turns it into a builder of a system.
pub struct WrapImplSystem {
    args: Vec<Arg>,
    method: Method,
}

/// View of a [`WrapImplSystem`].
pub struct WrapImplSystemV {
    /// View of the attribute's arguments.
    pub args: Seq<ArgV>,
    /// View of the held method.
    pub method: MethodV,
}

impl View for WrapImplSystem {
    type V = WrapImplSystemV;

    closed spec fn view(&self) -> WrapImplSystemV {
        WrapImplSystemV { args: args_view(self.args@), method: self.method@ }
    }
}

/// View of the marker attribute entry named `name`.
pub open spec fn marker_entry(name: Seq<char>, text: Seq<char>) -> AttrEntryV {
    AttrEntryV { name: Some(name), text, inner: false }
}

impl WrapImplSystem {
    /// Creates a builder from the attribute's argument tokens and the
    /// annotated method's tokens: the held model is exactly what the two
    /// streams parse to, with nothing added, and each parse failure is
    /// reported as its own error, if and only if it occurs.
    pub fn new(args: proc_macro2::TokenStream, func: proc_macro2::TokenStream) -> (r: Result<
        WrapImplSystem,
        RewriteError,
    >)
        ensures
            ((r matches Err(RewriteError::ArgsParse(_))) <==> args_of(args) is None),
            ((r matches Err(RewriteError::NotTraitFn(_))) <==> (args_of(args) is Some
                && trait_fn_of(func) is None)),
            (r is Ok <==> (args_of(args) is Some && trait_fn_of(func) is Some)),
            (r matches Ok(w) ==> args_of(args) == Some(w@.args) && trait_fn_of(func) == Some(
                w@.method,
            )),
    {
        let a = match parse_args_list(&args) {
            Ok(a) => a,
            Err(e) => {
                return Err(RewriteError::ArgsParse(e));
            },
        };
        let f = match parse_trait_fn(&func) {
            Ok(f) => f,
            Err(e) => {
                return Err(RewriteError::NotTraitFn(e));
            },
        };
        Ok(WrapImplSystem { args: arg_entries(&a), method: method_model(&f) })
    }

    /// Creates a builder directly from the plain-text model.
    pub fn from_parts(args: Vec<Arg>, method: Method) -> (r: WrapImplSystem)
        ensures
            r@.args == args_view(args@),
            r@.method == method@,
    {
        WrapImplSystem { args, method }
    }

    /// Marks the method with `#[with_input]`: the returned system accepts
    /// system input.
    pub fn with_input(self) -> (r: WrapImplSystem)
        ensures
            r@.args == self@.args,
            r@.method.sig == self@.method.sig,
            r@.method.body == self@.method.body,
            r@.method.attrs == self@.method.attrs.push(
                marker_entry("with_input"@, "#[with_input]"@),
            ),
    {
        let mut w = self;
        w.method.attrs.push(
            AttrEntry {
                name: Some(String::from_str("with_input")),
                text: String::from_str("#[with_input]"),
                inner: false,
            },
        );
        proof {
            assert(attrs_view(w.method.attrs@) =~= attrs_view(self.method.attrs@).push(
                marker_entry("with_input"@, "#[with_input]"@),
            ));
        }
        w
    }

    /// Marks the method with `#[readonly]`: the returned system is
    /// read-only.
    pub fn readonly(self) -> (r: WrapImplSystem)
        ensures
            r@.args == self@.args,
            r@.method.sig == self@.method.sig,
            r@.method.body == self@.method.body,
            r@.method.attrs == self@.method.attrs.push(marker_entry("readonly"@, "#[readonly]"@)),
    {
        let mut w = self;
        w.method.attrs.push(
            AttrEntry {
                name: Some(String::from_str("readonly")),
                text: String::from_str("#[readonly]"),
                inner: false,
            },
        );
        proof {
            assert(attrs_view(w.method.attrs@) =~= attrs_view(self.method.attrs@).push(
                marker_entry("readonly"@, "#[readonly]"@),
            ));
        }
        w
    }

    /// Marks the method with `#[boxed]`: the returned system is boxed.
    pub fn boxed(self) -> (r: WrapImplSystem)
        ensures
            r@.args == self@.args,
            r@.method.sig == self@.method.sig,
            r@.method.body == self@.method.body,
            r@.method.attrs == self@.method.attrs.push(marker_entry("boxed"@, "#[boxed]"@)),
    {
        let mut w = self;
        w.method.attrs.push(
            AttrEntry {
                name: Some(String::from_str("boxed")),
                text: String::from_str("#[boxed]"),
                inner: false,
            },
        );
        proof {
            assert(attrs_view(w.method.attrs@) =~= attrs_view(self.method.attrs@).push(
                marker_entry("boxed"@, "#[boxed]"@),
            ));
        }
        w
    }

    /// The rewritten method's token text, or why it cannot be built.
    pub fn rewritten_text(&self) -> (r: Result<String, BuildError>)
        ensures
            r is Ok <==> !missing_input_arg(self@.method, self@.args),
            (r matches Ok(s) ==> s@ == rewritten_source(self@.method, self@.args)),
            (r matches Err(e) ==> e == BuildError::MissingInputArg),
    {
        build_source(&self.args, &self.method)
    }

    /// The rewritten method, lexed back into a token stream: the missing
    /// input argument is reported if and only if the model asks for it;
    /// otherwise what is lexed is exactly the rewritten text, the result
    /// is that lexing's — `Ok` or the lexing error — and success implies
    /// the text is acceptable to the lexer (which lexer answers can depend
    /// on the host, so no more is promised of when it succeeds).
    pub fn to_token_stream(&self) -> (r: Result<proc_macro2::TokenStream, RewriteError>)
        ensures
            ((r matches Err(RewriteError::MissingInputArg)) <==> missing_input_arg(
                self@.method,
                self@.args,
            )),
            (!missing_input_arg(self@.method, self@.args) ==> (r is Ok || r matches Err(
                RewriteError::Lex(_),
            ))),
            (r is Ok ==> lexable(rewritten_source(self@.method, self@.args))),
    {
        match self.rewritten_text() {
            Ok(s) => match lex_tokens(s.as_str()) {
                Ok(t) => Ok(t),
                Err(e) => Err(RewriteError::Lex(e)),
            },
            Err(BuildError::MissingInputArg) => Err(RewriteError::MissingInputArg),
        }
    }
}

} // verus!
