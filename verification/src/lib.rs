//! Rewrites trait method declarations into builder functions that return a
//! game engine's schedulable "system" objects.
//!
//! A trait method annotated for rewriting is turned into a function with the
//! same name whose return type is a system trait bound (`System` or
//! `ReadOnlySystem`, optionally boxed) and whose default body, if present, is
//! wrapped into a call that turns a closure into such a system.
//!
//! The decision logic — which marker attributes are consumed, how the
//! argument lists are exchanged, and the exact text of the rewritten method —
//! is verified over a plain-text model of the method ([`model`], [`scan`],
//! [`emit`]). Parsing into and out of that model goes through a thin trusted
//! boundary around the syntax crates ([`syntax`], read into the model by
//! [`convert`]); [`wrap`] ties the pipeline together behind the
//! [`wrap::WrapImplSystem`] builder. Each entry point below promises
//! [`rewrite_spec`]: which error comes on which input, if and only if, and
//! that the output is the lexing of the rewritten method's text.

pub mod convert;
pub mod emit;
pub mod model;
pub mod scan;
pub mod syntax;
pub mod wrap;

use vstd::prelude::*;
use crate::emit::{missing_input_arg, rewritten_source};
use crate::model::{AttrEntryV, MethodV};
use crate::syntax::{args_of, lexable, trait_fn_of};
use crate::wrap::{RewriteError, WrapImplSystem, marker_entry};

verus! {

/// The method model with the given marker attributes appended, as the
/// builder calls append them.
pub open spec fn marked(m: MethodV, marks: Seq<AttrEntryV>) -> MethodV {
    MethodV { attrs: m.attrs + marks, sig: m.sig, body: m.body }
}

/// What each entry point promises, over what its two token streams parse
/// to and the marker attributes it appends:
/// the argument-list parse error comes if and only if the argument stream
/// does not parse; else the trait-method parse error if and only if the
/// method stream does not parse; else, over the parsed models with the
/// markers appended, the missing-input error if and only if a system input
/// type is asked for with no argument to take it from; else the result is
/// the lexing of exactly the rewritten method's text — `Ok` or the lexing
/// error, with success implying the text is acceptable to the lexer
/// (which lexer answers can depend on the host, so no more is promised of
/// when it succeeds).
pub open spec fn rewrite_spec(
    args: proc_macro2::TokenStream,
    func: proc_macro2::TokenStream,
    marks: Seq<AttrEntryV>,
    r: Result<proc_macro2::TokenStream, RewriteError>,
) -> bool {
    &&& ((r matches Err(RewriteError::ArgsParse(_))) <==> args_of(args) is None)
    &&& ((r matches Err(RewriteError::NotTraitFn(_))) <==> (args_of(args) is Some && trait_fn_of(
        func,
    ) is None))
    &&& match (args_of(args), trait_fn_of(func)) {
        (Some(a), Some(m)) => {
            let mm = marked(m, marks);
            &&& ((r matches Err(RewriteError::MissingInputArg)) <==> missing_input_arg(mm, a))
            &&& (!missing_input_arg(mm, a) ==> (r is Ok || r matches Err(RewriteError::Lex(_))))
            &&& (r is Ok ==> lexable(rewritten_source(mm, a)))
        },
        _ => true,
    }
}

/// Rewrites a trait method into a builder of a system.
pub fn system(args: proc_macro2::TokenStream, func: proc_macro2::TokenStream) -> (r: Result<
    proc_macro2::TokenStream,
    RewriteError,
>)
    ensures
        rewrite_spec(args, func, Seq::empty(), r),
{
    let w = match WrapImplSystem::new(args, func) {
        Ok(w) => w,
        Err(e) => {
            return Err(e);
        },
    };
    proof {
        assert(marked(w@.method, Seq::empty()) =~= w@.method);
    }
    w.to_token_stream()
}

/// Rewrites a trait method into a builder of a system that accepts system
/// input.
pub fn system_with_input(args: proc_macro2::TokenStream, func: proc_macro2::TokenStream) -> (r:
    Result<proc_macro2::TokenStream, RewriteError>)
    ensures
        rewrite_spec(args, func, seq![marker_entry("with_input"@, "#[with_input]"@)], r),
{
    let w = match WrapImplSystem::new(args, func) {
        Ok(w) => w,
        Err(e) => {
            return Err(e);
        },
    };
    let ghost m0 = w@.method;
    let wm = w.with_input();
    proof {
        assert(wm@.method.attrs =~= m0.attrs + seq![marker_entry("with_input"@, "#[with_input]"@)]);
        assert(wm@.method =~= marked(m0, seq![marker_entry("with_input"@, "#[with_input]"@)]));
    }
    wm.to_token_stream()
}

/// Rewrites a trait method into a builder of a read-only system.
pub fn readonly_system(args: proc_macro2::TokenStream, func: proc_macro2::TokenStream) -> (r:
    Result<proc_macro2::TokenStream, RewriteError>)
    ensures
        rewrite_spec(args, func, seq![marker_entry("readonly"@, "#[readonly]"@)], r),
{
    let w = match WrapImplSystem::new(args, func) {
        Ok(w) => w,
        Err(e) => {
            return Err(e);
        },
    };
    let ghost m0 = w@.method;
    let wm = w.readonly();
    proof {
        assert(wm@.method.attrs =~= m0.attrs + seq![marker_entry("readonly"@, "#[readonly]"@)]);
        assert(wm@.method =~= marked(m0, seq![marker_entry("readonly"@, "#[readonly]"@)]));
    }
    wm.to_token_stream()
}

/// Rewrites a trait method into a builder of a read-only system that
/// accepts system input.
pub fn readonly_system_with_input(
    args: proc_macro2::TokenStream,
    func: proc_macro2::TokenStream,
) -> (r: Result<proc_macro2::TokenStream, RewriteError>)
    ensures
        rewrite_spec(
            args,
            func,
            seq![
                marker_entry("readonly"@, "#[readonly]"@),
                marker_entry("with_input"@, "#[with_input]"@),
            ],
            r,
        ),
{
    let w = match WrapImplSystem::new(args, func) {
        Ok(w) => w,
        Err(e) => {
            return Err(e);
        },
    };
    let ghost m0 = w@.method;
    let wm = w.readonly().with_input();
    proof {
        let ghost marks = seq![
            marker_entry("readonly"@, "#[readonly]"@),
            marker_entry("with_input"@, "#[with_input]"@),
        ];
        assert(wm@.method.attrs =~= m0.attrs + marks);
        assert(wm@.method =~= marked(m0, marks));
    }
    wm.to_token_stream()
}

/// Rewrites a trait method into a builder of a boxed system.
pub fn boxed_system(args: proc_macro2::TokenStream, func: proc_macro2::TokenStream) -> (r: Result<
    proc_macro2::TokenStream,
    RewriteError,
>)
    ensures
        rewrite_spec(args, func, seq![marker_entry("boxed"@, "#[boxed]"@)], r),
{
    let w = match WrapImplSystem::new(args, func) {
        Ok(w) => w,
        Err(e) => {
            return Err(e);
        },
    };
    let ghost m0 = w@.method;
    let wm = w.boxed();
    proof {
        assert(wm@.method.attrs =~= m0.attrs + seq![marker_entry("boxed"@, "#[boxed]"@)]);
        assert(wm@.method =~= marked(m0, seq![marker_entry("boxed"@, "#[boxed]"@)]));
    }
    wm.to_token_stream()
}

/// Rewrites a trait method into a builder of a boxed system that accepts
/// system input.
pub fn boxed_system_with_input(
    args: proc_macro2::TokenStream,
    func: proc_macro2::TokenStream,
) -> (r: Result<proc_macro2::TokenStream, RewriteError>)
    ensures
        rewrite_spec(
            args,
            func,
            seq![
                marker_entry("boxed"@, "#[boxed]"@),
                marker_entry("with_input"@, "#[with_input]"@),
            ],
            r,
        ),
{
    let w = match WrapImplSystem::new(args, func) {
        Ok(w) => w,
        Err(e) => {
            return Err(e);
        },
    };
    let ghost m0 = w@.method;
    let wm = w.boxed().with_input();
    proof {
        let ghost marks = seq![
            marker_entry("boxed"@, "#[boxed]"@),
            marker_entry("with_input"@, "#[with_input]"@),
        ];
        assert(wm@.method.attrs =~= m0.attrs + marks);
        assert(wm@.method =~= marked(m0, marks));
    }
    wm.to_token_stream()
}

/// Rewrites a trait method into a builder of a boxed read-only system.
pub fn boxed_readonly_system(
    args: proc_macro2::TokenStream,
    func: proc_macro2::TokenStream,
) -> (r: Result<proc_macro2::TokenStream, RewriteError>)
    ensures
        rewrite_spec(
            args,
            func,
            seq![
                marker_entry("boxed"@, "#[boxed]"@),
                marker_entry("readonly"@, "#[readonly]"@),
            ],
            r,
        ),
{
    let w = match WrapImplSystem::new(args, func) {
        Ok(w) => w,
        Err(e) => {
            return Err(e);
        },
    };
    let ghost m0 = w@.method;
    let wm = w.boxed().readonly();
    proof {
        let ghost marks = seq![
            marker_entry("boxed"@, "#[boxed]"@),
            marker_entry("readonly"@, "#[readonly]"@),
        ];
        assert(wm@.method.attrs =~= m0.attrs + marks);
        assert(wm@.method =~= marked(m0, marks));
    }
    wm.to_token_stream()
}

/// Rewrites a trait method into a builder of a boxed read-only system that
/// accepts system input.
pub fn boxed_readonly_system_with_input(
    args: proc_macro2::TokenStream,
    func: proc_macro2::TokenStream,
) -> (r: Result<proc_macro2::TokenStream, RewriteError>)
    ensures
        rewrite_spec(
            args,
            func,
            seq![
                marker_entry("boxed"@, "#[boxed]"@),
                marker_entry("readonly"@, "#[readonly]"@),
                marker_entry("with_input"@, "#[with_input]"@),
            ],
            r,
        ),
{
    let w = match WrapImplSystem::new(args, func) {
        Ok(w) => w,
        Err(e) => {
            return Err(e);
        },
    };
    let ghost m0 = w@.method;
    let wm = w.boxed().readonly().with_input();
    proof {
        let ghost marks = seq![
            marker_entry("boxed"@, "#[boxed]"@),
            marker_entry("readonly"@, "#[readonly]"@),
            marker_entry("with_input"@, "#[with_input]"@),
        ];
        assert(wm@.method.attrs =~= m0.attrs + marks);
        assert(wm@.method =~= marked(m0, marks));
    }
    wm.to_token_stream()
}

} // verus!
