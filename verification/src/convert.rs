//! Reading a parsed method into the plain-text model.
//!
//! Each function here is verified to produce exactly the named model of
//! what it reads: the syntax trees are opaque, but every accessor of the
//! trusted boundary ties its result to one field of [`fn_model`],
//! [`attr_model`] or [`arg_model`], and these loops assemble those pieces
//! without adding, dropping or reordering anything.

use vstd::prelude::*;
use crate::model::{Arg, AttrEntry, Method, MethodSig, args_view, attrs_view};
use crate::syntax::{
    arg_model, arg_models, arg_text, arg_type_text, attr_is_inner, attr_model, attr_models,
    attr_name_text, attr_text, fn_attrs, fn_body_text, fn_generics_text, fn_inputs, fn_lead_text,
    fn_model, fn_name_text, fn_output_text, fn_variadic_text, fn_where_text,
};

verus! {

/// Reads each attribute into its model: name, printed text, and style.
pub fn attr_entries(attrs: &Vec<syn::Attribute>) -> (r: Vec<AttrEntry>)
    ensures
        attrs_view(r@) == attr_models(attrs@),
{
    let ghost all = attr_models(attrs@);
    let mut r: Vec<AttrEntry> = Vec::new();
    let n = attrs.len();
    let mut i: usize = 0;
    while i < n
        invariant
            n == attrs.len(),
            i <= n,
            all == attr_models(attrs@),
            attrs_view(r@) == all.take(i as int),
        decreases n - i,
    {
        let a = &attrs[i];
        let e = AttrEntry { name: attr_name_text(a), text: attr_text(a), inner: attr_is_inner(a) };
        proof {
            assert(all[i as int] == attr_model(attrs@[i as int]));
            assert(e@ =~= attr_model(attrs@[i as int]));
        }
        r.push(e);
        proof {
            assert(attrs_view(r@).drop_last() =~= all.take(i as int));
            assert(attrs_view(r@).last() == e@);
            assert(attrs_view(r@) =~= all.take(i + 1));
        }
        i = i + 1;
    }
    proof {
        assert(all.take(n as int) =~= all);
    }
    r
}

/// Reads each argument into its model: printed text and printed type.
pub fn arg_entries(args: &Vec<syn::FnArg>) -> (r: Vec<Arg>)
    ensures
        args_view(r@) == arg_models(args@),
{
    let ghost all = arg_models(args@);
    let mut r: Vec<Arg> = Vec::new();
    let n = args.len();
    let mut i: usize = 0;
    while i < n
        invariant
            n == args.len(),
            i <= n,
            all == arg_models(args@),
            args_view(r@) == all.take(i as int),
        decreases n - i,
    {
        let a = &args[i];
        let e = Arg { text: arg_text(a), ty_text: arg_type_text(a) };
        proof {
            assert(all[i as int] == arg_model(args@[i as int]));
            assert(e@ =~= arg_model(args@[i as int]));
        }
        r.push(e);
        proof {
            assert(args_view(r@).drop_last() =~= all.take(i as int));
            assert(args_view(r@).last() == e@);
            assert(args_view(r@) =~= all.take(i + 1));
        }
        i = i + 1;
    }
    proof {
        assert(all.take(n as int) =~= all);
    }
    r
}

/// Reads a parsed trait method into its plain-text model, exactly.
pub fn method_model(f: &syn::TraitItemFn) -> (r: Method)
    ensures
        r@ == fn_model(*f),
{
    let attrs = fn_attrs(f);
    let inputs = fn_inputs(f);
    let r = Method {
        attrs: attr_entries(&attrs),
        sig: MethodSig {
            lead: fn_lead_text(f),
            name: fn_name_text(f),
            generics: fn_generics_text(f),
            inputs: arg_entries(&inputs),
            variadic: fn_variadic_text(f),
            output: fn_output_text(f),
            where_text: fn_where_text(f),
        },
        body: fn_body_text(f),
    };
    proof {
        assert(r@.sig =~= fn_model(*f).sig);
        assert(r@ =~= fn_model(*f));
    }
    r
}

} // verus!
