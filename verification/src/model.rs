//! Plain-text model of a trait method.
//!
//! The rewriting logic never needs to look inside a type, a body or an
//! ordinary attribute: it only moves their token text around. So a method is
//! modelled by the printed token text of its parts, held in `String`s, plus
//! the one datum the logic does inspect: for each attribute, the identifier
//! that names it (when its path is a single identifier).

use vstd::prelude::*;

verus! {

/// One attribute on the method.
///
/// Parsing hoists the inner attributes of a default body up into the
/// method's attribute list, so an entry carries its style: an inner
/// attribute that is kept belongs inside the rewritten body, not in front
/// of the method.
pub struct AttrEntry {
    /// The identifier naming the attribute, when its path is a single
    /// identifier (`with_input` for `#[with_input]`); `None` for a longer
    /// path such as `#[serde::skip]`.
    pub name: Option<String>,
    /// The printed token text of the whole attribute, `#[...]` included.
    pub text: String,
    /// Whether the attribute is an inner one (`#![...]`), hoisted out of
    /// the default body.
    pub inner: bool,
}

/// One function argument, such as `&self` or `name: String`.
pub struct Arg {
    /// The printed token text of the whole argument.
    pub text: String,
    /// The printed token text of the argument's type. For a shorthand
    /// receiver this is the reconstructed `Self`, `&Self` or `&mut Self`.
    pub ty_text: String,
}

/// The pieces of a method signature that the rewrite reads or replaces.
pub struct MethodSig {
    /// Token text of the qualifiers printed before `fn`, or empty.
    pub lead: String,
    /// The method's name.
    pub name: String,
    /// Token text of the generic parameter list, `<` and `>` included, or
    /// empty when there are no generic parameters.
    pub generics: String,
    /// The declared arguments, in order.
    pub inputs: Vec<Arg>,
    /// Token text of the variadic marker (`...`, with its attributes),
    /// printed after the arguments; `None` when the signature has none.
    pub variadic: Option<String>,
    /// Token text of the declared return type, without the arrow; `None`
    /// when the signature has no return type.
    pub output: Option<String>,
    /// Token text of the `where` clause, or empty.
    pub where_text: String,
}

/// A trait method: attributes, signature, and optional default body.
pub struct Method {
    /// The attributes on the method, in order.
    pub attrs: Vec<AttrEntry>,
    /// The signature.
    pub sig: MethodSig,
    /// Token text of the default body, braces included; `None` for a bare
    /// declaration.
    pub body: Option<String>,
}

/// View of an [`AttrEntry`].
#[verifier::ext_equal]
pub struct AttrEntryV {
    /// View of [`AttrEntry::name`].
    pub name: Option<Seq<char>>,
    /// View of [`AttrEntry::text`].
    pub text: Seq<char>,
    /// View of [`AttrEntry::inner`].
    pub inner: bool,
}

/// View of an [`Arg`].
#[verifier::ext_equal]
pub struct ArgV {
    /// View of [`Arg::text`].
    pub text: Seq<char>,
    /// View of [`Arg::ty_text`].
    pub ty_text: Seq<char>,
}

/// View of a [`MethodSig`].
#[verifier::ext_equal]
pub struct MethodSigV {
    /// View of [`MethodSig::lead`].
    pub lead: Seq<char>,
    /// View of [`MethodSig::name`].
    pub name: Seq<char>,
    /// View of [`MethodSig::generics`].
    pub generics: Seq<char>,
    /// View of [`MethodSig::inputs`].
    pub inputs: Seq<ArgV>,
    /// View of [`MethodSig::variadic`].
    pub variadic: Option<Seq<char>>,
    /// View of [`MethodSig::output`].
    pub output: Option<Seq<char>>,
    /// View of [`MethodSig::where_text`].
    pub where_text: Seq<char>,
}

/// View of a [`Method`].
#[verifier::ext_equal]
pub struct MethodV {
    /// View of [`Method::attrs`].
    pub attrs: Seq<AttrEntryV>,
    /// View of [`Method::sig`].
    pub sig: MethodSigV,
    /// View of [`Method::body`].
    pub body: Option<Seq<char>>,
}

/// View of an optional piece of token text.
pub open spec fn opt_text_view(o: Option<String>) -> Option<Seq<char>> {
    match o {
        Some(s) => Some(s@),
        None => None,
    }
}

/// View of a sequence of attribute entries.
pub open spec fn attrs_view(v: Seq<AttrEntry>) -> Seq<AttrEntryV> {
    v.map_values(|a: AttrEntry| a@)
}

/// View of a sequence of arguments.
pub open spec fn args_view(v: Seq<Arg>) -> Seq<ArgV> {
    v.map_values(|a: Arg| a@)
}

impl AttrEntry {
    /// Copy of the entry.
    pub fn dup(&self) -> (r: AttrEntry)
        ensures
            r@ == self@,
    {
        AttrEntry {
            name: match &self.name {
                Some(s) => Some(s.clone()),
                None => None,
            },
            text: self.text.clone(),
            inner: self.inner,
        }
    }
}

impl View for AttrEntry {
    type V = AttrEntryV;

    open spec fn view(&self) -> AttrEntryV {
        AttrEntryV { name: opt_text_view(self.name), text: self.text@, inner: self.inner }
    }
}

impl View for Arg {
    type V = ArgV;

    open spec fn view(&self) -> ArgV {
        ArgV { text: self.text@, ty_text: self.ty_text@ }
    }
}

impl View for MethodSig {
    type V = MethodSigV;

    open spec fn view(&self) -> MethodSigV {
        MethodSigV {
            lead: self.lead@,
            name: self.name@,
            generics: self.generics@,
            inputs: args_view(self.inputs@),
            variadic: opt_text_view(self.variadic),
            output: opt_text_view(self.output),
            where_text: self.where_text@,
        }
    }
}

impl View for Method {
    type V = MethodV;

    open spec fn view(&self) -> MethodV {
        MethodV {
            attrs: attrs_view(self.attrs@),
            sig: self.sig@,
            body: opt_text_view(self.body),
        }
    }
}

} // verus!
