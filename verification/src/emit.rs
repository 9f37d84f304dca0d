//! Building the rewritten method's token text.
//!
//! The rewritten method keeps its non-marker attributes, name, generics and
//! `where` clause; its argument list and the closure's argument list are
//! exchanged when a default body is present; its return type becomes a system
//! trait bound chosen by the marker flags; and a default body is wrapped into
//! a call that turns a closure into a system.

use vstd::prelude::*;
use crate::model::{Arg, ArgV, AttrEntry, AttrEntryV, Method, MethodV, args_view, attrs_view,
    opt_text_view};
use crate::scan::{flags_of, kept_attrs, scan_attrs};

verus! {

/// Why a method cannot be rewritten.
#[derive(Debug, PartialEq, Eq, Structural)]
pub enum BuildError {
    /// `#[with_input]` asks for a system input type, but the argument list
    /// that would supply it is empty.
    MissingInputArg,
}

/// The argument texts joined with `", "`.
pub open spec fn joined_args(args: Seq<ArgV>) -> Seq<char>
    decreases args.len(),
{
    if args.len() == 0 {
        Seq::empty()
    } else if args.len() == 1 {
        args[0].text
    } else {
        joined_args(args.drop_last()) + ", "@ + args.last().text
    }
}

/// The attribute texts, each followed by one space.
pub open spec fn attrs_prefix(attrs: Seq<AttrEntryV>) -> Seq<char>
    decreases attrs.len(),
{
    if attrs.len() == 0 {
        Seq::empty()
    } else {
        attrs_prefix(attrs.drop_last()) + attrs.last().text + " "@
    }
}

/// The attributes written in front of the method.
pub open spec fn outer_attrs(attrs: Seq<AttrEntryV>) -> Seq<AttrEntryV> {
    attrs.filter(|a: AttrEntryV| !a.inner)
}

/// The attributes hoisted out of the default body, which belong inside the
/// rewritten body.
pub open spec fn inner_attrs(attrs: Seq<AttrEntryV>) -> Seq<AttrEntryV> {
    attrs.filter(|a: AttrEntryV| a.inner)
}

/// The signature qualifiers followed by one space, or nothing.
pub open spec fn lead_prefix(lead: Seq<char>) -> Seq<char> {
    if lead.len() == 0 {
        lead
    } else {
        lead + " "@
    }
}

/// The system's output type: the declared return type, or the unit type.
pub open spec fn out_type_text(output: Option<Seq<char>>) -> Seq<char> {
    match output {
        Some(t) => t,
        None => "()"@,
    }
}

/// The closure's return type annotation, or nothing.
pub open spec fn arrow_text(output: Option<Seq<char>>) -> Seq<char> {
    match output {
        Some(t) => "-> "@ + t + " "@,
        None => Seq::empty(),
    }
}

/// The system trait bound: `System` or `ReadOnlySystem`, with the input and
/// output types as associated type bindings.
pub open spec fn bound_text(readonly: bool, sys_in: Seq<char>, out: Seq<char>) -> Seq<char> {
    (if readonly {
        "::bevy::ecs::system::ReadOnlySystem"@
    } else {
        "::bevy::ecs::system::System"@
    }) + "<In = "@ + sys_in + ", Out = "@ + out + ">"@
}

/// The rewritten return type: the bound behind `impl`, or boxed.
pub open spec fn ret_text(boxed: bool, bound: Seq<char>) -> Seq<char> {
    if boxed {
        "-> ::std::boxed::Box<dyn "@ + bound + ">"@
    } else {
        "-> impl "@ + bound
    }
}

/// The call that turns the default body, as a closure over the exchanged
/// arguments, into a system.
pub open spec fn inner_call_text(cargs: Seq<ArgV>, output: Option<Seq<char>>, body: Seq<char>)
    -> Seq<char> {
    "::bevy::ecs::system::IntoSystem::into_system(move |"@ + joined_args(cargs) + "| "@
        + arrow_text(output) + body + ")"@
}

/// The rewritten default body: the hoisted inner attributes, then the
/// system-building call, boxed if asked.
pub open spec fn new_body_text(boxed: bool, hoisted: Seq<char>, call: Seq<char>) -> Seq<char> {
    if boxed {
        "{ "@ + hoisted + "::std::boxed::Box::new("@ + call + ") }"@
    } else {
        "{ "@ + hoisted + call + " }"@
    }
}

/// The variadic marker printed after the arguments: preceded by a
/// separating comma when there are arguments, or nothing when the
/// signature has no variadic.
pub open spec fn variadic_tail(v: Option<Seq<char>>, no_args: bool) -> Seq<char> {
    match v {
        Some(t) => if no_args {
            t
        } else {
            ", "@ + t
        },
        None => Seq::empty(),
    }
}

/// The `where` clause with a leading space, or nothing.
pub open spec fn where_part(w: Seq<char>) -> Seq<char> {
    if w.len() == 0 {
        w
    } else {
        " "@ + w
    }
}

/// The arguments the closure ranges over, and whose first entry supplies the
/// system input type: the method's own arguments when a default body is
/// present, else the attribute's arguments.
pub open spec fn closure_args(m: MethodV, margs: Seq<ArgV>) -> Seq<ArgV> {
    if m.body is Some {
        m.sig.inputs
    } else {
        margs
    }
}

/// The arguments of the rewritten signature: the attribute's arguments when a
/// default body is present, else the method's own arguments.
pub open spec fn header_args(m: MethodV, margs: Seq<ArgV>) -> Seq<ArgV> {
    if m.body is Some {
        margs
    } else {
        m.sig.inputs
    }
}

/// Whether the rewrite must fail: a system input type is asked for, but there
/// is no argument to take it from.
pub open spec fn missing_input_arg(m: MethodV, margs: Seq<ArgV>) -> bool {
    flags_of(m.attrs).with_input && closure_args(m, margs).len() == 0
}

/// The system's input type: the first closure argument's type under
/// `#[with_input]`, else the unit type.
pub open spec fn sys_in_text(m: MethodV, margs: Seq<ArgV>) -> Seq<char> {
    if flags_of(m.attrs).with_input {
        closure_args(m, margs)[0].ty_text
    } else {
        "()"@
    }
}

/// What follows the rewritten signature: the rewritten default body, or the
/// declaration's semicolon.
pub open spec fn tail_text(m: MethodV, margs: Seq<ArgV>) -> Seq<char> {
    match m.body {
        Some(b) => " "@ + new_body_text(
            flags_of(m.attrs).boxed,
            attrs_prefix(inner_attrs(kept_attrs(m.attrs))),
            inner_call_text(closure_args(m, margs), m.sig.output, b),
        ),
        None => ";"@,
    }
}

/// The whole rewritten method, as token text.
pub open spec fn rewritten_source(m: MethodV, margs: Seq<ArgV>) -> Seq<char> {
    attrs_prefix(outer_attrs(kept_attrs(m.attrs))) + lead_prefix(m.sig.lead) + "fn "@ + m.sig.name
        + m.sig.generics + "("@ + joined_args(header_args(m, margs)) + variadic_tail(
        m.sig.variadic,
        header_args(m, margs).len() == 0,
    ) + ") "@ + ret_text(
        flags_of(m.attrs).boxed,
        bound_text(
            flags_of(m.attrs).readonly,
            sys_in_text(m, margs),
            out_type_text(m.sig.output),
        ),
    ) + where_part(m.sig.where_text) + tail_text(m, margs)
}

/// Joins the argument texts with `", "`.
fn join_args(args: &Vec<Arg>) -> (r: String)
    ensures
        r@ == joined_args(args_view(args@)),
{
    let ghost all = args_view(args@);
    let mut r = String::new();
    let n = args.len();
    let mut i: usize = 0;
    while i < n
        invariant
            n == args.len(),
            i <= n,
            all == args_view(args@),
            r@ == joined_args(all.take(i as int)),
        decreases n - i,
    {
        proof {
            assert(all.take(i + 1).drop_last() =~= all.take(i as int));
            assert(all.take(i + 1).last() == args@[i as int]@);
        }
        if i > 0 {
            r.append(", ");
        }
        r.append(args[i].text.as_str());
        proof {
            assert(r@ =~= joined_args(all.take(i + 1)));
        }
        i = i + 1;
    }
    proof {
        assert(all.take(n as int) =~= all);
    }
    r
}

/// Prints the attribute texts, each followed by one space.
fn attrs_text(attrs: &Vec<AttrEntry>) -> (r: String)
    ensures
        r@ == attrs_prefix(attrs_view(attrs@)),
{
    let ghost all = attrs_view(attrs@);
    let mut r = String::new();
    let n = attrs.len();
    let mut i: usize = 0;
    while i < n
        invariant
            n == attrs.len(),
            i <= n,
            all == attrs_view(attrs@),
            r@ == attrs_prefix(all.take(i as int)),
        decreases n - i,
    {
        proof {
            assert(all.take(i + 1).drop_last() =~= all.take(i as int));
            assert(all.take(i + 1).last() == attrs@[i as int]@);
        }
        r.append(attrs[i].text.as_str());
        r.append(" ");
        proof {
            assert(r@ =~= attrs_prefix(all.take(i + 1)));
        }
        i = i + 1;
    }
    proof {
        assert(all.take(n as int) =~= all);
    }
    r
}

/// Splits attributes into those written in front of the method and those
/// that belong inside the rewritten body, keeping each side's order.
fn split_attr_styles(attrs: &Vec<AttrEntry>) -> (r: (Vec<AttrEntry>, Vec<AttrEntry>))
    ensures
        attrs_view(r.0@) == outer_attrs(attrs_view(attrs@)),
        attrs_view(r.1@) == inner_attrs(attrs_view(attrs@)),
{
    let ghost all = attrs_view(attrs@);
    let mut fronts: Vec<AttrEntry> = Vec::new();
    let mut hoisted: Vec<AttrEntry> = Vec::new();
    let n = attrs.len();
    let mut i: usize = 0;
    while i < n
        invariant
            n == attrs.len(),
            i <= n,
            all == attrs_view(attrs@),
            attrs_view(fronts@) == outer_attrs(all.take(i as int)),
            attrs_view(hoisted@) == inner_attrs(all.take(i as int)),
        decreases n - i,
    {
        let a = &attrs[i];
        proof {
            assert(all.take(i + 1).drop_last() =~= all.take(i as int));
            assert(all.take(i + 1).last() == a@);
            reveal(Seq::filter);
        }
        if a.inner {
            hoisted.push(a.dup());
            proof {
                assert(attrs_view(hoisted@).drop_last() =~= inner_attrs(all.take(i as int)));
                assert(attrs_view(hoisted@) =~= inner_attrs(all.take(i + 1)));
                assert(attrs_view(fronts@) =~= outer_attrs(all.take(i + 1)));
            }
        } else {
            fronts.push(a.dup());
            proof {
                assert(attrs_view(fronts@).drop_last() =~= outer_attrs(all.take(i as int)));
                assert(attrs_view(fronts@) =~= outer_attrs(all.take(i + 1)));
                assert(attrs_view(hoisted@) =~= inner_attrs(all.take(i + 1)));
            }
        }
        i = i + 1;
    }
    proof {
        assert(all.take(n as int) =~= all);
    }
    (fronts, hoisted)
}

/// Prints the signature qualifiers followed by one space, or nothing.
fn lead_piece(lead: &String) -> (r: String)
    ensures
        r@ == lead_prefix(lead@),
{
    if lead.as_str().is_empty() {
        lead.clone()
    } else {
        lead.clone().concat(" ")
    }
}

/// Prints the `where` clause with a leading space, or nothing.
fn where_piece(w: &String) -> (r: String)
    ensures
        r@ == where_part(w@),
{
    if w.as_str().is_empty() {
        w.clone()
    } else {
        String::from_str(" ").concat(w.as_str())
    }
}

/// Prints the variadic marker after the arguments, or nothing.
fn variadic_piece(v: &Option<String>, no_args: bool) -> (r: String)
    ensures
        r@ == variadic_tail(opt_text_view(*v), no_args),
{
    match v {
        Some(t) => if no_args {
            t.clone()
        } else {
            String::from_str(", ").concat(t.as_str())
        },
        None => String::new(),
    }
}

/// Prints the system's output type.
fn out_piece(output: &Option<String>) -> (r: String)
    ensures
        r@ == out_type_text(opt_text_view(*output)),
{
    match output {
        Some(t) => t.clone(),
        None => String::from_str("()"),
    }
}

/// Prints the closure's return type annotation, or nothing.
fn arrow_piece(output: &Option<String>) -> (r: String)
    ensures
        r@ == arrow_text(opt_text_view(*output)),
{
    match output {
        Some(t) => String::from_str("-> ").concat(t.as_str()).concat(" "),
        None => String::new(),
    }
}

/// Prints the system trait bound.
fn bound_piece(readonly: bool, sys_in: &String, out: &String) -> (r: String)
    ensures
        r@ == bound_text(readonly, sys_in@, out@),
{
    let base = if readonly {
        String::from_str("::bevy::ecs::system::ReadOnlySystem")
    } else {
        String::from_str("::bevy::ecs::system::System")
    };
    base.concat("<In = ").concat(sys_in.as_str()).concat(", Out = ").concat(out.as_str()).concat(
        ">",
    )
}

/// Prints the rewritten return type from the bound.
fn ret_piece(boxed: bool, bound: String) -> (r: String)
    ensures
        r@ == ret_text(boxed, bound@),
{
    if boxed {
        String::from_str("-> ::std::boxed::Box<dyn ").concat(bound.as_str()).concat(">")
    } else {
        String::from_str("-> impl ").concat(bound.as_str())
    }
}

/// Prints the call that turns the default body into a system.
fn inner_call_piece(cargs: &Vec<Arg>, output: &Option<String>, body: &String) -> (r: String)
    ensures
        r@ == inner_call_text(args_view(cargs@), opt_text_view(*output), body@),
{
    let ca = join_args(cargs);
    let ar = arrow_piece(output);
    String::from_str("::bevy::ecs::system::IntoSystem::into_system(move |").concat(
        ca.as_str(),
    ).concat("| ").concat(ar.as_str()).concat(body.as_str()).concat(")")
}

/// Prints the rewritten default body.
fn new_body_piece(boxed: bool, hoisted: String, call: String) -> (r: String)
    ensures
        r@ == new_body_text(boxed, hoisted@, call@),
{
    if boxed {
        String::from_str("{ ").concat(hoisted.as_str()).concat("::std::boxed::Box::new(").concat(
            call.as_str(),
        ).concat(") }")
    } else {
        String::from_str("{ ").concat(hoisted.as_str()).concat(call.as_str()).concat(" }")
    }
}

/// Builds the rewritten method's token text from the attribute's arguments
/// and the method model, or reports why it cannot be built.
pub fn build_source(margs: &Vec<Arg>, m: &Method) -> (r: Result<String, BuildError>)
    ensures
        r is Ok <==> !missing_input_arg(m@, args_view(margs@)),
        (r matches Ok(s) ==> s@ == rewritten_source(m@, args_view(margs@))),
        (r matches Err(e) ==> e == BuildError::MissingInputArg),
{
    let ghost mv = m@;
    let ghost mav = args_view(margs@);

    let (flags, kept) = scan_attrs(&m.attrs);
    let (fronts, hoisted) = split_attr_styles(&kept);
    let has_body = m.body.is_some();

    let cargs: &Vec<Arg> = if has_body {
        &m.sig.inputs
    } else {
        margs
    };
    let hargs: &Vec<Arg> = if has_body {
        margs
    } else {
        &m.sig.inputs
    };
    proof {
        assert(args_view(cargs@) == closure_args(mv, mav));
        assert(args_view(hargs@) == header_args(mv, mav));
    }

    let sys_in: String;
    if flags.with_input {
        if cargs.len() == 0 {
            return Err(BuildError::MissingInputArg);
        }
        sys_in = cargs[0].ty_text.clone();
    } else {
        sys_in = String::from_str("()");
    }
    proof {
        assert(sys_in@ == sys_in_text(mv, mav));
    }

    let mut s = attrs_text(&fronts);
    let lp = lead_piece(&m.sig.lead);
    s.append(lp.as_str());
    s.append("fn ");
    s.append(m.sig.name.as_str());
    s.append(m.sig.generics.as_str());
    s.append("(");
    let ha = join_args(hargs);
    s.append(ha.as_str());
    let vp = variadic_piece(&m.sig.variadic, hargs.len() == 0);
    s.append(vp.as_str());
    s.append(") ");

    let out_ty = out_piece(&m.sig.output);
    let bp = bound_piece(flags.readonly, &sys_in, &out_ty);
    let rp = ret_piece(flags.boxed, bp);
    s.append(rp.as_str());

    let wp = where_piece(&m.sig.where_text);
    s.append(wp.as_str());

    match &m.body {
        Some(b) => {
            let call = inner_call_piece(cargs, &m.sig.output, b);
            let ht = attrs_text(&hoisted);
            let nb = new_body_piece(flags.boxed, ht, call);
            let tail = String::from_str(" ").concat(nb.as_str());
            s.append(tail.as_str());
            proof {
                assert(s@ == rewritten_source(mv, mav));
            }
        },
        None => {
            s.append(";");
            proof {
                assert(s@ == rewritten_source(mv, mav));
            }
        },
    }
    Ok(s)
}

} // verus!
