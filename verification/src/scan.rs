//! Scanning a method's attributes for the three marker attributes.
//!
//! `#[with_input]`, `#[readonly]` and `#[boxed]` are consumed by the rewrite
//! and recorded as flags; every other attribute is kept, in order, and
//! re-emitted on the rewritten method.

use vstd::prelude::*;
use crate::model::{AttrEntry, AttrEntryV, attrs_view};

verus! {

/// The three marker attributes, as flags.
pub struct Flags {
    /// `#[with_input]` was present: the system accepts system input.
    pub with_input: bool,
    /// `#[readonly]` was present: the system is read-only.
    pub readonly: bool,
    /// `#[boxed]` was present: the system is boxed.
    pub boxed: bool,
}

/// Whether `n` names a marker attribute.
pub open spec fn is_marker(n: Option<Seq<char>>) -> bool {
    n == Some("with_input"@) || n == Some("readonly"@) || n == Some("boxed"@)
}

/// Whether some attribute in `attrs` is named `name`.
pub open spec fn has_name(attrs: Seq<AttrEntryV>, name: Seq<char>) -> bool {
    exists|i: int| 0 <= i < attrs.len() && attrs[i].name == Some(name)
}

/// The flags set by the markers present in `attrs`.
pub open spec fn flags_of(attrs: Seq<AttrEntryV>) -> Flags {
    Flags {
        with_input: has_name(attrs, "with_input"@),
        readonly: has_name(attrs, "readonly"@),
        boxed: has_name(attrs, "boxed"@),
    }
}

/// The attributes of `attrs` that are not markers, in order.
pub open spec fn kept_attrs(attrs: Seq<AttrEntryV>) -> Seq<AttrEntryV> {
    attrs.filter(|a: AttrEntryV| !is_marker(a.name))
}

/// Splits a method's attributes into the marker flags and the kept
/// attributes: a marker sets its flag however often it occurs and is
/// dropped; everything else is kept, in order.
pub fn scan_attrs(attrs: &Vec<AttrEntry>) -> (r: (Flags, Vec<AttrEntry>))
    ensures
        r.0 == flags_of(attrs_view(attrs@)),
        attrs_view(r.1@) == kept_attrs(attrs_view(attrs@)),
{
    proof {
        reveal_strlit("with_input");
        reveal_strlit("readonly");
        reveal_strlit("boxed");
    }
    let m_with_input = String::from_str("with_input");
    let m_readonly = String::from_str("readonly");
    let m_boxed = String::from_str("boxed");

    let mut with_input = false;
    let mut readonly = false;
    let mut boxed = false;
    let mut kept: Vec<AttrEntry> = Vec::new();

    let ghost all = attrs_view(attrs@);
    let n = attrs.len();
    let mut i: usize = 0;
    while i < n
        invariant
            n == attrs.len(),
            i <= n,
            all == attrs_view(attrs@),
            with_input == has_name(all.take(i as int), "with_input"@),
            readonly == has_name(all.take(i as int), "readonly"@),
            boxed == has_name(all.take(i as int), "boxed"@),
            attrs_view(kept@) == kept_attrs(all.take(i as int)),
            m_with_input@ == "with_input"@,
            m_readonly@ == "readonly"@,
            m_boxed@ == "boxed"@,
        decreases n - i,
    {
        let a = &attrs[i];
        proof {
            reveal_strlit("with_input");
            reveal_strlit("readonly");
            reveal_strlit("boxed");
            assert("with_input"@.len() == 10);
            assert("readonly"@.len() == 8);
            assert("boxed"@.len() == 5);
            assert("with_input"@ != "readonly"@);
            assert("with_input"@ != "boxed"@);
            assert("readonly"@ != "boxed"@);
            assert(all.take(i + 1).drop_last() =~= all.take(i as int));
            assert(all.take(i + 1).last() == a@);
            reveal(Seq::filter);
        }
        let mut matched = false;
        match &a.name {
            Some(s) => {
                if *s == m_with_input {
                    with_input = true;
                    matched = true;
                } else if *s == m_readonly {
                    readonly = true;
                    matched = true;
                } else if *s == m_boxed {
                    boxed = true;
                    matched = true;
                }
            },
            None => {},
        }
        if !matched {
            kept.push(a.dup());
            proof {
                assert(attrs_view(kept@).drop_last() =~= kept_attrs(all.take(i as int)));
                assert(attrs_view(kept@) =~= kept_attrs(all.take(i + 1)));
            }
        } else {
            proof {
                assert(attrs_view(kept@) =~= kept_attrs(all.take(i + 1)));
            }
        }
        proof {
            lemma_has_name_take_step(all, i as int, "with_input"@);
            lemma_has_name_take_step(all, i as int, "readonly"@);
            lemma_has_name_take_step(all, i as int, "boxed"@);
        }
        i = i + 1;
    }
    proof {
        assert(all.take(n as int) =~= all);
    }
    (Flags { with_input, readonly, boxed }, kept)
}

/// A name is found among the attributes with one more appended either among
/// those already present or on the appended one.
proof fn lemma_has_name_push(attrs: Seq<AttrEntryV>, e: AttrEntryV, name: Seq<char>)
    ensures
        has_name(attrs.push(e), name) <==> (has_name(attrs, name) || e.name == Some(name)),
{
    if has_name(attrs, name) {
        let j = choose|j: int|
            0 <= j < attrs.len() && (#[trigger] attrs[j]).name == Some(name);
        assert(attrs.push(e)[j].name == Some(name));
    }
    if e.name == Some(name) {
        assert(attrs.push(e)[attrs.len() as int].name == Some(name));
    }
    if has_name(attrs.push(e), name) {
        let j = choose|j: int|
            0 <= j < attrs.push(e).len() && (#[trigger] attrs.push(e)[j]).name == Some(name);
        if j < attrs.len() {
            assert(attrs[j].name == Some(name));
        }
    }
}

/// Appending one attribute — by a builder call or written in source — sets
/// exactly the flag its name asks for; a marker leaves the kept attributes
/// as they were, and anything else is kept behind them.
pub proof fn lemma_scan_push(attrs: Seq<AttrEntryV>, e: AttrEntryV)
    ensures
        flags_of(attrs.push(e)) == (Flags {
            with_input: flags_of(attrs).with_input || e.name == Some("with_input"@),
            readonly: flags_of(attrs).readonly || e.name == Some("readonly"@),
            boxed: flags_of(attrs).boxed || e.name == Some("boxed"@),
        }),
        is_marker(e.name) ==> kept_attrs(attrs.push(e)) == kept_attrs(attrs),
        !is_marker(e.name) ==> kept_attrs(attrs.push(e)) == kept_attrs(attrs).push(e),
{
    lemma_has_name_push(attrs, e, "with_input"@);
    lemma_has_name_push(attrs, e, "readonly"@);
    lemma_has_name_push(attrs, e, "boxed"@);
    reveal(Seq::filter);
    assert(attrs.push(e).drop_last() =~= attrs);
    assert(attrs.push(e).last() == e);
    if !is_marker(e.name) {
        assert(kept_attrs(attrs.push(e)) =~= kept_attrs(attrs).push(e));
    }
}

/// No marker survives the scan: scanning the kept attributes again sets no
/// flag and keeps them all.
pub proof fn lemma_scan_consumes_markers(attrs: Seq<AttrEntryV>)
    ensures
        flags_of(kept_attrs(attrs)) == (Flags { with_input: false, readonly: false, boxed: false }),
        kept_attrs(kept_attrs(attrs)) == kept_attrs(attrs),
{
    let k = kept_attrs(attrs);
    assert forall|i: int| 0 <= i < k.len() implies !is_marker((#[trigger] k[i]).name) by {
        attrs.lemma_filter_pred(|a: AttrEntryV| !is_marker(a.name), i);
    }
    assert(!has_name(k, "with_input"@)) by {
        if has_name(k, "with_input"@) {
            let _j = choose|j: int| 0 <= j < k.len() && (#[trigger] k[j]).name == Some("with_input"@);
        }
    }
    assert(!has_name(k, "readonly"@)) by {
        if has_name(k, "readonly"@) {
            let _j = choose|j: int| 0 <= j < k.len() && (#[trigger] k[j]).name == Some("readonly"@);
        }
    }
    assert(!has_name(k, "boxed"@)) by {
        if has_name(k, "boxed"@) {
            let _j = choose|j: int| 0 <= j < k.len() && (#[trigger] k[j]).name == Some("boxed"@);
        }
    }
    assert(kept_attrs(k) =~= k) by {
        lemma_filter_of_clean(k);
    }
}

/// Filtering a sequence in which every entry satisfies the predicate keeps
/// it whole.
proof fn lemma_filter_of_clean(k: Seq<AttrEntryV>)
    requires
        forall|i: int| 0 <= i < k.len() ==> !is_marker((#[trigger] k[i]).name),
    ensures
        k.filter(|a: AttrEntryV| !is_marker(a.name)) == k,
    decreases k.len(),
{
    reveal(Seq::filter);
    if k.len() == 0 {
        assert(k.filter(|a: AttrEntryV| !is_marker(a.name)) =~= k);
    } else {
        lemma_filter_of_clean(k.drop_last());
        assert(!is_marker(k.last().name));
        assert(k.filter(|a: AttrEntryV| !is_marker(a.name)) =~= k);
    }
}

/// Extending the scanned prefix by one attribute finds a name either in the
/// shorter prefix or on the new attribute.
proof fn lemma_has_name_take_step(attrs: Seq<AttrEntryV>, i: int, name: Seq<char>)
    requires
        0 <= i < attrs.len(),
    ensures
        has_name(attrs.take(i + 1), name) <==> (has_name(attrs.take(i), name)
            || attrs[i].name == Some(name)),
{
    if has_name(attrs.take(i), name) {
        let j = choose|j: int|
            0 <= j < attrs.take(i).len() && (#[trigger] attrs.take(i)[j]).name == Some(name);
        assert(attrs.take(i + 1)[j].name == Some(name));
    }
    if attrs[i].name == Some(name) {
        assert(attrs.take(i + 1)[i].name == Some(name));
    }
    if has_name(attrs.take(i + 1), name) {
        let j = choose|j: int|
            0 <= j < attrs.take(i + 1).len()
                && (#[trigger] attrs.take(i + 1)[j]).name == Some(name);
        if j < i {
            assert(attrs.take(i)[j].name == Some(name));
        }
    }
}

} // verus!
