//! Laws that relate the operations of [`ComparisonOperator`] to each other.
use vstd::prelude::*;
use vstd::std_specs::cmp::PartialEqSpec;
use vstd::string::StringSliceAdditionalSpecFns;
use crate::cmp::{is_ascii_space, parse, trim, trim_end, trim_start, ComparisonOperator};

verus! {

/// Whether every byte of `s` is ASCII whitespace.
pub open spec fn all_space(s: Seq<u8>) -> bool {
    forall|i: int| 0 <= i < s.len() ==> is_ascii_space(#[trigger] s[i])
}

/// Leading whitespace does not survive [`trim_start`].
proof fn lemma_trim_start_prefix(l: Seq<u8>, s: Seq<u8>)
    requires
        all_space(l),
    ensures
        trim_start(l + s) == trim_start(s),
    decreases l.len(),
{
    if l.len() > 0 {
        assert((l + s)[0] == l[0]);
        assert((l + s).drop_first() =~= l.drop_first() + s);
        lemma_trim_start_prefix(l.drop_first(), s);
    } else {
        assert(l + s =~= s);
    }
}

/// How [`trim_start`] treats a concatenation.
proof fn lemma_trim_start_append(s: Seq<u8>, r: Seq<u8>)
    ensures
        trim_start(s + r) == (if trim_start(s).len() == 0 {
            trim_start(r)
        } else {
            trim_start(s) + r
        }),
    decreases s.len(),
{
    if s.len() == 0 {
        assert(s + r =~= r);
    } else {
        assert((s + r)[0] == s[0]);
        if is_ascii_space(s[0]) {
            assert((s + r).drop_first() =~= s.drop_first() + r);
            lemma_trim_start_append(s.drop_first(), r);
        }
    }
}

/// Trailing whitespace does not survive [`trim_end`].
proof fn lemma_trim_end_suffix(s: Seq<u8>, r: Seq<u8>)
    requires
        all_space(r),
    ensures
        trim_end(s + r) == trim_end(s),
    decreases r.len(),
{
    if r.len() > 0 {
        assert((s + r).last() == r.last());
        assert((s + r).drop_last() =~= s + r.drop_last());
        lemma_trim_end_suffix(s, r.drop_last());
    } else {
        assert(s + r =~= s);
    }
}

/// Text made of whitespace alone trims to nothing.
proof fn lemma_trim_start_all_space(r: Seq<u8>)
    requires
        all_space(r),
    ensures
        trim_start(r).len() == 0,
    decreases r.len(),
{
    if r.len() > 0 {
        lemma_trim_start_all_space(r.drop_first());
    }
}

/// Surrounding ASCII whitespace does not change what a text parses to: for
/// any input `s` and any padding `l`, `r` of ASCII whitespace, `l + s + r`
/// parses as `s` does.
pub proof fn lemma_parse_ignores_padding(l: Seq<u8>, s: Seq<u8>, r: Seq<u8>)
    requires
        all_space(l),
        all_space(r),
    ensures
        parse(l + s + r) == parse(s),
        trim(l + s + r) == trim(s),
{
    assert(l + s + r =~= l + (s + r));
    lemma_trim_start_prefix(l, s + r);
    lemma_trim_start_append(s, r);
    lemma_trim_start_all_space(r);
    if trim_start(s).len() != 0 {
        lemma_trim_end_suffix(trim_start(s), r);
    }
}

/// Parsing the canonical text of an operator gives that operator back, and
/// rendering the result gives the same text: for every text `t` that is the
/// canonical form of some operator, `t` parses, and its operator's text is `t`.
pub proof fn lemma_round_trip(t: &str)
    requires
        exists|op: ComparisonOperator| t@ == op.text(),
    ensures
        parse(t.spec_bytes()) is Ok,
        parse(t.spec_bytes())->Ok_0.text() == t@,
{
    let op = choose|op: ComparisonOperator| t@ == op.text();
    crate::cmp::lemma_text_iff_bytes(op, t);
    lemma_parse_canonical(op);
}

/// The canonical bytes of every operator parse back to that operator.
pub proof fn lemma_parse_canonical(op: ComparisonOperator)
    ensures
        parse(op.bytes()) == Ok::<ComparisonOperator, crate::error::Error>(op),
{
    let b = op.bytes();
    assert(all_space(Seq::<u8>::empty()));
    assert(trim_start(b) == b);
    assert(trim_end(b) == b);
}

/// The length of an operator's bytes is that of its text, and it is 1
/// exactly for `<` and `>`, 2 for the others.
pub proof fn lemma_length(op: ComparisonOperator)
    ensures
        op.bytes().len() == op.text().len(),
        op.bytes().len() == 1 <==> (op is Lt || op is Gt),
        op.bytes().len() == 2 <==> !(op is Lt || op is Gt),
{
}

/// How many of the six variant predicates hold of `op`.
pub open spec fn variants_held(op: ComparisonOperator) -> nat {
    (if op is Ne { 1nat } else { 0nat }) + (if op is Lt { 1nat } else { 0nat }) + (if op is Le {
        1nat
    } else {
        0nat
    }) + (if op is Eq { 1nat } else { 0nat }) + (if op is Ge { 1nat } else { 0nat }) + (
    if op is Gt {
        1nat
    } else {
        0nat
    })
}

/// Exactly one of the six variant predicates holds of every operator.
pub proof fn lemma_one_variant(op: ComparisonOperator)
    ensures
        variants_held(op) == 1,
{
}

/// An operator and a text are equal, in either order, exactly when the text
/// is the operator's canonical form.
pub proof fn lemma_text_equality(op: ComparisonOperator, t: &str)
    ensures
        op.eq_spec(t) == t.eq_spec(&op),
        op.eq_spec(t) == (t@ == op.text()),
{
}

} // verus!
