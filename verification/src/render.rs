//! Runtime execution of a rendering instruction sequence: writing one
//! `name=value,` segment per field, in declaration order, and the
//! conventional `Name { ... }` wrapping around the whole field output.
//!
//! The instance being rendered reaches this module as the list of its field
//! values in their default textual form, in declaration order; producing
//! those texts is the caller's business.

use vstd::prelude::*;
use crate::describe::{instruction_labels, Instruction};

verus! {

/// The text one instruction writes: the label, `=`, the value, `,`.
pub open spec fn segment(label: Seq<char>, value: Seq<char>) -> Seq<char> {
    label + seq!['='] + value + seq![',']
}

/// The text a whole instruction sequence writes: the segments of the
/// label/value pairs, concatenated in order.
pub open spec fn rendered_fields(labels: Seq<Seq<char>>, values: Seq<Seq<char>>) -> Seq<char>
    recommends
        labels.len() == values.len(),
    decreases labels.len(),
{
    if labels.len() == 0 {
        Seq::empty()
    } else {
        segment(labels[0], values[0]) + rendered_fields(labels.drop_first(), values.drop_first())
    }
}

/// Splitting the field list anywhere splits the output at the same point:
/// segments never interleave or reorder.
pub proof fn lemma_rendered_fields_append(
    l1: Seq<Seq<char>>,
    v1: Seq<Seq<char>>,
    l2: Seq<Seq<char>>,
    v2: Seq<Seq<char>>,
)
    requires
        l1.len() == v1.len(),
        l2.len() == v2.len(),
    ensures
        rendered_fields(l1 + l2, v1 + v2) == rendered_fields(l1, v1) + rendered_fields(l2, v2),
    decreases l1.len(),
{
    if l1.len() == 0 {
        assert(l1 + l2 =~= l2);
        assert(v1 + v2 =~= v2);
        assert(rendered_fields(l1, v1) + rendered_fields(l2, v2) =~= rendered_fields(l2, v2));
    } else {
        lemma_rendered_fields_append(l1.drop_first(), v1.drop_first(), l2, v2);
        assert((l1 + l2).drop_first() =~= l1.drop_first() + l2);
        assert((v1 + v2).drop_first() =~= v1.drop_first() + v2);
        assert((l1 + l2)[0] == l1[0]);
        assert((v1 + v2)[0] == v1[0]);
        assert(rendered_fields(l1 + l2, v1 + v2) =~= rendered_fields(l1, v1) + rendered_fields(
            l2,
            v2,
        ));
    }
}

/// Appending one more field appends exactly its segment.
pub proof fn lemma_rendered_fields_snoc(
    labels: Seq<Seq<char>>,
    values: Seq<Seq<char>>,
    label: Seq<char>,
    value: Seq<char>,
)
    requires
        labels.len() == values.len(),
    ensures
        rendered_fields(labels.push(label), values.push(value)) == rendered_fields(labels, values)
            + segment(label, value),
{
    assert(labels.push(label) =~= labels + seq![label]);
    assert(values.push(value) =~= values + seq![value]);
    lemma_rendered_fields_append(labels, values, seq![label], seq![value]);
    assert(seq![label].drop_first() =~= Seq::<Seq<char>>::empty());
    assert(seq![value].drop_first() =~= Seq::<Seq<char>>::empty());
    assert(rendered_fields(Seq::<Seq<char>>::empty(), Seq::<Seq<char>>::empty())
        =~= Seq::<char>::empty());
    assert(rendered_fields(seq![label], seq![value]) =~= segment(label, value));
}

/// The per-field segments of one rendering, as a sequence: one per field,
/// in declaration order.
pub open spec fn segments_of(labels: Seq<Seq<char>>, values: Seq<Seq<char>>) -> Seq<Seq<char>>
    recommends
        labels.len() == values.len(),
{
    Seq::new(labels.len(), |i: int| segment(labels[i], values[i]))
}

/// The rendered output is the flattening of the per-field segments.
pub proof fn lemma_rendered_fields_flat(labels: Seq<Seq<char>>, values: Seq<Seq<char>>)
    requires
        labels.len() == values.len(),
    ensures
        rendered_fields(labels, values) == segments_of(labels, values).flatten(),
    decreases labels.len(),
{
    if labels.len() == 0 {
        assert(segments_of(labels, values) =~= Seq::<Seq<char>>::empty());
        assert(rendered_fields(labels, values) =~= segments_of(labels, values).flatten());
    } else {
        lemma_rendered_fields_flat(labels.drop_first(), values.drop_first());
        assert(segments_of(labels, values).drop_first() =~= segments_of(
            labels.drop_first(),
            values.drop_first(),
        ));
        assert(segments_of(labels, values).first() == segment(labels[0], values[0]));
        assert(rendered_fields(labels, values) =~= segments_of(labels, values).flatten());
    }
}

/// Law: rendering a named-field structure with N fields in declaration order
/// produces exactly N `name=value,` segments, in that same order — the
/// output is the flattening of the sequence that holds, at each position,
/// the segment of that position's field, with no omission, reordering or
/// insertion.
pub proof fn lemma_render_per_field(shape: crate::shape::Shape, values: Seq<Seq<char>>)
    requires
        shape.is_named_struct(),
        values.len() == shape.field_names().len(),
    ensures
        segments_of(shape.field_names(), values).len() == shape.field_names().len(),
        forall|i: int|
            0 <= i < shape.field_names().len() ==> segments_of(shape.field_names(), values)[i]
                == segment(shape.field_names()[i], values[i]),
        rendered_fields(shape.field_names(), values) == segments_of(
            shape.field_names(),
            values,
        ).flatten(),
{
    lemma_rendered_fields_flat(shape.field_names(), values);
}

/// Law: the rendered output is a function of the instruction labels and the
/// instance's field values alone, so rendering the same unchanged instance
/// twice gives byte-identical output both times.
pub proof fn lemma_render_idempotent(
    labels: Seq<Seq<char>>,
    values: Seq<Seq<char>>,
    first: Seq<char>,
    second: Seq<char>,
)
    requires
        first == rendered_fields(labels, values),
        second == rendered_fields(labels, values),
    ensures
        first == second,
{
}

/// Relies on `String::push_str`: appends the characters of `s` to `out`,
/// changing nothing else.
#[verifier::external_body]
pub(crate) fn push_str(out: &mut String, s: &str)
    ensures
        final(out)@ == old(out)@ + s@,
{
    out.push_str(s);
}

/// The field values of one instance, viewed as their character sequences.
pub open spec fn value_views(values: Seq<String>) -> Seq<Seq<char>> {
    values.map_values(|v: String| v@)
}

/// Executes an instruction sequence against one instance's field values:
/// the output is exactly the `label=value,` segments, in order.
pub fn render_fields(instrs: &Vec<Instruction>, values: &Vec<String>) -> (out: String)
    requires
        instrs@.len() == values@.len(),
    ensures
        out@ == rendered_fields(instruction_labels(instrs@), value_views(values@)),
{
    let ghost labels = instruction_labels(instrs@);
    let ghost vals = value_views(values@);
    let mut out = String::new();
    let mut i: usize = 0;
    while i < instrs.len()
        invariant
            i <= instrs@.len(),
            instrs@.len() == values@.len(),
            labels == instruction_labels(instrs@),
            vals == value_views(values@),
            out@ == rendered_fields(labels.take(i as int), vals.take(i as int)),
        decreases instrs@.len() - i,
    {
        let ghost before = out@;
        push_str(&mut out, instrs[i].label.as_str());
        push_str(&mut out, "=");
        push_str(&mut out, values[i].as_str());
        push_str(&mut out, ",");
        proof {
            reveal_strlit("=");
            reveal_strlit(",");
            assert("="@ =~= seq!['=']);
            assert(","@ =~= seq![',']);
            assert(out@ =~= before + segment(labels[i as int], vals[i as int]));
            assert(labels.take(i + 1 as int) =~= labels.take(i as int).push(labels[i as int]));
            assert(vals.take(i + 1 as int) =~= vals.take(i as int).push(vals[i as int]));
            lemma_rendered_fields_snoc(
                labels.take(i as int),
                vals.take(i as int),
                labels[i as int],
                vals[i as int],
            );
        }
        i = i + 1;
    }
    proof {
        assert(labels.take(labels.len() as int) =~= labels);
        assert(vals.take(vals.len() as int) =~= vals);
    }
    out
}

/// The conventional debug wrapping around the field output:
/// `Name { <fields> }`.
pub open spec fn wrapped(name: Seq<char>, inner: Seq<char>) -> Seq<char> {
    name + seq![' ', '{', ' '] + inner + seq![' ', '}']
}

/// Renders one instance the way a conventional debug print shows it: the
/// structure's name, then the field segments, inside braces.
pub fn render_instance(name: &str, instrs: &Vec<Instruction>, values: &Vec<String>) -> (out:
    String)
    requires
        instrs@.len() == values@.len(),
    ensures
        out@ == wrapped(
            name@,
            rendered_fields(instruction_labels(instrs@), value_views(values@)),
        ),
{
    let mut out = String::new();
    push_str(&mut out, name);
    push_str(&mut out, " { ");
    let inner = render_fields(instrs, values);
    push_str(&mut out, inner.as_str());
    push_str(&mut out, " }");
    proof {
        reveal_strlit(" { ");
        reveal_strlit(" }");
        assert(" { "@ =~= seq![' ', '{', ' ']);
        assert(" }"@ =~= seq![' ', '}']);
        assert(out@ =~= wrapped(name@, inner@));
    }
    out
}

} // verus!
