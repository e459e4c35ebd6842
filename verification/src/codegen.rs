//! The formatter generator: wraps the instruction sequence for a shape into
//! the source text of one complete textual-rendering routine, to be handed
//! back to the host toolchain.
//!
//! The generated routine binds to the one structure named `S`, whatever
//! shape requested generation. That single-target binding is kept
//! deliberately: the generator has only ever had one consumer, and widening
//! the binding would change what every existing request produces. The
//! shape's own name still matters at run time, in the wrapping that
//! `render::render_instance` puts around the field output.

use vstd::prelude::*;
use crate::describe::{do_struct, instruction_labels, rejection_of, GenError, Instruction};
use crate::shape::Shape;

verus! {

/// The opening of the generated routine, up to the first field statement.
pub open spec fn gen_header() -> Seq<char> {
    "impl std::fmt::Debug for S { fn fmt(&self, f: &mut std::fmt::Formatter<'_>) -> std::fmt::Result { "@
}

/// The closing of the generated routine: success once every instruction ran.
pub open spec fn gen_footer() -> Seq<char> {
    "Ok(()) } }"@
}

/// The statement generated for one field: write the field's name, `=`, the
/// field's value in its default textual form, `,`, and stop at the first
/// write failure.
pub open spec fn field_stmt(label: Seq<char>) -> Seq<char> {
    "write!(f, \"{}={},\", stringify!("@ + label + "), self."@ + label + ")?; "@
}

/// The field statements of a label sequence, concatenated in order.
pub open spec fn gen_stmts(labels: Seq<Seq<char>>) -> Seq<char>
    decreases labels.len(),
{
    if labels.len() == 0 {
        Seq::empty()
    } else {
        field_stmt(labels[0]) + gen_stmts(labels.drop_first())
    }
}

/// One more field appends exactly its statement.
pub proof fn lemma_gen_stmts_snoc(labels: Seq<Seq<char>>, label: Seq<char>)
    ensures
        gen_stmts(labels.push(label)) == gen_stmts(labels) + field_stmt(label),
    decreases labels.len(),
{
    if labels.len() == 0 {
        assert(labels.push(label).drop_first() =~= Seq::<Seq<char>>::empty());
        assert(gen_stmts(Seq::<Seq<char>>::empty()) =~= Seq::<char>::empty());
        assert(gen_stmts(labels.push(label)) =~= gen_stmts(labels) + field_stmt(label));
    } else {
        lemma_gen_stmts_snoc(labels.drop_first(), label);
        assert(labels.push(label).drop_first() =~= labels.drop_first().push(label));
        assert(labels.push(label)[0] == labels[0]);
        assert(gen_stmts(labels.push(label)) =~= gen_stmts(labels) + field_stmt(label));
    }
}

/// The whole generated routine for a sequence of field labels.
pub open spec fn gen_impl(labels: Seq<Seq<char>>) -> Seq<char> {
    gen_header() + gen_stmts(labels) + gen_footer()
}

/// Generates the textual-rendering routine for a shape: the describer's
/// instruction sequence, one statement per field in declaration order,
/// wrapped into a complete implementation. A shape that is not a named-field
/// structure is refused outright, with no partial output.
pub fn dbg_macro(shape: &Shape) -> (r: Result<String, GenError>)
    ensures
        r is Ok <==> shape.is_named_struct(),
        r matches Ok(code) ==> code@ == gen_impl(shape.field_names()),
        r matches Err(e) ==> e == rejection_of(*shape),
{
    let instrs = match do_struct(shape) {
        Ok(instrs) => instrs,
        Err(e) => {
            return Err(e);
        },
    };
    let ghost labels = instruction_labels(instrs@);
    let mut out = String::new();
    crate::render::push_str(
        &mut out,
        "impl std::fmt::Debug for S { fn fmt(&self, f: &mut std::fmt::Formatter<'_>) -> std::fmt::Result { ",
    );
    let mut i: usize = 0;
    proof {
        assert(gen_stmts(labels.take(0)) =~= Seq::<char>::empty());
        assert(out@ =~= gen_header() + gen_stmts(labels.take(0)));
    }
    while i < instrs.len()
        invariant
            i <= instrs@.len(),
            labels == instruction_labels(instrs@),
            out@ == gen_header() + gen_stmts(labels.take(i as int)),
        decreases instrs@.len() - i,
    {
        let ghost before = out@;
        crate::render::push_str(&mut out, "write!(f, \"{}={},\", stringify!(");
        crate::render::push_str(&mut out, instrs[i].label.as_str());
        crate::render::push_str(&mut out, "), self.");
        crate::render::push_str(&mut out, instrs[i].label.as_str());
        crate::render::push_str(&mut out, ")?; ");
        proof {
            assert(out@ =~= before + field_stmt(labels[i as int]));
            assert(labels.take(i + 1 as int) =~= labels.take(i as int).push(labels[i as int]));
            lemma_gen_stmts_snoc(labels.take(i as int), labels[i as int]);
            assert(out@ =~= gen_header() + gen_stmts(labels.take(i + 1 as int)));
        }
        i = i + 1;
    }
    crate::render::push_str(&mut out, "Ok(()) } }");
    proof {
        assert(labels.take(labels.len() as int) =~= labels);
        assert(out@ =~= gen_impl(shape.field_names()));
    }
    Ok(out)
}

} // verus!
