//! The method-list collaborator: lowers the declared methods to method
//! records in declaration order. Method bodies are lowered downstream; this
//! stage records each method's identity.

use vstd::prelude::*;
use crate::ast::{lemma_seq_view_is, seq_view, MethodV, Method_};
use crate::hhas::{HhasMethod, HhasMethodV};

verus! {

/// The record one declared method lowers to.
pub open spec fn spec_lower_method(m: MethodV) -> HhasMethodV {
    HhasMethodV { name: m.name.name }
}

/// The records the declared method list lowers to, in order.
pub open spec fn spec_from_asts(methods: Seq<MethodV>) -> Seq<HhasMethodV> {
    methods.map_values(|m: MethodV| spec_lower_method(m))
}

/// Lowers the declared method list.
pub fn from_asts(methods: &Vec<Method_>) -> (r: Vec<HhasMethod>)
    ensures
        seq_view(r@) == spec_from_asts(seq_view(methods@)),
{
    let mut out: Vec<HhasMethod> = Vec::new();
    let mut i: usize = 0;
    while i < methods.len()
        invariant
            0 <= i <= methods@.len(),
            out@.len() == i,
            forall|j: int| 0 <= j < i ==> (#[trigger] out@[j])@ == spec_lower_method(methods@[j]@),
        decreases methods@.len() - i,
    {
        out.push(HhasMethod { name: methods[i].name.name.clone() });
        i += 1;
    }
    proof {
        assert(forall|j: int|
            0 <= j < methods@.len() ==> spec_from_asts(seq_view(methods@))[j] == spec_lower_method(
                (#[trigger] methods@[j])@,
            ));
        lemma_seq_view_is(out@, spec_from_asts(seq_view(methods@)));
    }
    out
}

} // verus!
