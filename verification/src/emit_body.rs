//! The generic-upper-bound collaborator: for each of the class's own
//! generic parameters that declares constraints, one record naming the
//! parameter and its rendered bounds.

use vstd::prelude::*;
use crate::ast::{lemma_seq_view_is, seq_view, Tparam, TparamV};
use crate::emit_type_hint::{fmt_hint, spec_fmt_hint};
use crate::hhas::{UpperBound, UpperBoundV};

verus! {

/// The upper-bound record of one constrained generic parameter.
pub open spec fn spec_upper_bound(t: TparamV) -> UpperBoundV {
    UpperBoundV {
        name: t.name.name,
        bounds: t.constraints.map_values(|h: crate::ast::HintV| spec_fmt_hint(h)),
    }
}

/// The upper-bound records of the class's own generic parameters, in
/// declaration order, keeping only parameters that declare constraints.
pub open spec fn spec_upper_bounds(ts: Seq<TparamV>) -> Seq<UpperBoundV>
    decreases ts.len(),
{
    if ts.len() == 0 {
        Seq::<UpperBoundV>::empty()
    } else {
        spec_upper_bounds(ts.drop_last()) + if ts.last().constraints.len() > 0 {
            seq![spec_upper_bound(ts.last())]
        } else {
            Seq::<UpperBoundV>::empty()
        }
    }
}

/// Renders one parameter's constraint hints.
fn bounds_of(t: &Tparam) -> (r: Vec<String>)
    ensures
        seq_view(r@) == t@.constraints.map_values(|h: crate::ast::HintV| spec_fmt_hint(h)),
{
    let mut out: Vec<String> = Vec::new();
    let mut i: usize = 0;
    while i < t.constraints.len()
        invariant
            0 <= i <= t.constraints@.len(),
            out@.len() == i,
            forall|j: int|
                0 <= j < i ==> (#[trigger] out@[j])@ == spec_fmt_hint(t.constraints@[j]@),
        decreases t.constraints@.len() - i,
    {
        out.push(fmt_hint(&t.constraints[i]));
        i += 1;
    }
    proof {
        assert(t@.constraints =~= seq_view(t.constraints@));
        assert(forall|j: int|
            0 <= j < t.constraints@.len() ==> seq_view(t.constraints@).map_values(
                |h: crate::ast::HintV| spec_fmt_hint(h),
            )[j] == spec_fmt_hint((#[trigger] t.constraints@[j])@));
        lemma_seq_view_is(
            out@,
            seq_view(t.constraints@).map_values(|h: crate::ast::HintV| spec_fmt_hint(h)),
        );
    }
    out
}

/// Computes the upper-bound records of the class's own generic parameters.
pub fn emit_generics_upper_bounds(tparams: &Vec<Tparam>) -> (r: Vec<UpperBound>)
    ensures
        seq_view(r@) == spec_upper_bounds(seq_view(tparams@)),
{
    let mut out: Vec<UpperBound> = Vec::new();
    let mut i: usize = 0;
    while i < tparams.len()
        invariant
            0 <= i <= tparams@.len(),
            seq_view(out@) == spec_upper_bounds(seq_view(tparams@).take(i as int)),
        decreases tparams@.len() - i,
    {
        let ghost prev = seq_view(out@);
        let t = &tparams[i];
        proof {
            assert(seq_view(tparams@)[i as int] == tparams@[i as int]@);
            assert(seq_view(tparams@).take((i + 1) as int).drop_last() =~= seq_view(
                tparams@,
            ).take(i as int));
            assert(seq_view(tparams@).take((i + 1) as int).last() == seq_view(tparams@)[i as int]);
        }
        if t.constraints.len() > 0 {
            let bounds = bounds_of(t);
            out.push(UpperBound { name: t.name.name.clone(), bounds });
            proof {
                assert(seq_view(out@) =~= prev.push(spec_upper_bound(tparams@[i as int]@)));
                assert(prev.push(spec_upper_bound(tparams@[i as int]@)) =~= prev + seq![
                    spec_upper_bound(tparams@[i as int]@),
                ]);
                assert(seq_view(out@) =~= spec_upper_bounds(
                    seq_view(tparams@).take((i + 1) as int),
                ));
            }
        } else {
            proof {
                assert(seq_view(out@) =~= prev + Seq::<UpperBoundV>::empty());
                assert(seq_view(out@) =~= spec_upper_bounds(
                    seq_view(tparams@).take((i + 1) as int),
                ));
            }
        }
        i += 1;
    }
    proof {
        assert(seq_view(tparams@).take(tparams@.len() as int) =~= seq_view(tparams@));
    }
    out
}

} // verus!
