//! The attribute-facing collaborators: lowering the declared user
//! attributes into attribute records, synthesizing the reified-generics
//! attribute, and testing an assembled attribute list for the special
//! attribute names the flag computation reads.

use vstd::prelude::*;
use crate::ast::{
    clone_expr, lemma_seq_view_is, seq_view, Expr, ReifyKind, Tparam, TparamV, UserAttribute,
    UserAttributeV,
};
use crate::hhas::{HhasAttribute, HhasAttributeV};
use crate::strings::str_eq;

verus! {

/// The record one declared attribute lowers to: its name and arguments as
/// written.
pub open spec fn spec_lower_attribute(a: UserAttributeV) -> HhasAttributeV {
    HhasAttributeV { name: a.name, arguments: a.params }
}

/// The records a declared attribute list lowers to, in order.
pub open spec fn spec_from_asts(attrs: Seq<UserAttributeV>) -> Seq<HhasAttributeV> {
    attrs.map_values(|a: UserAttributeV| spec_lower_attribute(a))
}

/// Whether a generic parameter requires a runtime type witness.
pub open spec fn spec_is_reified(t: TparamV) -> bool {
    t.reified != ReifyKind::Erased
}

/// The argument the reified-generics attribute records for one parameter:
/// its reification requirement as a small integer.
pub open spec fn spec_reified_argument(t: TparamV) -> crate::ast::ExprV {
    match t.reified {
        ReifyKind::Erased => crate::ast::ExprV::Int(0),
        ReifyKind::SoftReified => crate::ast::ExprV::Int(1),
        ReifyKind::Reified => crate::ast::ExprV::Int(2),
    }
}

/// The synthesized reified-generics attribute: absent when no parameter is
/// reified, else one marker attribute recording each parameter's
/// reification requirement in declaration order.
pub open spec fn spec_reified_attribute(tparams: Seq<TparamV>) -> Option<HhasAttributeV> {
    if exists|i: int| 0 <= i < tparams.len() && spec_is_reified(#[trigger] tparams[i]) {
        Some(
            HhasAttributeV {
                name: "__Reified"@,
                arguments: tparams.map_values(|t: TparamV| spec_reified_argument(t)),
            },
        )
    } else {
        None
    }
}

/// Whether an assembled attribute list holds an attribute named `name`.
pub open spec fn spec_has_attribute(attrs: Seq<HhasAttributeV>, name: Seq<char>) -> bool {
    exists|i: int| 0 <= i < attrs.len() && (#[trigger] attrs[i]).name == name
}

/// Whether the list holds the constness marker attribute.
pub open spec fn spec_has_const(attrs: Seq<HhasAttributeV>) -> bool {
    spec_has_attribute(attrs, "__Const"@)
}

/// Whether the list holds the sealing marker attribute.
pub open spec fn spec_has_sealed(attrs: Seq<HhasAttributeV>) -> bool {
    spec_has_attribute(attrs, "__Sealed"@)
}

/// Lowers one declared attribute.
pub fn lower_attribute(a: &UserAttribute) -> (r: HhasAttribute)
    ensures
        r@ == spec_lower_attribute(a@),
{
    let mut arguments: Vec<Expr> = Vec::new();
    let mut i: usize = 0;
    while i < a.params.len()
        invariant
            0 <= i <= a.params@.len(),
            arguments@.len() == i,
            forall|j: int| 0 <= j < i ==> (#[trigger] arguments@[j])@ == a.params@[j]@,
        decreases a.params@.len() - i,
    {
        arguments.push(clone_expr(&a.params[i]));
        i += 1;
    }
    proof {
        assert(forall|j: int|
            0 <= j < a.params@.len() ==> seq_view(a.params@)[j] == (#[trigger] a.params@[j])@);
        lemma_seq_view_is(arguments@, seq_view(a.params@));
    }
    HhasAttribute { name: a.name.clone(), arguments }
}

/// Lowers the declared attribute list.
pub fn from_asts(attrs: &Vec<UserAttribute>) -> (r: Vec<HhasAttribute>)
    ensures
        seq_view(r@) == spec_from_asts(seq_view(attrs@)),
{
    let mut out: Vec<HhasAttribute> = Vec::new();
    let mut i: usize = 0;
    while i < attrs.len()
        invariant
            0 <= i <= attrs@.len(),
            out@.len() == i,
            forall|j: int|
                0 <= j < i ==> (#[trigger] out@[j])@ == spec_lower_attribute(attrs@[j]@),
        decreases attrs@.len() - i,
    {
        out.push(lower_attribute(&attrs[i]));
        i += 1;
    }
    proof {
        assert(forall|j: int|
            0 <= j < attrs@.len() ==> spec_from_asts(seq_view(attrs@))[j] == spec_lower_attribute(
                (#[trigger] attrs@[j])@,
            ));
        lemma_seq_view_is(out@, spec_from_asts(seq_view(attrs@)));
    }
    out
}

/// Synthesizes the reified-generics attribute from the generic parameter
/// list, if any parameter requires reification.
pub fn add_reified_attribute(tparams: &Vec<Tparam>) -> (r: Option<HhasAttribute>)
    ensures
        crate::ast::opt_view(r) == spec_reified_attribute(seq_view(tparams@)),
{
    let mut any_reified = false;
    let mut arguments: Vec<Expr> = Vec::new();
    let mut i: usize = 0;
    while i < tparams.len()
        invariant
            0 <= i <= tparams@.len(),
            arguments@.len() == i,
            any_reified == exists|j: int|
                0 <= j < i && spec_is_reified(#[trigger] seq_view(tparams@)[j]),
            forall|j: int|
                0 <= j < i ==> (#[trigger] arguments@[j])@ == spec_reified_argument(
                    tparams@[j]@,
                ),
        decreases tparams@.len() - i,
    {
        let t = &tparams[i];
        proof {
            assert(seq_view(tparams@)[i as int] == tparams@[i as int]@);
        }
        match t.reified {
            ReifyKind::Erased => arguments.push(Expr::Int(0)),
            ReifyKind::SoftReified => {
                arguments.push(Expr::Int(1));
                any_reified = true;
            },
            ReifyKind::Reified => {
                arguments.push(Expr::Int(2));
                any_reified = true;
            },
        }
        i += 1;
    }
    proof {
        assert(any_reified == exists|i: int|
            0 <= i < seq_view(tparams@).len() && spec_is_reified(#[trigger] seq_view(tparams@)[i]));
    }
    if any_reified {
        proof {
            assert(forall|j: int|
                0 <= j < tparams@.len()
                    ==> seq_view(tparams@).map_values(|t: TparamV| spec_reified_argument(t))[j]
                    == spec_reified_argument((#[trigger] tparams@[j])@));
            lemma_seq_view_is(
                arguments@,
                seq_view(tparams@).map_values(|t: TparamV| spec_reified_argument(t)),
            );
        }
        Some(HhasAttribute { name: "__Reified".to_owned(), arguments })
    } else {
        None
    }
}

/// Whether the assembled list holds an attribute named `name`.
pub fn has_attribute(attrs: &Vec<HhasAttribute>, name: &str) -> (r: bool)
    ensures
        r == spec_has_attribute(seq_view(attrs@), name@),
{
    let mut i: usize = 0;
    while i < attrs.len()
        invariant
            0 <= i <= attrs@.len(),
            forall|j: int| 0 <= j < i ==> (#[trigger] seq_view(attrs@)[j]).name != name@,
        decreases attrs@.len() - i,
    {
        proof {
            assert(seq_view(attrs@)[i as int] == attrs@[i as int]@);
        }
        if str_eq(attrs[i].name.as_str(), name) {
            proof {
                assert(spec_has_attribute(seq_view(attrs@), name@));
            }
            return true;
        }
        i += 1;
    }
    false
}

/// Whether the assembled list marks the class const.
pub fn has_const(attrs: &Vec<HhasAttribute>) -> (r: bool)
    ensures
        r == spec_has_const(seq_view(attrs@)),
{
    has_attribute(attrs, "__Const")
}

/// Whether the assembled list marks the class sealed.
pub fn has_sealed(attrs: &Vec<HhasAttribute>) -> (r: bool)
    ensures
        r == spec_has_sealed(seq_view(attrs@)),
{
    has_attribute(attrs, "__Sealed")
}

} // verus!
