//! The constant-value collaborator: lowers a type constant's initializer
//! hint into a constant type value. Type constants carry no generic context,
//! so the rendering needs no parameter environment.

use vstd::prelude::*;
use crate::ast::Hint;
use crate::emit_type_hint::{fmt_hint, spec_fmt_hint};
use crate::hhas::TypedValue;

verus! {

/// The constant type value an initializer hint lowers to: its nominal
/// string.
pub open spec fn spec_hint_to_type_constant(h: crate::ast::HintV) -> Seq<char> {
    spec_fmt_hint(h)
}

/// Lowers an initializer hint to a constant type value.
pub fn hint_to_type_constant(h: &Hint) -> (r: TypedValue)
    ensures
        r@ == spec_hint_to_type_constant(h@),
{
    TypedValue { repr: fmt_hint(h) }
}

} // verus!
