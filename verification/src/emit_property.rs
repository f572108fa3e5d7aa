//! The property-lowering collaborator: packages one declared property into
//! a property record, with the enclosing class's const-ness and generic
//! parameter names as ambient context.

use vstd::prelude::*;
use crate::ast::{
    clone_opt_expr, clone_opt_hint, clone_opt_string, opt_view, ClassVar, ClassVarV,
};
use crate::emit_attribute::{from_asts, has_const, spec_from_asts, spec_has_const};
use crate::emit_type_hint::{fmt_property_hint, spec_fmt_property_hint};
use crate::hhas::{HhasProperty, HhasPropertyV};

verus! {

/// The record one declared property lowers to. A promoted-variadic
/// parameter's hint is suppressed entirely; the property is const when the
/// enclosing class is const or the property carries the constness marker
/// itself.
pub open spec fn spec_from_ast(
    class_is_const: bool,
    tparams: Seq<Seq<char>>,
    cv: ClassVarV,
) -> HhasPropertyV {
    let attributes = spec_from_asts(cv.user_attributes);
    let hint = if cv.is_promoted_variadic {
        None
    } else {
        cv.type_hint
    };
    HhasPropertyV {
        name: cv.id.name,
        attributes: attributes,
        visibility: cv.visibility,
        is_static: cv.is_static,
        is_abstract: cv.is_abstract,
        is_const: class_is_const || spec_has_const(attributes),
        initial_value: cv.expr,
        type_text: match hint {
            Some(h) => Some(spec_fmt_property_hint(tparams, h)),
            None => None,
        },
        doc_comment: cv.doc_comment,
    }
}

/// Lowers one declared property with its ambient context.
pub fn from_ast(class_is_const: bool, tparams: &Vec<String>, cv: &ClassVar) -> (r: HhasProperty)
    ensures
        r@ == spec_from_ast(class_is_const, crate::ast::seq_view(tparams@), cv@),
{
    let attributes = from_asts(&cv.user_attributes);
    let hint = if cv.is_promoted_variadic {
        None
    } else {
        clone_opt_hint(&cv.type_hint)
    };
    let type_text = match &hint {
        Some(h) => Some(fmt_property_hint(tparams, h)),
        None => None,
    };
    let is_const = class_is_const || has_const(&attributes);
    HhasProperty {
        name: cv.id.name.clone(),
        attributes,
        visibility: cv.visibility,
        is_static: cv.is_static,
        is_abstract: cv.is_abstract,
        is_const,
        initial_value: clone_opt_expr(&cv.expr),
        type_text,
        doc_comment: clone_opt_string(&cv.doc_comment),
    }
}

} // verus!
