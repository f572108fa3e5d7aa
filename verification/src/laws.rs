//! The general laws of the lowering, each proved once and for all inputs
//! from the specification functions the executable contracts are stated
//! over.

use vstd::prelude::*;
use crate::ast::{ClassKind, ClassV};
use crate::emit_class::{
    spec_class_refs, spec_emit_class, spec_method_trait_resolutions, Options,
};
use crate::emit_type_hint::spec_hint_to_class;
use crate::error::LoweringErrorV;
use crate::hhas::{HhasClassV, HoistKind};
use crate::strings::{spec_eq_ignore_ascii_case, spec_has_prefix};

verus! {

/// An interface with a non-empty trait-use list never lowers to a
/// descriptor: the outcome is the fatal parse error at the first use
/// clause.
pub proof fn lemma_interface_trait_use_fatal(opts: Options, c: ClassV, hoisted: HoistKind)
    requires
        c.kind == ClassKind::Cinterface,
        c.uses.len() > 0,
    ensures
        spec_emit_class(opts, c, hoisted) == Err::<HhasClassV, LoweringErrorV>(
            LoweringErrorV::UserFatalParse(c.uses[0].pos, "Interfaces cannot use traits"@),
        ),
{
}

/// A class whose resolved base is, up to ASCII case, the closure base name,
/// and whose own name does not follow the synthesized-closure naming
/// convention, never lowers to a descriptor: the outcome is the fatal
/// runtime error at the class name. The base here comes from the first
/// extends entry, so interfaces (whose base is absent) and enums with a
/// declared base (whose base is the builtin enum base) are not concerned;
/// the method redeclarations are required to resolve, since their failure
/// would be reported first.
pub proof fn lemma_extending_closure_base_fatal(opts: Options, c: ClassV, hoisted: HoistKind)
    requires
        c.kind != ClassKind::Cinterface,
        c.kind == ClassKind::Cenum ==> c.enum_def is None,
        c.extends.len() > 0,
        spec_eq_ignore_ascii_case(spec_hint_to_class(c.extends[0]), "closure"@),
        !spec_has_prefix(c.name.name, "Closure$"@),
        spec_method_trait_resolutions(c.method_redeclarations) is Ok,
    ensures
        spec_emit_class(opts, c, hoisted) == Err::<HhasClassV, LoweringErrorV>(
            LoweringErrorV::UserFatalRuntime(c.name.pos, "Class cannot extend Closure"@),
        ),
{
}

/// Every descriptor of a trait, and of an enum whose base was resolved, is
/// final, whatever the declaration's own final flag says.
pub proof fn lemma_traits_and_enums_are_final(opts: Options, c: ClassV, hoisted: HoistKind)
    requires
        c.kind == ClassKind::Ctrait || (c.kind == ClassKind::Cenum && c.enum_def is Some),
    ensures
        spec_emit_class(opts, c, hoisted) matches Ok(d) ==> d.flags.is_final,
{
}

/// An interface's descriptor has no base, and its implements references are
/// exactly its extends list, converted.
pub proof fn lemma_interface_base_and_implements(opts: Options, c: ClassV, hoisted: HoistKind)
    requires
        c.kind == ClassKind::Cinterface,
    ensures
        spec_emit_class(opts, c, hoisted) matches Ok(d) ==> d.base is None && d.implements
            == spec_class_refs(c.extends),
{
}

/// An enum's descriptor carries an enum base type-info exactly when a base
/// hint was declared, and its base is then the fixed builtin enum base.
pub proof fn lemma_enum_base_and_enum_type(opts: Options, c: ClassV, hoisted: HoistKind)
    requires
        c.kind == ClassKind::Cenum,
    ensures
        spec_emit_class(opts, c, hoisted) matches Ok(d) ==> ((d.enum_type is Some <==> c.enum_def
            is Some) && (c.enum_def is Some ==> d.base == Some("HH\\BuiltinEnum"@))),
{
}

/// Lowering is deterministic: it is a pure function of the options, the
/// declaration and the hoist classification — which is what the executable
/// orchestrator's contract equates its result to — so any two results for
/// the same inputs are structurally identical.
pub proof fn lemma_lowering_deterministic(
    opts: Options,
    c: ClassV,
    hoisted: HoistKind,
    r1: Result<HhasClassV, LoweringErrorV>,
    r2: Result<HhasClassV, LoweringErrorV>,
)
    requires
        r1 == spec_emit_class(opts, c, hoisted),
        r2 == spec_emit_class(opts, c, hoisted),
    ensures
        r1 == r2,
{
}

/// A declaration with its markup-component metadata removed.
pub open spec fn spec_without_markup_metadata(c: ClassV) -> ClassV {
    ClassV {
        xhp_attrs: Seq::<crate::ast::XhpAttrV>::empty(),
        xhp_children: Seq::<crate::ast::XhpChildV>::empty(),
        xhp_category: None,
        ..c
    }
}

/// The markup-component metadata is computed but discarded: no field of the
/// outcome — descriptor or error — depends on the declaration's markup
/// attribute, child-expression or category declarations.
pub proof fn lemma_markup_metadata_discarded(opts: Options, c: ClassV, hoisted: HoistKind)
    ensures
        spec_emit_class(opts, spec_without_markup_metadata(c), hoisted) == spec_emit_class(
            opts,
            c,
            hoisted,
        ),
{
    let s = spec_without_markup_metadata(c);
    assert(crate::emit_class::spec_is_closure_class(s) == crate::emit_class::spec_is_closure_class(
        c,
    ));
    assert(crate::emit_class::spec_class_attributes(s) == crate::emit_class::spec_class_attributes(
        c,
    ));
    assert(crate::emit_class::spec_enum_type(s) == crate::emit_class::spec_enum_type(c));
    assert(crate::emit_class::spec_base(s) == crate::emit_class::spec_base(c));
    assert(crate::emit_class::spec_closure_error(s) == crate::emit_class::spec_closure_error(c));
    assert(crate::emit_class::spec_uses_error(s) == crate::emit_class::spec_uses_error(c));
    assert(crate::emit_class::spec_first_error(s) == crate::emit_class::spec_first_error(c));
    assert(crate::emit_class::spec_implements(s) == crate::emit_class::spec_implements(c));
    assert(crate::emit_class::spec_is_const(s) == crate::emit_class::spec_is_const(c));
    assert(crate::emit_class::spec_properties(s) == crate::emit_class::spec_properties(c));
    assert(crate::emit_class::spec_flags(s) == crate::emit_class::spec_flags(c));
    assert(crate::emit_class::spec_descriptor(opts, s, hoisted) =~= crate::emit_class::spec_descriptor(
        opts,
        c,
        hoisted,
    ));
}

} // verus!
