//! The class-lowering orchestrator: assembles attributes and flags, resolves
//! trait use, inheritance and requirements, extracts type constants, generic
//! bounds, the enum base and the per-member records, and builds the final
//! descriptor — or fails fast with the first classified error.

use vstd::prelude::*;
use crate::ast::{
    clone_hint, clone_id, clone_opt_string, lemma_seq_view_is, opt_view, seq_view, ClassKind,
    ClassReqV, ClassTypeconst, ClassTypeconstV, ClassV, Class_, Def, DefV, EnumDef, EnumDefV,
    Hint, HintNodeV, HintV, IdV, InsteadofAlias, InsteadofAliasV, MethodRedeclaration,
    MethodRedeclarationV, Tparam, TparamV, TypeconstAbstractKind, TypeconstAbstractKindV,
    UseAsAlias, UseAsAliasV,
};
use crate::emit_attribute::{
    add_reified_attribute, from_asts, has_const, has_sealed, spec_from_asts, spec_has_const,
    spec_has_sealed, spec_reified_attribute,
};
use crate::emit_body::{emit_generics_upper_bounds, spec_upper_bounds};
use crate::emit_method;
use crate::emit_property;
use crate::emit_type_constant::{hint_to_type_constant, spec_hint_to_type_constant};
use crate::emit_type_hint::{
    hint_to_class, prim_to_string, spec_hint_to_class, spec_prim_to_string,
};
use crate::error::{raise_fatal_parse, raise_fatal_runtime, LoweringError, LoweringErrorV};
use crate::hhas::{
    ClassType, HhasAttributeV, HhasClass, HhasClassFlags, HhasClassV, HhasMethodTraitResolution,
    HhasMethodTraitResolutionV, HhasProperty, HhasReq, HhasReqV, HhasTypeConstant,
    HhasTypeConstantV, HhasUseAlias, HhasUseAliasV, HhasUsePrecedence, HhasUsePrecedenceV,
    HoistKind, TypeConstraintV, TypeInfo, TypeInfoV, XhpChildRecord, XhpMetadata, XhpMetadataV,
};
use crate::strings::{
    spec_eq_ignore_ascii_case, spec_has_prefix, spec_strip_global_ns, str_eq_ignore_ascii_case,
    str_has_prefix,
};

verus! {

/// The compiler options this stage reads: whether generic upper bounds are
/// enforced and therefore attached to the descriptor.
#[derive(Debug, Clone, Copy, PartialEq, Eq, Structural)]
pub struct Options {
    pub enforce_generic_ub: bool,
}

/// The ambient compilation context handed through the lowering.
#[derive(Debug, Clone, Copy, PartialEq, Eq, Structural)]
pub struct Emitter {
    pub options: Options,
}

/// Whether the class is a compiler-synthesized closure class, read off its
/// naming convention.
pub open spec fn spec_is_closure_class(c: ClassV) -> bool {
    spec_has_prefix(c.name.name, "Closure$"@)
}

/// The assembled attribute list: the declared attributes, followed — except
/// for closure classes — by the synthesized reified-generics attribute.
pub open spec fn spec_class_attributes(c: ClassV) -> Seq<HhasAttributeV> {
    spec_from_asts(c.user_attributes) + if spec_is_closure_class(c) {
        Seq::<HhasAttributeV>::empty()
    } else {
        match spec_reified_attribute(c.tparams) {
            Some(a) => seq![a],
            None => Seq::<HhasAttributeV>::empty(),
        }
    }
}

/// Whether the class is const: the assembled attributes carry the constness
/// marker.
pub open spec fn spec_is_const(c: ClassV) -> bool {
    spec_has_const(spec_class_attributes(c))
}

/// The qualified names of the used traits, in order; hints that are not a
/// simple named-type application are ignored at this collection step.
pub open spec fn spec_use_names(us: Seq<HintV>) -> Seq<Seq<char>>
    decreases us.len(),
{
    if us.len() == 0 {
        Seq::<Seq<char>>::empty()
    } else {
        spec_use_names(us.drop_last()) + match us.last().node {
            HintNodeV::Happly(id) => seq![id.name],
            _ => Seq::<Seq<char>>::empty(),
        }
    }
}

/// The error the trait-use step raises: an interface with a non-empty
/// trait-use list is structurally invalid, reported at the first use clause.
pub open spec fn spec_uses_error(c: ClassV) -> Option<LoweringErrorV> {
    if c.kind == ClassKind::Cinterface && c.uses.len() > 0 {
        Some(LoweringErrorV::UserFatalParse(c.uses[0].pos, "Interfaces cannot use traits"@))
    } else {
        None
    }
}

/// One normalized alias record: an explicit source trait is
/// namespace-qualified, the method names are kept as written.
pub open spec fn spec_lower_alias(a: UseAsAliasV) -> HhasUseAliasV {
    HhasUseAliasV {
        trait_name: match a.trait_id {
            Some(id) => Some(spec_strip_global_ns(id.name)),
            None => None,
        },
        method: a.method.name,
        alias: match a.alias {
            Some(id) => Some(id.name),
            None => None,
        },
        visibility: a.visibility,
    }
}

/// The normalized alias records, in order.
pub open spec fn spec_use_aliases(aliases: Seq<UseAsAliasV>) -> Seq<HhasUseAliasV> {
    aliases.map_values(|a: UseAsAliasV| spec_lower_alias(a))
}

/// One normalized precedence record, every trait namespace-qualified.
pub open spec fn spec_lower_precedence(p: InsteadofAliasV) -> HhasUsePrecedenceV {
    HhasUsePrecedenceV {
        trait_name: spec_strip_global_ns(p.trait_id.name),
        method: p.method.name,
        insteadof: p.insteadof.map_values(|id: IdV| spec_strip_global_ns(id.name)),
    }
}

/// The normalized precedence records, in order.
pub open spec fn spec_use_precedences(ps: Seq<InsteadofAliasV>) -> Seq<HhasUsePrecedenceV> {
    ps.map_values(|p: InsteadofAliasV| spec_lower_precedence(p))
}

/// The name a trait-use hint stringifies to, by an exhaustive match over the
/// hint shapes: a named-type application gives its name as written, a
/// primitive gives its canonical keyword, the keyword shapes give their
/// keywords, and the shapes that the type checker must have ruled out are an
/// internal error.
pub open spec fn spec_string_of_trait(h: HintV) -> Result<Seq<char>, LoweringErrorV> {
    match h.node {
        HintNodeV::Happly(id) => Ok(id.name),
        HintNodeV::Hprim(p) => Ok(spec_prim_to_string(p)),
        HintNodeV::Hmixed => Ok("mixed"@),
        HintNodeV::Hnonnull => Ok("nonnull"@),
        HintNodeV::Habstr(s) => Ok(s),
        HintNodeV::Harray => Ok("array"@),
        HintNodeV::Hdarray => Ok("darray"@),
        HintNodeV::Hvarray => Ok("varray"@),
        HintNodeV::HvarrayOrDarray => Ok("varray_or_darray"@),
        HintNodeV::Hthis => Ok("this"@),
        HintNodeV::Hdynamic => Ok("dynamic"@),
        HintNodeV::Hany => Err(
            LoweringErrorV::UnrecoverableInternal("hint shape must be rejected during naming"@),
        ),
        HintNodeV::Herr => Err(
            LoweringErrorV::UnrecoverableInternal("hint shape must be rejected during naming"@),
        ),
        HintNodeV::Hoption => Err(
            LoweringErrorV::UnrecoverableInternal("unsupported hint shape for a trait-use name"@),
        ),
        HintNodeV::Hlike => Err(
            LoweringErrorV::UnrecoverableInternal("unsupported hint shape for a trait-use name"@),
        ),
        HintNodeV::Hfun => Err(
            LoweringErrorV::UnrecoverableInternal("unsupported hint shape for a trait-use name"@),
        ),
        HintNodeV::Htuple => Err(
            LoweringErrorV::UnrecoverableInternal("unsupported hint shape for a trait-use name"@),
        ),
        HintNodeV::Hshape => Err(
            LoweringErrorV::UnrecoverableInternal("unsupported hint shape for a trait-use name"@),
        ),
        HintNodeV::Haccess => Err(
            LoweringErrorV::UnrecoverableInternal("unsupported hint shape for a trait-use name"@),
        ),
        HintNodeV::Hsoft => Err(
            LoweringErrorV::UnrecoverableInternal("unsupported hint shape for a trait-use name"@),
        ),
        HintNodeV::Hnothing => Err(
            LoweringErrorV::UnrecoverableInternal("unsupported hint shape for a trait-use name"@),
        ),
        HintNodeV::Hunion => Err(
            LoweringErrorV::UnrecoverableInternal("unsupported hint shape for a trait-use name"@),
        ),
        HintNodeV::Hintersection => Err(
            LoweringErrorV::UnrecoverableInternal("unsupported hint shape for a trait-use name"@),
        ),
    }
}

/// The method redeclarations paired with their resolved trait names, or the
/// first stringification error, in declaration order.
pub open spec fn spec_method_trait_resolutions(ms: Seq<MethodRedeclarationV>) -> Result<
    Seq<HhasMethodTraitResolutionV>,
    LoweringErrorV,
>
    decreases ms.len(),
{
    if ms.len() == 0 {
        Ok(Seq::<HhasMethodTraitResolutionV>::empty())
    } else {
        match spec_string_of_trait(ms[0].trait_hint) {
            Err(e) => Err(e),
            Ok(n) => match spec_method_trait_resolutions(ms.drop_first()) {
                Err(e) => Err(e),
                Ok(rest) => Ok(
                    seq![
                        HhasMethodTraitResolutionV { redeclaration: ms[0], trait_name: n },
                    ] + rest,
                ),
            },
        }
    }
}

/// The enum base type-info: present exactly when the class is an enum with a
/// declared base hint, carrying the hint's nominal string under an
/// extended-hint constraint.
pub open spec fn spec_from_enum_def(e: Option<EnumDefV>) -> Option<TypeInfoV> {
    match e {
        Some(e) => Some(
            TypeInfoV {
                user_type: Some(crate::emit_type_hint::spec_fmt_hint(e.base)),
                type_constraint: TypeConstraintV { name: None, is_extended_hint: true },
            },
        ),
        None => None,
    }
}

/// The descriptor's enum base: only an enum declaration carries one.
pub open spec fn spec_enum_type(c: ClassV) -> Option<TypeInfoV> {
    if c.kind == ClassKind::Cenum {
        spec_from_enum_def(c.enum_def)
    } else {
        None
    }
}

/// The single base the extends list resolves to: the builtin enum base when
/// an enum base was resolved, else the first extends entry; entries beyond
/// the first are discarded.
pub open spec fn spec_from_extends(is_enum: bool, extends: Seq<HintV>) -> Option<Seq<char>> {
    if is_enum {
        Some("HH\\BuiltinEnum"@)
    } else if extends.len() == 0 {
        None
    } else {
        Some(spec_hint_to_class(extends[0]))
    }
}

/// The descriptor's base: interfaces have none.
pub open spec fn spec_base(c: ClassV) -> Option<Seq<char>> {
    if c.kind == ClassKind::Cinterface {
        None
    } else {
        spec_from_extends(spec_enum_type(c) is Some, c.extends)
    }
}

/// The error the base validation raises: a class that is not itself a
/// synthesized closure class cannot extend the closure base.
pub open spec fn spec_closure_error(c: ClassV) -> Option<LoweringErrorV> {
    match spec_base(c) {
        Some(b) => if spec_eq_ignore_ascii_case(b, "closure"@) && !spec_is_closure_class(c) {
            Some(LoweringErrorV::UserFatalRuntime(c.name.pos, "Class cannot extend Closure"@))
        } else {
            None
        },
        None => None,
    }
}

/// The hints the implements list is read from: an interface's extension is
/// represented as implementation.
pub open spec fn spec_implements_hints(c: ClassV) -> Seq<HintV> {
    if c.kind == ClassKind::Cinterface {
        c.extends
    } else {
        c.implements
    }
}

/// The class references a hint list converts to, in order.
pub open spec fn spec_class_refs(hs: Seq<HintV>) -> Seq<Seq<char>> {
    hs.map_values(|h: HintV| spec_hint_to_class(h))
}

/// The implements references of the descriptor.
pub open spec fn spec_implements(c: ClassV) -> Seq<Seq<char>> {
    spec_class_refs(spec_implements_hints(c))
}

/// The names of the class's own generic parameters, in order.
pub open spec fn spec_tparam_names(ts: Seq<TparamV>) -> Seq<Seq<char>> {
    ts.map_values(|t: TparamV| t.name.name)
}

/// One lowered type constant: its initializer is absent exactly when it is
/// abstract with no default, or partially-abstract or concrete with no
/// supplied initializer.
pub open spec fn spec_from_type_constant(tc: ClassTypeconstV) -> HhasTypeConstantV {
    HhasTypeConstantV {
        name: tc.name.name,
        initializer: match tc.abstract_kind {
            TypeconstAbstractKindV::TCAbstract(init) => match init {
                Some(h) => Some(spec_hint_to_type_constant(h)),
                None => None,
            },
            _ => match tc.type_hint {
                Some(h) => Some(spec_hint_to_type_constant(h)),
                None => None,
            },
        },
    }
}

/// The lowered type constants, in order.
pub open spec fn spec_type_constants(tcs: Seq<ClassTypeconstV>) -> Seq<HhasTypeConstantV> {
    tcs.map_values(|tc: ClassTypeconstV| spec_from_type_constant(tc))
}

/// One lowered requirement.
pub open spec fn spec_lower_requirement(rq: ClassReqV) -> HhasReqV {
    HhasReqV {
        class: spec_hint_to_class(rq.hint),
        kind: if rq.is_extends {
            crate::hhas::TraitReqKind::MustExtend
        } else {
            crate::hhas::TraitReqKind::MustImplement
        },
    }
}

/// The lowered requirements, in order.
pub open spec fn spec_requirements(reqs: Seq<ClassReqV>) -> Seq<HhasReqV> {
    reqs.map_values(|rq: ClassReqV| spec_lower_requirement(rq))
}

/// The lowered properties of a property list under the given ambient
/// context, in order.
pub open spec fn spec_lowered_properties(
    class_is_const: bool,
    tparams: Seq<Seq<char>>,
    vars: Seq<crate::ast::ClassVarV>,
) -> Seq<crate::hhas::HhasPropertyV> {
    vars.map_values(
        |v: crate::ast::ClassVarV| emit_property::spec_from_ast(class_is_const, tparams, v),
    )
}

/// The lowered properties with the class's const-ness and generic parameter
/// names as context, in order.
pub open spec fn spec_properties(c: ClassV) -> Seq<crate::hhas::HhasPropertyV> {
    spec_lowered_properties(spec_is_const(c), spec_tparam_names(c.tparams), c.vars)
}

/// The descriptor is final whenever declared final, or the class is a trait,
/// or an enum base was resolved.
pub open spec fn spec_is_final(c: ClassV) -> bool {
    c.declared_final || c.kind == ClassKind::Ctrait || spec_enum_type(c) is Some
}

/// The descriptor's flag set. `no_dynamic_props` is deliberately coupled to
/// `is_const` until it gains independent control.
pub open spec fn spec_flags(c: ClassV) -> HhasClassFlags {
    HhasClassFlags {
        is_final: spec_is_final(c),
        is_sealed: spec_has_sealed(spec_class_attributes(c)),
        is_abstract: c.kind == ClassKind::Cabstract,
        is_interface: c.kind == ClassKind::Cinterface,
        is_trait: c.kind == ClassKind::Ctrait,
        is_xhp: c.is_xhp || c.has_xhp_keyword,
        is_const: spec_is_const(c),
        no_dynamic_props: spec_is_const(c),
        needs_no_reifiedinit: false,
    }
}

/// The first error lowering raises for the class, in orchestration order:
/// trait use on an interface, then trait-name stringification, then base
/// validation; or none.
pub open spec fn spec_first_error(c: ClassV) -> Option<LoweringErrorV> {
    if spec_uses_error(c) is Some {
        spec_uses_error(c)
    } else {
        match spec_method_trait_resolutions(c.method_redeclarations) {
            Err(e) => Some(e),
            Ok(_) => spec_closure_error(c),
        }
    }
}

/// The descriptor lowering builds when no step fails.
pub open spec fn spec_descriptor(opts: Options, c: ClassV, hoisted: HoistKind) -> HhasClassV {
    HhasClassV {
        attributes: spec_class_attributes(c),
        base: spec_base(c),
        implements: spec_implements(c),
        name: spec_strip_global_ns(c.name.name),
        span: c.span,
        flags: spec_flags(c),
        doc_comment: c.doc_comment,
        uses: spec_use_names(c.uses),
        use_aliases: spec_use_aliases(c.use_as_alias),
        use_precedences: spec_use_precedences(c.insteadof_alias),
        method_trait_resolutions: match spec_method_trait_resolutions(c.method_redeclarations) {
            Ok(v) => v,
            Err(_) => Seq::<HhasMethodTraitResolutionV>::empty(),
        },
        methods: emit_method::spec_from_asts(c.methods),
        enum_type: spec_enum_type(c),
        hoisted: hoisted,
        upper_bounds: if opts.enforce_generic_ub {
            spec_upper_bounds(c.tparams)
        } else {
            Seq::<crate::hhas::UpperBoundV>::empty()
        },
        properties: spec_properties(c),
        requirements: spec_requirements(c.reqs),
        type_constants: spec_type_constants(c.typeconsts),
    }
}

/// What lowering one class returns: the first error, or the descriptor.
pub open spec fn spec_emit_class(opts: Options, c: ClassV, hoisted: HoistKind) -> Result<
    HhasClassV,
    LoweringErrorV,
> {
    match spec_first_error(c) {
        Some(e) => Err(e),
        None => Ok(spec_descriptor(opts, c, hoisted)),
    }
}

/// The ghost image of a class-lowering result.
pub open spec fn class_res_view(r: Result<HhasClass, LoweringError>) -> Result<
    HhasClassV,
    LoweringErrorV,
> {
    match r {
        Ok(d) => Ok(d@),
        Err(e) => Err(e@),
    }
}

/// What the trait-use collection returns: the fatal parse error for an
/// interface with trait uses, else the collected names.
pub open spec fn spec_uses(is_interface: bool, us: Seq<HintV>) -> Result<
    Seq<Seq<char>>,
    LoweringErrorV,
> {
    if is_interface && us.len() > 0 {
        Err(LoweringErrorV::UserFatalParse(us[0].pos, "Interfaces cannot use traits"@))
    } else {
        Ok(spec_use_names(us))
    }
}

/// The ghost image of the trait-use collection's result.
pub open spec fn uses_res_view(r: Result<Vec<String>, LoweringError>) -> Result<
    Seq<Seq<char>>,
    LoweringErrorV,
> {
    match r {
        Ok(v) => Ok(seq_view(v@)),
        Err(e) => Err(e@),
    }
}

/// The ghost image of the method-redeclaration resolution's result.
pub open spec fn mtrs_res_view(r: Result<Vec<HhasMethodTraitResolution>, LoweringError>) -> Result<
    Seq<HhasMethodTraitResolutionV>,
    LoweringErrorV,
> {
    match r {
        Ok(v) => Ok(seq_view(v@)),
        Err(e) => Err(e@),
    }
}

/// The names of the class's own generic parameters.
fn tparam_names(tparams: &Vec<Tparam>) -> (r: Vec<String>)
    ensures
        seq_view(r@) == spec_tparam_names(seq_view(tparams@)),
{
    let mut out: Vec<String> = Vec::new();
    let mut i: usize = 0;
    while i < tparams.len()
        invariant
            0 <= i <= tparams@.len(),
            out@.len() == i,
            forall|j: int| 0 <= j < i ==> (#[trigger] out@[j])@ == tparams@[j]@.name.name,
        decreases tparams@.len() - i,
    {
        out.push(tparams[i].name.name.clone());
        i += 1;
    }
    proof {
        assert(forall|j: int|
            0 <= j < tparams@.len() ==> spec_tparam_names(seq_view(tparams@))[j] == (
            #[trigger] tparams@[j])@.name.name);
        lemma_seq_view_is(out@, spec_tparam_names(seq_view(tparams@)));
    }
    out
}

/// Collects the used traits' names; an interface with trait uses fails.
fn collect_uses(is_interface: bool, uses: &Vec<Hint>) -> (r: Result<Vec<String>, LoweringError>)
    ensures
        uses_res_view(r) == spec_uses(is_interface, seq_view(uses@)),
{
    if is_interface && uses.len() > 0 {
        proof {
            assert(seq_view(uses@)[0] == uses@[0]@);
        }
        return Err(raise_fatal_parse(uses[0].pos, "Interfaces cannot use traits"));
    }
    let mut out: Vec<String> = Vec::new();
    let mut i: usize = 0;
    while i < uses.len()
        invariant
            0 <= i <= uses@.len(),
            seq_view(out@) == spec_use_names(seq_view(uses@).take(i as int)),
        decreases uses@.len() - i,
    {
        let ghost prev = seq_view(out@);
        proof {
            assert(seq_view(uses@)[i as int] == uses@[i as int]@);
            assert(seq_view(uses@).take((i + 1) as int).drop_last() =~= seq_view(uses@).take(
                i as int,
            ));
            assert(seq_view(uses@).take((i + 1) as int).last() == seq_view(uses@)[i as int]);
        }
        match &uses[i].node {
            crate::ast::Hint_::Happly(id) => {
                out.push(id.name.clone());
                proof {
                    assert(uses@[i as int]@.node == HintNodeV::Happly(id@));
                    assert(seq_view(out@) =~= prev.push(id.name@));
                    assert(prev.push(id.name@) =~= prev + seq![id.name@]);
                    assert(seq_view(out@) =~= spec_use_names(
                        seq_view(uses@).take((i + 1) as int),
                    ));
                }
            },
            _ => {
                proof {
                    assert(seq_view(out@) =~= prev + Seq::<Seq<char>>::empty());
                    assert(seq_view(out@) =~= spec_use_names(
                        seq_view(uses@).take((i + 1) as int),
                    ));
                }
            },
        }
        i += 1;
    }
    proof {
        assert(seq_view(uses@).take(uses@.len() as int) =~= seq_view(uses@));
    }
    Ok(out)
}

/// A copy of the visibility overrides of an alias clause.
fn clone_visibilities(vs: &Vec<crate::ast::UseAsVisibility>) -> (r: Vec<crate::ast::UseAsVisibility>)
    ensures
        r@ == vs@,
{
    let mut out: Vec<crate::ast::UseAsVisibility> = Vec::new();
    let mut i: usize = 0;
    while i < vs.len()
        invariant
            0 <= i <= vs@.len(),
            out@ == vs@.take(i as int),
        decreases vs@.len() - i,
    {
        out.push(vs[i]);
        proof {
            assert(out@ =~= vs@.take((i + 1) as int));
        }
        i += 1;
    }
    proof {
        assert(vs@.take(vs@.len() as int) =~= vs@);
    }
    out
}

/// Normalizes one trait-use alias clause.
fn lower_use_alias(a: &UseAsAlias) -> (r: HhasUseAlias)
    ensures
        r@ == spec_lower_alias(a@),
{
    let trait_name = match &a.trait_id {
        Some(id) => Some(ClassType::from_ast_name(id.name.as_str())),
        None => None,
    };
    let alias = match &a.alias {
        Some(id) => Some(ClassType::from_raw_string(id.name.as_str())),
        None => None,
    };
    HhasUseAlias {
        trait_name,
        method: ClassType::from_raw_string(a.method.name.as_str()),
        alias,
        visibility: clone_visibilities(&a.visibility),
    }
}

/// Normalizes the trait-use alias clauses, in order.
fn collect_use_aliases(aliases: &Vec<UseAsAlias>) -> (r: Vec<HhasUseAlias>)
    ensures
        seq_view(r@) == spec_use_aliases(seq_view(aliases@)),
{
    let mut out: Vec<HhasUseAlias> = Vec::new();
    let mut i: usize = 0;
    while i < aliases.len()
        invariant
            0 <= i <= aliases@.len(),
            out@.len() == i,
            forall|j: int|
                0 <= j < i ==> (#[trigger] out@[j])@ == spec_lower_alias(aliases@[j]@),
        decreases aliases@.len() - i,
    {
        out.push(lower_use_alias(&aliases[i]));
        i += 1;
    }
    proof {
        assert(forall|j: int|
            0 <= j < aliases@.len() ==> spec_use_aliases(seq_view(aliases@))[j]
                == spec_lower_alias((#[trigger] aliases@[j])@));
        lemma_seq_view_is(out@, spec_use_aliases(seq_view(aliases@)));
    }
    out
}

/// Normalizes one trait-use precedence clause.
fn lower_use_precedence(p: &InsteadofAlias) -> (r: HhasUsePrecedence)
    ensures
        r@ == spec_lower_precedence(p@),
{
    let mut insteadof: Vec<ClassType> = Vec::new();
    let mut i: usize = 0;
    while i < p.insteadof.len()
        invariant
            0 <= i <= p.insteadof@.len(),
            insteadof@.len() == i,
            forall|j: int|
                0 <= j < i ==> (#[trigger] insteadof@[j])@ == spec_strip_global_ns(
                    p.insteadof@[j]@.name,
                ),
        decreases p.insteadof@.len() - i,
    {
        insteadof.push(ClassType::from_ast_name(p.insteadof[i].name.as_str()));
        i += 1;
    }
    proof {
        assert(p@.insteadof =~= seq_view(p.insteadof@));
        assert(forall|j: int|
            0 <= j < p.insteadof@.len() ==> seq_view(p.insteadof@).map_values(
                |id: IdV| spec_strip_global_ns(id.name),
            )[j] == spec_strip_global_ns((#[trigger] p.insteadof@[j])@.name));
        lemma_seq_view_is(
            insteadof@,
            seq_view(p.insteadof@).map_values(|id: IdV| spec_strip_global_ns(id.name)),
        );
    }
    HhasUsePrecedence {
        trait_name: ClassType::from_ast_name(p.trait_id.name.as_str()),
        method: ClassType::from_raw_string(p.method.name.as_str()),
        insteadof,
    }
}

/// Normalizes the trait-use precedence clauses, in order.
fn collect_use_precedences(ps: &Vec<InsteadofAlias>) -> (r: Vec<HhasUsePrecedence>)
    ensures
        seq_view(r@) == spec_use_precedences(seq_view(ps@)),
{
    let mut out: Vec<HhasUsePrecedence> = Vec::new();
    let mut i: usize = 0;
    while i < ps.len()
        invariant
            0 <= i <= ps@.len(),
            out@.len() == i,
            forall|j: int|
                0 <= j < i ==> (#[trigger] out@[j])@ == spec_lower_precedence(ps@[j]@),
        decreases ps@.len() - i,
    {
        out.push(lower_use_precedence(&ps[i]));
        i += 1;
    }
    proof {
        assert(forall|j: int|
            0 <= j < ps@.len() ==> spec_use_precedences(seq_view(ps@))[j] == spec_lower_precedence(
                (#[trigger] ps@[j])@,
            ));
        lemma_seq_view_is(out@, spec_use_precedences(seq_view(ps@)));
    }
    out
}

/// Stringifies the trait hint of one method redeclaration.
fn string_of_trait(h: &Hint) -> (r: Result<ClassType, LoweringError>)
    ensures
        (match r {
            Ok(t) => spec_string_of_trait(h@) == Ok::<Seq<char>, LoweringErrorV>(t@),
            Err(e) => spec_string_of_trait(h@) == Err::<Seq<char>, LoweringErrorV>(e@),
        }),
{
    match &h.node {
        crate::ast::Hint_::Happly(id) => Ok(ClassType::from_raw_string(id.name.as_str())),
        crate::ast::Hint_::Hprim(p) => Ok(ClassType::from_raw_string(prim_to_string(*p))),
        crate::ast::Hint_::Hmixed => Ok(ClassType::from_raw_string("mixed")),
        crate::ast::Hint_::Hnonnull => Ok(ClassType::from_raw_string("nonnull")),
        crate::ast::Hint_::Habstr(s) => Ok(ClassType::from_raw_string(s.as_str())),
        crate::ast::Hint_::Harray => Ok(ClassType::from_raw_string("array")),
        crate::ast::Hint_::Hdarray => Ok(ClassType::from_raw_string("darray")),
        crate::ast::Hint_::Hvarray => Ok(ClassType::from_raw_string("varray")),
        crate::ast::Hint_::HvarrayOrDarray => Ok(
            ClassType::from_raw_string("varray_or_darray"),
        ),
        crate::ast::Hint_::Hthis => Ok(ClassType::from_raw_string("this")),
        crate::ast::Hint_::Hdynamic => Ok(ClassType::from_raw_string("dynamic")),
        crate::ast::Hint_::Hany => Err(
            LoweringError::UnrecoverableInternal(
                "hint shape must be rejected during naming".to_owned(),
            ),
        ),
        crate::ast::Hint_::Herr => Err(
            LoweringError::UnrecoverableInternal(
                "hint shape must be rejected during naming".to_owned(),
            ),
        ),
        crate::ast::Hint_::Hoption
        | crate::ast::Hint_::Hlike
        | crate::ast::Hint_::Hfun
        | crate::ast::Hint_::Htuple
        | crate::ast::Hint_::Hshape
        | crate::ast::Hint_::Haccess
        | crate::ast::Hint_::Hsoft
        | crate::ast::Hint_::Hnothing
        | crate::ast::Hint_::Hunion
        | crate::ast::Hint_::Hintersection => Err(
            LoweringError::UnrecoverableInternal(
                "unsupported hint shape for a trait-use name".to_owned(),
            ),
        ),
    }
}

/// A copy of one method redeclaration with the same view.
fn clone_method_redeclaration(m: &MethodRedeclaration) -> (r: MethodRedeclaration)
    ensures
        r@ == m@,
{
    MethodRedeclaration { name: clone_id(&m.name), trait_hint: clone_hint(&m.trait_hint) }
}

/// Pairs each method redeclaration with its resolved trait name, failing on
/// the first hint whose shape has no name.
fn collect_method_trait_resolutions(ms: &Vec<MethodRedeclaration>) -> (r: Result<
    Vec<HhasMethodTraitResolution>,
    LoweringError,
>)
    ensures
        mtrs_res_view(r) == spec_method_trait_resolutions(seq_view(ms@)),
{
    let mut out: Vec<HhasMethodTraitResolution> = Vec::new();
    let mut i: usize = 0;
    proof {
        let s = seq_view(ms@);
        assert(s.skip(0) =~= s);
        assert(spec_method_trait_resolutions(s) matches Ok(v) ==> Seq::<
            HhasMethodTraitResolutionV,
        >::empty() + v =~= v);
    }
    while i < ms.len()
        invariant
            0 <= i <= ms@.len(),
            out@.len() == i,
            spec_method_trait_resolutions(seq_view(ms@)) == (match spec_method_trait_resolutions(
                seq_view(ms@).skip(i as int),
            ) {
                Ok(rest) => Ok::<Seq<HhasMethodTraitResolutionV>, LoweringErrorV>(
                    seq_view(out@) + rest,
                ),
                Err(e) => Err::<Seq<HhasMethodTraitResolutionV>, LoweringErrorV>(e),
            }),
        decreases ms@.len() - i,
    {
        proof {
            let s = seq_view(ms@);
            assert(s.skip(i as int)[0] == s[i as int]);
            assert(s[i as int] == ms@[i as int]@);
            assert(s.skip(i as int).drop_first() =~= s.skip((i + 1) as int));
        }
        match string_of_trait(&ms[i].trait_hint) {
            Err(e) => {
                return Err(e);
            },
            Ok(n) => {
                let ghost prev = seq_view(out@);
                let ghost nv = n@;
                out.push(
                    HhasMethodTraitResolution {
                        redeclaration: clone_method_redeclaration(&ms[i]),
                        trait_name: n,
                    },
                );
                proof {
                    let s = seq_view(ms@);
                    let mtrv = HhasMethodTraitResolutionV {
                        redeclaration: ms@[i as int]@,
                        trait_name: nv,
                    };
                    assert(seq_view(out@) =~= prev.push(mtrv));
                    assert(spec_method_trait_resolutions(s.skip((i + 1) as int)) matches Ok(rest)
                        ==> prev + (seq![mtrv] + rest) =~= prev.push(mtrv) + rest);
                }
            },
        }
        i += 1;
    }
    proof {
        let s = seq_view(ms@);
        assert(s.skip(s.len() as int) =~= Seq::<MethodRedeclarationV>::empty());
        assert(spec_method_trait_resolutions(s) matches Ok(v) ==> seq_view(out@) + Seq::<
            HhasMethodTraitResolutionV,
        >::empty() =~= seq_view(out@));
    }
    Ok(out)
}

/// The enum base type-info of a declared enum base, when one is present.
fn from_enum_type(e: &Option<EnumDef>) -> (r: Option<TypeInfo>)
    ensures
        opt_view(r) == spec_from_enum_def(opt_view(*e)),
{
    match e {
        Some(e) => Some(
            TypeInfo {
                user_type: Some(crate::emit_type_hint::fmt_hint(&e.base)),
                type_constraint: crate::hhas::TypeConstraint {
                    name: None,
                    is_extended_hint: true,
                },
            },
        ),
        None => None,
    }
}

/// The single base the extends list resolves to.
fn from_extends(is_enum: bool, extends: &Vec<Hint>) -> (r: Option<ClassType>)
    ensures
        opt_view(r) == spec_from_extends(is_enum, seq_view(extends@)),
{
    if is_enum {
        Some(ClassType::from_raw_string("HH\\BuiltinEnum"))
    } else if extends.len() == 0 {
        None
    } else {
        proof {
            assert(seq_view(extends@)[0] == extends@[0]@);
        }
        Some(hint_to_class(&extends[0]))
    }
}

/// Converts a hint list to class references, in order.
fn from_implements(implements: &Vec<Hint>) -> (r: Vec<ClassType>)
    ensures
        seq_view(r@) == spec_class_refs(seq_view(implements@)),
{
    let mut out: Vec<ClassType> = Vec::new();
    let mut i: usize = 0;
    while i < implements.len()
        invariant
            0 <= i <= implements@.len(),
            out@.len() == i,
            forall|j: int|
                0 <= j < i ==> (#[trigger] out@[j])@ == spec_hint_to_class(implements@[j]@),
        decreases implements@.len() - i,
    {
        out.push(hint_to_class(&implements[i]));
        i += 1;
    }
    proof {
        assert(forall|j: int|
            0 <= j < implements@.len() ==> spec_class_refs(seq_view(implements@))[j]
                == spec_hint_to_class((#[trigger] implements@[j])@));
        lemma_seq_view_is(out@, spec_class_refs(seq_view(implements@)));
    }
    out
}

/// Lowers one type constant, combining its abstractness with the supplied
/// initializer per the absence rule.
fn from_type_constant(tc: &ClassTypeconst) -> (r: HhasTypeConstant)
    ensures
        r@ == spec_from_type_constant(tc@),
{
    let initializer = match &tc.abstract_kind {
        TypeconstAbstractKind::TCAbstract(init) => match init {
            Some(h) => Some(hint_to_type_constant(h)),
            None => None,
        },
        TypeconstAbstractKind::TCPartiallyAbstract => match &tc.type_hint {
            Some(h) => Some(hint_to_type_constant(h)),
            None => None,
        },
        TypeconstAbstractKind::TCConcrete => match &tc.type_hint {
            Some(h) => Some(hint_to_type_constant(h)),
            None => None,
        },
    };
    HhasTypeConstant { name: tc.name.name.clone(), initializer }
}

/// Lowers the declared type constants, in order.
fn from_class_elt_typeconsts(tcs: &Vec<ClassTypeconst>) -> (r: Vec<HhasTypeConstant>)
    ensures
        seq_view(r@) == spec_type_constants(seq_view(tcs@)),
{
    let mut out: Vec<HhasTypeConstant> = Vec::new();
    let mut i: usize = 0;
    while i < tcs.len()
        invariant
            0 <= i <= tcs@.len(),
            out@.len() == i,
            forall|j: int|
                0 <= j < i ==> (#[trigger] out@[j])@ == spec_from_type_constant(tcs@[j]@),
        decreases tcs@.len() - i,
    {
        out.push(from_type_constant(&tcs[i]));
        i += 1;
    }
    proof {
        assert(forall|j: int|
            0 <= j < tcs@.len() ==> spec_type_constants(seq_view(tcs@))[j]
                == spec_from_type_constant((#[trigger] tcs@[j])@));
        lemma_seq_view_is(out@, spec_type_constants(seq_view(tcs@)));
    }
    out
}

/// Lowers the declared properties under the class's ambient context, in
/// order.
fn from_class_elt_classvars(
    class_is_const: bool,
    tparams: &Vec<String>,
    vars: &Vec<crate::ast::ClassVar>,
) -> (r: Vec<HhasProperty>)
    ensures
        seq_view(r@) == spec_lowered_properties(
            class_is_const,
            seq_view(tparams@),
            seq_view(vars@),
        ),
{
    let mut out: Vec<HhasProperty> = Vec::new();
    let mut i: usize = 0;
    while i < vars.len()
        invariant
            0 <= i <= vars@.len(),
            out@.len() == i,
            forall|j: int|
                0 <= j < i ==> (#[trigger] out@[j])@ == emit_property::spec_from_ast(
                    class_is_const,
                    seq_view(tparams@),
                    vars@[j]@,
                ),
        decreases vars@.len() - i,
    {
        out.push(emit_property::from_ast(class_is_const, tparams, &vars[i]));
        i += 1;
    }
    proof {
        assert(forall|j: int|
            0 <= j < vars@.len() ==> spec_lowered_properties(
                class_is_const,
                seq_view(tparams@),
                seq_view(vars@),
            )[j] == emit_property::spec_from_ast(
                class_is_const,
                seq_view(tparams@),
                (#[trigger] vars@[j])@,
            ));
        lemma_seq_view_is(
            out@,
            spec_lowered_properties(class_is_const, seq_view(tparams@), seq_view(vars@)),
        );
    }
    out
}

/// Lowers the trait requirements, in order.
fn from_class_elt_requirements(reqs: &Vec<crate::ast::ClassReq>) -> (r: Vec<HhasReq>)
    ensures
        seq_view(r@) == spec_requirements(seq_view(reqs@)),
{
    let mut out: Vec<HhasReq> = Vec::new();
    let mut i: usize = 0;
    while i < reqs.len()
        invariant
            0 <= i <= reqs@.len(),
            out@.len() == i,
            forall|j: int|
                0 <= j < i ==> (#[trigger] out@[j])@ == spec_lower_requirement(reqs@[j]@),
        decreases reqs@.len() - i,
    {
        let rq = &reqs[i];
        let kind = if rq.is_extends {
            crate::hhas::TraitReqKind::MustExtend
        } else {
            crate::hhas::TraitReqKind::MustImplement
        };
        out.push(HhasReq { class: hint_to_class(&rq.hint), kind });
        i += 1;
    }
    proof {
        assert(forall|j: int|
            0 <= j < reqs@.len() ==> spec_requirements(seq_view(reqs@))[j]
                == spec_lower_requirement((#[trigger] reqs@[j])@));
        lemma_seq_view_is(out@, spec_requirements(seq_view(reqs@)));
    }
    out
}

/// The markup-component metadata of a class declaration. It is computed by
/// the lowering but deliberately attached to no descriptor field: how this
/// extension point is wired downstream is an open design question, so the
/// record is only returned here.
pub open spec fn spec_xhp_metadata(c: ClassV) -> XhpMetadataV {
    XhpMetadataV {
        attribute_names: c.xhp_attrs.map_values(|a: crate::ast::XhpAttrV| a.var.id.name),
        first_child: if c.xhp_children.len() == 0 {
            None
        } else {
            Some(
                crate::hhas::XhpChildRecordV {
                    pos: c.xhp_children[0].pos,
                    exprs: seq![c.xhp_children[0].expr],
                },
            )
        },
        category_names: match c.xhp_category {
            Some(cat) => cat.names.map_values(|id: IdV| id.name),
            None => Seq::<Seq<char>>::empty(),
        },
    }
}

/// Extracts the markup-component metadata: the attribute names, the
/// single-element wrapping of the first child-expression spec, and the
/// category names.
pub fn xhp_metadata(ast_class: &Class_) -> (r: XhpMetadata)
    ensures
        r@ == spec_xhp_metadata(ast_class@),
{
    let mut attribute_names: Vec<String> = Vec::new();
    let mut i: usize = 0;
    while i < ast_class.xhp_attrs.len()
        invariant
            0 <= i <= ast_class.xhp_attrs@.len(),
            attribute_names@.len() == i,
            forall|j: int|
                0 <= j < i ==> (#[trigger] attribute_names@[j])@
                    == ast_class.xhp_attrs@[j]@.var.id.name,
        decreases ast_class.xhp_attrs@.len() - i,
    {
        attribute_names.push(ast_class.xhp_attrs[i].var.id.name.clone());
        i += 1;
    }
    proof {
        assert(ast_class@.xhp_attrs =~= seq_view(ast_class.xhp_attrs@));
        assert(forall|j: int|
            0 <= j < ast_class.xhp_attrs@.len() ==> seq_view(ast_class.xhp_attrs@).map_values(
                |a: crate::ast::XhpAttrV| a.var.id.name,
            )[j] == (#[trigger] ast_class.xhp_attrs@[j])@.var.id.name);
        lemma_seq_view_is(
            attribute_names@,
            seq_view(ast_class.xhp_attrs@).map_values(|a: crate::ast::XhpAttrV| a.var.id.name),
        );
    }
    let first_child = if ast_class.xhp_children.len() == 0 {
        None
    } else {
        let first = &ast_class.xhp_children[0];
        let mut exprs: Vec<String> = Vec::new();
        exprs.push(first.expr.clone());
        proof {
            assert(seq_view(exprs@) =~= seq![first.expr@]);
            assert(ast_class@.xhp_children[0] == ast_class.xhp_children@[0]@);
        }
        Some(XhpChildRecord { pos: first.pos, exprs })
    };
    let category_names = match &ast_class.xhp_category {
        Some(cat) => {
            let mut names: Vec<String> = Vec::new();
            let mut k: usize = 0;
            while k < cat.names.len()
                invariant
                    0 <= k <= cat.names@.len(),
                    names@.len() == k,
                    forall|j: int|
                        0 <= j < k ==> (#[trigger] names@[j])@ == cat.names@[j]@.name,
                decreases cat.names@.len() - k,
            {
                names.push(cat.names[k].name.clone());
                k += 1;
            }
            proof {
                assert(cat@.names =~= seq_view(cat.names@));
                assert(forall|j: int|
                    0 <= j < cat.names@.len() ==> seq_view(cat.names@).map_values(
                        |id: IdV| id.name,
                    )[j] == (#[trigger] cat.names@[j])@.name);
                lemma_seq_view_is(names@, seq_view(cat.names@).map_values(|id: IdV| id.name));
            }
            names
        },
        None => Vec::new(),
    };
    let r = XhpMetadata { attribute_names, first_child, category_names };
    proof {
        assert(r@ =~= spec_xhp_metadata(ast_class@));
    }
    r
}

/// Lowers one class declaration into its descriptor, or fails with the
/// first classified error. The descriptor is a pure function of the
/// options, the declaration and the hoist classification.
pub fn emit_class(emitter: &Emitter, ast_class: &Class_, hoisted: HoistKind) -> (r: Result<
    HhasClass,
    LoweringError,
>)
    ensures
        class_res_view(r) == spec_emit_class(emitter.options, ast_class@, hoisted),
{
    let ghost c = ast_class@;
    let is_closure_class = str_has_prefix(ast_class.name.name.as_str(), "Closure$");
    proof {
        assert(is_closure_class == spec_is_closure_class(c));
    }

    let mut attributes = from_asts(&ast_class.user_attributes);
    let ghost declared = seq_view(attributes@);
    if !is_closure_class {
        match add_reified_attribute(&ast_class.tparams) {
            Some(a) => {
                let ghost av = a@;
                attributes.push(a);
                proof {
                    assert(seq_view(attributes@) =~= declared.push(av));
                    assert(declared.push(av) =~= declared + seq![av]);
                }
            },
            None => {},
        }
    }
    proof {
        assert(seq_view(attributes@) =~= spec_class_attributes(c));
        assert(seq_view(attributes@) == spec_class_attributes(c));
    }

    let is_const = has_const(&attributes);
    let no_dynamic_props = is_const;
    let name = ClassType::from_ast_name(ast_class.name.name.as_str());
    let is_trait = ast_class.kind == ClassKind::Ctrait;
    let is_interface = ast_class.kind == ClassKind::Cinterface;

    let uses = match collect_uses(is_interface, &ast_class.uses) {
        Ok(u) => u,
        Err(e) => {
            proof {
                assert(spec_first_error(c) == Some(e@));
            }
            return Err(e);
        },
    };

    let use_aliases = collect_use_aliases(&ast_class.use_as_alias);
    let use_precedences = collect_use_precedences(&ast_class.insteadof_alias);

    let method_trait_resolutions = match collect_method_trait_resolutions(
        &ast_class.method_redeclarations,
    ) {
        Ok(v) => v,
        Err(e) => {
            proof {
                assert(spec_uses_error(c) is None);
                assert(spec_first_error(c) == Some(e@));
            }
            return Err(e);
        },
    };

    let enum_type = if ast_class.kind == ClassKind::Cenum {
        from_enum_type(&ast_class.enum_def)
    } else {
        None
    };
    proof {
        assert(opt_view(enum_type) == spec_enum_type(c));
    }

    // Computed as the source declares it, but deliberately attached to no
    // descriptor field; see `spec_xhp_metadata`.
    let _markup = xhp_metadata(ast_class);

    let is_abstract = ast_class.kind == ClassKind::Cabstract;
    let is_final = ast_class.declared_final || is_trait || enum_type.is_some();
    let is_sealed = has_sealed(&attributes);

    let tparams = tparam_names(&ast_class.tparams);

    let base = if is_interface {
        None
    } else {
        from_extends(enum_type.is_some(), &ast_class.extends)
    };
    proof {
        assert(opt_view(base) == spec_base(c));
    }

    match &base {
        Some(cls) => {
            if str_eq_ignore_ascii_case(cls.to_raw_string(), "closure") && !is_closure_class {
                let e = raise_fatal_runtime(ast_class.name.pos, "Class cannot extend Closure");
                proof {
                    assert(spec_closure_error(c) == Some(e@));
                    assert(spec_first_error(c) == Some(e@));
                }
                return Err(e);
            }
        },
        None => {},
    }
    proof {
        assert(spec_closure_error(c) is None);
        assert(spec_first_error(c) is None);
    }

    let implements = if is_interface {
        from_implements(&ast_class.extends)
    } else {
        from_implements(&ast_class.implements)
    };
    let span = ast_class.span;

    let properties = from_class_elt_classvars(is_const, &tparams, &ast_class.vars);
    let requirements = from_class_elt_requirements(&ast_class.reqs);
    let type_constants = from_class_elt_typeconsts(&ast_class.typeconsts);
    let upper_bounds = if emitter.options.enforce_generic_ub {
        emit_generics_upper_bounds(&ast_class.tparams)
    } else {
        Vec::new()
    };

    let methods = emit_method::from_asts(&ast_class.methods);

    let needs_no_reifiedinit = false;
    let doc_comment = clone_opt_string(&ast_class.doc_comment);
    let is_xhp = ast_class.is_xhp || ast_class.has_xhp_keyword;

    let flags = HhasClassFlags {
        is_final,
        is_sealed,
        is_abstract,
        is_interface,
        is_trait,
        is_xhp,
        is_const,
        no_dynamic_props,
        needs_no_reifiedinit,
    };
    proof {
        assert(flags == spec_flags(c));
    }

    let d = HhasClass {
        attributes,
        base,
        implements,
        name,
        span,
        flags,
        doc_comment,
        uses,
        use_aliases,
        use_precedences,
        method_trait_resolutions,
        methods,
        enum_type,
        hoisted,
        upper_bounds,
        properties,
        requirements,
        type_constants,
    };
    proof {
        assert(d@ =~= spec_descriptor(emitter.options, c, hoisted));
    }
    Ok(d)
}

/// What lowering a whole program returns: the descriptors of its class
/// declarations, in order, or the first error; lowering halts at the first
/// failing class.
pub open spec fn spec_emit_program(opts: Options, defs: Seq<DefV>) -> Result<
    Seq<HhasClassV>,
    LoweringErrorV,
>
    decreases defs.len(),
{
    if defs.len() == 0 {
        Ok(Seq::<HhasClassV>::empty())
    } else {
        match defs[0] {
            DefV::Class(c) => match spec_emit_class(opts, c, HoistKind::TopLevel) {
                Err(e) => Err(e),
                Ok(d) => match spec_emit_program(opts, defs.drop_first()) {
                    Err(e) => Err(e),
                    Ok(rest) => Ok(seq![d] + rest),
                },
            },
            _ => spec_emit_program(opts, defs.drop_first()),
        }
    }
}

/// The ghost image of a program-lowering result.
pub open spec fn program_res_view(r: Result<Vec<HhasClass>, LoweringError>) -> Result<
    Seq<HhasClassV>,
    LoweringErrorV,
> {
    match r {
        Ok(v) => Ok(seq_view(v@)),
        Err(e) => Err(e@),
    }
}

/// Lowers every class declaration of a program, in order, with the
/// top-level hoist classification, halting at the first failing class.
pub fn emit_classes_from_program(emitter: &Emitter, prog: &Vec<Def>) -> (r: Result<
    Vec<HhasClass>,
    LoweringError,
>)
    ensures
        program_res_view(r) == spec_emit_program(emitter.options, seq_view(prog@)),
{
    let mut out: Vec<HhasClass> = Vec::new();
    let mut i: usize = 0;
    proof {
        let s = seq_view(prog@);
        assert(s.skip(0) =~= s);
        assert(spec_emit_program(emitter.options, s) matches Ok(v) ==> Seq::<
            HhasClassV,
        >::empty() + v =~= v);
    }
    while i < prog.len()
        invariant
            0 <= i <= prog@.len(),
            spec_emit_program(emitter.options, seq_view(prog@)) == (match spec_emit_program(
                emitter.options,
                seq_view(prog@).skip(i as int),
            ) {
                Ok(rest) => Ok::<Seq<HhasClassV>, LoweringErrorV>(seq_view(out@) + rest),
                Err(e) => Err::<Seq<HhasClassV>, LoweringErrorV>(e),
            }),
        decreases prog@.len() - i,
    {
        proof {
            let s = seq_view(prog@);
            assert(s.skip(i as int)[0] == s[i as int]);
            assert(s[i as int] == prog@[i as int]@);
            assert(s.skip(i as int).drop_first() =~= s.skip((i + 1) as int));
        }
        match &prog[i] {
            Def::Class(cd) => {
                proof {
                    assert(prog@[i as int]@ == DefV::Class(cd@));
                }
                match emit_class(emitter, cd, HoistKind::TopLevel) {
                    Ok(d) => {
                        let ghost prev = seq_view(out@);
                        let ghost dv = d@;
                        out.push(d);
                        proof {
                            assert(seq_view(out@) =~= prev.push(dv));
                            assert(spec_emit_program(
                                emitter.options,
                                seq_view(prog@).skip((i + 1) as int),
                            ) matches Ok(rest) ==> prev + (seq![dv] + rest) =~= prev.push(dv)
                                + rest);
                        }
                    },
                    Err(e) => {
                        return Err(e);
                    },
                }
            },
            _ => {},
        }
        i += 1;
    }
    proof {
        let s = seq_view(prog@);
        assert(s.skip(s.len() as int) =~= Seq::<DefV>::empty());
        assert(spec_emit_program(emitter.options, s) matches Ok(v) ==> seq_view(out@) + Seq::<
            HhasClassV,
        >::empty() =~= seq_view(out@));
    }
    Ok(out)
}

} // verus!
