use emit_class::ast::{
    ClassKind, ClassReq, ClassTypeconst, ClassVar, Class_, Def, EnumDef, Expr, Hint, Hint_, Id,
    InsteadofAlias, MethodRedeclaration, Method_, Pos, ReifyKind, Span, Tparam, Tprim,
    TypeconstAbstractKind, UseAsAlias, UseAsVisibility, Visibility, XhpAttr, XhpCategory, XhpChild,
};
use emit_class::emit_class::{
    emit_class, emit_classes_from_program, xhp_metadata, Emitter, Options,
};
use emit_class::hhas::HoistKind;

fn pos() -> Pos {
    Pos { line: 1, col: 1 }
}

fn ident(name: &str) -> Id {
    Id { pos: pos(), name: name.to_string() }
}

fn happly(name: &str) -> Hint {
    Hint { pos: pos(), node: Hint_::Happly(ident(name)) }
}

fn prim(p: Tprim) -> Hint {
    Hint { pos: pos(), node: Hint_::Hprim(p) }
}

fn plain_class(name: &str, kind: ClassKind) -> Class_ {
    Class_ {
        name: ident(name),
        kind,
        declared_final: false,
        is_xhp: false,
        has_xhp_keyword: false,
        tparams: vec![],
        extends: vec![],
        implements: vec![],
        uses: vec![],
        use_as_alias: vec![],
        insteadof_alias: vec![],
        method_redeclarations: vec![],
        vars: vec![],
        methods: vec![],
        typeconsts: vec![],
        reqs: vec![],
        enum_def: None,
        xhp_attrs: vec![],
        xhp_children: vec![],
        xhp_category: None,
        user_attributes: vec![],
        span: Span { line_begin: 1, line_end: 2 },
        doc_comment: None,
    }
}

fn property(name: &str) -> ClassVar {
    ClassVar {
        user_attributes: vec![],
        id: ident(name),
        expr: None,
        type_hint: None,
        doc_comment: None,
        visibility: Visibility::Public,
        is_static: false,
        is_abstract: false,
        is_promoted_variadic: false,
    }
}

fn emitter() -> Emitter {
    Emitter { options: Options { enforce_generic_ub: false } }
}

#[test]
fn ordinary_class_with_one_property() {
    let mut c = plain_class("A", ClassKind::Cnormal);
    c.vars.push(property("x"));
    let d = emit_class(&emitter(), &c, HoistKind::TopLevel).unwrap();
    assert_eq!(d.base, None);
    assert!(d.implements.is_empty());
    assert_eq!(d.name.name, "A");
    assert_eq!(d.properties.len(), 1);
    assert_eq!(d.properties[0].name, "x");
    assert_eq!(d.properties[0].initial_value, None);
    assert_eq!(d.properties[0].visibility, Visibility::Public);
    assert!(!d.properties[0].is_static);
    assert!(!d.flags.is_final);
    assert!(!d.flags.is_sealed);
    assert!(!d.flags.is_abstract);
    assert!(!d.flags.is_interface);
    assert!(!d.flags.is_trait);
    assert!(!d.flags.is_xhp);
    assert!(!d.flags.is_const);
    assert!(!d.flags.no_dynamic_props);
    assert!(!d.flags.needs_no_reifiedinit);
    assert!(d.attributes.is_empty());
    assert_eq!(d.hoisted, HoistKind::TopLevel);
}

#[test]
fn trait_redeclaring_method_from_primitive_hint() {
    let mut c = plain_class("T", ClassKind::Ctrait);
    c.method_redeclarations.push(MethodRedeclaration {
        name: ident("m"),
        trait_hint: prim(Tprim::Tint),
    });
    let d = emit_class(&emitter(), &c, HoistKind::TopLevel).unwrap();
    assert_eq!(d.method_trait_resolutions.len(), 1);
    assert_eq!(d.method_trait_resolutions[0].trait_name.name, "int");
    assert_eq!(d.method_trait_resolutions[0].redeclaration.name.name, "m");
    assert!(d.flags.is_trait);
    assert!(d.flags.is_final);
}

#[test]
fn enum_with_primitive_base() {
    let mut c = plain_class("E", ClassKind::Cenum);
    c.enum_def = Some(EnumDef { base: prim(Tprim::Tint) });
    assert!(!c.declared_final);
    let d = emit_class(&emitter(), &c, HoistKind::TopLevel).unwrap();
    let info = d.enum_type.expect("an enum with a declared base carries a type-info");
    assert_eq!(info.user_type, Some("int".to_string()));
    assert!(info.type_constraint.is_extended_hint);
    assert_eq!(info.type_constraint.name, None);
    assert!(d.flags.is_final);
    assert_eq!(d.base.unwrap().name, "HH\\BuiltinEnum");
}

#[test]
fn enum_without_declared_base_keeps_extends_and_final_flag() {
    let mut c = plain_class("E", ClassKind::Cenum);
    c.extends.push(happly("X"));
    let d = emit_class(&emitter(), &c, HoistKind::TopLevel).unwrap();
    assert_eq!(d.enum_type, None);
    assert_eq!(d.base.unwrap().name, "X");
    assert!(!d.flags.is_final);
}

#[test]
fn const_attribute_drives_both_flags() {
    let mut c = plain_class("C", ClassKind::Cnormal);
    c.user_attributes.push(emit_class::ast::UserAttribute {
        name: "__Const".to_string(),
        params: vec![],
    });
    let d = emit_class(&emitter(), &c, HoistKind::TopLevel).unwrap();
    assert!(d.flags.is_const);
    assert!(d.flags.no_dynamic_props);

    let plain = plain_class("C", ClassKind::Cnormal);
    let d2 = emit_class(&emitter(), &plain, HoistKind::TopLevel).unwrap();
    assert!(!d2.flags.is_const);
    assert!(!d2.flags.no_dynamic_props);
}

#[test]
fn const_class_propagates_to_properties() {
    let mut c = plain_class("C", ClassKind::Cnormal);
    c.user_attributes.push(emit_class::ast::UserAttribute {
        name: "__Const".to_string(),
        params: vec![],
    });
    c.vars.push(property("x"));
    let d = emit_class(&emitter(), &c, HoistKind::TopLevel).unwrap();
    assert!(d.properties[0].is_const);
}

#[test]
fn interface_implements_its_extends_list() {
    let mut c = plain_class("I", ClassKind::Cinterface);
    c.extends.push(happly("\\J"));
    c.extends.push(happly("K"));
    c.implements.push(happly("Ignored"));
    let d = emit_class(&emitter(), &c, HoistKind::TopLevel).unwrap();
    assert_eq!(d.base, None);
    assert_eq!(d.implements.len(), 2);
    assert_eq!(d.implements[0].name, "J");
    assert_eq!(d.implements[1].name, "K");
    assert!(d.flags.is_interface);
}

#[test]
fn lowering_is_deterministic() {
    let mut c = plain_class("D", ClassKind::Cabstract);
    c.extends.push(happly("Base"));
    c.vars.push(property("p"));
    c.typeconsts.push(ClassTypeconst {
        name: ident("TC"),
        abstract_kind: TypeconstAbstractKind::TCConcrete,
        type_hint: Some(prim(Tprim::Tstring)),
    });
    let r1 = emit_class(&emitter(), &c, HoistKind::TopLevel);
    let r2 = emit_class(&emitter(), &c, HoistKind::TopLevel);
    assert_eq!(r1, r2);
}

#[test]
fn markup_metadata_never_reaches_the_descriptor() {
    let mut with_markup = plain_class("X", ClassKind::Cnormal);
    with_markup.xhp_attrs.push(XhpAttr {
        hint: Some(prim(Tprim::Tstring)),
        var: property("attr"),
        required: true,
    });
    with_markup.xhp_children.push(XhpChild { pos: pos(), expr: "pcdata".to_string() });
    with_markup.xhp_children.push(XhpChild { pos: pos(), expr: "any".to_string() });
    with_markup.xhp_category = Some(XhpCategory { pos: pos(), names: vec![ident("cat")] });
    let without_markup = plain_class("X", ClassKind::Cnormal);
    let d1 = emit_class(&emitter(), &with_markup, HoistKind::TopLevel).unwrap();
    let d2 = emit_class(&emitter(), &without_markup, HoistKind::TopLevel).unwrap();
    assert_eq!(d1, d2);

    let md = xhp_metadata(&with_markup);
    assert_eq!(md.attribute_names, vec!["attr".to_string()]);
    let child = md.first_child.unwrap();
    assert_eq!(child.exprs, vec!["pcdata".to_string()]);
    assert_eq!(md.category_names, vec!["cat".to_string()]);
}

#[test]
fn global_namespace_marker_is_stripped() {
    let mut c = plain_class("\\Foo", ClassKind::Cnormal);
    c.extends.push(happly("\\Bar"));
    let d = emit_class(&emitter(), &c, HoistKind::TopLevel).unwrap();
    assert_eq!(d.name.name, "Foo");
    assert_eq!(d.base.unwrap().name, "Bar");
}

#[test]
fn only_named_type_uses_are_collected() {
    let mut c = plain_class("C", ClassKind::Cnormal);
    c.uses.push(happly("T1"));
    c.uses.push(Hint { pos: pos(), node: Hint_::Hmixed });
    c.uses.push(happly("T2"));
    let d = emit_class(&emitter(), &c, HoistKind::TopLevel).unwrap();
    assert_eq!(d.uses, vec!["T1".to_string(), "T2".to_string()]);
}

#[test]
fn aliases_and_precedences_are_normalized() {
    let mut c = plain_class("C", ClassKind::Cnormal);
    c.use_as_alias.push(UseAsAlias {
        trait_id: Some(ident("\\T")),
        method: ident("m"),
        alias: Some(ident("n")),
        visibility: vec![UseAsVisibility::UseAsPublic],
    });
    c.insteadof_alias.push(InsteadofAlias {
        trait_id: ident("\\A"),
        method: ident("m"),
        insteadof: vec![ident("\\B"), ident("C")],
    });
    let d = emit_class(&emitter(), &c, HoistKind::TopLevel).unwrap();
    assert_eq!(d.use_aliases.len(), 1);
    let a = &d.use_aliases[0];
    assert_eq!(a.trait_name.as_ref().unwrap().name, "T");
    assert_eq!(a.method.name, "m");
    assert_eq!(a.alias.as_ref().unwrap().name, "n");
    assert_eq!(a.visibility, vec![UseAsVisibility::UseAsPublic]);
    assert_eq!(d.use_precedences.len(), 1);
    let p = &d.use_precedences[0];
    assert_eq!(p.trait_name.name, "A");
    assert_eq!(p.method.name, "m");
    assert_eq!(p.insteadof.len(), 2);
    assert_eq!(p.insteadof[0].name, "B");
    assert_eq!(p.insteadof[1].name, "C");
}

#[test]
fn type_constant_initializer_absence_rule() {
    let mut c = plain_class("C", ClassKind::Cnormal);
    c.typeconsts.push(ClassTypeconst {
        name: ident("A"),
        abstract_kind: TypeconstAbstractKind::TCAbstract(None),
        type_hint: Some(prim(Tprim::Tint)),
    });
    c.typeconsts.push(ClassTypeconst {
        name: ident("B"),
        abstract_kind: TypeconstAbstractKind::TCAbstract(Some(prim(Tprim::Tbool))),
        type_hint: None,
    });
    c.typeconsts.push(ClassTypeconst {
        name: ident("D"),
        abstract_kind: TypeconstAbstractKind::TCConcrete,
        type_hint: None,
    });
    c.typeconsts.push(ClassTypeconst {
        name: ident("E"),
        abstract_kind: TypeconstAbstractKind::TCConcrete,
        type_hint: Some(happly("Foo")),
    });
    c.typeconsts.push(ClassTypeconst {
        name: ident("F"),
        abstract_kind: TypeconstAbstractKind::TCPartiallyAbstract,
        type_hint: Some(prim(Tprim::Tstring)),
    });
    let d = emit_class(&emitter(), &c, HoistKind::TopLevel).unwrap();
    assert_eq!(d.type_constants.len(), 5);
    assert_eq!(d.type_constants[0].initializer, None);
    assert_eq!(d.type_constants[1].initializer.as_ref().unwrap().repr, "bool");
    assert_eq!(d.type_constants[2].initializer, None);
    assert_eq!(d.type_constants[3].initializer.as_ref().unwrap().repr, "Foo");
    assert_eq!(d.type_constants[4].initializer.as_ref().unwrap().repr, "string");
}

#[test]
fn reified_generics_attribute_is_synthesized() {
    let mut c = plain_class("C", ClassKind::Cnormal);
    c.tparams.push(Tparam { name: ident("T"), reified: ReifyKind::Erased, constraints: vec![] });
    c.tparams.push(Tparam { name: ident("U"), reified: ReifyKind::Reified, constraints: vec![] });
    let d = emit_class(&emitter(), &c, HoistKind::TopLevel).unwrap();
    assert_eq!(d.attributes.len(), 1);
    assert_eq!(d.attributes[0].name, "__Reified");
    assert_eq!(d.attributes[0].arguments, vec![Expr::Int(0), Expr::Int(2)]);

    let mut closure = plain_class("Closure$f", ClassKind::Cnormal);
    closure.tparams.push(Tparam {
        name: ident("T"),
        reified: ReifyKind::Reified,
        constraints: vec![],
    });
    let dc = emit_class(&emitter(), &closure, HoistKind::TopLevel).unwrap();
    assert!(dc.attributes.is_empty());
}

#[test]
fn upper_bounds_follow_the_enforcement_switch() {
    let mut c = plain_class("C", ClassKind::Cnormal);
    c.tparams.push(Tparam {
        name: ident("T"),
        reified: ReifyKind::Erased,
        constraints: vec![happly("B")],
    });
    c.tparams.push(Tparam { name: ident("U"), reified: ReifyKind::Erased, constraints: vec![] });
    let on = Emitter { options: Options { enforce_generic_ub: true } };
    let d = emit_class(&on, &c, HoistKind::TopLevel).unwrap();
    assert_eq!(d.upper_bounds.len(), 1);
    assert_eq!(d.upper_bounds[0].name, "T");
    assert_eq!(d.upper_bounds[0].bounds, vec!["B".to_string()]);
    let d_off = emit_class(&emitter(), &c, HoistKind::TopLevel).unwrap();
    assert!(d_off.upper_bounds.is_empty());
}

#[test]
fn requirements_keep_their_kind_and_order() {
    let mut c = plain_class("T", ClassKind::Ctrait);
    c.reqs.push(ClassReq { hint: happly("R1"), is_extends: true });
    c.reqs.push(ClassReq { hint: happly("R2"), is_extends: false });
    let d = emit_class(&emitter(), &c, HoistKind::TopLevel).unwrap();
    assert_eq!(d.requirements.len(), 2);
    assert_eq!(d.requirements[0].class.name, "R1");
    assert_eq!(d.requirements[0].kind, emit_class::hhas::TraitReqKind::MustExtend);
    assert_eq!(d.requirements[1].class.name, "R2");
    assert_eq!(d.requirements[1].kind, emit_class::hhas::TraitReqKind::MustImplement);
}

#[test]
fn methods_and_doc_comment_carry_over() {
    let mut c = plain_class("C", ClassKind::Cnormal);
    c.methods.push(Method_ { name: ident("f") });
    c.methods.push(Method_ { name: ident("g") });
    c.doc_comment = Some("doc".to_string());
    let d = emit_class(&emitter(), &c, HoistKind::TopLevel).unwrap();
    assert_eq!(d.methods.len(), 2);
    assert_eq!(d.methods[0].name, "f");
    assert_eq!(d.methods[1].name, "g");
    assert_eq!(d.doc_comment, Some("doc".to_string()));
    assert_eq!(d.span, Span { line_begin: 1, line_end: 2 });
}

#[test]
fn property_generic_hint_is_erased() {
    let mut c = plain_class("C", ClassKind::Cnormal);
    c.tparams.push(Tparam { name: ident("T"), reified: ReifyKind::Erased, constraints: vec![] });
    let mut p1 = property("a");
    p1.type_hint = Some(happly("T"));
    let mut p2 = property("b");
    p2.type_hint = Some(happly("Other"));
    let mut p3 = property("c");
    p3.type_hint = Some(happly("T"));
    p3.is_promoted_variadic = true;
    c.vars = vec![p1, p2, p3];
    let d = emit_class(&emitter(), &c, HoistKind::TopLevel).unwrap();
    assert_eq!(d.properties[0].type_text, Some("".to_string()));
    assert_eq!(d.properties[1].type_text, Some("Other".to_string()));
    assert_eq!(d.properties[2].type_text, None);
}

#[test]
fn program_lowers_only_classes_in_order() {
    let a = plain_class("A", ClassKind::Cnormal);
    let b = plain_class("B", ClassKind::Cnormal);
    let prog = vec![Def::Fun, Def::Class(a), Def::Stmt, Def::Class(b), Def::Constant];
    let ds = emit_classes_from_program(&emitter(), &prog).unwrap();
    assert_eq!(ds.len(), 2);
    assert_eq!(ds[0].name.name, "A");
    assert_eq!(ds[1].name.name, "B");
    assert_eq!(ds[0].hoisted, HoistKind::TopLevel);
}

#[test]
fn xhp_flag_follows_declaration_and_keyword() {
    let mut c = plain_class("X", ClassKind::Cnormal);
    c.is_xhp = true;
    let d = emit_class(&emitter(), &c, HoistKind::TopLevel).unwrap();
    assert!(d.flags.is_xhp);
    let mut k = plain_class("Y", ClassKind::Cnormal);
    k.has_xhp_keyword = true;
    let dk = emit_class(&emitter(), &k, HoistKind::TopLevel).unwrap();
    assert!(dk.flags.is_xhp);
}

#[test]
fn declared_final_and_sealed_are_kept() {
    let mut c = plain_class("C", ClassKind::Cnormal);
    c.declared_final = true;
    c.user_attributes.push(emit_class::ast::UserAttribute {
        name: "__Sealed".to_string(),
        params: vec![],
    });
    let d = emit_class(&emitter(), &c, HoistKind::TopLevel).unwrap();
    assert!(d.flags.is_final);
    assert!(d.flags.is_sealed);
    assert!(d.flags.is_abstract == false);
    let mut a = plain_class("D", ClassKind::Cabstract);
    a.extends.push(happly("Base"));
    let da = emit_class(&emitter(), &a, HoistKind::TopLevel).unwrap();
    assert!(da.flags.is_abstract);
    assert_eq!(da.base.unwrap().name, "Base");
}

#[test]
fn only_the_first_extends_entry_becomes_the_base() {
    let mut c = plain_class("C", ClassKind::Cnormal);
    c.extends.push(happly("First"));
    c.extends.push(happly("Second"));
    let d = emit_class(&emitter(), &c, HoistKind::TopLevel).unwrap();
    assert_eq!(d.base.unwrap().name, "First");
}

#[test]
fn hoist_classification_passes_through() {
    let c = plain_class("C", ClassKind::Cnormal);
    let d = emit_class(&emitter(), &c, HoistKind::Hoisted).unwrap();
    assert_eq!(d.hoisted, HoistKind::Hoisted);
}
