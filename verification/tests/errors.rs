use emit_class::ast::{
    ClassKind, Class_, Hint, Hint_, Id, MethodRedeclaration, Pos, Span, Tprim,
};
use emit_class::emit_class::{emit_class, emit_classes_from_program, Emitter, Options};
use emit_class::error::LoweringError;
use emit_class::hhas::HoistKind;

fn pos(line: usize, col: usize) -> Pos {
    Pos { line, col }
}

fn ident_at(name: &str, p: Pos) -> Id {
    Id { pos: p, name: name.to_string() }
}

fn happly_at(name: &str, p: Pos) -> Hint {
    Hint { pos: p, node: Hint_::Happly(ident_at(name, p)) }
}

fn plain_class(name: &str, kind: ClassKind) -> Class_ {
    Class_ {
        name: ident_at(name, pos(1, 1)),
        kind,
        declared_final: false,
        is_xhp: false,
        has_xhp_keyword: false,
        tparams: vec![],
        extends: vec![],
        implements: vec![],
        uses: vec![],
        use_as_alias: vec![],
        insteadof_alias: vec![],
        method_redeclarations: vec![],
        vars: vec![],
        methods: vec![],
        typeconsts: vec![],
        reqs: vec![],
        enum_def: None,
        xhp_attrs: vec![],
        xhp_children: vec![],
        xhp_category: None,
        user_attributes: vec![],
        span: Span { line_begin: 1, line_end: 2 },
        doc_comment: None,
    }
}

fn emitter() -> Emitter {
    Emitter { options: Options { enforce_generic_ub: false } }
}

#[test]
fn interface_using_traits_is_a_fatal_parse_error() {
    let mut c = plain_class("I", ClassKind::Cinterface);
    c.uses.push(happly_at("T", pos(3, 7)));
    let r = emit_class(&emitter(), &c, HoistKind::TopLevel);
    assert_eq!(
        r,
        Err(LoweringError::UserFatalParse(pos(3, 7), "Interfaces cannot use traits".to_string()))
    );
}

#[test]
fn interface_with_any_trait_use_fails_even_for_odd_hints() {
    let mut c = plain_class("I", ClassKind::Cinterface);
    c.uses.push(Hint { pos: pos(2, 2), node: Hint_::Hmixed });
    let r = emit_class(&emitter(), &c, HoistKind::TopLevel);
    assert_eq!(
        r,
        Err(LoweringError::UserFatalParse(pos(2, 2), "Interfaces cannot use traits".to_string()))
    );
}

#[test]
fn extending_the_closure_base_is_a_fatal_runtime_error() {
    let mut c = plain_class("C", ClassKind::Cnormal);
    c.name.pos = pos(5, 9);
    c.extends.push(happly_at("Closure", pos(1, 1)));
    let r = emit_class(&emitter(), &c, HoistKind::TopLevel);
    assert_eq!(
        r,
        Err(LoweringError::UserFatalRuntime(pos(5, 9), "Class cannot extend Closure".to_string()))
    );
}

#[test]
fn closure_base_match_is_case_insensitive_and_namespace_stripped() {
    let mut c = plain_class("C", ClassKind::Cnormal);
    c.extends.push(happly_at("cLoSuRe", pos(1, 1)));
    assert!(emit_class(&emitter(), &c, HoistKind::TopLevel).is_err());

    let mut c2 = plain_class("C", ClassKind::Cnormal);
    c2.extends.push(happly_at("\\Closure", pos(1, 1)));
    assert!(emit_class(&emitter(), &c2, HoistKind::TopLevel).is_err());
}

#[test]
fn a_synthesized_closure_class_may_extend_the_closure_base() {
    let mut c = plain_class("Closure$foo", ClassKind::Cnormal);
    c.extends.push(happly_at("Closure", pos(1, 1)));
    let d = emit_class(&emitter(), &c, HoistKind::TopLevel).unwrap();
    assert_eq!(d.base.unwrap().name, "Closure");
}

#[test]
fn a_class_extending_another_base_is_fine() {
    let mut c = plain_class("C", ClassKind::Cnormal);
    c.extends.push(happly_at("ClosureLike", pos(1, 1)));
    assert!(emit_class(&emitter(), &c, HoistKind::TopLevel).is_ok());
}

#[test]
fn excluded_hint_shapes_in_redeclarations_are_internal_errors() {
    let mut c = plain_class("T", ClassKind::Ctrait);
    c.method_redeclarations.push(MethodRedeclaration {
        name: ident_at("m", pos(1, 1)),
        trait_hint: Hint { pos: pos(1, 1), node: Hint_::Hany },
    });
    let r = emit_class(&emitter(), &c, HoistKind::TopLevel);
    assert_eq!(
        r,
        Err(LoweringError::UnrecoverableInternal(
            "hint shape must be rejected during naming".to_string()
        ))
    );

    let mut c2 = plain_class("T", ClassKind::Ctrait);
    c2.method_redeclarations.push(MethodRedeclaration {
        name: ident_at("m", pos(1, 1)),
        trait_hint: Hint { pos: pos(1, 1), node: Hint_::Hoption },
    });
    let r2 = emit_class(&emitter(), &c2, HoistKind::TopLevel);
    assert_eq!(
        r2,
        Err(LoweringError::UnrecoverableInternal(
            "unsupported hint shape for a trait-use name".to_string()
        ))
    );
}

#[test]
fn keyword_hint_shapes_in_redeclarations_resolve() {
    let shapes = vec![
        (Hint_::Hprim(Tprim::Tstring), "string"),
        (Hint_::Hmixed, "mixed"),
        (Hint_::Hnonnull, "nonnull"),
        (Hint_::Habstr("Tabs".to_string()), "Tabs"),
        (Hint_::Harray, "array"),
        (Hint_::Hdarray, "darray"),
        (Hint_::Hvarray, "varray"),
        (Hint_::HvarrayOrDarray, "varray_or_darray"),
        (Hint_::Hthis, "this"),
        (Hint_::Hdynamic, "dynamic"),
        (Hint_::Happly(ident_at("\\N\\T", pos(1, 1))), "\\N\\T"),
    ];
    for (node, expected) in shapes {
        let mut c = plain_class("T", ClassKind::Ctrait);
        c.method_redeclarations.push(MethodRedeclaration {
            name: ident_at("m", pos(1, 1)),
            trait_hint: Hint { pos: pos(1, 1), node },
        });
        let d = emit_class(&emitter(), &c, HoistKind::TopLevel).unwrap();
        assert_eq!(d.method_trait_resolutions[0].trait_name.name, expected);
    }
}

#[test]
fn the_first_use_clause_error_wins_over_later_failures() {
    let mut c = plain_class("I", ClassKind::Cinterface);
    c.uses.push(happly_at("T", pos(4, 4)));
    c.method_redeclarations.push(MethodRedeclaration {
        name: ident_at("m", pos(1, 1)),
        trait_hint: Hint { pos: pos(1, 1), node: Hint_::Hany },
    });
    let r = emit_class(&emitter(), &c, HoistKind::TopLevel);
    assert_eq!(
        r,
        Err(LoweringError::UserFatalParse(pos(4, 4), "Interfaces cannot use traits".to_string()))
    );
}

#[test]
fn program_lowering_halts_at_the_first_failing_class() {
    let good = plain_class("A", ClassKind::Cnormal);
    let mut bad = plain_class("I", ClassKind::Cinterface);
    bad.uses.push(happly_at("T", pos(9, 1)));
    let never_reached = plain_class("B", ClassKind::Cnormal);
    let prog = vec![
        emit_class::ast::Def::Class(good),
        emit_class::ast::Def::Class(bad),
        emit_class::ast::Def::Class(never_reached),
    ];
    let r = emit_classes_from_program(&emitter(), &prog);
    assert_eq!(
        r,
        Err(LoweringError::UserFatalParse(pos(9, 1), "Interfaces cannot use traits".to_string()))
    );
}
