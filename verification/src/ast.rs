//! The typed class declaration as this stage reads it: only the data the
//! lowering inspects is modeled, as plain values. Every type with textual or
//! list-shaped content carries a view onto a ghost mirror, so that contracts
//! can speak of it mathematically.

use vstd::prelude::*;

verus! {

/// The ghost image of an `Option` whose payload has a view.
pub open spec fn opt_view<T: View>(o: Option<T>) -> Option<T::V> {
    match o {
        Some(t) => Some(t@),
        None => None,
    }
}

/// The ghost image of a sequence whose elements have views.
pub open spec fn seq_view<T: View>(s: Seq<T>) -> Seq<T::V> {
    s.map_values(|t: T| t@)
}

/// A sequence of viewed elements equals `t` when it agrees with `t`
/// pointwise; the workhorse for relating a built vector to its
/// specification.
pub proof fn lemma_seq_view_is<T: View>(s: Seq<T>, t: Seq<T::V>)
    requires
        s.len() == t.len(),
        forall|j: int| 0 <= j < s.len() ==> (#[trigger] s[j])@ == t[j],
    ensures
        seq_view(s) == t,
{
    assert(seq_view(s) =~= t);
}

/// A source position, as the upstream parser reports it.
#[derive(Debug, Clone, Copy, PartialEq, Eq, Structural)]
pub struct Pos {
    pub line: usize,
    pub col: usize,
}

/// The line extent of a declaration.
#[derive(Debug, Clone, Copy, PartialEq, Eq, Structural)]
pub struct Span {
    pub line_begin: usize,
    pub line_end: usize,
}

/// A positioned identifier.
#[derive(Debug, Clone, PartialEq, Eq)]
pub struct Id {
    pub pos: Pos,
    pub name: String,
}

#[verifier::ext_equal]
pub ghost struct IdV {
    pub pos: Pos,
    pub name: Seq<char>,
}

impl View for Id {
    type V = IdV;

    open spec fn view(&self) -> IdV {
        IdV { pos: self.pos, name: self.name@ }
    }
}

/// The primitive type keywords a hint can name.
#[derive(Debug, Clone, Copy, PartialEq, Eq, Structural)]
pub enum Tprim {
    Tnull,
    Tvoid,
    Tint,
    Tbool,
    Tfloat,
    Tstring,
    Tresource,
    Tnum,
    Tarraykey,
    Tnoreturn,
}

/// The shape of a type hint. Only what the class lowering reads is kept:
/// a named-type application keeps its head name, the keyword shapes keep
/// nothing, and the remaining shapes are distinguished only so that the
/// trait-name stringification can match on them exhaustively.
#[derive(Debug, Clone, PartialEq, Eq)]
pub enum Hint_ {
    Happly(Id),
    Hprim(Tprim),
    Hmixed,
    Hnonnull,
    Habstr(String),
    Harray,
    Hdarray,
    Hvarray,
    HvarrayOrDarray,
    Hthis,
    Hdynamic,
    Hany,
    Herr,
    Hoption,
    Hlike,
    Hfun,
    Htuple,
    Hshape,
    Haccess,
    Hsoft,
    Hnothing,
    Hunion,
    Hintersection,
}

#[verifier::ext_equal]
pub ghost enum HintNodeV {
    Happly(IdV),
    Hprim(Tprim),
    Hmixed,
    Hnonnull,
    Habstr(Seq<char>),
    Harray,
    Hdarray,
    Hvarray,
    HvarrayOrDarray,
    Hthis,
    Hdynamic,
    Hany,
    Herr,
    Hoption,
    Hlike,
    Hfun,
    Htuple,
    Hshape,
    Haccess,
    Hsoft,
    Hnothing,
    Hunion,
    Hintersection,
}

impl View for Hint_ {
    type V = HintNodeV;

    open spec fn view(&self) -> HintNodeV {
        match self {
            Hint_::Happly(id) => HintNodeV::Happly(id@),
            Hint_::Hprim(p) => HintNodeV::Hprim(*p),
            Hint_::Hmixed => HintNodeV::Hmixed,
            Hint_::Hnonnull => HintNodeV::Hnonnull,
            Hint_::Habstr(s) => HintNodeV::Habstr(s@),
            Hint_::Harray => HintNodeV::Harray,
            Hint_::Hdarray => HintNodeV::Hdarray,
            Hint_::Hvarray => HintNodeV::Hvarray,
            Hint_::HvarrayOrDarray => HintNodeV::HvarrayOrDarray,
            Hint_::Hthis => HintNodeV::Hthis,
            Hint_::Hdynamic => HintNodeV::Hdynamic,
            Hint_::Hany => HintNodeV::Hany,
            Hint_::Herr => HintNodeV::Herr,
            Hint_::Hoption => HintNodeV::Hoption,
            Hint_::Hlike => HintNodeV::Hlike,
            Hint_::Hfun => HintNodeV::Hfun,
            Hint_::Htuple => HintNodeV::Htuple,
            Hint_::Hshape => HintNodeV::Hshape,
            Hint_::Haccess => HintNodeV::Haccess,
            Hint_::Hsoft => HintNodeV::Hsoft,
            Hint_::Hnothing => HintNodeV::Hnothing,
            Hint_::Hunion => HintNodeV::Hunion,
            Hint_::Hintersection => HintNodeV::Hintersection,
        }
    }
}

/// A positioned type hint.
#[derive(Debug, Clone, PartialEq, Eq)]
pub struct Hint {
    pub pos: Pos,
    pub node: Hint_,
}

#[verifier::ext_equal]
pub ghost struct HintV {
    pub pos: Pos,
    pub node: HintNodeV,
}

impl View for Hint {
    type V = HintV;

    open spec fn view(&self) -> HintV {
        HintV { pos: self.pos, node: self.node@ }
    }
}

/// A literal expression, as an attribute argument or an initializer carries it.
#[derive(Debug, Clone, PartialEq, Eq)]
pub enum Expr {
    Null,
    True,
    False,
    Int(i64),
    Str(String),
}

#[verifier::ext_equal]
pub ghost enum ExprV {
    Null,
    True,
    False,
    Int(int),
    Str(Seq<char>),
}

impl View for Expr {
    type V = ExprV;

    open spec fn view(&self) -> ExprV {
        match self {
            Expr::Null => ExprV::Null,
            Expr::True => ExprV::True,
            Expr::False => ExprV::False,
            Expr::Int(i) => ExprV::Int(*i as int),
            Expr::Str(s) => ExprV::Str(s@),
        }
    }
}

/// A user-declared attribute.
#[derive(Debug, Clone, PartialEq, Eq)]
pub struct UserAttribute {
    pub name: String,
    pub params: Vec<Expr>,
}

#[verifier::ext_equal]
pub ghost struct UserAttributeV {
    pub name: Seq<char>,
    pub params: Seq<ExprV>,
}

impl View for UserAttribute {
    type V = UserAttributeV;

    open spec fn view(&self) -> UserAttributeV {
        UserAttributeV { name: self.name@, params: seq_view(self.params@) }
    }
}

/// How a generic parameter is represented at run time.
#[derive(Debug, Clone, Copy, PartialEq, Eq, Structural)]
pub enum ReifyKind {
    Erased,
    SoftReified,
    Reified,
}

/// A generic type parameter of the class.
#[derive(Debug, Clone, PartialEq, Eq)]
pub struct Tparam {
    pub name: Id,
    pub reified: ReifyKind,
    pub constraints: Vec<Hint>,
}

#[verifier::ext_equal]
pub ghost struct TparamV {
    pub name: IdV,
    pub reified: ReifyKind,
    pub constraints: Seq<HintV>,
}

impl View for Tparam {
    type V = TparamV;

    open spec fn view(&self) -> TparamV {
        TparamV {
            name: self.name@,
            reified: self.reified,
            constraints: seq_view(self.constraints@),
        }
    }
}

/// Member visibility.
#[derive(Debug, Clone, Copy, PartialEq, Eq, Structural)]
pub enum Visibility {
    Private,
    Public,
    Protected,
}

/// A visibility override on a trait-use alias clause.
#[derive(Debug, Clone, Copy, PartialEq, Eq, Structural)]
pub enum UseAsVisibility {
    UseAsPublic,
    UseAsPrivate,
    UseAsProtected,
    UseAsFinalVis,
}

/// A declared property.
#[derive(Debug, Clone, PartialEq, Eq)]
pub struct ClassVar {
    pub user_attributes: Vec<UserAttribute>,
    pub id: Id,
    pub expr: Option<Expr>,
    pub type_hint: Option<Hint>,
    pub doc_comment: Option<String>,
    pub visibility: Visibility,
    pub is_static: bool,
    pub is_abstract: bool,
    pub is_promoted_variadic: bool,
}

#[verifier::ext_equal]
pub ghost struct ClassVarV {
    pub user_attributes: Seq<UserAttributeV>,
    pub id: IdV,
    pub expr: Option<ExprV>,
    pub type_hint: Option<HintV>,
    pub doc_comment: Option<Seq<char>>,
    pub visibility: Visibility,
    pub is_static: bool,
    pub is_abstract: bool,
    pub is_promoted_variadic: bool,
}

impl View for ClassVar {
    type V = ClassVarV;

    open spec fn view(&self) -> ClassVarV {
        ClassVarV {
            user_attributes: seq_view(self.user_attributes@),
            id: self.id@,
            expr: opt_view(self.expr),
            type_hint: opt_view(self.type_hint),
            doc_comment: opt_view(self.doc_comment),
            visibility: self.visibility,
            is_static: self.is_static,
            is_abstract: self.is_abstract,
            is_promoted_variadic: self.is_promoted_variadic,
        }
    }
}

/// The abstractness of a type constant, with an optional default for the
/// abstract form.
#[derive(Debug, Clone, PartialEq, Eq)]
pub enum TypeconstAbstractKind {
    TCAbstract(Option<Hint>),
    TCPartiallyAbstract,
    TCConcrete,
}

#[verifier::ext_equal]
pub ghost enum TypeconstAbstractKindV {
    TCAbstract(Option<HintV>),
    TCPartiallyAbstract,
    TCConcrete,
}

impl View for TypeconstAbstractKind {
    type V = TypeconstAbstractKindV;

    open spec fn view(&self) -> TypeconstAbstractKindV {
        match self {
            TypeconstAbstractKind::TCAbstract(h) => TypeconstAbstractKindV::TCAbstract(
                opt_view(*h),
            ),
            TypeconstAbstractKind::TCPartiallyAbstract => TypeconstAbstractKindV::TCPartiallyAbstract,
            TypeconstAbstractKind::TCConcrete => TypeconstAbstractKindV::TCConcrete,
        }
    }
}

/// A declared class-level type constant.
#[derive(Debug, Clone, PartialEq, Eq)]
pub struct ClassTypeconst {
    pub name: Id,
    pub abstract_kind: TypeconstAbstractKind,
    pub type_hint: Option<Hint>,
}

#[verifier::ext_equal]
pub ghost struct ClassTypeconstV {
    pub name: IdV,
    pub abstract_kind: TypeconstAbstractKindV,
    pub type_hint: Option<HintV>,
}

impl View for ClassTypeconst {
    type V = ClassTypeconstV;

    open spec fn view(&self) -> ClassTypeconstV {
        ClassTypeconstV {
            name: self.name@,
            abstract_kind: self.abstract_kind@,
            type_hint: opt_view(self.type_hint),
        }
    }
}

/// A trait requirement: the named hint must be extended or implemented.
#[derive(Debug, Clone, PartialEq, Eq)]
pub struct ClassReq {
    pub hint: Hint,
    pub is_extends: bool,
}

#[verifier::ext_equal]
pub ghost struct ClassReqV {
    pub hint: HintV,
    pub is_extends: bool,
}

impl View for ClassReq {
    type V = ClassReqV;

    open spec fn view(&self) -> ClassReqV {
        ClassReqV { hint: self.hint@, is_extends: self.is_extends }
    }
}

/// The declared base of an enum.
#[derive(Debug, Clone, PartialEq, Eq)]
pub struct EnumDef {
    pub base: Hint,
}

#[verifier::ext_equal]
pub ghost struct EnumDefV {
    pub base: HintV,
}

impl View for EnumDef {
    type V = EnumDefV;

    open spec fn view(&self) -> EnumDefV {
        EnumDefV { base: self.base@ }
    }
}

/// A trait-use alias clause: an optional (trait, method) source, the target
/// name, an optional source-method alias target, and visibility overrides.
#[derive(Debug, Clone, PartialEq, Eq)]
pub struct UseAsAlias {
    pub trait_id: Option<Id>,
    pub method: Id,
    pub alias: Option<Id>,
    pub visibility: Vec<UseAsVisibility>,
}

#[verifier::ext_equal]
pub ghost struct UseAsAliasV {
    pub trait_id: Option<IdV>,
    pub method: IdV,
    pub alias: Option<IdV>,
    pub visibility: Seq<UseAsVisibility>,
}

impl View for UseAsAlias {
    type V = UseAsAliasV;

    open spec fn view(&self) -> UseAsAliasV {
        UseAsAliasV {
            trait_id: opt_view(self.trait_id),
            method: self.method@,
            alias: opt_view(self.alias),
            visibility: self.visibility@,
        }
    }
}

/// A trait-use precedence clause: the winning (trait, method) pair and the
/// ordered deferring traits.
#[derive(Debug, Clone, PartialEq, Eq)]
pub struct InsteadofAlias {
    pub trait_id: Id,
    pub method: Id,
    pub insteadof: Vec<Id>,
}

#[verifier::ext_equal]
pub ghost struct InsteadofAliasV {
    pub trait_id: IdV,
    pub method: IdV,
    pub insteadof: Seq<IdV>,
}

impl View for InsteadofAlias {
    type V = InsteadofAliasV;

    open spec fn view(&self) -> InsteadofAliasV {
        InsteadofAliasV {
            trait_id: self.trait_id@,
            method: self.method@,
            insteadof: seq_view(self.insteadof@),
        }
    }
}

/// A method redeclared from a named trait.
#[derive(Debug, Clone, PartialEq, Eq)]
pub struct MethodRedeclaration {
    pub name: Id,
    pub trait_hint: Hint,
}

#[verifier::ext_equal]
pub ghost struct MethodRedeclarationV {
    pub name: IdV,
    pub trait_hint: HintV,
}

impl View for MethodRedeclaration {
    type V = MethodRedeclarationV;

    open spec fn view(&self) -> MethodRedeclarationV {
        MethodRedeclarationV { name: self.name@, trait_hint: self.trait_hint@ }
    }
}

/// A declared method; its body is lowered by a collaborator downstream of
/// this stage, so only its identity is modeled here.
#[derive(Debug, Clone, PartialEq, Eq)]
pub struct Method_ {
    pub name: Id,
}

#[verifier::ext_equal]
pub ghost struct MethodV {
    pub name: IdV,
}

impl View for Method_ {
    type V = MethodV;

    open spec fn view(&self) -> MethodV {
        MethodV { name: self.name@ }
    }
}

/// A markup-component attribute declaration.
#[derive(Debug, Clone, PartialEq, Eq)]
pub struct XhpAttr {
    pub hint: Option<Hint>,
    pub var: ClassVar,
    pub required: bool,
}

#[verifier::ext_equal]
pub ghost struct XhpAttrV {
    pub hint: Option<HintV>,
    pub var: ClassVarV,
    pub required: bool,
}

impl View for XhpAttr {
    type V = XhpAttrV;

    open spec fn view(&self) -> XhpAttrV {
        XhpAttrV { hint: opt_view(self.hint), var: self.var@, required: self.required }
    }
}

/// A markup-component child-expression declaration.
#[derive(Debug, Clone, PartialEq, Eq)]
pub struct XhpChild {
    pub pos: Pos,
    pub expr: String,
}

#[verifier::ext_equal]
pub ghost struct XhpChildV {
    pub pos: Pos,
    pub expr: Seq<char>,
}

impl View for XhpChild {
    type V = XhpChildV;

    open spec fn view(&self) -> XhpChildV {
        XhpChildV { pos: self.pos, expr: self.expr@ }
    }
}

/// A markup-component category declaration.
#[derive(Debug, Clone, PartialEq, Eq)]
pub struct XhpCategory {
    pub pos: Pos,
    pub names: Vec<Id>,
}

#[verifier::ext_equal]
pub ghost struct XhpCategoryV {
    pub pos: Pos,
    pub names: Seq<IdV>,
}

impl View for XhpCategory {
    type V = XhpCategoryV;

    open spec fn view(&self) -> XhpCategoryV {
        XhpCategoryV { pos: self.pos, names: seq_view(self.names@) }
    }
}

/// The kind of a class declaration.
#[derive(Debug, Clone, Copy, PartialEq, Eq, Structural)]
pub enum ClassKind {
    Cabstract,
    Cnormal,
    Cinterface,
    Ctrait,
    Cenum,
}

/// One class declaration, as the upstream phases hand it to this stage.
#[derive(Debug, Clone, PartialEq, Eq)]
pub struct Class_ {
    pub name: Id,
    pub kind: ClassKind,
    pub declared_final: bool,
    pub is_xhp: bool,
    pub has_xhp_keyword: bool,
    pub tparams: Vec<Tparam>,
    pub extends: Vec<Hint>,
    pub implements: Vec<Hint>,
    pub uses: Vec<Hint>,
    pub use_as_alias: Vec<UseAsAlias>,
    pub insteadof_alias: Vec<InsteadofAlias>,
    pub method_redeclarations: Vec<MethodRedeclaration>,
    pub vars: Vec<ClassVar>,
    pub methods: Vec<Method_>,
    pub typeconsts: Vec<ClassTypeconst>,
    pub reqs: Vec<ClassReq>,
    pub enum_def: Option<EnumDef>,
    pub xhp_attrs: Vec<XhpAttr>,
    pub xhp_children: Vec<XhpChild>,
    pub xhp_category: Option<XhpCategory>,
    pub user_attributes: Vec<UserAttribute>,
    pub span: Span,
    pub doc_comment: Option<String>,
}

#[verifier::ext_equal]
pub ghost struct ClassV {
    pub name: IdV,
    pub kind: ClassKind,
    pub declared_final: bool,
    pub is_xhp: bool,
    pub has_xhp_keyword: bool,
    pub tparams: Seq<TparamV>,
    pub extends: Seq<HintV>,
    pub implements: Seq<HintV>,
    pub uses: Seq<HintV>,
    pub use_as_alias: Seq<UseAsAliasV>,
    pub insteadof_alias: Seq<InsteadofAliasV>,
    pub method_redeclarations: Seq<MethodRedeclarationV>,
    pub vars: Seq<ClassVarV>,
    pub methods: Seq<MethodV>,
    pub typeconsts: Seq<ClassTypeconstV>,
    pub reqs: Seq<ClassReqV>,
    pub enum_def: Option<EnumDefV>,
    pub xhp_attrs: Seq<XhpAttrV>,
    pub xhp_children: Seq<XhpChildV>,
    pub xhp_category: Option<XhpCategoryV>,
    pub user_attributes: Seq<UserAttributeV>,
    pub span: Span,
    pub doc_comment: Option<Seq<char>>,
}

impl View for Class_ {
    type V = ClassV;

    open spec fn view(&self) -> ClassV {
        ClassV {
            name: self.name@,
            kind: self.kind,
            declared_final: self.declared_final,
            is_xhp: self.is_xhp,
            has_xhp_keyword: self.has_xhp_keyword,
            tparams: seq_view(self.tparams@),
            extends: seq_view(self.extends@),
            implements: seq_view(self.implements@),
            uses: seq_view(self.uses@),
            use_as_alias: seq_view(self.use_as_alias@),
            insteadof_alias: seq_view(self.insteadof_alias@),
            method_redeclarations: seq_view(self.method_redeclarations@),
            vars: seq_view(self.vars@),
            methods: seq_view(self.methods@),
            typeconsts: seq_view(self.typeconsts@),
            reqs: seq_view(self.reqs@),
            enum_def: opt_view(self.enum_def),
            xhp_attrs: seq_view(self.xhp_attrs@),
            xhp_children: seq_view(self.xhp_children@),
            xhp_category: opt_view(self.xhp_category),
            user_attributes: seq_view(self.user_attributes@),
            span: self.span,
            doc_comment: opt_view(self.doc_comment),
        }
    }
}

/// A copy of a literal expression with the same view.
pub fn clone_expr(e: &Expr) -> (r: Expr)
    ensures
        r@ == e@,
{
    match e {
        Expr::Null => Expr::Null,
        Expr::True => Expr::True,
        Expr::False => Expr::False,
        Expr::Int(i) => Expr::Int(*i),
        Expr::Str(s) => Expr::Str(s.clone()),
    }
}

/// A copy of an optional literal expression with the same view.
pub fn clone_opt_expr(e: &Option<Expr>) -> (r: Option<Expr>)
    ensures
        opt_view(r) == opt_view(*e),
{
    match e {
        Some(x) => Some(clone_expr(x)),
        None => None,
    }
}

/// A copy of an identifier with the same view.
pub fn clone_id(id: &Id) -> (r: Id)
    ensures
        r@ == id@,
{
    Id { pos: id.pos, name: id.name.clone() }
}

/// A copy of a hint with the same view.
pub fn clone_hint(h: &Hint) -> (r: Hint)
    ensures
        r@ == h@,
{
    let node = match &h.node {
        Hint_::Happly(id) => Hint_::Happly(clone_id(id)),
        Hint_::Hprim(p) => Hint_::Hprim(*p),
        Hint_::Hmixed => Hint_::Hmixed,
        Hint_::Hnonnull => Hint_::Hnonnull,
        Hint_::Habstr(s) => Hint_::Habstr(s.clone()),
        Hint_::Harray => Hint_::Harray,
        Hint_::Hdarray => Hint_::Hdarray,
        Hint_::Hvarray => Hint_::Hvarray,
        Hint_::HvarrayOrDarray => Hint_::HvarrayOrDarray,
        Hint_::Hthis => Hint_::Hthis,
        Hint_::Hdynamic => Hint_::Hdynamic,
        Hint_::Hany => Hint_::Hany,
        Hint_::Herr => Hint_::Herr,
        Hint_::Hoption => Hint_::Hoption,
        Hint_::Hlike => Hint_::Hlike,
        Hint_::Hfun => Hint_::Hfun,
        Hint_::Htuple => Hint_::Htuple,
        Hint_::Hshape => Hint_::Hshape,
        Hint_::Haccess => Hint_::Haccess,
        Hint_::Hsoft => Hint_::Hsoft,
        Hint_::Hnothing => Hint_::Hnothing,
        Hint_::Hunion => Hint_::Hunion,
        Hint_::Hintersection => Hint_::Hintersection,
    };
    Hint { pos: h.pos, node }
}

/// A copy of an optional hint with the same view.
pub fn clone_opt_hint(h: &Option<Hint>) -> (r: Option<Hint>)
    ensures
        opt_view(r) == opt_view(*h),
{
    match h {
        Some(x) => Some(clone_hint(x)),
        None => None,
    }
}

/// A copy of an optional string with the same view.
pub fn clone_opt_string(s: &Option<String>) -> (r: Option<String>)
    ensures
        opt_view(r) == opt_view(*s),
{
    match s {
        Some(x) => Some(x.clone()),
        None => None,
    }
}

/// One top-level declaration of a program; only class declarations are
/// lowered by this stage.
#[derive(Debug, Clone, PartialEq, Eq)]
pub enum Def {
    Class(Class_),
    Fun,
    Stmt,
    Typedef,
    Constant,
}

#[verifier::ext_equal]
pub ghost enum DefV {
    Class(ClassV),
    Fun,
    Stmt,
    Typedef,
    Constant,
}

impl View for Def {
    type V = DefV;

    open spec fn view(&self) -> DefV {
        match self {
            Def::Class(c) => DefV::Class(c@),
            Def::Fun => DefV::Fun,
            Def::Stmt => DefV::Stmt,
            Def::Typedef => DefV::Typedef,
            Def::Constant => DefV::Constant,
        }
    }
}

} // verus!
