//! The bytecode-level class descriptor and its sub-records, with ghost
//! mirrors for contracts. The descriptor is assembled once, atomically, by
//! the orchestrator; no partial descriptor is ever observable.

use vstd::prelude::*;
use crate::ast::{
    opt_view, seq_view, Expr, ExprV, MethodRedeclaration, MethodRedeclarationV, Pos, Span,
    UseAsVisibility, Visibility,
};
use crate::strings::{spec_strip_global_ns, strip_global_ns};

verus! {

/// A class reference as the assembler names it. Its view is the raw name.
#[derive(Debug, Clone, PartialEq, Eq)]
pub struct ClassType {
    pub name: String,
}

impl View for ClassType {
    type V = Seq<char>;

    open spec fn view(&self) -> Seq<char> {
        self.name@
    }
}

impl ClassType {
    /// A class reference from a source-level name: the global-namespace
    /// marker is stripped, nothing else is rewritten.
    pub fn from_ast_name(name: &str) -> (r: ClassType)
        ensures
            r@ == spec_strip_global_ns(name@),
    {
        ClassType { name: strip_global_ns(name) }
    }

    /// A class reference holding `name` verbatim.
    pub fn from_raw_string(name: &str) -> (r: ClassType)
        ensures
            r@ == name@,
    {
        ClassType { name: name.to_owned() }
    }

    /// The raw name this reference holds.
    pub fn to_raw_string(&self) -> (r: &str)
        ensures
            r@ == self@,
    {
        self.name.as_str()
    }
}

/// A lowered attribute record.
#[derive(Debug, Clone, PartialEq, Eq)]
pub struct HhasAttribute {
    pub name: String,
    pub arguments: Vec<Expr>,
}

#[verifier::ext_equal]
pub ghost struct HhasAttributeV {
    pub name: Seq<char>,
    pub arguments: Seq<ExprV>,
}

impl View for HhasAttribute {
    type V = HhasAttributeV;

    open spec fn view(&self) -> HhasAttributeV {
        HhasAttributeV { name: self.name@, arguments: seq_view(self.arguments@) }
    }
}

/// The constraint half of a type-info record. An extended hint means the
/// nominal string is trusted verbatim, not structurally re-validated.
#[derive(Debug, Clone, PartialEq, Eq)]
pub struct TypeConstraint {
    pub name: Option<String>,
    pub is_extended_hint: bool,
}

#[verifier::ext_equal]
pub ghost struct TypeConstraintV {
    pub name: Option<Seq<char>>,
    pub is_extended_hint: bool,
}

impl View for TypeConstraint {
    type V = TypeConstraintV;

    open spec fn view(&self) -> TypeConstraintV {
        TypeConstraintV { name: opt_view(self.name), is_extended_hint: self.is_extended_hint }
    }
}

/// A type-info record: a nominal user type plus its constraint.
#[derive(Debug, Clone, PartialEq, Eq)]
pub struct TypeInfo {
    pub user_type: Option<String>,
    pub type_constraint: TypeConstraint,
}

#[verifier::ext_equal]
pub ghost struct TypeInfoV {
    pub user_type: Option<Seq<char>>,
    pub type_constraint: TypeConstraintV,
}

impl View for TypeInfo {
    type V = TypeInfoV;

    open spec fn view(&self) -> TypeInfoV {
        TypeInfoV { user_type: opt_view(self.user_type), type_constraint: self.type_constraint@ }
    }
}

/// A lowered constant type value, as a type constant's initializer holds it.
#[derive(Debug, Clone, PartialEq, Eq)]
pub struct TypedValue {
    pub repr: String,
}

impl View for TypedValue {
    type V = Seq<char>;

    open spec fn view(&self) -> Seq<char> {
        self.repr@
    }
}

/// A lowered type constant.
#[derive(Debug, Clone, PartialEq, Eq)]
pub struct HhasTypeConstant {
    pub name: String,
    pub initializer: Option<TypedValue>,
}

#[verifier::ext_equal]
pub ghost struct HhasTypeConstantV {
    pub name: Seq<char>,
    pub initializer: Option<Seq<char>>,
}

impl View for HhasTypeConstant {
    type V = HhasTypeConstantV;

    open spec fn view(&self) -> HhasTypeConstantV {
        HhasTypeConstantV { name: self.name@, initializer: opt_view(self.initializer) }
    }
}

/// A lowered property record.
#[derive(Debug, Clone, PartialEq, Eq)]
pub struct HhasProperty {
    pub name: String,
    pub attributes: Vec<HhasAttribute>,
    pub visibility: Visibility,
    pub is_static: bool,
    pub is_abstract: bool,
    pub is_const: bool,
    pub initial_value: Option<Expr>,
    pub type_text: Option<String>,
    pub doc_comment: Option<String>,
}

#[verifier::ext_equal]
pub ghost struct HhasPropertyV {
    pub name: Seq<char>,
    pub attributes: Seq<HhasAttributeV>,
    pub visibility: Visibility,
    pub is_static: bool,
    pub is_abstract: bool,
    pub is_const: bool,
    pub initial_value: Option<ExprV>,
    pub type_text: Option<Seq<char>>,
    pub doc_comment: Option<Seq<char>>,
}

impl View for HhasProperty {
    type V = HhasPropertyV;

    open spec fn view(&self) -> HhasPropertyV {
        HhasPropertyV {
            name: self.name@,
            attributes: seq_view(self.attributes@),
            visibility: self.visibility,
            is_static: self.is_static,
            is_abstract: self.is_abstract,
            is_const: self.is_const,
            initial_value: opt_view(self.initial_value),
            type_text: opt_view(self.type_text),
            doc_comment: opt_view(self.doc_comment),
        }
    }
}

/// A lowered method record; the body is produced by the downstream
/// method-lowering collaborator and is out of this stage's scope.
#[derive(Debug, Clone, PartialEq, Eq)]
pub struct HhasMethod {
    pub name: String,
}

#[verifier::ext_equal]
pub ghost struct HhasMethodV {
    pub name: Seq<char>,
}

impl View for HhasMethod {
    type V = HhasMethodV;

    open spec fn view(&self) -> HhasMethodV {
        HhasMethodV { name: self.name@ }
    }
}

/// An upper-bound record for one generic parameter.
#[derive(Debug, Clone, PartialEq, Eq)]
pub struct UpperBound {
    pub name: String,
    pub bounds: Vec<String>,
}

#[verifier::ext_equal]
pub ghost struct UpperBoundV {
    pub name: Seq<char>,
    pub bounds: Seq<Seq<char>>,
}

impl View for UpperBound {
    type V = UpperBoundV;

    open spec fn view(&self) -> UpperBoundV {
        UpperBoundV { name: self.name@, bounds: seq_view(self.bounds@) }
    }
}

/// The kind of a trait requirement.
#[derive(Debug, Clone, Copy, PartialEq, Eq, Structural)]
pub enum TraitReqKind {
    MustExtend,
    MustImplement,
}

/// A lowered trait requirement.
#[derive(Debug, Clone, PartialEq, Eq)]
pub struct HhasReq {
    pub class: ClassType,
    pub kind: TraitReqKind,
}

#[verifier::ext_equal]
pub ghost struct HhasReqV {
    pub class: Seq<char>,
    pub kind: TraitReqKind,
}

impl View for HhasReq {
    type V = HhasReqV;

    open spec fn view(&self) -> HhasReqV {
        HhasReqV { class: self.class@, kind: self.kind }
    }
}

/// A normalized trait-use alias record. An explicit source trait is
/// namespace-qualified; the method names are kept as written.
#[derive(Debug, Clone, PartialEq, Eq)]
pub struct HhasUseAlias {
    pub trait_name: Option<ClassType>,
    pub method: ClassType,
    pub alias: Option<ClassType>,
    pub visibility: Vec<UseAsVisibility>,
}

#[verifier::ext_equal]
pub ghost struct HhasUseAliasV {
    pub trait_name: Option<Seq<char>>,
    pub method: Seq<char>,
    pub alias: Option<Seq<char>>,
    pub visibility: Seq<UseAsVisibility>,
}

impl View for HhasUseAlias {
    type V = HhasUseAliasV;

    open spec fn view(&self) -> HhasUseAliasV {
        HhasUseAliasV {
            trait_name: opt_view(self.trait_name),
            method: self.method@,
            alias: opt_view(self.alias),
            visibility: self.visibility@,
        }
    }
}

/// A normalized trait-use precedence record: the winning (trait, method)
/// pair and the ordered deferring traits, all namespace-qualified.
#[derive(Debug, Clone, PartialEq, Eq)]
pub struct HhasUsePrecedence {
    pub trait_name: ClassType,
    pub method: ClassType,
    pub insteadof: Vec<ClassType>,
}

#[verifier::ext_equal]
pub ghost struct HhasUsePrecedenceV {
    pub trait_name: Seq<char>,
    pub method: Seq<char>,
    pub insteadof: Seq<Seq<char>>,
}

impl View for HhasUsePrecedence {
    type V = HhasUsePrecedenceV;

    open spec fn view(&self) -> HhasUsePrecedenceV {
        HhasUsePrecedenceV {
            trait_name: self.trait_name@,
            method: self.method@,
            insteadof: seq_view(self.insteadof@),
        }
    }
}

/// One method redeclaration paired with its resolved trait name.
#[derive(Debug, Clone, PartialEq, Eq)]
pub struct HhasMethodTraitResolution {
    pub redeclaration: MethodRedeclaration,
    pub trait_name: ClassType,
}

#[verifier::ext_equal]
pub ghost struct HhasMethodTraitResolutionV {
    pub redeclaration: MethodRedeclarationV,
    pub trait_name: Seq<char>,
}

impl View for HhasMethodTraitResolution {
    type V = HhasMethodTraitResolutionV;

    open spec fn view(&self) -> HhasMethodTraitResolutionV {
        HhasMethodTraitResolutionV {
            redeclaration: self.redeclaration@,
            trait_name: self.trait_name@,
        }
    }
}

/// Where a class must be registered relative to program load order;
/// computed upstream and passed through unchanged.
#[derive(Debug, Clone, Copy, PartialEq, Eq, Structural)]
pub enum HoistKind {
    TopLevel,
    Hoisted,
}

/// The descriptor's closed set of boolean flags.
#[derive(Debug, Clone, Copy, PartialEq, Eq, Structural)]
pub struct HhasClassFlags {
    pub is_final: bool,
    pub is_sealed: bool,
    pub is_abstract: bool,
    pub is_interface: bool,
    pub is_trait: bool,
    pub is_xhp: bool,
    pub is_const: bool,
    pub no_dynamic_props: bool,
    pub needs_no_reifiedinit: bool,
}

/// The class descriptor handed to the downstream assembler.
#[derive(Debug, Clone, PartialEq, Eq)]
pub struct HhasClass {
    pub attributes: Vec<HhasAttribute>,
    pub base: Option<ClassType>,
    pub implements: Vec<ClassType>,
    pub name: ClassType,
    pub span: Span,
    pub flags: HhasClassFlags,
    pub doc_comment: Option<String>,
    pub uses: Vec<String>,
    pub use_aliases: Vec<HhasUseAlias>,
    pub use_precedences: Vec<HhasUsePrecedence>,
    pub method_trait_resolutions: Vec<HhasMethodTraitResolution>,
    pub methods: Vec<HhasMethod>,
    pub enum_type: Option<TypeInfo>,
    pub hoisted: HoistKind,
    pub upper_bounds: Vec<UpperBound>,
    pub properties: Vec<HhasProperty>,
    pub requirements: Vec<HhasReq>,
    pub type_constants: Vec<HhasTypeConstant>,
}

#[verifier::ext_equal]
pub ghost struct HhasClassV {
    pub attributes: Seq<HhasAttributeV>,
    pub base: Option<Seq<char>>,
    pub implements: Seq<Seq<char>>,
    pub name: Seq<char>,
    pub span: Span,
    pub flags: HhasClassFlags,
    pub doc_comment: Option<Seq<char>>,
    pub uses: Seq<Seq<char>>,
    pub use_aliases: Seq<HhasUseAliasV>,
    pub use_precedences: Seq<HhasUsePrecedenceV>,
    pub method_trait_resolutions: Seq<HhasMethodTraitResolutionV>,
    pub methods: Seq<HhasMethodV>,
    pub enum_type: Option<TypeInfoV>,
    pub hoisted: HoistKind,
    pub upper_bounds: Seq<UpperBoundV>,
    pub properties: Seq<HhasPropertyV>,
    pub requirements: Seq<HhasReqV>,
    pub type_constants: Seq<HhasTypeConstantV>,
}

impl View for HhasClass {
    type V = HhasClassV;

    open spec fn view(&self) -> HhasClassV {
        HhasClassV {
            attributes: seq_view(self.attributes@),
            base: opt_view(self.base),
            implements: seq_view(self.implements@),
            name: self.name@,
            span: self.span,
            flags: self.flags,
            doc_comment: opt_view(self.doc_comment),
            uses: seq_view(self.uses@),
            use_aliases: seq_view(self.use_aliases@),
            use_precedences: seq_view(self.use_precedences@),
            method_trait_resolutions: seq_view(self.method_trait_resolutions@),
            methods: seq_view(self.methods@),
            enum_type: opt_view(self.enum_type),
            hoisted: self.hoisted,
            upper_bounds: seq_view(self.upper_bounds@),
            properties: seq_view(self.properties@),
            requirements: seq_view(self.requirements@),
            type_constants: seq_view(self.type_constants@),
        }
    }
}

/// The markup-component metadata the lowering extracts. It is deliberately
/// not attached to any descriptor field: the wiring of this extension point
/// is an open design question, so the record is computed and returned to the
/// caller of `xhp_metadata` only.
#[derive(Debug, Clone, PartialEq, Eq)]
pub struct XhpMetadata {
    pub attribute_names: Vec<String>,
    pub first_child: Option<XhpChildRecord>,
    pub category_names: Vec<String>,
}

/// The single-element wrapping of the first declared child-expression spec.
#[derive(Debug, Clone, PartialEq, Eq)]
pub struct XhpChildRecord {
    pub pos: Pos,
    pub exprs: Vec<String>,
}

#[verifier::ext_equal]
pub ghost struct XhpChildRecordV {
    pub pos: Pos,
    pub exprs: Seq<Seq<char>>,
}

impl View for XhpChildRecord {
    type V = XhpChildRecordV;

    open spec fn view(&self) -> XhpChildRecordV {
        XhpChildRecordV { pos: self.pos, exprs: seq_view(self.exprs@) }
    }
}

#[verifier::ext_equal]
pub ghost struct XhpMetadataV {
    pub attribute_names: Seq<Seq<char>>,
    pub first_child: Option<XhpChildRecordV>,
    pub category_names: Seq<Seq<char>>,
}

impl View for XhpMetadata {
    type V = XhpMetadataV;

    open spec fn view(&self) -> XhpMetadataV {
        XhpMetadataV {
            attribute_names: seq_view(self.attribute_names@),
            first_child: opt_view(self.first_child),
            category_names: seq_view(self.category_names@),
        }
    }
}

} // verus!
