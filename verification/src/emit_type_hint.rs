//! The hint-facing collaborators of the class lowering: converting a type
//! hint into a class reference, and rendering a hint as its nominal string.
//! Both are pure functions of the hint's modeled shape.

use vstd::prelude::*;
use crate::ast::{Hint, HintNodeV, HintV, Tprim};
use crate::hhas::ClassType;
use crate::strings::{spec_strip_global_ns, str_eq};

verus! {

/// The canonical keyword string of a primitive type.
pub open spec fn spec_prim_to_string(p: Tprim) -> Seq<char> {
    match p {
        Tprim::Tnull => "null"@,
        Tprim::Tvoid => "void"@,
        Tprim::Tint => "int"@,
        Tprim::Tbool => "bool"@,
        Tprim::Tfloat => "float"@,
        Tprim::Tstring => "string"@,
        Tprim::Tresource => "resource"@,
        Tprim::Tnum => "num"@,
        Tprim::Tarraykey => "arraykey"@,
        Tprim::Tnoreturn => "noreturn"@,
    }
}

/// The class name a hint converts to: the qualified head name of a
/// named-type application, and the empty name for every other shape
/// (malformed hints are assumed excluded upstream, so no failure is
/// modeled at this boundary).
pub open spec fn spec_hint_to_class(h: HintV) -> Seq<char> {
    match h.node {
        HintNodeV::Happly(id) => spec_strip_global_ns(id.name),
        _ => Seq::<char>::empty(),
    }
}

/// The nominal string a hint is rendered as: the head name of a named-type
/// application as written, the canonical keyword otherwise.
pub open spec fn spec_fmt_hint(h: HintV) -> Seq<char> {
    match h.node {
        HintNodeV::Happly(id) => id.name,
        HintNodeV::Hprim(p) => spec_prim_to_string(p),
        HintNodeV::Hmixed => "mixed"@,
        HintNodeV::Hnonnull => "nonnull"@,
        HintNodeV::Habstr(s) => s,
        HintNodeV::Harray => "array"@,
        HintNodeV::Hdarray => "darray"@,
        HintNodeV::Hvarray => "varray"@,
        HintNodeV::HvarrayOrDarray => "varray_or_darray"@,
        HintNodeV::Hthis => "this"@,
        HintNodeV::Hdynamic => "dynamic"@,
        HintNodeV::Hany => ""@,
        HintNodeV::Herr => ""@,
        HintNodeV::Hoption => "?"@,
        HintNodeV::Hlike => "~"@,
        HintNodeV::Hfun => "fun"@,
        HintNodeV::Htuple => "tuple"@,
        HintNodeV::Hshape => "shape"@,
        HintNodeV::Haccess => "access"@,
        HintNodeV::Hsoft => "soft"@,
        HintNodeV::Hnothing => "nothing"@,
        HintNodeV::Hunion => "union"@,
        HintNodeV::Hintersection => "intersection"@,
    }
}

/// How a property's hint is rendered: a bare named-type application whose
/// name is one of the enclosing class's generic parameters is erased to the
/// empty string (generics carry no runtime property type), every other hint
/// is rendered as its nominal string.
pub open spec fn spec_fmt_property_hint(tparams: Seq<Seq<char>>, h: HintV) -> Seq<char> {
    match h.node {
        HintNodeV::Happly(id) => if tparams.contains(id.name) {
            Seq::<char>::empty()
        } else {
            id.name
        },
        _ => spec_fmt_hint(h),
    }
}

/// The canonical keyword string of a primitive type.
pub fn prim_to_string(p: Tprim) -> (r: &'static str)
    ensures
        r@ == spec_prim_to_string(p),
{
    match p {
        Tprim::Tnull => "null",
        Tprim::Tvoid => "void",
        Tprim::Tint => "int",
        Tprim::Tbool => "bool",
        Tprim::Tfloat => "float",
        Tprim::Tstring => "string",
        Tprim::Tresource => "resource",
        Tprim::Tnum => "num",
        Tprim::Tarraykey => "arraykey",
        Tprim::Tnoreturn => "noreturn",
    }
}

/// Converts a hint to a class reference.
pub fn hint_to_class(h: &Hint) -> (r: ClassType)
    ensures
        r@ == spec_hint_to_class(h@),
{
    match &h.node {
        crate::ast::Hint_::Happly(id) => ClassType::from_ast_name(id.name.as_str()),
        _ => {
            proof {
                reveal_strlit("");
                assert(""@ =~= Seq::<char>::empty());
            }
            ClassType::from_raw_string("")
        },
    }
}

/// Renders a hint as its nominal string.
pub fn fmt_hint(h: &Hint) -> (r: String)
    ensures
        r@ == spec_fmt_hint(h@),
{
    match &h.node {
        crate::ast::Hint_::Happly(id) => id.name.clone(),
        crate::ast::Hint_::Hprim(p) => prim_to_string(*p).to_owned(),
        crate::ast::Hint_::Hmixed => "mixed".to_owned(),
        crate::ast::Hint_::Hnonnull => "nonnull".to_owned(),
        crate::ast::Hint_::Habstr(s) => s.clone(),
        crate::ast::Hint_::Harray => "array".to_owned(),
        crate::ast::Hint_::Hdarray => "darray".to_owned(),
        crate::ast::Hint_::Hvarray => "varray".to_owned(),
        crate::ast::Hint_::HvarrayOrDarray => "varray_or_darray".to_owned(),
        crate::ast::Hint_::Hthis => "this".to_owned(),
        crate::ast::Hint_::Hdynamic => "dynamic".to_owned(),
        crate::ast::Hint_::Hany => "".to_owned(),
        crate::ast::Hint_::Herr => "".to_owned(),
        crate::ast::Hint_::Hoption => "?".to_owned(),
        crate::ast::Hint_::Hlike => "~".to_owned(),
        crate::ast::Hint_::Hfun => "fun".to_owned(),
        crate::ast::Hint_::Htuple => "tuple".to_owned(),
        crate::ast::Hint_::Hshape => "shape".to_owned(),
        crate::ast::Hint_::Haccess => "access".to_owned(),
        crate::ast::Hint_::Hsoft => "soft".to_owned(),
        crate::ast::Hint_::Hnothing => "nothing".to_owned(),
        crate::ast::Hint_::Hunion => "union".to_owned(),
        crate::ast::Hint_::Hintersection => "intersection".to_owned(),
    }
}

/// Renders a property's hint with the enclosing class's generic parameter
/// names erased.
pub fn fmt_property_hint(tparams: &Vec<String>, h: &Hint) -> (r: String)
    ensures
        r@ == spec_fmt_property_hint(crate::ast::seq_view(tparams@), h@),
{
    match &h.node {
        crate::ast::Hint_::Happly(id) => {
            proof {
                assert(h@.node == HintNodeV::Happly(id@));
            }
            let mut i: usize = 0;
            while i < tparams.len()
                invariant
                    0 <= i <= tparams@.len(),
                    h@.node == HintNodeV::Happly(id@),
                    forall|j: int|
                        0 <= j < i ==> crate::ast::seq_view(tparams@)[j] != id.name@,
                decreases tparams@.len() - i,
            {
                proof {
                    assert(crate::ast::seq_view(tparams@)[i as int] == tparams@[i as int]@);
                }
                if str_eq(tparams[i].as_str(), id.name.as_str()) {
                    proof {
                        assert(crate::ast::seq_view(tparams@).contains(id.name@));
                    }
                    return String::new();
                }
                i += 1;
            }
            proof {
                assert(!crate::ast::seq_view(tparams@).contains(id.name@));
            }
            id.name.clone()
        },
        _ => fmt_hint(h),
    }
}

} // verus!
