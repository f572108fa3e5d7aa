//! The classified fatal outcomes of lowering one class. Lowering performs no
//! local recovery: the first error raised by any step is the final outcome
//! for that class.

use vstd::prelude::*;
use crate::ast::Pos;

verus! {

/// A fatal lowering outcome.
///
/// - `UserFatalParse`: a structurally invalid source construct found during
///   lowering, reported to the user at its position.
/// - `UserFatalRuntime`: a syntactically legal construct that is forbidden in
///   the target execution model, reported to the user at its position.
/// - `UnrecoverableInternal`: an invariant owed by an upstream stage does not
///   hold; a defect of the pipeline, not of the user's source.
#[derive(Debug, Clone, PartialEq, Eq)]
pub enum LoweringError {
    UserFatalParse(Pos, String),
    UserFatalRuntime(Pos, String),
    UnrecoverableInternal(String),
}

#[verifier::ext_equal]
pub ghost enum LoweringErrorV {
    UserFatalParse(Pos, Seq<char>),
    UserFatalRuntime(Pos, Seq<char>),
    UnrecoverableInternal(Seq<char>),
}

impl View for LoweringError {
    type V = LoweringErrorV;

    open spec fn view(&self) -> LoweringErrorV {
        match self {
            LoweringError::UserFatalParse(p, m) => LoweringErrorV::UserFatalParse(*p, m@),
            LoweringError::UserFatalRuntime(p, m) => LoweringErrorV::UserFatalRuntime(*p, m@),
            LoweringError::UnrecoverableInternal(m) => LoweringErrorV::UnrecoverableInternal(m@),
        }
    }
}

/// A parse-classified fatal error at `pos`.
pub fn raise_fatal_parse(pos: Pos, msg: &str) -> (r: LoweringError)
    ensures
        r@ == LoweringErrorV::UserFatalParse(pos, msg@),
{
    LoweringError::UserFatalParse(pos, msg.to_owned())
}

/// A runtime-classified fatal error at `pos`.
pub fn raise_fatal_runtime(pos: Pos, msg: &str) -> (r: LoweringError)
    ensures
        r@ == LoweringErrorV::UserFatalRuntime(pos, msg@),
{
    LoweringError::UserFatalRuntime(pos, msg.to_owned())
}

} // verus!
