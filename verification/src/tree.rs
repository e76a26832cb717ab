//! The rule's view of a parsed syntax tree: every construct that introduces
//! a function name, in traversal order, and the extraction of the one
//! reportable identifier of each construct.

use vstd::prelude::*;

verus! {

/// An identifier token: its text and its source span.
pub struct NameToken {
    pub text: String,
    pub start: usize,
    pub end: usize,
}

/// A name token is well formed when its text is non-empty; the upstream
/// parser never produces a zero-length name token.
pub open spec fn token_wf(t: NameToken) -> bool {
    t.text@.len() > 0
}

/// One function-introducing construct.
pub enum FunctionStmt {
    /// A function declaration `function a.b.c(...)`, with a dotted name path
    /// and an optional method-name suffix as in `function obj:method(...)`.
    Declaration { names: Vec<NameToken>, method: Option<NameToken> },
    /// A local function declaration `local function name(...)`.
    Local { name: NameToken },
}

/// The reportable identifier of a construct: the method name when there is
/// one, else the last segment of the dotted path; earlier segments and the
/// method receiver are never checked. A local function's identifier is its
/// name.
pub open spec fn reportable(stmt: FunctionStmt) -> Option<NameToken> {
    match stmt {
        FunctionStmt::Declaration { names, method } => {
            if method is Some {
                method
            } else if names@.len() > 0 {
                Some(names@.last())
            } else {
                None
            }
        },
        FunctionStmt::Local { name } => Some(name),
    }
}

/// A construct is well formed when its reportable identifier, if any, is a
/// well-formed token.
pub open spec fn stmt_wf(stmt: FunctionStmt) -> bool {
    reportable(stmt) matches Some(t) ==> token_wf(t)
}

/// What the rule reads from one parsed file: its function-introducing
/// constructs, in traversal order.
pub struct Ast {
    pub functions: Vec<FunctionStmt>,
}

/// A tree is well formed when each of its constructs is.
pub open spec fn ast_wf(ast: Ast) -> bool {
    forall|i: int| 0 <= i < ast.functions@.len() ==> stmt_wf(#[trigger] ast.functions@[i])
}

/// The reportable identifier of a construct, as [`reportable`] describes it.
pub fn reportable_token(stmt: &FunctionStmt) -> (r: Option<&NameToken>)
    ensures
        match r {
            Some(t) => reportable(*stmt) == Some(*t),
            None => reportable(*stmt) is None,
        },
{
    match stmt {
        FunctionStmt::Declaration { names, method } => match method {
            Some(m) => Some(m),
            None => {
                if names.len() > 0 {
                    Some(&names[names.len() - 1])
                } else {
                    None
                }
            },
        },
        FunctionStmt::Local { name } => Some(name),
    }
}

} // verus!
