//! The rule itself: configuration wrapping, and the single-pass analysis
//! that turns one tree into its ordered list of diagnostics.

use vstd::prelude::*;
use crate::casing::is_wrong_casing;
use crate::casing::wrong_casing;
use crate::config::FunctionNameCasingLintConfig;
use crate::config::in_allowlist;
use crate::config::is_allowed;
use crate::diagnostic::Diagnostic;
use crate::diagnostic::build_diagnostic;
use crate::diagnostic::diag_for;
use crate::tree::Ast;
use crate::tree::FunctionStmt;
use crate::tree::NameToken;
use crate::tree::ast_wf;
use crate::tree::reportable;
use crate::tree::reportable_token;
use crate::tree::stmt_wf;

verus! {

/// The violations (zero or one) that one construct contributes: its
/// reportable identifier, when that identifier is mis-cased for the
/// direction and not exempted by the allowlist.
pub open spec fn reported_one(
    stmt: FunctionStmt,
    use_uppercase: bool,
    allow: Seq<String>,
) -> Seq<NameToken> {
    match reportable(stmt) {
        Some(t) => {
            if wrong_casing(t.text@, use_uppercase) && !in_allowlist(allow, t.text@) {
                seq![t]
            } else {
                Seq::empty()
            }
        },
        None => Seq::empty(),
    }
}

/// The violations that survive the allowlist, in traversal order.
pub open spec fn reported(
    stmts: Seq<FunctionStmt>,
    use_uppercase: bool,
    allow: Seq<String>,
) -> Seq<NameToken>
    decreases stmts.len(),
{
    if stmts.len() == 0 {
        Seq::<NameToken>::empty()
    } else {
        reported(stmts.drop_last(), use_uppercase, allow) + reported_one(
            stmts.last(),
            use_uppercase,
            allow,
        )
    }
}

/// Extending the walked prefix by one construct appends exactly that
/// construct's contribution.
proof fn lemma_reported_take_step(
    stmts: Seq<FunctionStmt>,
    i: int,
    use_uppercase: bool,
    allow: Seq<String>,
)
    requires
        0 <= i < stmts.len(),
    ensures
        reported(stmts.take(i + 1), use_uppercase, allow) =~= reported(
            stmts.take(i),
            use_uppercase,
            allow,
        ) + reported_one(stmts[i], use_uppercase, allow),
{
    assert(stmts.take(i + 1).drop_last() =~= stmts.take(i));
    assert(stmts.take(i + 1).last() == stmts[i]);
}

/// The rule: an immutable configuration, applied to one tree per call.
pub struct FunctionNameCasingLint {
    pub config: FunctionNameCasingLintConfig,
}

impl FunctionNameCasingLint {
    /// Builds the rule from its resolved configuration; this cannot fail.
    pub fn new(config: FunctionNameCasingLintConfig) -> (r: Result<
        Self,
        std::convert::Infallible,
    >)
        ensures
            r matches Ok(l) && l.config == config,
    {
        Ok(FunctionNameCasingLint { config })
    }

    /// Analyzes one tree: for each function-introducing construct in
    /// traversal order whose reportable identifier is mis-cased for the
    /// configured direction and not allowlisted, exactly one diagnostic, as
    /// [`diag_for`] describes it.
    pub fn pass(&self, ast: &Ast) -> (r: Vec<Diagnostic>)
        requires
            ast_wf(*ast),
        ensures
            r@.len() == reported(
                ast.functions@,
                self.config.use_uppercase,
                self.config.allow@,
            ).len(),
            forall|i: int|
                0 <= i < r@.len() ==> diag_for(
                    #[trigger] r@[i],
                    reported(ast.functions@, self.config.use_uppercase, self.config.allow@)[i],
                    self.config.use_uppercase,
                ),
    {
        let use_uppercase = self.config.use_uppercase;
        let ghost allow = self.config.allow@;
        let mut diagnostics: Vec<Diagnostic> = Vec::new();
        let n = ast.functions.len();
        let mut idx: usize = 0;
        while idx < n
            invariant
                n == ast.functions@.len(),
                idx <= n,
                ast_wf(*ast),
                use_uppercase == self.config.use_uppercase,
                allow == self.config.allow@,
                diagnostics@.len() == reported(
                    ast.functions@.take(idx as int),
                    use_uppercase,
                    allow,
                ).len(),
                forall|i: int|
                    0 <= i < diagnostics@.len() ==> diag_for(
                        #[trigger] diagnostics@[i],
                        reported(ast.functions@.take(idx as int), use_uppercase, allow)[i],
                        use_uppercase,
                    ),
            decreases n - idx,
        {
            let stmt = &ast.functions[idx];
            proof {
                assert(stmt_wf(ast.functions@[idx as int]));
                lemma_reported_take_step(ast.functions@, idx as int, use_uppercase, allow);
            }
            match reportable_token(stmt) {
                Some(token) => {
                    if is_wrong_casing(token.text.as_str(), use_uppercase) {
                        if !is_allowed(&self.config.allow, &token.text) {
                            let d = build_diagnostic(token, use_uppercase);
                            diagnostics.push(d);
                            proof {
                                assert(reported_one(ast.functions@[idx as int], use_uppercase, allow)
                                    =~= seq![*token]);
                            }
                        } else {
                            proof {
                                assert(reported(ast.functions@.take(idx as int + 1), use_uppercase, allow)
                                    =~= reported(ast.functions@.take(idx as int), use_uppercase, allow));
                            }
                        }
                    } else {
                        proof {
                            assert(reported(ast.functions@.take(idx as int + 1), use_uppercase, allow)
                                =~= reported(ast.functions@.take(idx as int), use_uppercase, allow));
                        }
                    }
                },
                None => {
                    proof {
                        assert(reported(ast.functions@.take(idx as int + 1), use_uppercase, allow)
                            =~= reported(ast.functions@.take(idx as int), use_uppercase, allow));
                    }
                },
            }
            idx = idx + 1;
        }
        proof {
            assert(ast.functions@.take(n as int) =~= ast.functions@);
        }
        diagnostics
    }
}

} // verus!
