//! Diagnostic assembly: one structured diagnostic for each retained
//! violation, parameterized by the configured direction.

use vstd::prelude::*;
use vstd::string::*;
use crate::casing::correct_name_casing;
use crate::casing::corrected;
use crate::tree::NameToken;
use crate::tree::token_wf;

verus! {

/// The severity attached to this rule's diagnostics.
pub enum Severity {
    Warning,
}

/// One reported finding: code, severity, message, the identifier's source
/// span, and suggested fixes.
pub struct Diagnostic {
    pub code: String,
    pub severity: Severity,
    pub message: String,
    pub start: usize,
    pub end: usize,
    pub suggestions: Vec<String>,
}

/// The message for the configured direction.
pub open spec fn message_text(use_uppercase: bool) -> Seq<char> {
    if use_uppercase {
        "function names must start with an uppercase letter"@
    } else {
        "function names must start with a lowercase letter"@
    }
}

/// The single suggestion attached to a diagnostic for `name`.
pub open spec fn suggestion_text(name: Seq<char>, use_uppercase: bool) -> Seq<char> {
    "try: "@ + corrected(name, use_uppercase) + "(...) instead"@
}

/// How one diagnostic reports one retained violation: its fixed code and
/// severity, the direction's message, the identifier's span, and the one
/// corrected-name suggestion.
pub open spec fn diag_for(d: Diagnostic, t: NameToken, use_uppercase: bool) -> bool {
    &&& d.code@ == "function_name_casing"@
    &&& d.severity is Warning
    &&& d.message@ == message_text(use_uppercase)
    &&& d.start == t.start
    &&& d.end == t.end
    &&& d.suggestions@.len() == 1
    &&& d.suggestions@[0]@ == suggestion_text(t.text@, use_uppercase)
}

/// Builds the diagnostic for one retained violation.
pub fn build_diagnostic(token: &NameToken, use_uppercase: bool) -> (d: Diagnostic)
    requires
        token_wf(*token),
    ensures
        diag_for(d, *token, use_uppercase),
{
    let message = if use_uppercase {
        String::from_str("function names must start with an uppercase letter")
    } else {
        String::from_str("function names must start with a lowercase letter")
    };
    let corrected_name = correct_name_casing(token.text.as_str(), use_uppercase);
    let suggestion = String::from_str("try: ").concat(corrected_name.as_str()).concat(
        "(...) instead",
    );
    let mut suggestions: Vec<String> = Vec::new();
    suggestions.push(suggestion);
    Diagnostic {
        code: String::from_str("function_name_casing"),
        severity: Severity::Warning,
        message,
        start: token.start,
        end: token.end,
        suggestions,
    }
}

} // verus!
