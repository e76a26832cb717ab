//! Laws of the rule, proved once and for all: how the evaluator treats each
//! class of leading character, what the allowlist exempts, and what the
//! corrected name preserves.

use vstd::prelude::*;
use crate::casing::case_mapping;
use crate::casing::char_is_lowercase;
use crate::casing::char_is_uppercase;
use crate::casing::corrected;
use crate::casing::lower_mapping;
use crate::casing::wrong_casing;
use crate::config::in_allowlist;
use crate::lint::reported;
use crate::lint::reported_one;
use crate::tree::FunctionStmt;
use crate::tree::NameToken;
use crate::tree::reportable;

verus! {

/// A name whose first character is lowercase — and, carrying one case, not
/// also uppercase — is never a violation under the default
/// lowercase-required direction.
pub proof fn lemma_lowercase_first_not_violation(name: Seq<char>)
    requires
        name.len() > 0,
        char_is_lowercase(name[0]),
        !char_is_uppercase(name[0]),
    ensures
        !wrong_casing(name, false),
{
}

/// A name whose first character is uppercase is a violation under the
/// default lowercase-required direction, and the corrected name lowercases
/// only the first character, keeping the remainder unchanged.
pub proof fn lemma_uppercase_first_violation(name: Seq<char>)
    requires
        name.len() > 0,
        char_is_uppercase(name[0]),
    ensures
        wrong_casing(name, false),
        corrected(name, false) == lower_mapping(name[0]) + name.skip(1),
{
}

/// A construct whose reportable identifier starts with an uppercase
/// character, under the default direction and with that identifier not
/// allowlisted, yields exactly one violation: that identifier.
pub proof fn lemma_uppercase_occurrence_reported(
    stmt: FunctionStmt,
    allow: Seq<String>,
    t: NameToken,
)
    requires
        reportable(stmt) == Some(t),
        t.text@.len() > 0,
        char_is_uppercase(t.text@[0]),
        !in_allowlist(allow, t.text@),
    ensures
        reported(seq![stmt], false, allow) =~= seq![t],
{
    assert(seq![stmt].drop_last() =~= Seq::<FunctionStmt>::empty());
    assert(seq![stmt].last() == stmt);
    assert(reported(Seq::<FunctionStmt>::empty(), false, allow) =~= Seq::<NameToken>::empty());
    assert(reported_one(stmt, false, allow) =~= seq![t]);
    assert(reported(seq![stmt], false, allow) == reported(
        Seq::<FunctionStmt>::empty(),
        false,
        allow,
    ) + reported_one(stmt, false, allow));
}

/// A name whose first character has no case — neither uppercase nor
/// lowercase — is never a violation, under either direction.
pub proof fn lemma_caseless_first_never_violation(name: Seq<char>, use_uppercase: bool)
    requires
        name.len() > 0,
        !char_is_uppercase(name[0]),
        !char_is_lowercase(name[0]),
    ensures
        !wrong_casing(name, use_uppercase),
{
}

/// Allowlist law: with a name added to the allowlist, analysis reports no
/// violation for any occurrence of exactly that name, regardless of casing
/// or direction.
pub proof fn lemma_allowlisted_name_never_reported(
    stmts: Seq<FunctionStmt>,
    use_uppercase: bool,
    allow: Seq<String>,
    entry: String,
)
    ensures
        forall|i: int|
            0 <= i < reported(stmts, use_uppercase, allow.push(entry)).len() ==> (
            #[trigger] reported(stmts, use_uppercase, allow.push(entry))[i]).text@ != entry@,
    decreases stmts.len(),
{
    if stmts.len() > 0 {
        lemma_allowlisted_name_never_reported(stmts.drop_last(), use_uppercase, allow, entry);
        let whole = reported(stmts, use_uppercase, allow.push(entry));
        let prefix = reported(stmts.drop_last(), use_uppercase, allow.push(entry));
        let one = reported_one(stmts.last(), use_uppercase, allow.push(entry));
        assert(whole == prefix + one);
        assert forall|i: int| 0 <= i < one.len() implies one[i].text@ != entry@ by {
            if one[i].text@ == entry@ {
                assert(allow.push(entry)[allow.len() as int]@ == one[i].text@);
                assert(in_allowlist(allow.push(entry), one[i].text@));
            }
        }
        assert forall|i: int| 0 <= i < whole.len() implies whole[i].text@ != entry@ by {
            if i < prefix.len() {
                assert(whole[i] == prefix[i]);
            } else {
                assert(whole[i] == one[i - prefix.len()]);
            }
        }
    }
}

/// Direction-flip law: for a name whose first character is definitively
/// upper or lower case, flipping the direction inverts whether it is a
/// violation.
pub proof fn lemma_direction_flip(name: Seq<char>)
    requires
        name.len() > 0,
        char_is_uppercase(name[0]) != char_is_lowercase(name[0]),
    ensures
        wrong_casing(name, true) != wrong_casing(name, false),
{
}

/// Rename law: the corrected name changes only the case-converted prefix;
/// everything after that prefix is the name's own remainder, unchanged.
pub proof fn lemma_corrected_preserves_remainder(name: Seq<char>, use_uppercase: bool)
    requires
        name.len() > 0,
    ensures
        corrected(name, use_uppercase).skip(
            case_mapping(name[0], use_uppercase).len() as int,
        ) =~= name.skip(1),
{
}

} // verus!
