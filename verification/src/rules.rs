//! Validity rules for the path-filter arrays of a repo file.
//!
//! A rule array either names single paths (a lone path is acceptable) or
//! path/rename pairs (a lone element can never be a pair), so an array is
//! valid exactly when it has length one and a single element is allowed,
//! or an even length of at least two.

use vstd::prelude::*;

verus! {

/// A rule array of length `len` is valid: either a permitted single
/// element, or a non-empty array of pairs.
pub open spec fn rule_array_valid(len: nat, can_be_single: bool) -> bool {
    (len == 1 && can_be_single) || (len >= 2 && len % 2 == 0)
}

/// Decides whether one rule array is valid.
pub fn inclusion_var_valid(var: &Vec<String>, can_be_single: bool) -> (r: bool)
    ensures
        r == rule_array_valid(var@.len(), can_be_single),
{
    let vlen: usize = var.len();
    if vlen == 1 && can_be_single {
        return true;
    }
    if vlen >= 1 && vlen % 2 == 0 {
        return true;
    }
    false
}

/// Checks an optional rule array; an absent array is always acceptable.
/// On an invalid array the caller receives the offending variable's name
/// back, to report before aborting.
pub fn panic_if_array_invalid<'a>(
    var: &Option<Vec<String>>,
    can_be_single: bool,
    varname: &'a str,
) -> (r: Result<(), &'a str>)
    ensures
        r is Ok <==> (var matches Some(v) ==> rule_array_valid(v@.len(), can_be_single)),
        r matches Err(name) ==> name@ == varname@,
{
    match var {
        Some(v) => {
            if inclusion_var_valid(v, can_be_single) {
                Ok(())
            } else {
                Err(varname)
            }
        },
        None => Ok(()),
    }
}

/// An even length of at least two is valid whether or not a single element
/// would be allowed; length one is valid exactly when one is; length zero
/// and odd lengths above one are never valid.
pub proof fn lemma_rule_array_validity_cases(len: nat, can_be_single: bool)
    ensures
        len >= 2 && len % 2 == 0 ==> rule_array_valid(len, true) && rule_array_valid(len, false),
        len == 1 ==> rule_array_valid(len, can_be_single) == can_be_single,
        len == 0 || (len >= 3 && len % 2 == 1) ==> !rule_array_valid(len, can_be_single),
{
}

} // verus!
