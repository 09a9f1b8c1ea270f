use vstd::prelude::*;
use crate::cstr::has_no_nul;

verus! {

/// Checks that a string can be turned into a C string by appending a nul byte: it must not
/// contain a nul byte itself. Strings holding a nul byte are outside the domain.
pub fn validate_cstr_contents(bytes: &[u8])
    requires
        has_no_nul(bytes@),
{
    crate::cstr::validate_cstr_contents(bytes)
}

} // verus!
