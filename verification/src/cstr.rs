use vstd::prelude::*;

verus! {

/// No byte of `bytes` is a nul byte.
pub open spec fn has_no_nul(bytes: Seq<u8>) -> bool {
    forall|i: int| 0 <= i < bytes.len() ==> bytes[i] != 0
}

/// `pos` is the position of the first occurrence of `needle` in `haystack`.
pub open spec fn is_first_occurrence(needle: u8, haystack: Seq<u8>, pos: int) -> bool {
    &&& 0 <= pos < haystack.len()
    &&& haystack[pos] == needle
    &&& forall|j: int| 0 <= j < pos ==> haystack[j] != needle
}

/// Checks that a string can be turned into a C string by appending a nul byte: it must not
/// contain a nul byte itself. Strings holding a nul byte are outside the domain.
pub fn validate_cstr_contents(bytes: &[u8])
    requires
        has_no_nul(bytes@),
{
    let mut i: usize = 0;
    while i < bytes.len()
        invariant
            i <= bytes@.len(),
            has_no_nul(bytes@),
        decreases bytes@.len() - i,
    {
        assert(bytes[i as int] != 0);
        i += 1;
    }
}

/// `memchr::memchr`: the position of the first occurrence of `needle` in `haystack`, if any.
///
/// The contract restates the crate's documentation: an index that comes back is that of the first
/// byte equal to `needle`, and `None` comes back exactly when no byte equals it.
#[verifier::external_body]
fn memchr_first(needle: u8, haystack: &[u8]) -> (res: Option<usize>)
    ensures
        match res {
            Some(pos) => is_first_occurrence(needle, haystack@, pos as int),
            None => forall|j: int| 0 <= j < haystack@.len() ==> haystack@[j] != needle,
        },
{
    memchr::memchr(needle, haystack)
}

/// An error indicating that no nul byte was present.
///
/// A byte slice used to create a C string must contain a nul byte somewhere within the slice.
#[derive(Clone, Copy, PartialEq, Eq, Debug)]
pub struct FromBytesUntilNulError(());

impl FromBytesUntilNulError {
    /// The error's message.
    pub fn message(&self) -> (res: &'static str)
        ensures
            res@ == "data provided does not contain a nul"@,
    {
        "data provided does not contain a nul"
    }
}

/// Returns the bytes of the C string at the start of `bytes`: everything up to and including the
/// first nul byte.
///
/// If the first byte is a nul character, the result holds just that byte. If multiple nul
/// characters are present, the string ends at the first one.
pub fn cstr_from_bytes_until_nul(bytes: &[u8]) -> (res: Result<&[u8], FromBytesUntilNulError>)
    ensures
        match res {
            Ok(s) => exists|pos: int|
                is_first_occurrence(0, bytes@, pos) && s@ == bytes@.subrange(0, pos + 1),
            Err(_) => has_no_nul(bytes@),
        },
{
    let nul_pos = memchr_first(0, bytes);
    match nul_pos {
        Some(nul_pos) => {
            let len = bytes.len();
            assert(nul_pos < len);
            let subslice = vstd::slice::slice_subrange(bytes, 0, nul_pos + 1);
            Ok(subslice)
        },
        None => Err(FromBytesUntilNulError(())),
    }
}

} // verus!
