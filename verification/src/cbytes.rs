//! Byte strings in the form that the platform's calls take.

use crate::error::FsError;
use crate::scan::{find, find_byte, lemma_find};
use vstd::prelude::*;
use vstd::slice::{slice_subrange, slice_to_vec};

verus! {

/// An owned byte string in native form: its bytes, none of them NUL, followed
/// by one NUL byte. Its view is the bytes without the NUL that ends them.
pub struct CBytes {
    bytes: Vec<u8>,
}

impl View for CBytes {
    type V = Seq<u8>;

    closed spec fn view(&self) -> Seq<u8> {
        self.bytes@.drop_last()
    }
}

/// What stands in `field` before its first NUL byte; all of it where it holds none.
pub open spec fn until_nul(field: Seq<u8>) -> Seq<u8> {
    field.take(find(field, 0u8))
}

/// Nothing in `until_nul(field)` is NUL.
pub proof fn lemma_until_nul(field: Seq<u8>)
    ensures
        !until_nul(field).contains(0u8),
        until_nul(field).len() <= field.len(),
        !field.contains(0u8) ==> until_nul(field) == field,
{
    lemma_find(field, 0u8);
    let n = find(field, 0u8);
    if !field.contains(0u8) {
        if n < field.len() {
            assert(field[n] == 0u8);
        }
        assert(field.take(n) =~= field);
    }
}

impl CBytes {
    #[verifier::type_invariant]
    spec fn well_formed(self) -> bool {
        &&& self.bytes@.len() > 0
        &&& self.bytes@.last() == 0u8
        &&& !self.bytes@.drop_last().contains(0u8)
    }

    /// Copies what stands in `field` before its first NUL byte, as the platform
    /// reads a name out of a field that it has ended with NUL.
    pub fn from_field(field: &[u8]) -> (name: CBytes)
        ensures
            name@ == until_nul(field@),
    {
        let n = find_byte(field, 0);
        let mut bytes = slice_to_vec(slice_subrange(field, 0, n));
        proof {
            lemma_until_nul(field@);
            assert(bytes@ =~= until_nul(field@));
        }
        bytes.push(0);
        proof {
            assert(bytes@.drop_last() =~= until_nul(field@));
        }
        CBytes { bytes }
    }

    /// The bytes, without the NUL that ends them.
    pub fn to_bytes(&self) -> (bytes: &[u8])
        ensures
            bytes@ == self@,
            !bytes@.contains(0u8),
    {
        proof {
            use_type_invariant(self);
        }
        let all = self.bytes.as_slice();
        let bytes = slice_subrange(all, 0, all.len() - 1);
        proof {
            assert(bytes@ =~= self.bytes@.drop_last());
        }
        bytes
    }

    /// The bytes and the NUL that ends them: what a platform call is handed.
    pub fn to_bytes_with_nul(&self) -> (bytes: &[u8])
        ensures
            bytes@ == self@.push(0u8),
    {
        proof {
            use_type_invariant(self);
            assert(self.bytes@ =~= self.bytes@.drop_last().push(0u8));
        }
        self.bytes.as_slice()
    }
}

/// Puts a path into native form. A path that holds a NUL byte has none.
pub fn cstr(path: &[u8]) -> (native: Result<CBytes, FsError>)
    ensures
        match native {
            Ok(bytes) => !path@.contains(0u8) && bytes@ == path@,
            Err(e) => path@.contains(0u8) && e == FsError::InvalidPath,
        },
{
    let n = find_byte(path, 0);
    proof {
        lemma_find(path@, 0u8);
        lemma_until_nul(path@);
    }
    if n < path.len() {
        Err(FsError::InvalidPath)
    } else {
        assert(!path@.contains(0u8));
        Ok(CBytes::from_field(path))
    }
}

} // verus!
