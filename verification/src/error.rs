//! The ways in which decoding or a pull on a cursor can fail.

use crate::tree_search::KeyType;
use vstd::prelude::*;

verus! {

/// `nix::errno::Errno`, the code with which a system call failed. The library
/// never looks inside one: it hands the value on to its caller.
#[verifier::external_type_specification]
#[verifier::external_body]
pub struct ExErrno(nix::errno::Errno);

/// A value found in a page that lies outside the vocabulary of the format.
#[derive(Clone, Copy, Debug, PartialEq, Eq)]
pub enum Violation {
    /// A kind tag that no record kind carries.
    Kind(u32),
    /// A file type of a directory entry that is neither a file type nor the
    /// mark of an extended attribute.
    FileType(u8),
    /// An extent type other than inline, regular and preallocated.
    ExtentType(u8),
    /// A compression kind other than the four known ones.
    Compression(u8),
    /// Block group flags with a bit set that has no meaning.
    BlockGroupFlags(u64),
    /// A reference count of a root other than zero and one.
    RootRefs(u32),
    /// The seconds and nanoseconds of a time whose nanoseconds carry the
    /// seconds beyond the largest value.
    Time(u64, u32),
    /// A region that would reach past the end of the bytes at hand.
    Truncated,
}

/// Why a pull produced no record.
#[derive(Clone, Copy, Debug, PartialEq, Eq)]
pub enum Error {
    /// The page request itself failed with this code.
    Call(nix::errno::Errno),
    /// The page holds a value outside the closed vocabulary.
    Schema(Violation),
    /// The record is of a kind that is known but has no decoder.
    Unsupported(KeyType),
}

/// The result `r` with its success value replaced by the view of that value.
pub open spec fn view_result<T: View, E>(r: Result<T, E>) -> Result<T::V, E> {
    match r {
        Ok(t) => Ok(t@),
        Err(e) => Err(e),
    }
}

} // verus!
