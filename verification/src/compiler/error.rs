//! Why a module cannot be encoded.

use vstd::prelude::*;

verus! {

/// The reasons for which the encoder rejects a module.
#[derive(Debug, PartialEq, Eq, Clone, Copy)]
pub enum EncodeError {
    /// A function names no type of the module or an export no function of
    /// it, or a type index, function index or local index does not fit the
    /// single byte that the format gives it.
    InvalidIndex,
    /// A count or a byte length exceeds what its field in the format holds.
    CountOverflow,
}

} // verus!
