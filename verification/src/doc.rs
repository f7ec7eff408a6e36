//! How the stored value of a document field is read back.
use vstd::prelude::*;

use crate::error::{Error, ErrorCode};

verus! {

/// The message of the error for a stored vector whose size in bytes is not a
/// multiple of its element size.
pub open spec fn misaligned_message(element_name: Seq<char>) -> Seq<char> {
    "vector data size is not aligned to "@ + element_name
}

/// Returns how many elements of `element_size` bytes a stored field value of
/// `value_size` bytes holds.
///
/// A missing value (null pointer) or an empty one holds none. A size that is
/// not a multiple of the element size gives an `InternalError`
/// ("vector data size is not aligned to <element name>").
pub fn stored_element_count(
    value_is_null: bool,
    value_size: usize,
    element_size: usize,
    element_name: &str,
) -> (r: Result<usize, Error>)
    requires
        element_size > 0,
    ensures
        value_is_null || value_size == 0 ==> r == Ok::<usize, Error>(0),
        !(value_is_null || value_size == 0) ==> (r is Ok <==> value_size % element_size == 0),
        r matches Ok(n) ==> !(value_is_null || value_size == 0) ==> n == value_size
            / element_size,
        r matches Err(e) ==> e.code == ErrorCode::InternalError && e.message@
            == misaligned_message(element_name@),
{
    if value_is_null || value_size == 0 {
        return Ok(0);
    }
    if value_size % element_size != 0 {
        let message = String::from_str("vector data size is not aligned to ").concat(element_name);
        return Err(Error { code: ErrorCode::InternalError, message });
    }
    Ok(value_size / element_size)
}

} // verus!
