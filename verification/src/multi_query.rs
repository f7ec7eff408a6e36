//! The checks that multi-queries and their sub-queries make on their
//! arguments before handing them to the C interface.
use vstd::prelude::*;

use crate::error::{all_c_compatible, same_texts, to_cstrings, Error, ErrorCode};

verus! {

/// Whether a result is the `InvalidArgument` error with the given message.
pub open spec fn is_invalid_argument_with(r: Result<(), Error>, message: Seq<char>) -> bool {
    r matches Err(e) && e.code == ErrorCode::InvalidArgument && e.message@ == message
}

fn invalid_argument(message: &str) -> (r: Result<(), Error>)
    ensures
        is_invalid_argument_with(r, message@),
{
    Err(Error { code: ErrorCode::InvalidArgument, message: String::from_str(message) })
}

/// Checks the length of a dense query vector for a sub-query: it may not be
/// empty ("query vector cannot be empty").
pub fn check_query_vector_len(len: usize) -> (r: Result<(), Error>)
    ensures
        r is Ok <==> len > 0,
        len == 0 ==> is_invalid_argument_with(r, "query vector cannot be empty"@),
{
    if len == 0 {
        return invalid_argument("query vector cannot be empty");
    }
    Ok(())
}

/// Checks the lengths of the indices and the values of a sparse query vector:
/// they must be equal ("indices and values must have the same length"), and
/// then not zero ("sparse vector cannot be empty").
pub fn check_sparse_vector_lens(indices_len: usize, values_len: usize) -> (r: Result<(), Error>)
    ensures
        r is Ok <==> indices_len == values_len && indices_len > 0,
        indices_len != values_len ==> is_invalid_argument_with(
            r,
            "indices and values must have the same length"@,
        ),
        indices_len == values_len && indices_len == 0 ==> is_invalid_argument_with(
            r,
            "sparse vector cannot be empty"@,
        ),
{
    if indices_len != values_len {
        return invalid_argument("indices and values must have the same length");
    }
    if indices_len == 0 {
        return invalid_argument("sparse vector cannot be empty");
    }
    Ok(())
}

/// Checks the number of weights of a weighted rerank: there must be at least
/// one ("weights cannot be empty").
pub fn check_rerank_weights_len(len: usize) -> (r: Result<(), Error>)
    ensures
        r is Ok <==> len > 0,
        len == 0 ==> is_invalid_argument_with(r, "weights cannot be empty"@),
{
    if len == 0 {
        return invalid_argument("weights cannot be empty");
    }
    Ok(())
}

/// The output fields a multi-query hands to the C interface.
///
/// An empty list changes nothing (`Ok(None)`: no call is made). Otherwise the
/// fields are checked as C strings, all or nothing: `Ok(Some(..))` with
/// copies of every field, in order, when none holds a null character.
pub fn output_field_list(fields: &[&str]) -> (r: Result<Option<Vec<String>>, Error>)
    ensures
        fields@.len() == 0 ==> r == Ok::<Option<Vec<String>>, Error>(None),
        fields@.len() > 0 ==> (r is Ok <==> all_c_compatible(fields@)),
        r matches Ok(o) ==> (o is Some <==> fields@.len() > 0),
        r matches Ok(Some(v)) ==> fields@.len() > 0 && same_texts(v@, fields@),
        r matches Err(e) ==> crate::error::is_null_byte_error(e),
{
    if fields.len() == 0 {
        return Ok(None);
    }
    match to_cstrings(fields) {
        Ok(v) => Ok(Some(v)),
        Err(e) => Err(e),
    }
}

} // verus!
