use vstd::prelude::*;

verus! {

/// `std::io::Error`, carried through as it is.
#[verifier::external_type_specification]
#[verifier::external_body]
pub struct ExIoError(std::io::Error);

/// `curl::Error`, carried through as it is.
#[verifier::external_type_specification]
#[verifier::external_body]
pub struct ExCurlError(curl::Error);

/// The `Debug` text of a `std::io::Error` (its `Debug` impl, through `format!`).
/// Nothing is claimed of the text: std's documentation does not describe it.
#[verifier::external_body]
pub(crate) fn io_error_debug(error: &std::io::Error) -> String {
    format!("{:?}", error)
}

/// The shape of the `Debug` text of a `curl::Error`: curl writes it with
/// `debug_struct("Error")` and the field `description` first.
pub open spec fn curl_error_debug_shape(text: Seq<char>) -> bool {
    &&& "Error { description: \""@.is_prefix_of(text)
    &&& " }"@.is_suffix_of(text)
}

/// The shape of the `Debug` text of a `curl::MultiError`: curl writes it
/// with `debug_struct("MultiError")` and the field `description` first.
pub open spec fn multi_error_debug_shape(text: Seq<char>) -> bool {
    &&& "MultiError { description: \""@.is_prefix_of(text)
    &&& " }"@.is_suffix_of(text)
}

/// The `Debug` text of a `curl::Error` (curl's `Debug` impl, through
/// `format!`). Claimed: the text has the shape that curl's `debug_struct`
/// gives it; what the description, code and extra text say is not claimed.
#[verifier::external_body]
pub(crate) fn curl_error_debug(error: &curl::Error) -> (text: String)
    ensures
        curl_error_debug_shape(text@),
{
    format!("{:?}", error)
}


/// `curl::MultiError`, carried through as it is.
#[verifier::external_type_specification]
#[verifier::external_body]
pub struct ExMultiError(curl::MultiError);

/// The `Debug` text of a `curl::MultiError` (curl's `Debug` impl, through
/// `format!`). Claimed: the text has the shape that curl's `debug_struct`
/// gives it; what the description and code say is not claimed.
#[verifier::external_body]
pub(crate) fn multi_error_debug(error: &curl::MultiError) -> (text: String)
    ensures
        multi_error_debug_shape(text@),
{
    format!("{:?}", error)
}

} // verus!
