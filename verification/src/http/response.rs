//! Writing a response out for reading.
use vstd::prelude::*;
use crate::models::response::{response_text, Response};

verus! {

/// The response written out for reading.
pub fn format_response(response: &Response) -> (s: String)
    ensures
        s@ == response_text(*response),
{
    response.format()
}

} // verus!
