//! The envelope of administrative responses.

use vstd::prelude::*;

verus! {

/// Either data or an error message, with a success flag.
#[derive(Debug)]
pub struct ApiResponse<T> {
    pub success: bool,
    pub data: Option<T>,
    pub error: Option<String>,
}

impl<T> ApiResponse<T> {
    /// A successful response carrying `data`.
    pub fn success(data: T) -> (r: ApiResponse<T>)
        ensures
            r.success,
            r.data == Some(data),
            r.error is None,
    {
        ApiResponse { success: true, data: Some(data), error: None }
    }

    /// A failed response carrying `msg`.
    pub fn error(msg: String) -> (r: ApiResponse<T>)
        ensures
            !r.success,
            r.data is None,
            r.error == Some(msg),
    {
        ApiResponse { success: false, data: None, error: Some(msg) }
    }
}

} // verus!
