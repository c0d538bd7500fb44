//! The envelope in which every HTTP answer travels: `{payload, error}`.
use vstd::prelude::*;
use crate::error::AcmError;

verus! {

/// An answer to a client: a payload on success, an error otherwise.
pub struct Response<T> {
    pub payload: Option<T>,
    pub error: Option<AcmError>,
}

impl<T> Response<T> {
    /// The answer that carries `payload`.
    pub fn from_payload(payload: T) -> (r: Response<T>)
        ensures
            r.payload == Some(payload),
            r.error is None,
    {
        Response { payload: Some(payload), error: None }
    }

    /// The answer that carries `error`.
    pub fn from_error(error: AcmError) -> (r: Response<T>)
        ensures
            r.payload is None,
            r.error == Some(error),
    {
        Response { payload: None, error: Some(error) }
    }

    /// The answer for the outcome of an operation.
    pub fn from_result(result: Result<T, AcmError>) -> (r: Response<T>)
        ensures
            result matches Ok(p) ==> r.payload == Some(p) && r.error is None,
            result matches Err(e) ==> r.payload is None && r.error == Some(e),
    {
        match result {
            Ok(p) => Response::from_payload(p),
            Err(e) => Response::from_error(e),
        }
    }

    /// The HTTP status of the answer: 200 with a payload, the error's own
    /// status otherwise.
    pub fn status(&self) -> (r: u16)
        ensures
            self.error matches Some(e) ==> r == crate::error::status_of(e.kind),
            self.error is None ==> r == 200,
    {
        match &self.error {
            Some(e) => e.http_code(),
            None => 200,
        }
    }
}

} // verus!
