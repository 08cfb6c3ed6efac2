use vstd::prelude::*;

verus! {

/// The two ways a lookup can fail.
#[derive(Debug, Clone, Copy, PartialEq, Eq, Structural)]
pub enum RequestError {
    /// No reply could be obtained from the service.
    RequestError,
    /// The reply body does not have the shape of the requested record.
    ResultParseError,
}

impl RequestError {
    /// The short name of the error.
    pub fn name(&self) -> (r: &'static str)
        ensures
            r@ == (match self {
                RequestError::RequestError => "RequestError"@,
                RequestError::ResultParseError => "ResultParseError"@,
            }),
    {
        match self {
            RequestError::RequestError => "RequestError",
            RequestError::ResultParseError => "ResultParseError",
        }
    }

    /// A sentence that describes the error.
    pub fn description(&self) -> (r: &'static str)
        ensures
            r@ == (match self {
                RequestError::RequestError => "WordAPI request failed"@,
                RequestError::ResultParseError => "Could not parse result"@,
            }),
    {
        match self {
            RequestError::RequestError => "WordAPI request failed",
            RequestError::ResultParseError => "Could not parse result",
        }
    }
}

} // verus!
