//! The closed error taxonomy of the client, and the classifier that maps
//! transport status codes into it.

use crate::constants::Region;
use vstd::prelude::*;

verus! {

/// Every way a dispatch can fail: construction errors (a missing or
/// malformed credential), URL-formation errors, transport failures,
/// the classified protocol errors of the status table, and decoding
/// errors.  A value is created per failed dispatch and handed straight
/// back to the caller; nothing is retried or suppressed.
#[derive(Debug, PartialEq, Eq)]
pub enum ClientError {
    /// Status 400.
    BadRequest,
    /// Status 401.
    Unauthorized,
    /// Status 403.
    Forbidden,
    /// Status 404.
    DataNotFound,
    /// Status 405.
    MethodNotAllowed,
    /// Status 415.
    UnsupportedMediaType,
    /// Status 429.  The limit is always reported as 0: the response
    /// headers that would carry the real value are not parsed.
    RateLimitExceeded { limit: usize },
    /// Status 500.
    InternalServerError,
    /// Status 502.
    BadGateway,
    /// Status 503, carrying the region the request was bound to.
    ServiceUnavailable { region: Region },
    /// Status 504.
    GatewayTimeout,
    /// The request identity could not be formed into a URL.
    UrlNotParsed,
    /// A credential token of the wrong shape was supplied at construction.
    WrongToken { token: String },
    /// No credential token was supplied at construction.
    NoToken,
    /// A response body (fresh or cached) did not decode as JSON.
    Decode,
    /// The embedded static-data client was asked for before it was set up.
    DdragonNotConfigured,
    /// A transport-level failure, carrying the underlying cause.
    Other { cause: String },
}

/// The fixed status-to-outcome table: the error a status code classifies
/// to, or `None` for every code (the 2xx range included) that the caller
/// should treat as success and go on to parse the body of.
pub open spec fn classified_error(code: u16, region: Region) -> Option<ClientError> {
    if code == 400 {
        Some(ClientError::BadRequest)
    } else if code == 401 {
        Some(ClientError::Unauthorized)
    } else if code == 403 {
        Some(ClientError::Forbidden)
    } else if code == 404 {
        Some(ClientError::DataNotFound)
    } else if code == 405 {
        Some(ClientError::MethodNotAllowed)
    } else if code == 415 {
        Some(ClientError::UnsupportedMediaType)
    } else if code == 429 {
        Some(ClientError::RateLimitExceeded { limit: 0 })
    } else if code == 500 {
        Some(ClientError::InternalServerError)
    } else if code == 502 {
        Some(ClientError::BadGateway)
    } else if code == 503 {
        Some(ClientError::ServiceUnavailable { region })
    } else if code == 504 {
        Some(ClientError::GatewayTimeout)
    } else {
        None
    }
}

impl ClientError {
    /// Classifies a status code: `Ok` exactly for the codes the table
    /// treats as success, and otherwise the table's outcome, with the
    /// requesting region carried on a service-unavailable outcome.
    pub fn check_status(region: Region, code: u16) -> (r: Result<(), ClientError>)
        ensures
            classified_error(code, region) is None ==> r == Ok::<(), ClientError>(()),
            r is Ok <==> classified_error(code, region) is None,
            r matches Err(e) ==> classified_error(code, region) == Some(e),
    {
        match code {
            400 => Err(ClientError::BadRequest),
            401 => Err(ClientError::Unauthorized),
            403 => Err(ClientError::Forbidden),
            404 => Err(ClientError::DataNotFound),
            405 => Err(ClientError::MethodNotAllowed),
            415 => Err(ClientError::UnsupportedMediaType),
            429 => Err(ClientError::RateLimitExceeded { limit: 0 }),
            500 => Err(ClientError::InternalServerError),
            502 => Err(ClientError::BadGateway),
            503 => Err(ClientError::ServiceUnavailable { region }),
            504 => Err(ClientError::GatewayTimeout),
            _ => Ok(()),
        }
    }
}

} // verus!
