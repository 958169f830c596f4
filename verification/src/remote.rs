//! The remote client's reading of an answer: which answers carry a document
//! and which are failures, before anything is decoded.
use crate::error::GuideError;
use vstd::prelude::*;

verus! {

/// The three things that can be asked of the server.
#[derive(Debug, Clone, Copy, PartialEq, Eq, Structural)]
pub enum Endpoint {
    /// The list of catalogue entries.
    Catalog,
    /// One guide, by its id.
    Guide,
    /// The almanax record of one date.
    Almanax,
}

/// The verdict on an answer with the status code `status`, or on none at all
/// where the server was not reached. A code from 200 to 299 carries a
/// document. The code 404 to a request for one guide says that the server
/// does not know the id. Every other answer, and none, is a failure of the
/// transport.
pub open spec fn verdict(endpoint: Endpoint, status: Option<u16>) -> Result<(), GuideError> {
    match status {
        None => Err(GuideError::Network),
        Some(code) => if 200 <= code < 300 {
            Ok(())
        } else if code == 404 && endpoint == Endpoint::Guide {
            Err(GuideError::NotFound)
        } else {
            Err(GuideError::Network)
        },
    }
}

/// Reads the status of an answer; `None` stands for a request that got no
/// answer. `Ok` means that the body is to be decoded, and a body that cannot
/// be is a `Decode` failure of its own.
pub fn check_response(endpoint: Endpoint, status: Option<u16>) -> (r: Result<(), GuideError>)
    ensures
        r == verdict(endpoint, status),
{
    match status {
        None => Err(GuideError::Network),
        Some(code) => {
            if 200 <= code && code < 300 {
                Ok(())
            } else if code == 404 && endpoint == Endpoint::Guide {
                Err(GuideError::NotFound)
            } else {
                Err(GuideError::Network)
            }
        },
    }
}

} // verus!
