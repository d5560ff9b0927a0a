//! The errors that the client reports.

use vstd::prelude::*;
use vstd::std_specs::convert::FromSpecImpl;
use crate::response::{DRACOONErrorResponse, DRACOONErrorResponseView};

verus! {

/// `reqwest::Error`, the transport's own error. Nothing is known of its
/// content; the client only carries it to its caller.
#[verifier::external_type_specification]
#[verifier::external_body]
pub struct ExTransportError(reqwest::Error);

/// Why an operation of the client failed.
#[derive(Debug)]
pub enum DRACOONClientError {
    /// The transport failed to send a request or to decode a response.
    RequestFailed(reqwest::Error),
    /// Reserved for flows whose parameters were not supplied.
    MissingArguments,
    /// The operation needs a connection and the client holds none, or the
    /// provider's answer did not have the expected form.
    BrokenConnection,
    /// The provider answered with a structured error.
    DRACOONErrror(DRACOONErrorResponse),
}

/// Mathematical content of a [`DRACOONClientError`].
pub enum DRACOONClientErrorView {
    RequestFailed(reqwest::Error),
    MissingArguments,
    BrokenConnection,
    DRACOONErrror(DRACOONErrorResponseView),
}

impl View for DRACOONClientError {
    type V = DRACOONClientErrorView;

    open spec fn view(&self) -> DRACOONClientErrorView {
        match self {
            DRACOONClientError::RequestFailed(e) => DRACOONClientErrorView::RequestFailed(*e),
            DRACOONClientError::MissingArguments => DRACOONClientErrorView::MissingArguments,
            DRACOONClientError::BrokenConnection => DRACOONClientErrorView::BrokenConnection,
            DRACOONClientError::DRACOONErrror(e) => DRACOONClientErrorView::DRACOONErrror(e@),
        }
    }
}

impl From<reqwest::Error> for DRACOONClientError {
    fn from(error: reqwest::Error) -> (r: DRACOONClientError)
    {
        DRACOONClientError::RequestFailed(error)
    }
}

impl FromSpecImpl<reqwest::Error> for DRACOONClientError {
    open spec fn obeys_from_spec() -> bool {
        true
    }

    open spec fn from_spec(error: reqwest::Error) -> DRACOONClientError {
        DRACOONClientError::RequestFailed(error)
    }
}

} // verus!
