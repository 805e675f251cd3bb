//! The errors that the core reports, each with the detail a caller needs to
//! render a precise message.

use vstd::prelude::*;

verus! {

/// Why an operation of the core failed.
#[derive(Debug, Clone, PartialEq, Eq)]
pub enum CoreError {
    /// No cluster is registered under `identifier`.
    ClusterNotFound { identifier: String },
    /// A command named no cluster and there is no active one to fall back on.
    EmptyTarget,
    /// A cluster refers to a cloud organization that is not registered.
    OrganizationNotFound { identifier: String },
    /// The addressed cluster holds no bucket called `name`.
    BucketNotFound { name: String },
    /// The request asks for something that the addressed cluster cannot do.
    CapabilityConflict { reason: String },
    /// `value` is not acceptable for `field`; `allowed` says what is.
    ParseError { field: String, value: String, allowed: String },
    /// A response body could not be decoded.
    DeserializeError { detail: String },
    /// A request body could not be encoded.
    SerializeError { detail: String },
    /// The server answered with a status code other than 200, 201 or 202.
    UnexpectedStatusCode { code: u16, body: String },
    /// The request did not complete: the network failed or the deadline passed.
    TransportError { detail: String },
    /// The request was cancelled from outside.
    Cancelled,
    /// A condition that fits none of the above.
    Generic { message: String, help: Option<String> },
}

/// The mathematical content of an [`CoreError`].
pub enum CoreErrorView {
    ClusterNotFound { identifier: Seq<char> },
    EmptyTarget,
    OrganizationNotFound { identifier: Seq<char> },
    BucketNotFound { name: Seq<char> },
    CapabilityConflict { reason: Seq<char> },
    ParseError { field: Seq<char>, value: Seq<char>, allowed: Seq<char> },
    DeserializeError { detail: Seq<char> },
    SerializeError { detail: Seq<char> },
    UnexpectedStatusCode { code: u16, body: Seq<char> },
    TransportError { detail: Seq<char> },
    Cancelled,
    Generic { message: Seq<char>, help: Option<Seq<char>> },
}

impl View for CoreError {
    type V = CoreErrorView;

    open spec fn view(&self) -> CoreErrorView {
        match self {
            CoreError::ClusterNotFound { identifier } => CoreErrorView::ClusterNotFound {
                identifier: identifier@,
            },
            CoreError::EmptyTarget => CoreErrorView::EmptyTarget,
            CoreError::OrganizationNotFound { identifier } => CoreErrorView::OrganizationNotFound {
                identifier: identifier@,
            },
            CoreError::BucketNotFound { name } => CoreErrorView::BucketNotFound { name: name@ },
            CoreError::CapabilityConflict { reason } => CoreErrorView::CapabilityConflict {
                reason: reason@,
            },
            CoreError::ParseError { field, value, allowed } => CoreErrorView::ParseError {
                field: field@,
                value: value@,
                allowed: allowed@,
            },
            CoreError::DeserializeError { detail } => CoreErrorView::DeserializeError { detail: detail@ },
            CoreError::SerializeError { detail } => CoreErrorView::SerializeError { detail: detail@ },
            CoreError::UnexpectedStatusCode { code, body } => CoreErrorView::UnexpectedStatusCode {
                code: *code,
                body: body@,
            },
            CoreError::TransportError { detail } => CoreErrorView::TransportError { detail: detail@ },
            CoreError::Cancelled => CoreErrorView::Cancelled,
            CoreError::Generic { message, help } => CoreErrorView::Generic {
                message: message@,
                help: match help {
                    Some(h) => Some(h@),
                    None => None,
                },
            },
        }
    }
}

impl DeepView for CoreError {
    type V = CoreErrorView;

    open spec fn deep_view(&self) -> CoreErrorView {
        self@
    }
}

/// The content of a result whose error is an [`CoreError`].
pub open spec fn result_view<T: View>(r: Result<T, CoreError>) -> Result<T::V, CoreErrorView> {
    match r {
        Ok(v) => Ok(v@),
        Err(e) => Err(e@),
    }
}

impl CoreError {
    /// Copies the error.
    pub fn duplicate(&self) -> (copy: CoreError)
        ensures
            copy@ == self@,
    {
        match self {
            CoreError::ClusterNotFound { identifier } => CoreError::ClusterNotFound {
                identifier: identifier.clone(),
            },
            CoreError::EmptyTarget => CoreError::EmptyTarget,
            CoreError::OrganizationNotFound { identifier } => CoreError::OrganizationNotFound {
                identifier: identifier.clone(),
            },
            CoreError::BucketNotFound { name } => CoreError::BucketNotFound { name: name.clone() },
            CoreError::CapabilityConflict { reason } => CoreError::CapabilityConflict {
                reason: reason.clone(),
            },
            CoreError::ParseError { field, value, allowed } => CoreError::ParseError {
                field: field.clone(),
                value: value.clone(),
                allowed: allowed.clone(),
            },
            CoreError::DeserializeError { detail } => CoreError::DeserializeError {
                detail: detail.clone(),
            },
            CoreError::SerializeError { detail } => CoreError::SerializeError { detail: detail.clone() },
            CoreError::UnexpectedStatusCode { code, body } => CoreError::UnexpectedStatusCode {
                code: *code,
                body: body.clone(),
            },
            CoreError::TransportError { detail } => CoreError::TransportError { detail: detail.clone() },
            CoreError::Cancelled => CoreError::Cancelled,
            CoreError::Generic { message, help } => CoreError::Generic {
                message: message.clone(),
                help: match help {
                    Some(h) => Some(h.clone()),
                    None => None,
                },
            },
        }
    }
}

} // verus!
