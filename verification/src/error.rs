use vstd::prelude::*;

use crate::payment::{payment_type_name, PaymentType};
use crate::text::{concat2, concat3, decimal, u64_to_decimal};

verus! {

/// Why a payment operation failed.
///
/// Failures that come from the transport or the clock carry the text that
/// the failing component reported.
#[derive(Debug, Clone)]
pub enum PaymentProviderError {
    NotConfigured(PaymentType),
    InvalidAmount(u32),
    AuthenticationFailed,
    Timeout,
    ProviderUnavailable,
    RequestFailed(String),
    NetworkError(String),
    Request(String),
    UnsupportedOperation(String),
    TimeError(String),
    ReadLockError(String),
    WriteLockError(String),
}

/// The mathematical content of a [`PaymentProviderError`].
pub enum ProviderErrorView {
    NotConfigured(PaymentType),
    InvalidAmount(u32),
    AuthenticationFailed,
    Timeout,
    ProviderUnavailable,
    RequestFailed(Seq<char>),
    NetworkError(Seq<char>),
    Request(Seq<char>),
    UnsupportedOperation(Seq<char>),
    TimeError(Seq<char>),
    ReadLockError(Seq<char>),
    WriteLockError(Seq<char>),
}

impl View for PaymentProviderError {
    type V = ProviderErrorView;

    open spec fn view(&self) -> ProviderErrorView {
        match self {
            PaymentProviderError::NotConfigured(t) => ProviderErrorView::NotConfigured(*t),
            PaymentProviderError::InvalidAmount(a) => ProviderErrorView::InvalidAmount(*a),
            PaymentProviderError::AuthenticationFailed => ProviderErrorView::AuthenticationFailed,
            PaymentProviderError::Timeout => ProviderErrorView::Timeout,
            PaymentProviderError::ProviderUnavailable => ProviderErrorView::ProviderUnavailable,
            PaymentProviderError::RequestFailed(s) => ProviderErrorView::RequestFailed(s@),
            PaymentProviderError::NetworkError(s) => ProviderErrorView::NetworkError(s@),
            PaymentProviderError::Request(s) => ProviderErrorView::Request(s@),
            PaymentProviderError::UnsupportedOperation(s) => ProviderErrorView::UnsupportedOperation(
                s@,
            ),
            PaymentProviderError::TimeError(s) => ProviderErrorView::TimeError(s@),
            PaymentProviderError::ReadLockError(s) => ProviderErrorView::ReadLockError(s@),
            PaymentProviderError::WriteLockError(s) => ProviderErrorView::WriteLockError(s@),
        }
    }
}

/// The human-readable text of a provider error.
pub open spec fn provider_error_message(e: ProviderErrorView) -> Seq<char> {
    match e {
        ProviderErrorView::NotConfigured(t) => "payment provider "@ + payment_type_name(t)
            + " is not configured"@,
        ProviderErrorView::InvalidAmount(a) => "invalid payment amount: "@ + decimal(a as nat),
        ProviderErrorView::AuthenticationFailed => "payment provider authentication failed"@,
        ProviderErrorView::Timeout => "payment request timed out"@,
        ProviderErrorView::ProviderUnavailable => "payment provider is unavailable"@,
        ProviderErrorView::RequestFailed(s) => "payment request failed: "@ + s,
        ProviderErrorView::NetworkError(s) => "network error while contacting payment provider: "@
            + s,
        ProviderErrorView::Request(s) => "http request failed: "@ + s,
        ProviderErrorView::UnsupportedOperation(s) => "payment operation is not supported: "@ + s,
        ProviderErrorView::TimeError(s) => "time calculation error: "@ + s,
        ProviderErrorView::ReadLockError(s) => "failed to acquire read lock: "@ + s,
        ProviderErrorView::WriteLockError(s) => "failed to acquire write lock: "@ + s,
    }
}

impl PaymentProviderError {
    /// The human-readable text of this error.
    pub fn message(&self) -> (m: String)
        ensures
            m@ == provider_error_message(self@),
    {
        match self {
            PaymentProviderError::NotConfigured(t) => concat3(
                "payment provider ",
                t.as_str(),
                " is not configured",
            ),
            PaymentProviderError::InvalidAmount(a) => {
                let digits = u64_to_decimal(*a as u64);
                concat2("invalid payment amount: ", digits.as_str())
            },
            PaymentProviderError::AuthenticationFailed => String::from_str(
                "payment provider authentication failed",
            ),
            PaymentProviderError::Timeout => String::from_str("payment request timed out"),
            PaymentProviderError::ProviderUnavailable => String::from_str(
                "payment provider is unavailable",
            ),
            PaymentProviderError::RequestFailed(s) => concat2(
                "payment request failed: ",
                s.as_str(),
            ),
            PaymentProviderError::NetworkError(s) => concat2(
                "network error while contacting payment provider: ",
                s.as_str(),
            ),
            PaymentProviderError::Request(s) => concat2("http request failed: ", s.as_str()),
            PaymentProviderError::UnsupportedOperation(s) => concat2(
                "payment operation is not supported: ",
                s.as_str(),
            ),
            PaymentProviderError::TimeError(s) => concat2("time calculation error: ", s.as_str()),
            PaymentProviderError::ReadLockError(s) => concat2(
                "failed to acquire read lock: ",
                s.as_str(),
            ),
            PaymentProviderError::WriteLockError(s) => concat2(
                "failed to acquire write lock: ",
                s.as_str(),
            ),
        }
    }
}

} // verus!
