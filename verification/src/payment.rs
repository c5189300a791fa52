use vstd::prelude::*;

verus! {

/// Where a payment stands.
#[derive(Debug, Clone, Copy, PartialEq, Eq, Structural)]
pub enum PaymentStatus {
    Pending,
    Completed,
    Failed,
    Cancelled,
}

/// The lower-case name of a status, as it is reported to API clients.
pub open spec fn status_name(s: PaymentStatus) -> Seq<char> {
    match s {
        PaymentStatus::Pending => "pending"@,
        PaymentStatus::Completed => "completed"@,
        PaymentStatus::Failed => "failed"@,
        PaymentStatus::Cancelled => "cancelled"@,
    }
}

impl PaymentStatus {
    /// The lower-case name of this status.
    pub fn as_str(&self) -> (r: &'static str)
        ensures
            r@ == status_name(*self),
    {
        match self {
            PaymentStatus::Pending => "pending",
            PaymentStatus::Completed => "completed",
            PaymentStatus::Failed => "failed",
            PaymentStatus::Cancelled => "cancelled",
        }
    }

    /// The lower-case name of this status as an owned string.
    pub fn to_string(&self) -> (r: String)
        ensures
            r@ == status_name(*self),
    {
        String::from_str(self.as_str())
    }
}

/// A payment method that the library can drive.
#[derive(Debug, Clone, Copy, Hash, PartialEq, Eq, Structural)]
pub enum PaymentType {
    Vipps,
    ApplePay,
    Stripe,
}

/// The display name of a payment type.
pub open spec fn payment_type_name(t: PaymentType) -> Seq<char> {
    match t {
        PaymentType::Vipps => "vipps"@,
        PaymentType::ApplePay => "apple_pay"@,
        PaymentType::Stripe => "stripe"@,
    }
}

impl PaymentType {
    /// The display name of this payment type (`vipps`, `apple_pay`, `stripe`).
    pub fn as_str(&self) -> (r: &'static str)
        ensures
            r@ == payment_type_name(*self),
    {
        match self {
            PaymentType::Vipps => "vipps",
            PaymentType::ApplePay => "apple_pay",
            PaymentType::Stripe => "stripe",
        }
    }

    /// The display name of this payment type as an owned string.
    pub fn to_string(&self) -> (r: String)
        ensures
            r@ == payment_type_name(*self),
    {
        String::from_str(self.as_str())
    }
}

/// A provider as it is named in the HTTP routes (`/pay/{provider}`).
#[derive(Debug, Clone, Copy, Hash, PartialEq, Eq, Structural)]
pub enum PaymentProvider {
    Vipps,
    Stripe,
}

/// The display name of a route provider.
pub open spec fn provider_name(p: PaymentProvider) -> Seq<char> {
    match p {
        PaymentProvider::Vipps => "vipps"@,
        PaymentProvider::Stripe => "stripe"@,
    }
}

/// The payment type that a route provider stands for.
pub open spec fn provider_type(p: PaymentProvider) -> PaymentType {
    match p {
        PaymentProvider::Vipps => PaymentType::Vipps,
        PaymentProvider::Stripe => PaymentType::Stripe,
    }
}

impl PaymentProvider {
    /// The display name of this provider (`vipps`, `stripe`).
    pub fn as_str(&self) -> (r: &'static str)
        ensures
            r@ == provider_name(*self),
    {
        match self {
            PaymentProvider::Vipps => "vipps",
            PaymentProvider::Stripe => "stripe",
        }
    }

    /// The display name of this provider as an owned string.
    pub fn to_string(&self) -> (r: String)
        ensures
            r@ == provider_name(*self),
    {
        String::from_str(self.as_str())
    }

    /// The payment type that this provider stands for.
    pub fn payment_type(&self) -> (t: PaymentType)
        ensures
            t == provider_type(*self),
    {
        match self {
            PaymentProvider::Vipps => PaymentType::Vipps,
            PaymentProvider::Stripe => PaymentType::Stripe,
        }
    }
}

/// The outcome of a payment as a provider reports it.
#[derive(Debug, Clone)]
pub struct PaymentProviderResponse {
    pub provider: PaymentType,
    pub status: PaymentStatus,
    pub paid: u32,
    pub reference: Option<String>,
    pub redirect_url: Option<String>,
    pub return_url: Option<String>,
}

/// The outcome of a payment in the form that the generic routes report it.
#[derive(Debug, Clone)]
pub struct PaymentResponse {
    pub provider: PaymentProvider,
    pub status: PaymentStatus,
    pub paid: u32,
    pub reference: Option<String>,
    pub redirect_url: Option<String>,
    pub return_url: Option<String>,
}

} // verus!
