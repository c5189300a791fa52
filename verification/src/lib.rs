//! Payment orchestration for Vipps, Stripe and Apple Pay: configuration,
//! request construction, response interpretation and error reporting.
//! Network and clock access stay with the caller; every decision is made here.

pub mod payment;
pub mod text;

pub use payment::{
    PaymentProvider, PaymentProviderResponse, PaymentResponse, PaymentStatus, PaymentType,
};
pub mod error;
pub use error::{PaymentProviderError, ProviderErrorView};
pub mod http;
pub use http::{HttpMethod, HttpReply, HttpRequest, HttpRequestView};
pub mod vipps;
pub use vipps::{
    CachedToken, VippsAccessTokenResponse, VippsAmount, VippsConfig, VippsCreatePaymentRequest,
    VippsCreatePaymentResponse, VippsExpiresIn, VippsPaymentDetails, VippsPaymentMethod,
    VippsProvider,
};
pub mod stripe;
pub use stripe::{
    StripeAdapter, StripeApiPaymentResponse, StripeConfig, StripeCreatePaymentIntentRequest,
    StripeErrorEnvelope, StripeErrorObject, StripePaymentFlow, StripePaymentIntentResult,
    StripePaymentRequest, StripePaymentResult, StripeProvider,
};
pub mod apple_pay;
pub use apple_pay::{ApplePayConfig, ApplePayProvider};
pub mod service;
pub use service::{
    PayAction, PayFlow, PayReply, PayRequest, SolariPaymentService, StripePayRequest,
    StripePaymentFlowType, StripePaymentIntentResponse, StripePaymentResponse, TokenPlan,
    VippsCreatePaymentResult, VippsPayRequest, VippsPaymentResult, VippsPaymentStatusResult,
    VippsTokenResponse,
};
pub mod api;
pub use api::{
    ErrorBody, GenericPayBody, GenericPaymentResponse, GenericStatusQuery, PaymentStore, Solari,
    SolariApi, SolariApiError, SolariError, StoredPayment, StripeWebhookData, StripeWebhookPayload,
    VippsCreatePaymentBody, VippsCreatePaymentResponseBody, VippsPayBody, VippsPayResponse,
    VippsStatusQuery, VippsStatusResponseBody, VippsTokenResponseBody, VippsWebhookPayload,
    WebhookEvent,
};
pub mod laws;
