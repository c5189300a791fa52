use vstd::prelude::*;

use crate::error::{provider_error_message, PaymentProviderError, ProviderErrorView};
use crate::payment::{
    payment_type_name, status_name, PaymentProvider, PaymentProviderResponse, PaymentType,
};
use crate::service::{
    PayRequest, SolariPaymentService, StripePayRequest, VippsPayRequest, VippsPaymentResult,
    VippsPaymentStatusResult,
};
use crate::stripe::StripeConfig;
use crate::text::{decimal, is_blank, trim, trim_str, u64_to_decimal};
use crate::vipps::VippsConfig;

verus! {

// ---------------------------------------------------------------------------
// Errors as the HTTP API reports them
// ---------------------------------------------------------------------------

/// An error of the Vipps routes: a payment failure or a malformed request.
#[derive(Debug)]
pub enum SolariApiError {
    Payment(PaymentProviderError),
    BadRequest(String),
}

/// The JSON body of an error reply.
#[derive(Debug, Clone)]
pub struct ErrorBody {
    pub error: String,
}

/// The HTTP status of a payment failure on the Vipps routes: the caller's
/// mistakes are 400, authentication 401, timeouts 504, an unavailable
/// provider 503, provider and transport failures 502, internal faults 500.
pub open spec fn payment_error_status(e: ProviderErrorView) -> u16 {
    match e {
        ProviderErrorView::InvalidAmount(_) => 400,
        ProviderErrorView::NotConfigured(_) => 400,
        ProviderErrorView::UnsupportedOperation(_) => 400,
        ProviderErrorView::AuthenticationFailed => 401,
        ProviderErrorView::Timeout => 504,
        ProviderErrorView::ProviderUnavailable => 503,
        ProviderErrorView::RequestFailed(_) => 502,
        ProviderErrorView::NetworkError(_) => 502,
        ProviderErrorView::Request(_) => 502,
        ProviderErrorView::TimeError(_) => 500,
        ProviderErrorView::ReadLockError(_) => 500,
        ProviderErrorView::WriteLockError(_) => 500,
    }
}

impl SolariApiError {
    /// The HTTP status that this error is answered with.
    pub fn status_code(&self) -> (c: u16)
        ensures
            c == match self {
                SolariApiError::BadRequest(_) => 400,
                SolariApiError::Payment(e) => payment_error_status(e@),
            },
    {
        match self {
            SolariApiError::BadRequest(_) => 400,
            SolariApiError::Payment(e) => match e {
                PaymentProviderError::InvalidAmount(_) => 400,
                PaymentProviderError::NotConfigured(_) => 400,
                PaymentProviderError::UnsupportedOperation(_) => 400,
                PaymentProviderError::AuthenticationFailed => 401,
                PaymentProviderError::Timeout => 504,
                PaymentProviderError::ProviderUnavailable => 503,
                PaymentProviderError::RequestFailed(_) => 502,
                PaymentProviderError::NetworkError(_) => 502,
                PaymentProviderError::Request(_) => 502,
                PaymentProviderError::TimeError(_) => 500,
                PaymentProviderError::ReadLockError(_) => 500,
                PaymentProviderError::WriteLockError(_) => 500,
            },
        }
    }

    /// The text of this error: the payment failure's text, or the complaint.
    pub fn message(&self) -> (m: String)
        ensures
            m@ == match self {
                SolariApiError::BadRequest(s) => s@,
                SolariApiError::Payment(e) => provider_error_message(e@),
            },
    {
        match self {
            SolariApiError::BadRequest(s) => s.clone(),
            SolariApiError::Payment(e) => e.message(),
        }
    }

    /// The status and body that this error is answered with.
    pub fn into_response(&self) -> (r: (u16, ErrorBody))
        ensures
            r.0 == match self {
                SolariApiError::BadRequest(_) => 400,
                SolariApiError::Payment(e) => payment_error_status(e@),
            },
            r.1.error@ == match self {
                SolariApiError::BadRequest(s) => s@,
                SolariApiError::Payment(e) => provider_error_message(e@),
            },
    {
        (self.status_code(), ErrorBody { error: self.message() })
    }
}

/// An error of the generic routes.
#[derive(Debug)]
pub enum SolariError {
    NotConfigured(PaymentType),
    InvalidAmount(u32),
    AuthenticationFailed,
    Timeout,
    ProviderUnavailable,
    RequestFailed(String),
    NetworkError(String),
    Request(String),
    UnsupportedOperation(String),
    TimeError(String),
    ReadLockError(String),
    WriteLockError(String),
    /// An error answered with the given status and text.
    ApiError(u16, String),
}

/// The HTTP status of an error on the generic routes: as on the Vipps
/// routes, except that unsupported operations are 501 and API errors carry
/// their own status.
pub open spec fn solari_error_status(e: SolariError) -> u16 {
    match e {
        SolariError::NotConfigured(_) => 400,
        SolariError::InvalidAmount(_) => 400,
        SolariError::AuthenticationFailed => 401,
        SolariError::Timeout => 504,
        SolariError::ProviderUnavailable => 503,
        SolariError::RequestFailed(_) => 502,
        SolariError::NetworkError(_) => 502,
        SolariError::Request(_) => 502,
        SolariError::UnsupportedOperation(_) => 501,
        SolariError::TimeError(_) => 500,
        SolariError::ReadLockError(_) => 500,
        SolariError::WriteLockError(_) => 500,
        SolariError::ApiError(s, _) => s,
    }
}

/// The text of an error on the generic routes, as the reply carries it.
pub open spec fn solari_error_message(e: SolariError) -> Seq<char> {
    match e {
        SolariError::NotConfigured(t) => provider_error_message(ProviderErrorView::NotConfigured(t)),
        SolariError::InvalidAmount(a) => provider_error_message(ProviderErrorView::InvalidAmount(a)),
        SolariError::AuthenticationFailed => provider_error_message(
            ProviderErrorView::AuthenticationFailed,
        ),
        SolariError::Timeout => provider_error_message(ProviderErrorView::Timeout),
        SolariError::ProviderUnavailable => provider_error_message(ProviderErrorView::ProviderUnavailable),
        SolariError::RequestFailed(s) => provider_error_message(ProviderErrorView::RequestFailed(s@)),
        SolariError::NetworkError(s) => provider_error_message(ProviderErrorView::NetworkError(s@)),
        SolariError::Request(s) => provider_error_message(ProviderErrorView::Request(s@)),
        SolariError::UnsupportedOperation(s) => provider_error_message(
            ProviderErrorView::UnsupportedOperation(s@),
        ),
        SolariError::TimeError(s) => provider_error_message(ProviderErrorView::TimeError(s@)),
        SolariError::ReadLockError(s) => provider_error_message(ProviderErrorView::ReadLockError(s@)),
        SolariError::WriteLockError(s) => provider_error_message(ProviderErrorView::WriteLockError(s@)),
        SolariError::ApiError(_, s) => s@,
    }
}

/// The same failure as a generic-route error.
pub open spec fn as_solari_error_view(e: ProviderErrorView, s: SolariError) -> bool {
    match e {
        ProviderErrorView::NotConfigured(t) => s == SolariError::NotConfigured(t),
        ProviderErrorView::InvalidAmount(a) => s == SolariError::InvalidAmount(a),
        ProviderErrorView::AuthenticationFailed => s is AuthenticationFailed,
        ProviderErrorView::Timeout => s is Timeout,
        ProviderErrorView::ProviderUnavailable => s is ProviderUnavailable,
        ProviderErrorView::RequestFailed(m) => s matches SolariError::RequestFailed(x) && x@ == m,
        ProviderErrorView::NetworkError(m) => s matches SolariError::NetworkError(x) && x@ == m,
        ProviderErrorView::Request(m) => s matches SolariError::Request(x) && x@ == m,
        ProviderErrorView::UnsupportedOperation(m) => s matches SolariError::UnsupportedOperation(x)
            && x@ == m,
        ProviderErrorView::TimeError(m) => s matches SolariError::TimeError(x) && x@ == m,
        ProviderErrorView::ReadLockError(m) => s matches SolariError::ReadLockError(x) && x@ == m,
        ProviderErrorView::WriteLockError(m) => s matches SolariError::WriteLockError(x) && x@ == m,
    }
}

impl SolariError {
    /// The same failure as a generic-route error.
    pub fn from_provider_error(e: PaymentProviderError) -> (s: Self)
        ensures
            as_solari_error_view(e@, s),
    {
        match e {
            PaymentProviderError::NotConfigured(t) => SolariError::NotConfigured(t),
            PaymentProviderError::InvalidAmount(a) => SolariError::InvalidAmount(a),
            PaymentProviderError::AuthenticationFailed => SolariError::AuthenticationFailed,
            PaymentProviderError::Timeout => SolariError::Timeout,
            PaymentProviderError::ProviderUnavailable => SolariError::ProviderUnavailable,
            PaymentProviderError::RequestFailed(m) => SolariError::RequestFailed(m),
            PaymentProviderError::NetworkError(m) => SolariError::NetworkError(m),
            PaymentProviderError::Request(m) => SolariError::Request(m),
            PaymentProviderError::UnsupportedOperation(m) => SolariError::UnsupportedOperation(m),
            PaymentProviderError::TimeError(m) => SolariError::TimeError(m),
            PaymentProviderError::ReadLockError(m) => SolariError::ReadLockError(m),
            PaymentProviderError::WriteLockError(m) => SolariError::WriteLockError(m),
        }
    }

    /// The status and text that this error is answered with.
    pub fn into_response(&self) -> (r: (u16, String))
        ensures
            r.0 == solari_error_status(*self),
            r.1@ == solari_error_message(*self),
    {
        match self {
            SolariError::NotConfigured(t) => (
                400,
                PaymentProviderError::NotConfigured(*t).message(),
            ),
            SolariError::InvalidAmount(a) => (400, PaymentProviderError::InvalidAmount(*a).message()),
            SolariError::AuthenticationFailed => (
                401,
                PaymentProviderError::AuthenticationFailed.message(),
            ),
            SolariError::Timeout => (504, PaymentProviderError::Timeout.message()),
            SolariError::ProviderUnavailable => (
                503,
                PaymentProviderError::ProviderUnavailable.message(),
            ),
            SolariError::RequestFailed(s) => (
                502,
                PaymentProviderError::RequestFailed(s.clone()).message(),
            ),
            SolariError::NetworkError(s) => (
                502,
                PaymentProviderError::NetworkError(s.clone()).message(),
            ),
            SolariError::Request(s) => (502, PaymentProviderError::Request(s.clone()).message()),
            SolariError::UnsupportedOperation(s) => (
                501,
                PaymentProviderError::UnsupportedOperation(s.clone()).message(),
            ),
            SolariError::TimeError(s) => (500, PaymentProviderError::TimeError(s.clone()).message()),
            SolariError::ReadLockError(s) => (
                500,
                PaymentProviderError::ReadLockError(s.clone()).message(),
            ),
            SolariError::WriteLockError(s) => (
                500,
                PaymentProviderError::WriteLockError(s.clone()).message(),
            ),
            SolariError::ApiError(status, s) => (*status, s.clone()),
        }
    }
}

// ---------------------------------------------------------------------------
// Bodies of the Vipps routes
// ---------------------------------------------------------------------------

/// The body of `POST /vipps/pay`.
#[derive(Debug, Clone)]
pub struct VippsPayBody {
    pub amount: u32,
    pub return_url: Option<String>,
}

/// The body of a create-payment call.
#[derive(Debug, Clone)]
pub struct VippsCreatePaymentBody {
    pub amount: u32,
    pub return_url: Option<String>,
}

/// A payment as the Vipps routes report it.
#[derive(Debug, Clone)]
pub struct VippsPayResponse {
    pub provider: String,
    pub status: String,
    pub paid: u32,
    pub reference: Option<String>,
    pub redirect_url: Option<String>,
    pub return_url: Option<String>,
}

/// An access token as the Vipps routes report it.
#[derive(Debug, Clone)]
pub struct VippsTokenResponseBody {
    pub access_token: String,
    pub expires_at: u64,
}

/// The reply of `POST /vipps/pay`.
#[derive(Debug, Clone)]
pub struct VippsCreatePaymentResponseBody {
    pub reference: Option<String>,
    pub redirect_url: Option<String>,
}

/// The query of `GET /vipps/status`.
#[derive(Debug, Clone)]
pub struct VippsStatusQuery {
    pub reference: String,
}

/// The reply of `GET /vipps/status`.
#[derive(Debug, Clone)]
pub struct VippsStatusResponseBody {
    pub reference: Option<String>,
    pub raw_status: String,
    pub status: String,
}

/// The complaint about a missing payment reference.
pub open spec fn missing_reference_message() -> Seq<char> {
    "missing or empty 'reference' query parameter"@
}

/// The payment that `POST /vipps/pay` asks for.
pub fn vipps_pay_request(body: VippsPayBody) -> (r: PayRequest)
    ensures
        r == PayRequest::Vipps(VippsPayRequest { amount: body.amount, return_url: body.return_url }),
{
    PayRequest::Vipps(VippsPayRequest { amount: body.amount, return_url: body.return_url })
}

/// The reply of `POST /vipps/pay` for a created payment.
pub fn vipps_pay_response_body(payment: PaymentProviderResponse) -> (r: VippsCreatePaymentResponseBody)
    ensures
        r.reference == payment.reference,
        r.redirect_url == payment.redirect_url,
{
    VippsCreatePaymentResponseBody { reference: payment.reference, redirect_url: payment.redirect_url }
}

/// The reference that `GET /vipps/status` looks up: the trimmed query value,
/// refused as a bad request when it is blank.
pub fn vipps_status_reference(query: &VippsStatusQuery) -> (r: Result<&str, SolariApiError>)
    ensures
        is_blank(query.reference@) ==> (r matches Err(SolariApiError::BadRequest(m)) && m@
            == missing_reference_message()),
        !is_blank(query.reference@) ==> (r matches Ok(s) && s@ == trim(query.reference@)),
{
    let reference = trim_str(query.reference.as_str());
    if reference.unicode_len() == 0 {
        return Err(SolariApiError::BadRequest(String::from_str("missing or empty 'reference' query parameter")));
    }
    Ok(reference)
}

/// The reply of `GET /vipps/status` for a looked-up payment.
pub fn vipps_status_response_body(result: VippsPaymentStatusResult) -> (r: VippsStatusResponseBody)
    ensures
        r.reference == result.reference,
        r.raw_status == result.raw_status,
        r.status@ == status_name(result.status),
{
    VippsStatusResponseBody {
        reference: result.reference,
        raw_status: result.raw_status,
        status: result.status.to_string(),
    }
}

/// A payment as it is reported on the Vipps routes.
pub fn vipps_pay_response(payment: PaymentProviderResponse) -> (r: VippsPayResponse)
    ensures
        r.provider@ == payment_type_name(payment.provider),
        r.status@ == status_name(payment.status),
        r.paid == payment.paid,
        r.reference == payment.reference,
        r.redirect_url == payment.redirect_url,
        r.return_url == payment.return_url,
{
    VippsPayResponse {
        provider: payment.provider.to_string(),
        status: payment.status.to_string(),
        paid: payment.paid,
        reference: payment.reference,
        redirect_url: payment.redirect_url,
        return_url: payment.return_url,
    }
}

// ---------------------------------------------------------------------------
// Bodies of the generic routes
// ---------------------------------------------------------------------------

/// The body of `POST /pay/{provider}`.
#[derive(Debug, Clone)]
pub struct GenericPayBody {
    pub amount: u32,
    pub return_url: Option<String>,
    pub currency: Option<String>,
    pub description: Option<String>,
}

/// The query of `GET /status/{provider}`.
#[derive(Debug, Clone)]
pub struct GenericStatusQuery {
    pub provider: PaymentProvider,
    pub reference: String,
}

/// A payment as the generic routes report it.
#[derive(Debug, Clone)]
pub struct GenericPaymentResponse {
    pub provider: PaymentProvider,
    pub status: String,
    pub paid: u32,
    pub currency: Option<String>,
    pub reference: Option<String>,
    pub redirect_url: Option<String>,
    pub return_url: Option<String>,
    pub raw_status: Option<String>,
}

/// The complaint about a return URL on a Stripe payment.
pub open spec fn stripe_return_url_message() -> Seq<char> {
    "'return_url' is only supported for provider 'vipps'"@
}

/// The complaint about a status lookup for Stripe.
pub open spec fn stripe_status_message() -> Seq<char> {
    "status endpoint is currently only supported for provider 'vipps'"@
}

/// The payment that `POST /pay/{provider}` asks for. A return URL is only
/// accepted for Vipps; on a Stripe payment it is refused with 400.
pub fn generic_pay_request(provider: PaymentProvider, body: GenericPayBody) -> (r: Result<
    PayRequest,
    SolariError,
>)
    ensures
        provider == PaymentProvider::Vipps ==> r == Ok::<PayRequest, SolariError>(
            PayRequest::Vipps(VippsPayRequest { amount: body.amount, return_url: body.return_url }),
        ),
        provider == PaymentProvider::Stripe && body.return_url is Some ==> (r matches Err(
            SolariError::ApiError(400, m),
        ) && m@ == stripe_return_url_message()),
        provider == PaymentProvider::Stripe && body.return_url is None ==> r == Ok::<
            PayRequest,
            SolariError,
        >(
            PayRequest::Stripe(
                StripePayRequest {
                    amount: body.amount,
                    currency: body.currency,
                    description: body.description,
                },
            ),
        ),
{
    match provider {
        PaymentProvider::Vipps => Ok(
            PayRequest::Vipps(VippsPayRequest { amount: body.amount, return_url: body.return_url }),
        ),
        PaymentProvider::Stripe => {
            if body.return_url.is_some() {
                return Err(
                    SolariError::ApiError(
                        400,
                        String::from_str("'return_url' is only supported for provider 'vipps'"),
                    ),
                );
            }
            Ok(
                PayRequest::Stripe(
                    StripePayRequest {
                        amount: body.amount,
                        currency: body.currency,
                        description: body.description,
                    },
                ),
            )
        },
    }
}

/// The reference that `GET /status/{provider}` looks up: a blank reference
/// is refused first, then any provider but Vipps, both with 400.
pub fn generic_status_reference(query: &GenericStatusQuery) -> (r: Result<&str, SolariError>)
    ensures
        is_blank(query.reference@) ==> (r matches Err(SolariError::ApiError(400, m)) && m@
            == missing_reference_message()),
        !is_blank(query.reference@) && query.provider == PaymentProvider::Stripe ==> (r matches Err(
            SolariError::ApiError(400, m),
        ) && m@ == stripe_status_message()),
        !is_blank(query.reference@) && query.provider == PaymentProvider::Vipps ==> (r matches Ok(s)
            && s@ == trim(query.reference@)),
{
    let reference = trim_str(query.reference.as_str());
    if reference.unicode_len() == 0 {
        return Err(
            SolariError::ApiError(
                400,
                String::from_str("missing or empty 'reference' query parameter"),
            ),
        );
    }
    match query.provider {
        PaymentProvider::Vipps => Ok(reference),
        PaymentProvider::Stripe => Err(
            SolariError::ApiError(
                400,
                String::from_str("status endpoint is currently only supported for provider 'vipps'"),
            ),
        ),
    }
}

/// A looked-up Vipps payment as the generic routes report it.
pub fn generic_status_response(result: VippsPaymentResult) -> (r: GenericPaymentResponse)
    ensures
        r.provider == PaymentProvider::Vipps,
        r.status@ == status_name(result.status),
        r.paid == 0,
        r.currency == result.currency,
        r.reference == result.reference,
        r.redirect_url is None,
        r.return_url is None,
        r.raw_status == Some(result.raw_status),
{
    GenericPaymentResponse {
        provider: PaymentProvider::Vipps,
        status: result.status.to_string(),
        paid: 0,
        currency: result.currency,
        reference: result.reference,
        redirect_url: None,
        return_url: None,
        raw_status: Some(result.raw_status),
    }
}

// ---------------------------------------------------------------------------
// Server setup
// ---------------------------------------------------------------------------

/// The address a server listens on: the domain (`localhost` by default)
/// and the port (6767 by default).
pub open spec fn listen_address_of(domain: Option<String>, port: Option<u16>) -> Seq<char> {
    let d = match domain {
        Some(d) => d@,
        None => "localhost"@,
    };
    let p: u16 = match port {
        Some(p) => p,
        None => 6767,
    };
    d + ":"@ + decimal(p as nat)
}

fn listen_address(domain: &Option<String>, port: Option<u16>) -> (r: String)
    ensures
        r@ == listen_address_of(*domain, port),
{
    let mut r = match domain {
        Some(d) => d.clone(),
        None => String::from_str("localhost"),
    };
    let p: u16 = match port {
        Some(p) => p,
        None => 6767,
    };
    r.append(":");
    let digits = u64_to_decimal(p as u64);
    r.append(digits.as_str());
    r
}

/// A Vipps payment server waiting to be started.
pub struct SolariApi {
    pub payment_module: SolariPaymentService,
    pub domain: Option<String>,
    pub port: Option<u16>,
}

impl SolariApi {
    /// A server with no provider, domain or port chosen.
    pub fn new() -> (s: Self)
        ensures
            s.payment_module.vipps_provider is None,
            s.payment_module.stripe_provider is None,
            s.domain is None,
            s.port is None,
    {
        SolariApi { payment_module: SolariPaymentService::new(), domain: None, port: None }
    }

    /// Configures Vipps.
    pub fn vipps(self, config: VippsConfig) -> (s: Self)
        ensures
            s.payment_module.vipps_provider matches Some(p) && p.config == config && p.token_cache is None,
            s.payment_module.stripe_provider == self.payment_module.stripe_provider,
            s.domain == self.domain,
            s.port == self.port,
    {
        let mut s = self;
        s.payment_module.vipps(config);
        s
    }

    /// Chooses the domain to listen on.
    pub fn domain(self, domain: String) -> (s: Self)
        ensures
            s.payment_module == self.payment_module,
            s.domain == Some(domain),
            s.port == self.port,
    {
        let mut s = self;
        s.domain = Some(domain);
        s
    }

    /// Chooses the port to listen on.
    pub fn port(self, port: u16) -> (s: Self)
        ensures
            s.payment_module == self.payment_module,
            s.domain == self.domain,
            s.port == Some(port),
    {
        let mut s = self;
        s.port = Some(port);
        s
    }

    /// The address to listen on.
    pub fn listen_address(&self) -> (r: String)
        ensures
            r@ == listen_address_of(self.domain, self.port),
    {
        listen_address(&self.domain, self.port)
    }
}

/// A payment server for Vipps and Stripe waiting to be started.
pub struct Solari {
    pub payment_module: SolariPaymentService,
    pub domain: Option<String>,
    pub port: Option<u16>,
}

impl Solari {
    /// A server with no provider, domain or port chosen.
    pub fn new() -> (s: Self)
        ensures
            s.payment_module.vipps_provider is None,
            s.payment_module.stripe_provider is None,
            s.domain is None,
            s.port is None,
    {
        Solari { payment_module: SolariPaymentService::new(), domain: None, port: None }
    }

    /// Configures Vipps.
    pub fn vipps(self, config: VippsConfig) -> (s: Self)
        ensures
            s.payment_module.vipps_provider matches Some(p) && p.config == config && p.token_cache is None,
            s.payment_module.stripe_provider == self.payment_module.stripe_provider,
            s.domain == self.domain,
            s.port == self.port,
    {
        let mut s = self;
        s.payment_module.vipps(config);
        s
    }

    /// Configures Stripe.
    pub fn stripe(self, config: StripeConfig) -> (s: Self)
        ensures
            s.payment_module.stripe_provider matches Some(a) && a.config == config,
            s.payment_module.vipps_provider == self.payment_module.vipps_provider,
            s.domain == self.domain,
            s.port == self.port,
    {
        let mut s = self;
        s.payment_module.stripe(config);
        s
    }

    /// Chooses the domain to listen on.
    pub fn domain(self, domain: String) -> (s: Self)
        ensures
            s.payment_module == self.payment_module,
            s.domain == Some(domain),
            s.port == self.port,
    {
        let mut s = self;
        s.domain = Some(domain);
        s
    }

    /// Chooses the port to listen on.
    pub fn port(self, port: u16) -> (s: Self)
        ensures
            s.payment_module == self.payment_module,
            s.domain == self.domain,
            s.port == Some(port),
    {
        let mut s = self;
        s.port = Some(port);
        s
    }

    /// The payment service with the providers configured so far.
    pub fn build_payment_service(self) -> (s: SolariPaymentService)
        ensures
            s == self.payment_module,
    {
        self.payment_module
    }

    /// The address to listen on.
    pub fn listen_address(&self) -> (r: String)
        ensures
            r@ == listen_address_of(self.domain, self.port),
    {
        listen_address(&self.domain, self.port)
    }
}

// ---------------------------------------------------------------------------
// Storage and webhooks
// ---------------------------------------------------------------------------

/// A payment as a store keeps it.
#[derive(Debug, Clone)]
pub struct StoredPayment {
    pub reference: String,
    pub status: String,
}

/// Where the application keeps payments; implemented by the application.
pub trait PaymentStore {
    fn upsert_payment(&self, payment: StoredPayment) -> Result<(), String>;

    fn get_payment(&self, reference: &str) -> Result<Option<StoredPayment>, String>;
}

/// A webhook delivery from a provider.
#[derive(Debug, Clone)]
pub struct WebhookEvent<P> {
    pub provider: PaymentType,
    pub payload: P,
}

/// The payload of a Vipps webhook.
#[derive(Debug, Clone)]
pub struct VippsWebhookPayload {
    pub msn: String,
    pub reference: String,
    pub psp_reference: Option<String>,
    pub name: String,
    pub currency: String,
    pub amount: i64,
    pub timestamp: String,
    pub idempotency_key: Option<String>,
    pub success: bool,
}

/// The payload of a Stripe webhook; the event object is kept as JSON text.
#[derive(Debug, Clone)]
pub struct StripeWebhookPayload {
    pub id: String,
    pub object: String,
    pub event_type: String,
    pub created: i64,
    pub data: StripeWebhookData,
}

/// The data of a Stripe webhook.
#[derive(Debug, Clone)]
pub struct StripeWebhookData {
    pub object: String,
}

/// The event that a Vipps webhook delivery is handed on as.
pub fn vipps_webhook_event(payload: VippsWebhookPayload) -> (e: WebhookEvent<VippsWebhookPayload>)
    ensures
        e.provider == PaymentType::Vipps,
        e.payload == payload,
{
    WebhookEvent { provider: PaymentType::Vipps, payload }
}

/// The event that a Stripe webhook delivery is handed on as.
pub fn stripe_webhook_event(payload: StripeWebhookPayload) -> (e: WebhookEvent<StripeWebhookPayload>)
    ensures
        e.provider == PaymentType::Stripe,
        e.payload == payload,
{
    WebhookEvent { provider: PaymentType::Stripe, payload }
}

} // verus!
