use vstd::prelude::*;

use crate::error::{PaymentProviderError, ProviderErrorView};
use crate::http::{HttpReply, HttpRequest, HttpRequestView};
use crate::payment::{PaymentProvider, PaymentProviderResponse, PaymentStatus, PaymentType};
use crate::stripe::{
    form_urlencoded, intent_form_fields, intent_outcome, intent_request_spec, StripeAdapter,
    StripeApiPaymentResponse, StripeConfig, StripePaymentRequest, StripePaymentResult,
};
use crate::vipps::{
    access_token_outcome, access_token_request_spec, amount_fits_in_ore, create_payment_outcome,
    create_payment_request_spec, default_return_url, is_create_payment_payload,
    payment_status_outcome, payment_status_request_spec, status_of_state, token_expiry_fits,
    valid_cached_token, CachedToken, VippsAccessTokenResponse, VippsConfig,
    VippsCreatePaymentRequest, VippsCreatePaymentResponse, VippsPaymentDetails, VippsProvider,
};
use crate::vipps::status_from_state;

verus! {

/// A Vipps payment to be created.
#[derive(Debug, Clone)]
pub struct VippsPayRequest {
    pub amount: u32,
    pub return_url: Option<String>,
}

/// A Stripe payment to be created; the currency defaults to NOK.
#[derive(Debug, Clone)]
pub struct StripePayRequest {
    pub amount: u32,
    pub currency: Option<String>,
    pub description: Option<String>,
}

/// A payment to be created with one of the providers.
#[derive(Debug, Clone)]
pub enum PayRequest {
    Vipps(VippsPayRequest),
    Stripe(StripePayRequest),
}

/// An access token as the service reports it.
#[derive(Debug, Clone)]
pub struct VippsTokenResponse {
    pub token: String,
    pub expires_at: u64,
}

/// A created Vipps payment.
#[derive(Debug, Clone)]
pub struct VippsCreatePaymentResult {
    pub reference: Option<String>,
    pub redirect_url: Option<String>,
}

/// Where a Vipps payment stands.
#[derive(Debug, Clone)]
pub struct VippsPaymentStatusResult {
    pub reference: Option<String>,
    pub raw_status: String,
    pub status: PaymentStatus,
}

/// Where a Vipps payment stands, with its currency.
#[derive(Debug, Clone)]
pub struct VippsPaymentResult {
    pub reference: Option<String>,
    pub raw_status: String,
    pub status: PaymentStatus,
    pub currency: Option<String>,
}

/// How a Stripe payment intent is to be confirmed by the client.
#[derive(Debug, Clone, Copy, PartialEq, Eq, Structural)]
pub enum StripePaymentFlowType {
    Card,
    ApplePay,
}

/// A created Stripe payment intent as the service reports it.
#[derive(Debug, Clone)]
pub struct StripePaymentResponse {
    pub provider: PaymentProvider,
    pub flow: StripePaymentFlowType,
    pub status: String,
    pub amount: u32,
    pub currency: String,
    pub payment_intent_id: String,
}

/// A created Stripe payment intent with what a client needs to confirm it.
#[derive(Debug, Clone)]
pub struct StripePaymentIntentResponse {
    pub provider: PaymentType,
    pub flow: StripePaymentFlowType,
    pub status: String,
    pub amount: u32,
    pub currency: String,
    pub payment_intent_id: String,
    pub client_secret: String,
    pub publishable_key: String,
    pub account_id: Option<String>,
}

/// How the service obtains the access token it needs.
#[derive(Debug)]
pub enum TokenPlan {
    /// The cached token is still valid.
    Cached(CachedToken),
    /// A fresh token must be requested with this request.
    Fetch(HttpRequest),
}

/// The stage of a payment in progress.
#[derive(Debug)]
pub enum PayFlow {
    /// Waiting for an access token before a Vipps payment of `amount` can be created.
    AwaitingVippsToken { amount: u32, return_url: Option<String> },
    /// Waiting for Vipps to create the payment.
    AwaitingVippsPayment { return_url: Option<String> },
    /// Waiting for Stripe to create the payment intent.
    AwaitingStripeIntent,
    /// Nothing more to do.
    Finished,
}

/// What came back for the request a payment step asked for.
#[derive(Debug)]
pub enum PayReply {
    /// The reply to an access-token request, with its body decoded or the decoding error.
    VippsToken(HttpReply, Result<VippsAccessTokenResponse, String>),
    /// The reply to a create-payment request.
    VippsPayment(HttpReply, Result<VippsCreatePaymentResponse, String>),
    /// The reply to a payment-intent request.
    StripeIntent(HttpReply, Result<StripeApiPaymentResponse, String>),
    /// The request could not be sent; the text says why.
    Unsent(String),
}

/// What the caller must do next for a payment.
#[derive(Debug)]
pub enum PayAction {
    /// Send this request and hand back the reply.
    Send(HttpRequest),
    /// Send this request with the payload as its JSON body and hand back the reply.
    SendVippsPayment(HttpRequest, VippsCreatePaymentRequest),
    /// The payment step sequence is over with this outcome.
    Done(Result<PaymentProviderResponse, PaymentProviderError>),
}

/// Whether a payment step sequence is over with the error `e`.
pub open spec fn fails_with(a: PayAction, e: ProviderErrorView) -> bool {
    a matches PayAction::Done(Err(x)) && x@ == e
}

/// The page the customer returns to: the one asked for, or the default.
pub open spec fn return_target(return_url: Option<String>) -> Seq<char> {
    match return_url {
        Some(u) => u@,
        None => default_return_url(),
    }
}

/// Whether `(flow, action)` creates the Vipps payment of `amount` at `now`
/// with `token`, for the account `config`.
pub open spec fn creates_vipps_payment(
    flow: PayFlow,
    action: PayAction,
    config: VippsConfig,
    token: Seq<char>,
    amount: u32,
    return_url: Option<String>,
    now: u64,
) -> bool {
    &&& flow == PayFlow::AwaitingVippsPayment { return_url }
    &&& action matches PayAction::SendVippsPayment(h, payload) && {
        &&& is_create_payment_payload(payload, amount, return_target(return_url), "WEB_REDIRECT"@, now)
        &&& h@ == create_payment_request_spec(config, token, payload.request_id@)
    }
}

/// How a created Vipps payment is reported: pending, nothing paid yet.
pub open spec fn vipps_payment_response(
    created: VippsCreatePaymentResponse,
    return_url: Option<String>,
) -> PaymentProviderResponse {
    PaymentProviderResponse {
        provider: PaymentType::Vipps,
        status: PaymentStatus::Pending,
        paid: 0,
        reference: created.reference,
        redirect_url: created.redirect_url,
        return_url,
    }
}

/// How a created Stripe payment intent is reported: pending, nothing paid
/// yet, the intent id as the reference.
pub open spec fn stripe_payment_response(result: StripePaymentResult) -> PaymentProviderResponse {
    PaymentProviderResponse {
        provider: PaymentType::Stripe,
        status: PaymentStatus::Pending,
        paid: 0,
        reference: Some(result.id),
        redirect_url: None,
        return_url: None,
    }
}

/// The currency of a Stripe request: the one asked for, or `nok`.
pub open spec fn stripe_currency(currency: Option<String>) -> Seq<char> {
    match currency {
        Some(c) => c@,
        None => "nok"@,
    }
}

/// Whether `r` is a Vipps payment request whose amount, in øre, would not
/// fit in 32 bits (creating it overflows).
pub open spec fn overflows_in_ore(r: PayRequest) -> bool {
    r matches PayRequest::Vipps(v) && v.amount != 0 && !amount_fits_in_ore(v.amount)
}

/// How many replies a payment at this stage can still take at most.
pub open spec fn flow_rank(flow: PayFlow) -> nat {
    match flow {
        PayFlow::AwaitingVippsToken { .. } => 2,
        PayFlow::AwaitingVippsPayment { .. } => 1,
        PayFlow::AwaitingStripeIntent => 1,
        PayFlow::Finished => 0,
    }
}

/// Whether `reply` is the kind of reply that `flow` waits for.
pub open spec fn reply_fits(flow: PayFlow, reply: PayReply) -> bool {
    match flow {
        PayFlow::AwaitingVippsToken { .. } => reply is VippsToken || reply is Unsent,
        PayFlow::AwaitingVippsPayment { .. } => reply is VippsPayment || reply is Unsent,
        PayFlow::AwaitingStripeIntent => reply is StripeIntent || reply is Unsent,
        PayFlow::Finished => false,
    }
}

/// The payment service: the providers that are configured, and the access
/// token that Vipps last granted.
#[derive(Debug)]
pub struct SolariPaymentService {
    pub vipps_provider: Option<VippsProvider>,
    pub stripe_provider: Option<StripeAdapter>,
}

impl SolariPaymentService {
    /// A service with no provider configured.
    pub fn new() -> (s: Self)
        ensures
            s.vipps_provider is None,
            s.stripe_provider is None,
    {
        SolariPaymentService { vipps_provider: None, stripe_provider: None }
    }

    /// Configures Vipps, dropping any token obtained with an earlier configuration.
    pub fn vipps(&mut self, config: VippsConfig) -> (r: &mut Self)
        ensures
            r.vipps_provider matches Some(p) && p.config == config && p.token_cache is None,
            r.stripe_provider == old(self).stripe_provider,
            *final(self) == *final(r),
    {
        self.vipps_provider = Some(VippsProvider::new(config));
        self
    }

    /// Configures Stripe, which takes card and Apple Pay payments.
    pub fn stripe(&mut self, config: StripeConfig) -> (r: &mut Self)
        ensures
            r.stripe_provider matches Some(a) && a.config == config,
            r.vipps_provider == old(self).vipps_provider,
            *final(self) == *final(r),
    {
        self.stripe_provider = Some(StripeAdapter::new(config));
        self
    }

    /// The access token for Vipps calls at second `now`: the cached one while
    /// it is valid, otherwise the request for a fresh one.
    pub fn vipps_get_valid_token(&self, now: u64) -> (r: Result<TokenPlan, PaymentProviderError>)
        ensures
            self.vipps_provider is None ==> (r matches Err(e) && e@ == ProviderErrorView::NotConfigured(
                PaymentType::Vipps,
            )),
            self.vipps_provider matches Some(p) ==> match valid_cached_token(p.token_cache, now) {
                Some(t) => r == Ok::<TokenPlan, PaymentProviderError>(TokenPlan::Cached(t)),
                None => (r matches Ok(TokenPlan::Fetch(h)) && h@ == access_token_request_spec(p.config)),
            },
    {
        match &self.vipps_provider {
            None => Err(PaymentProviderError::NotConfigured(PaymentType::Vipps)),
            Some(p) => match p.cached_token(now) {
                Some(t) => Ok(TokenPlan::Cached(t)),
                None => Ok(TokenPlan::Fetch(p.access_token_request())),
            },
        }
    }

    /// Takes in the reply to a token request made at second `now`; a granted
    /// token replaces the cached one.
    pub fn vipps_get_valid_token_finish(
        &mut self,
        reply: &HttpReply,
        payload: Result<VippsAccessTokenResponse, String>,
        now: u64,
    ) -> (r: Result<CachedToken, PaymentProviderError>)
        requires
            old(self).vipps_provider is Some,
            token_expiry_fits(*reply, payload, now),
        ensures
            crate::vipps::result_view(r) == access_token_outcome(*reply, payload, now),
            r matches Ok(t) ==> final(self).vipps_provider == Some(
                VippsProvider { config: old(self).vipps_provider->0.config, token_cache: Some(t) },
            ),
            r is Err ==> *final(self) == *old(self),
            final(self).stripe_provider == old(self).stripe_provider,
    {
        let outcome = VippsProvider::token_from_reply(reply, payload, now);
        match outcome {
            Err(e) => Err(e),
            Ok(t) => {
                let mut p = self.vipps_provider.take().unwrap();
                p.store_token(t.duplicate());
                self.vipps_provider = Some(p);
                Ok(t)
            },
        }
    }

    fn vipps_payment_step(
        &self,
        amount: u32,
        return_url: Option<String>,
        token: &CachedToken,
        now: u64,
    ) -> (r: (PayFlow, PayAction))
        requires
            self.vipps_provider is Some,
            amount != 0,
            amount_fits_in_ore(amount),
        ensures
            creates_vipps_payment(
                r.0,
                r.1,
                self.vipps_provider->0.config,
                token.token@,
                amount,
                return_url,
                now,
            ),
    {
        let p = self.vipps_provider.as_ref().unwrap();
        let target = match &return_url {
            Some(u) => Some(u.as_str()),
            None => None,
        };
        let (payload, request) = p.create_payment_request(amount, target, token, now);
        (PayFlow::AwaitingVippsPayment { return_url }, PayAction::SendVippsPayment(request, payload))
    }

    /// Starts a payment at second `now`. A provider that is not configured,
    /// or a zero amount, ends it at once; a Vipps payment with a valid cached
    /// token goes straight to creating the payment, otherwise it first asks
    /// for a token; a Stripe payment asks for a payment intent.
    pub fn pay(&self, request: PayRequest, now: u64) -> (r: (PayFlow, PayAction))
        requires
            !(self.vipps_provider is Some && overflows_in_ore(request)),
        ensures
            match request {
                PayRequest::Vipps(v) => match self.vipps_provider {
                    None => r.0 == PayFlow::Finished && fails_with(
                        r.1,
                        ProviderErrorView::NotConfigured(PaymentType::Vipps),
                    ),
                    Some(p) => if v.amount == 0 {
                        r.0 == PayFlow::Finished && fails_with(r.1, ProviderErrorView::InvalidAmount(0))
                    } else {
                        match valid_cached_token(p.token_cache, now) {
                            Some(t) => creates_vipps_payment(
                                r.0,
                                r.1,
                                p.config,
                                t.token@,
                                v.amount,
                                v.return_url,
                                now,
                            ),
                            None => {
                                &&& r.0 == PayFlow::AwaitingVippsToken {
                                    amount: v.amount,
                                    return_url: v.return_url,
                                }
                                &&& r.1 matches PayAction::Send(h) && h@ == access_token_request_spec(
                                    p.config,
                                )
                            },
                        }
                    },
                },
                PayRequest::Stripe(s) => match self.stripe_provider {
                    None => r.0 == PayFlow::Finished && fails_with(
                        r.1,
                        ProviderErrorView::NotConfigured(PaymentType::Stripe),
                    ),
                    Some(a) => if s.amount == 0 {
                        r.0 == PayFlow::Finished && fails_with(r.1, ProviderErrorView::InvalidAmount(0))
                    } else {
                        &&& r.0 == PayFlow::AwaitingStripeIntent
                        &&& r.1 matches PayAction::Send(h) && h@ == intent_request_spec(
                            a.config,
                            form_urlencoded(
                                intent_form_fields(
                                    s.amount,
                                    stripe_currency(s.currency),
                                    s.description.deep_view(),
                                ),
                            ),
                        )
                    },
                },
            },
    {
        match request {
            PayRequest::Vipps(v) => {
                match &self.vipps_provider {
                    None => (
                        PayFlow::Finished,
                        PayAction::Done(Err(PaymentProviderError::NotConfigured(PaymentType::Vipps))),
                    ),
                    Some(p) => {
                        if v.amount == 0 {
                            return (
                                PayFlow::Finished,
                                PayAction::Done(Err(PaymentProviderError::InvalidAmount(v.amount))),
                            );
                        }
                        match p.cached_token(now) {
                            Some(t) => self.vipps_payment_step(v.amount, v.return_url, &t, now),
                            None => (
                                PayFlow::AwaitingVippsToken { amount: v.amount, return_url: v.return_url },
                                PayAction::Send(p.access_token_request()),
                            ),
                        }
                    },
                }
            },
            PayRequest::Stripe(s) => {
                match &self.stripe_provider {
                    None => (
                        PayFlow::Finished,
                        PayAction::Done(Err(PaymentProviderError::NotConfigured(PaymentType::Stripe))),
                    ),
                    Some(a) => {
                        let currency = match s.currency {
                            Some(c) => c,
                            None => String::from_str("nok"),
                        };
                        let intent = StripePaymentRequest {
                            amount: s.amount,
                            currency,
                            description: s.description,
                        };
                        match a.create_payment_request(&intent) {
                            Ok(h) => (PayFlow::AwaitingStripeIntent, PayAction::Send(h)),
                            Err(e) => (PayFlow::Finished, PayAction::Done(Err(e))),
                        }
                    },
                }
            },
        }
    }

    /// Carries a payment forward with the reply to the request it asked for,
    /// received at second `now`. A request that could not be sent ends the
    /// payment with `Request`; a granted token is cached and used to create
    /// the Vipps payment; a created payment or intent is reported pending.
    pub fn pay_continue(&mut self, flow: PayFlow, reply: PayReply, now: u64) -> (r: (PayFlow, PayAction))
        requires
            reply_fits(flow, reply),
            flow is AwaitingVippsToken ==> old(self).vipps_provider is Some,
            flow matches PayFlow::AwaitingVippsToken { amount, .. } ==> amount != 0 && amount_fits_in_ore(
                amount,
            ),
            reply matches PayReply::VippsToken(h, p) ==> token_expiry_fits(h, p, now),
        ensures
            flow_rank(r.0) < flow_rank(flow),
            final(self).stripe_provider == old(self).stripe_provider,
            reply matches PayReply::Unsent(m) ==> {
                &&& r.0 == PayFlow::Finished
                &&& fails_with(r.1, ProviderErrorView::Request(m@))
                &&& *final(self) == *old(self)
            },
            match (flow, reply) {
                (
                    PayFlow::AwaitingVippsToken { amount, return_url },
                    PayReply::VippsToken(h, p),
                ) => match access_token_outcome(h, p, now) {
                    Err(e) => r.0 == PayFlow::Finished && fails_with(r.1, e) && *final(self)
                        == *old(self),
                    Ok(tok) => final(self).vipps_provider matches Some(q) && {
                        &&& q.config == old(self).vipps_provider->0.config
                        &&& q.token_cache matches Some(t) && t@ == tok
                        &&& creates_vipps_payment(r.0, r.1, q.config, tok.0, amount, return_url, now)
                    },
                },
                (PayFlow::AwaitingVippsPayment { return_url }, PayReply::VippsPayment(h, p)) => {
                    &&& *final(self) == *old(self)
                    &&& r.0 == PayFlow::Finished
                    &&& match create_payment_outcome(h, p) {
                        Err(e) => fails_with(r.1, e),
                        Ok(c) => r.1 == PayAction::Done(Ok(vipps_payment_response(c, return_url))),
                    }
                },
                (PayFlow::AwaitingStripeIntent, PayReply::StripeIntent(h, p)) => {
                    &&& *final(self) == *old(self)
                    &&& r.0 == PayFlow::Finished
                    &&& match intent_outcome(h, p) {
                        Err(e) => fails_with(r.1, e),
                        Ok(i) => r.1 == PayAction::Done(Ok(stripe_payment_response(i))),
                    }
                },
                _ => true,
            },
    {
        match reply {
            PayReply::Unsent(m) => (PayFlow::Finished, PayAction::Done(Err(PaymentProviderError::Request(m)))),
            PayReply::VippsToken(h, p) => {
                match flow {
                    PayFlow::AwaitingVippsToken { amount, return_url } => {
                        match self.vipps_get_valid_token_finish(&h, p, now) {
                            Err(e) => (PayFlow::Finished, PayAction::Done(Err(e))),
                            Ok(t) => self.vipps_payment_step(amount, return_url, &t, now),
                        }
                    },
                    _ => {
                        // `reply_fits` rules out a reply that the flow does not wait for.
                        proof {
                            assert(false);
                        }
                        (PayFlow::Finished, PayAction::Done(Err(PaymentProviderError::Request(String::new()))))
                    },
                }
            },
            PayReply::VippsPayment(h, p) => {
                match flow {
                    PayFlow::AwaitingVippsPayment { return_url } => {
                        match VippsProvider::payment_from_reply(&h, p) {
                            Err(e) => (PayFlow::Finished, PayAction::Done(Err(e))),
                            Ok(c) => (
                                PayFlow::Finished,
                                PayAction::Done(
                                    Ok(
                                        PaymentProviderResponse {
                                            provider: PaymentType::Vipps,
                                            status: PaymentStatus::Pending,
                                            paid: 0,
                                            reference: c.reference,
                                            redirect_url: c.redirect_url,
                                            return_url,
                                        },
                                    ),
                                ),
                            ),
                        }
                    },
                    _ => {
                        // `reply_fits` rules out a reply that the flow does not wait for.
                        proof {
                            assert(false);
                        }
                        (PayFlow::Finished, PayAction::Done(Err(PaymentProviderError::Request(String::new()))))
                    },
                }
            },
            PayReply::StripeIntent(h, p) => {
                match StripeAdapter::payment_from_reply(&h, p) {
                    Err(e) => (PayFlow::Finished, PayAction::Done(Err(e))),
                    Ok(i) => (
                        PayFlow::Finished,
                        PayAction::Done(
                            Ok(
                                PaymentProviderResponse {
                                    provider: PaymentType::Stripe,
                                    status: PaymentStatus::Pending,
                                    paid: 0,
                                    reference: Some(i.id),
                                    redirect_url: None,
                                    return_url: None,
                                },
                            ),
                        ),
                    ),
                }
            },
        }
    }

    /// The request for a fresh Vipps access token, whatever is cached.
    pub fn vipps_fetch_access_token(&self) -> (r: Result<HttpRequest, PaymentProviderError>)
        ensures
            self.vipps_provider is None ==> (r matches Err(e) && e@ == ProviderErrorView::NotConfigured(
                PaymentType::Vipps,
            )),
            self.vipps_provider matches Some(p) ==> (r matches Ok(h) && h@ == access_token_request_spec(
                p.config,
            )),
    {
        match &self.vipps_provider {
            None => Err(PaymentProviderError::NotConfigured(PaymentType::Vipps)),
            Some(p) => Ok(p.access_token_request()),
        }
    }

    /// Reads the reply to a fresh token request made at second `now`; the
    /// cache is left as it is.
    pub fn vipps_fetch_access_token_finish(
        reply: &HttpReply,
        payload: Result<VippsAccessTokenResponse, String>,
        now: u64,
    ) -> (r: Result<VippsTokenResponse, PaymentProviderError>)
        requires
            token_expiry_fits(*reply, payload, now),
        ensures
            match access_token_outcome(*reply, payload, now) {
                Err(e) => r matches Err(x) && x@ == e,
                Ok(t) => r matches Ok(v) && v.token@ == t.0 && v.expires_at == t.1,
            },
    {
        match VippsProvider::token_from_reply(reply, payload, now) {
            Err(e) => Err(e),
            Ok(t) => Ok(VippsTokenResponse { token: t.token, expires_at: t.expires_at }),
        }
    }

    /// The request that creates a payment intent for `request`, to be
    /// confirmed by the client in the way `flow` names, together with that
    /// flow. An error of the adapter comes back as it is.
    pub fn stripe_create_payment_intent(&self, request: StripePayRequest, flow: StripePaymentFlowType) -> (r: Result<
        (HttpRequest, StripePaymentFlowType),
        PaymentProviderError,
    >)
        ensures
            stripe_intent_started(self.stripe_provider, request, flow, r),
    {
        match &self.stripe_provider {
            None => Err(PaymentProviderError::NotConfigured(PaymentType::Stripe)),
            Some(a) => {
                let currency = match request.currency {
                    Some(c) => c,
                    None => String::from_str("nok"),
                };
                let intent = StripePaymentRequest {
                    amount: request.amount,
                    currency,
                    description: request.description,
                };
                match a.create_payment_request(&intent) {
                    Ok(h) => Ok((h, flow)),
                    Err(e) => Err(e),
                }
            },
        }
    }

    /// The request that creates a card payment intent: the general intent
    /// with the card flow.
    pub fn stripe_create_card_payment_intent(&self, request: StripePayRequest) -> (r: Result<
        (HttpRequest, StripePaymentFlowType),
        PaymentProviderError,
    >)
        ensures
            stripe_intent_started(self.stripe_provider, request, StripePaymentFlowType::Card, r),
    {
        self.stripe_create_payment_intent(request, StripePaymentFlowType::Card)
    }

    /// The request that creates an Apple Pay payment intent: the general
    /// intent with the Apple Pay flow.
    pub fn stripe_create_apple_pay_payment_intent(&self, request: StripePayRequest) -> (r: Result<
        (HttpRequest, StripePaymentFlowType),
        PaymentProviderError,
    >)
        ensures
            stripe_intent_started(self.stripe_provider, request, StripePaymentFlowType::ApplePay, r),
    {
        self.stripe_create_payment_intent(request, StripePaymentFlowType::ApplePay)
    }

    /// Reads the reply to a payment-intent request made for `flow`.
    pub fn stripe_payment_intent_finish(
        reply: &HttpReply,
        payload: Result<StripeApiPaymentResponse, String>,
        flow: StripePaymentFlowType,
    ) -> (r: Result<StripePaymentResponse, PaymentProviderError>)
        ensures
            stripe_intent_finished(*reply, payload, flow, r),
    {
        match StripeAdapter::payment_from_reply(reply, payload) {
            Err(e) => Err(e),
            Ok(i) => Ok(
                StripePaymentResponse {
                    provider: PaymentProvider::Stripe,
                    flow,
                    status: i.status,
                    amount: i.amount,
                    currency: i.currency,
                    payment_intent_id: i.id,
                },
            ),
        }
    }

    /// The request that looks up the Vipps payment with `reference`, made with `token`.
    pub fn vipps_get_payment_status(&self, reference: &str, token: &CachedToken) -> (r: Result<
        HttpRequest,
        PaymentProviderError,
    >)
        ensures
            self.vipps_provider is None ==> (r matches Err(e) && e@ == ProviderErrorView::NotConfigured(
                PaymentType::Vipps,
            )),
            self.vipps_provider matches Some(p) ==> (r matches Ok(h) && h@
                == payment_status_request_spec(p.config, token.token@, reference@)),
    {
        match &self.vipps_provider {
            None => Err(PaymentProviderError::NotConfigured(PaymentType::Vipps)),
            Some(p) => Ok(p.payment_status_request(reference, token)),
        }
    }

    /// Reads the reply to a payment lookup: the reference, the raw state, the
    /// status that the state stands for, and the currency.
    pub fn vipps_get_payment_status_finish(
        reply: &HttpReply,
        payload: Result<VippsPaymentDetails, String>,
    ) -> (r: Result<VippsPaymentResult, PaymentProviderError>)
        ensures
            match payment_status_outcome(*reply, payload) {
                Err(e) => r matches Err(x) && x@ == e,
                Ok(d) => r matches Ok(v) && {
                    &&& v.reference == d.reference
                    &&& v.raw_status == d.state
                    &&& v.status == status_of_state(d.state@)
                    &&& v.currency == d.currency
                },
            },
    {
        match VippsProvider::payment_status_from_reply(reply, payload) {
            Err(e) => Err(e),
            Ok(d) => {
                let status = status_from_state(d.state.as_str());
                Ok(VippsPaymentResult { reference: d.reference, raw_status: d.state, status, currency: d.currency })
            },
        }
    }
}

/// How a payment intent for `request` and `flow` starts with `adapter`:
/// refused when Stripe is not configured or the amount is zero, otherwise
/// the request for the intent, with the flow it was asked for.
pub open spec fn stripe_intent_start(
    adapter: Option<StripeAdapter>,
    request: StripePayRequest,
    flow: StripePaymentFlowType,
) -> Result<(HttpRequestView, StripePaymentFlowType), ProviderErrorView> {
    match adapter {
        None => Err(ProviderErrorView::NotConfigured(PaymentType::Stripe)),
        Some(a) => if request.amount == 0 {
            Err(ProviderErrorView::InvalidAmount(0))
        } else {
            Ok(
                (
                    intent_request_spec(
                        a.config,
                        form_urlencoded(
                            intent_form_fields(
                                request.amount,
                                stripe_currency(request.currency),
                                request.description.deep_view(),
                            ),
                        ),
                    ),
                    flow,
                ),
            )
        },
    }
}

/// Whether `r` is how the reply to a payment-intent request made for `flow`
/// is reported: the error the reply gives, or the created intent with that flow.
pub open spec fn stripe_intent_finished(
    reply: HttpReply,
    payload: Result<StripeApiPaymentResponse, String>,
    flow: StripePaymentFlowType,
    r: Result<StripePaymentResponse, PaymentProviderError>,
) -> bool {
    match intent_outcome(reply, payload) {
        Err(e) => r matches Err(x) && x@ == e,
        Ok(i) => r == Ok::<StripePaymentResponse, PaymentProviderError>(
            StripePaymentResponse {
                provider: PaymentProvider::Stripe,
                flow,
                status: i.status,
                amount: i.amount,
                currency: i.currency,
                payment_intent_id: i.id,
            },
        ),
    }
}

/// A started intent taken by its views.
pub open spec fn intent_start_view(
    r: Result<(HttpRequest, StripePaymentFlowType), PaymentProviderError>,
) -> Result<(HttpRequestView, StripePaymentFlowType), ProviderErrorView> {
    match r {
        Ok((h, f)) => Ok((h@, f)),
        Err(e) => Err(e@),
    }
}

/// Whether `r` is how a payment intent for `request` and `flow` starts with `adapter`.
pub open spec fn stripe_intent_started(
    adapter: Option<StripeAdapter>,
    request: StripePayRequest,
    flow: StripePaymentFlowType,
    r: Result<(HttpRequest, StripePaymentFlowType), PaymentProviderError>,
) -> bool {
    intent_start_view(r) == stripe_intent_start(adapter, request, flow)
}

impl VippsPaymentStatusResult {
    /// The lookup result without its currency.
    pub fn from_result(r: VippsPaymentResult) -> (s: Self)
        ensures
            s.reference == r.reference,
            s.raw_status == r.raw_status,
            s.status == r.status,
    {
        VippsPaymentStatusResult { reference: r.reference, raw_status: r.raw_status, status: r.status }
    }
}

impl VippsTokenResponse {
    /// The token as the service reports it.
    pub fn from_token(t: CachedToken) -> (r: Self)
        ensures
            r.token == t.token,
            r.expires_at == t.expires_at,
    {
        VippsTokenResponse { token: t.token, expires_at: t.expires_at }
    }
}

} // verus!
