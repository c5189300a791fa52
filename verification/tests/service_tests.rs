use solari::{
    CachedToken, HttpReply, PayAction, PayFlow, PayReply, PayRequest, PaymentProviderError,
    PaymentStatus, PaymentType, SolariPaymentService, StripeApiPaymentResponse, StripeConfig,
    StripePayRequest, StripePaymentFlowType, TokenPlan, VippsAccessTokenResponse, VippsConfig,
    VippsCreatePaymentResponse, VippsExpiresIn, VippsPayRequest, VippsPaymentDetails,
    VippsPaymentStatusResult, VippsTokenResponse,
};

fn vipps_config() -> VippsConfig {
    VippsConfig::new(
        "https://apitest.vipps.no".to_string(),
        "id".to_string(),
        "secret".to_string(),
        "key".to_string(),
        "msn".to_string(),
    )
}

fn stripe_config() -> StripeConfig {
    StripeConfig::new("https://api.stripe.com".to_string(), "sk".to_string(), "pk".to_string(), "wh".to_string(), None)
}

fn ok_reply() -> HttpReply {
    HttpReply { status: 200, status_text: "200 OK".to_string(), body: "{}".to_string() }
}

fn vipps_pay(amount: u32) -> PayRequest {
    PayRequest::Vipps(VippsPayRequest { amount, return_url: None })
}

fn token_payload(token: &str, seconds: u64) -> Result<VippsAccessTokenResponse, String> {
    Ok(VippsAccessTokenResponse { access_token: token.to_string(), expires_in: Some(VippsExpiresIn::Number(seconds)) })
}

#[test]
fn unconfigured_providers_are_refused() {
    let s = SolariPaymentService::new();
    let (flow, action) = s.pay(vipps_pay(10), 0);
    assert!(matches!(flow, PayFlow::Finished));
    assert!(matches!(action, PayAction::Done(Err(PaymentProviderError::NotConfigured(PaymentType::Vipps)))));
    let (_, action) = s.pay(PayRequest::Stripe(StripePayRequest { amount: 10, currency: None, description: None }), 0);
    assert!(matches!(action, PayAction::Done(Err(PaymentProviderError::NotConfigured(PaymentType::Stripe)))));
    assert!(matches!(s.vipps_fetch_access_token(), Err(PaymentProviderError::NotConfigured(PaymentType::Vipps))));
    assert!(matches!(s.vipps_get_valid_token(0), Err(PaymentProviderError::NotConfigured(PaymentType::Vipps))));
}

#[test]
fn zero_amounts_are_refused() {
    let mut s = SolariPaymentService::new();
    s.vipps(vipps_config()).stripe(stripe_config());
    let (_, action) = s.pay(vipps_pay(0), 0);
    assert!(matches!(action, PayAction::Done(Err(PaymentProviderError::InvalidAmount(0)))));
    let (_, action) = s.pay(PayRequest::Stripe(StripePayRequest { amount: 0, currency: None, description: None }), 0);
    assert!(matches!(action, PayAction::Done(Err(PaymentProviderError::InvalidAmount(0)))));
}

#[test]
fn vipps_payment_fetches_token_then_creates_payment() {
    let mut s = SolariPaymentService::new();
    s.vipps(vipps_config());
    let (flow, action) = s.pay(PayRequest::Vipps(VippsPayRequest { amount: 100, return_url: Some("https://back".to_string()) }), 1000);
    match &action {
        PayAction::Send(h) => assert_eq!(h.url, "https://apitest.vipps.no/accesstoken/get"),
        other => panic!("unexpected {other:?}"),
    }
    assert!(matches!(flow, PayFlow::AwaitingVippsToken { amount: 100, .. }));
    let (flow, action) = s.pay_continue(flow, PayReply::VippsToken(ok_reply(), token_payload("tok", 3600)), 1001);
    match &action {
        PayAction::SendVippsPayment(h, payload) => {
            assert_eq!(h.url, "https://apitest.vipps.no/epayment/v1/payments");
            assert_eq!(h.headers[0].1, "Bearer tok");
            assert_eq!(payload.amount.value, 10000);
            assert_eq!(payload.return_url, "https://back");
            assert_eq!(payload.reference, "solari-1001-100");
        }
        other => panic!("unexpected {other:?}"),
    }
    assert_eq!(s.vipps_provider.as_ref().unwrap().token_cache.as_ref().unwrap().expires_at, 4601);
    let created = Ok(VippsCreatePaymentResponse { reference: Some("solari-1001-100".to_string()), redirect_url: Some("https://landing".to_string()) });
    let (flow, action) = s.pay_continue(flow, PayReply::VippsPayment(ok_reply(), created), 1002);
    assert!(matches!(flow, PayFlow::Finished));
    match action {
        PayAction::Done(Ok(r)) => {
            assert_eq!(r.provider, PaymentType::Vipps);
            assert_eq!(r.status, PaymentStatus::Pending);
            assert_eq!(r.paid, 0);
            assert_eq!(r.reference.as_deref(), Some("solari-1001-100"));
            assert_eq!(r.redirect_url.as_deref(), Some("https://landing"));
            assert_eq!(r.return_url.as_deref(), Some("https://back"));
        }
        other => panic!("unexpected {other:?}"),
    }
}

#[test]
fn vipps_payment_reuses_cached_token() {
    let mut s = SolariPaymentService::new();
    s.vipps(vipps_config());
    s.vipps_provider.as_mut().unwrap().store_token(CachedToken { token: "cached".to_string(), expires_at: 2000 });
    let (flow, action) = s.pay(vipps_pay(5), 1999);
    assert!(matches!(flow, PayFlow::AwaitingVippsPayment { .. }));
    match action {
        PayAction::SendVippsPayment(h, p) => {
            assert_eq!(h.headers[0].1, "Bearer cached");
            assert_eq!(p.return_url, "https://example.com/checkout/complete");
        }
        other => panic!("unexpected {other:?}"),
    }
    let (flow, _) = s.pay(vipps_pay(5), 2000);
    assert!(matches!(flow, PayFlow::AwaitingVippsToken { .. }));
}

#[test]
fn unsent_requests_end_the_payment() {
    let mut s = SolariPaymentService::new();
    s.vipps(vipps_config());
    let (flow, _) = s.pay(vipps_pay(5), 0);
    let (flow, action) = s.pay_continue(flow, PayReply::Unsent("connection refused".to_string()), 1);
    assert!(matches!(flow, PayFlow::Finished));
    match action {
        PayAction::Done(Err(PaymentProviderError::Request(m))) => assert_eq!(m, "connection refused"),
        other => panic!("unexpected {other:?}"),
    }
    assert!(s.vipps_provider.as_ref().unwrap().token_cache.is_none());
}

#[test]
fn failed_token_reply_ends_the_payment() {
    let mut s = SolariPaymentService::new();
    s.vipps(vipps_config());
    let (flow, _) = s.pay(vipps_pay(5), 0);
    let bad = HttpReply { status: 403, status_text: "403 Forbidden".to_string(), body: "nope".to_string() };
    let (_, action) = s.pay_continue(flow, PayReply::VippsToken(bad, token_payload("t", 1)), 1);
    match action {
        PayAction::Done(Err(PaymentProviderError::RequestFailed(m))) => {
            assert_eq!(m, "vipps access token request failed (403 Forbidden): nope")
        }
        other => panic!("unexpected {other:?}"),
    }
}

#[test]
fn stripe_payment_reports_intent_as_reference() {
    let mut s = SolariPaymentService::new();
    s.stripe(stripe_config());
    let (flow, action) = s.pay(PayRequest::Stripe(StripePayRequest { amount: 2500, currency: None, description: None }), 0);
    match &action {
        PayAction::Send(h) => assert_eq!(
            h.body.as_deref(),
            Some("amount=2500&currency=nok&confirm=false&confirmation_method=automatic&payment_method_types%5B%5D=card")
        ),
        other => panic!("unexpected {other:?}"),
    }
    let intent = Ok(StripeApiPaymentResponse { id: "pi_3".to_string(), status: "requires_confirmation".to_string(), amount: 2500, currency: "nok".to_string() });
    let (_, action) = s.pay_continue(flow, PayReply::StripeIntent(ok_reply(), intent), 1);
    match action {
        PayAction::Done(Ok(r)) => {
            assert_eq!(r.provider, PaymentType::Stripe);
            assert_eq!(r.status, PaymentStatus::Pending);
            assert_eq!(r.paid, 0);
            assert_eq!(r.reference.as_deref(), Some("pi_3"));
        }
        other => panic!("unexpected {other:?}"),
    }
}

#[test]
fn token_operations() {
    let mut s = SolariPaymentService::new();
    s.vipps(vipps_config());
    assert!(s.vipps_fetch_access_token().is_ok());
    let t = SolariPaymentService::vipps_fetch_access_token_finish(&ok_reply(), token_payload("fresh", 60), 100).unwrap();
    assert_eq!(t.token, "fresh");
    assert_eq!(t.expires_at, 160);
    assert!(s.vipps_provider.as_ref().unwrap().token_cache.is_none());
    assert!(matches!(s.vipps_get_valid_token(100), Ok(TokenPlan::Fetch(_))));
    let stored = s.vipps_get_valid_token_finish(&ok_reply(), token_payload("kept", 60), 100).unwrap();
    assert_eq!(stored.token, "kept");
    match s.vipps_get_valid_token(159) {
        Ok(TokenPlan::Cached(t)) => assert_eq!(VippsTokenResponse::from_token(t).token, "kept"),
        other => panic!("unexpected {other:?}"),
    }
}

#[test]
fn stripe_intent_operations() {
    let mut s = SolariPaymentService::new();
    let req = || StripePayRequest { amount: 990, currency: Some("SEK".to_string()), description: Some("Tea".to_string()) };
    assert!(matches!(s.stripe_create_card_payment_intent(req()), Err(PaymentProviderError::NotConfigured(PaymentType::Stripe))));
    s.stripe(stripe_config());
    let (h, flow) = s.stripe_create_apple_pay_payment_intent(req()).unwrap();
    assert_eq!(flow, StripePaymentFlowType::ApplePay);
    assert_eq!(
        h.body.as_deref(),
        Some("amount=990&currency=sek&confirm=false&description=Tea&confirmation_method=automatic&payment_method_types%5B%5D=card")
    );
    let intent = Ok(StripeApiPaymentResponse { id: "pi_4".to_string(), status: "requires_payment_method".to_string(), amount: 990, currency: "sek".to_string() });
    let r = SolariPaymentService::stripe_payment_intent_finish(&ok_reply(), intent, StripePaymentFlowType::ApplePay).unwrap();
    assert_eq!(r.flow, StripePaymentFlowType::ApplePay);
    assert_eq!(r.payment_intent_id, "pi_4");
    assert_eq!(r.currency, "sek");
}

#[test]
fn payment_status_operations() {
    let mut s = SolariPaymentService::new();
    s.vipps(vipps_config());
    let token = CachedToken { token: "t".to_string(), expires_at: 1 };
    let h = s.vipps_get_payment_status("ref-1", &token).unwrap();
    assert_eq!(h.url, "https://apitest.vipps.no/epayment/v1/payments/ref-1");
    let details = Ok(VippsPaymentDetails { reference: Some("ref-1".to_string()), state: "AUTHORIZED".to_string(), currency: Some("NOK".to_string()) });
    let r = SolariPaymentService::vipps_get_payment_status_finish(&ok_reply(), details).unwrap();
    assert_eq!(r.status, PaymentStatus::Completed);
    assert_eq!(r.raw_status, "AUTHORIZED");
    assert_eq!(r.currency.as_deref(), Some("NOK"));
    let short = VippsPaymentStatusResult::from_result(r);
    assert_eq!(short.reference.as_deref(), Some("ref-1"));
}

#[test]
fn card_and_apple_pay_intents_match_the_general_intent() {
    let mut s = SolariPaymentService::new();
    s.stripe(stripe_config());
    let req = || StripePayRequest { amount: 2500, currency: None, description: Some("   ".to_string()) };
    let (card, card_flow) = s.stripe_create_card_payment_intent(req()).unwrap();
    let (general, general_flow) = s.stripe_create_payment_intent(req(), StripePaymentFlowType::Card).unwrap();
    assert_eq!(card_flow, StripePaymentFlowType::Card);
    assert_eq!(general_flow, StripePaymentFlowType::Card);
    assert_eq!(card.url, general.url);
    assert_eq!(card.headers, general.headers);
    assert_eq!(card.body, general.body);
    assert_eq!(
        card.body.as_deref(),
        Some("amount=2500&currency=nok&confirm=false&confirmation_method=automatic&payment_method_types%5B%5D=card")
    );
    let (apple, apple_flow) = s.stripe_create_apple_pay_payment_intent(req()).unwrap();
    assert_eq!(apple_flow, StripePaymentFlowType::ApplePay);
    assert_eq!(apple.body, card.body);
    assert!(matches!(
        s.stripe_create_payment_intent(StripePayRequest { amount: 0, currency: None, description: None }, StripePaymentFlowType::Card),
        Err(PaymentProviderError::InvalidAmount(0))
    ));
}

#[test]
fn failed_token_reply_with_huge_lifetime_leaves_cache() {
    let mut s = SolariPaymentService::new();
    s.vipps(vipps_config());
    let failed = HttpReply { status: 500, status_text: "500 Internal Server Error".to_string(), body: "down".to_string() };
    match s.vipps_get_valid_token_finish(&failed, token_payload("t", u64::MAX), u64::MAX) {
        Err(PaymentProviderError::RequestFailed(m)) => {
            assert_eq!(m, "vipps access token request failed (500 Internal Server Error): down")
        }
        other => panic!("unexpected {other:?}"),
    }
    assert!(matches!(
        s.vipps_get_valid_token_finish(&ok_reply(), token_payload("  ", u64::MAX), u64::MAX),
        Err(PaymentProviderError::AuthenticationFailed)
    ));
    assert!(s.vipps_provider.as_ref().unwrap().token_cache.is_none());
    assert!(matches!(
        SolariPaymentService::vipps_fetch_access_token_finish(&failed, token_payload("t", u64::MAX), 7),
        Err(PaymentProviderError::RequestFailed(_))
    ));
}
