use solari::api::{
    generic_pay_request, generic_status_reference, generic_status_response, stripe_webhook_event,
    vipps_pay_request, vipps_pay_response, vipps_pay_response_body, vipps_status_reference,
    vipps_status_response_body, vipps_webhook_event,
};
use solari::{
    GenericPayBody, GenericStatusQuery, PayRequest, PaymentProvider, PaymentProviderError,
    PaymentProviderResponse, PaymentStatus, PaymentType, Solari, SolariApi, SolariApiError,
    SolariError, StripeConfig, StripeWebhookData, StripeWebhookPayload, VippsConfig, VippsPayBody,
    VippsPaymentResult, VippsPaymentStatusResult, VippsStatusQuery, VippsWebhookPayload,
};

#[test]
fn vipps_route_error_statuses() {
    let status = |e: PaymentProviderError| SolariApiError::Payment(e).status_code();
    assert_eq!(status(PaymentProviderError::InvalidAmount(0)), 400);
    assert_eq!(status(PaymentProviderError::NotConfigured(PaymentType::Vipps)), 400);
    assert_eq!(status(PaymentProviderError::UnsupportedOperation("x".to_string())), 400);
    assert_eq!(status(PaymentProviderError::AuthenticationFailed), 401);
    assert_eq!(status(PaymentProviderError::Timeout), 504);
    assert_eq!(status(PaymentProviderError::ProviderUnavailable), 503);
    assert_eq!(status(PaymentProviderError::RequestFailed("x".to_string())), 502);
    assert_eq!(status(PaymentProviderError::NetworkError("x".to_string())), 502);
    assert_eq!(status(PaymentProviderError::Request("x".to_string())), 502);
    assert_eq!(status(PaymentProviderError::TimeError("x".to_string())), 500);
    assert_eq!(status(PaymentProviderError::ReadLockError("x".to_string())), 500);
    assert_eq!(status(PaymentProviderError::WriteLockError("x".to_string())), 500);
    assert_eq!(SolariApiError::BadRequest("bad".to_string()).status_code(), 400);
    let (code, body) = SolariApiError::Payment(PaymentProviderError::Timeout).into_response();
    assert_eq!((code, body.error.as_str()), (504, "payment request timed out"));
    assert_eq!(SolariApiError::BadRequest("bad".to_string()).message(), "bad");
}

#[test]
fn generic_route_error_statuses() {
    assert_eq!(SolariError::UnsupportedOperation("refund".to_string()).into_response(), (501, "payment operation is not supported: refund".to_string()));
    assert_eq!(SolariError::ApiError(418, "teapot".to_string()).into_response(), (418, "teapot".to_string()));
    assert_eq!(SolariError::NotConfigured(PaymentType::Stripe).into_response(), (400, "payment provider stripe is not configured".to_string()));
    assert_eq!(SolariError::Timeout.into_response().0, 504);
    let converted = SolariError::from_provider_error(PaymentProviderError::RequestFailed("declined".to_string()));
    assert_eq!(converted.into_response(), (502, "payment request failed: declined".to_string()));
    assert!(matches!(SolariError::from_provider_error(PaymentProviderError::InvalidAmount(3)), SolariError::InvalidAmount(3)));
}

#[test]
fn vipps_route_bodies() {
    match vipps_pay_request(VippsPayBody { amount: 67, return_url: None }) {
        PayRequest::Vipps(v) => assert_eq!(v.amount, 67),
        other => panic!("unexpected {other:?}"),
    }
    let payment = PaymentProviderResponse {
        provider: PaymentType::Vipps,
        status: PaymentStatus::Pending,
        paid: 0,
        reference: Some("r".to_string()),
        redirect_url: Some("u".to_string()),
        return_url: None,
    };
    let full = vipps_pay_response(payment.clone());
    assert_eq!((full.provider.as_str(), full.status.as_str()), ("vipps", "pending"));
    let body = vipps_pay_response_body(payment);
    assert_eq!(body.reference.as_deref(), Some("r"));
    assert_eq!(body.redirect_url.as_deref(), Some("u"));
    assert_eq!(vipps_status_reference(&VippsStatusQuery { reference: "  ref-7 ".to_string() }).ok(), Some("ref-7"));
    match vipps_status_reference(&VippsStatusQuery { reference: " \t".to_string() }) {
        Err(SolariApiError::BadRequest(m)) => assert_eq!(m, "missing or empty 'reference' query parameter"),
        other => panic!("unexpected {other:?}"),
    }
    let status = vipps_status_response_body(VippsPaymentStatusResult { reference: None, raw_status: "EXPIRED".to_string(), status: PaymentStatus::Failed });
    assert_eq!(status.status, "failed");
    assert_eq!(status.raw_status, "EXPIRED");
}

#[test]
fn generic_route_requests() {
    let body = |return_url: Option<&str>| GenericPayBody { amount: 50, return_url: return_url.map(|u| u.to_string()), currency: Some("nok".to_string()), description: None };
    assert!(matches!(generic_pay_request(PaymentProvider::Vipps, body(Some("https://b"))), Ok(PayRequest::Vipps(_))));
    assert!(matches!(generic_pay_request(PaymentProvider::Stripe, body(None)), Ok(PayRequest::Stripe(_))));
    match generic_pay_request(PaymentProvider::Stripe, body(Some("https://b"))) {
        Err(SolariError::ApiError(400, m)) => assert_eq!(m, "'return_url' is only supported for provider 'vipps'"),
        other => panic!("unexpected {other:?}"),
    }
    let q = |p: PaymentProvider, r: &str| GenericStatusQuery { provider: p, reference: r.to_string() };
    assert_eq!(generic_status_reference(&q(PaymentProvider::Vipps, " abc ")).ok(), Some("abc"));
    match generic_status_reference(&q(PaymentProvider::Stripe, "abc")) {
        Err(SolariError::ApiError(400, m)) => assert_eq!(m, "status endpoint is currently only supported for provider 'vipps'"),
        other => panic!("unexpected {other:?}"),
    }
    match generic_status_reference(&q(PaymentProvider::Stripe, "  ")) {
        Err(SolariError::ApiError(400, m)) => assert_eq!(m, "missing or empty 'reference' query parameter"),
        other => panic!("unexpected {other:?}"),
    }
    let r = generic_status_response(VippsPaymentResult { reference: Some("x".to_string()), raw_status: "CREATED".to_string(), status: PaymentStatus::Pending, currency: Some("NOK".to_string()) });
    assert_eq!(r.provider, PaymentProvider::Vipps);
    assert_eq!(r.status, "pending");
    assert_eq!(r.raw_status.as_deref(), Some("CREATED"));
    assert_eq!(r.paid, 0);
}

#[test]
fn server_builders_and_address() {
    assert_eq!(SolariApi::new().listen_address(), "localhost:6767");
    let api = SolariApi::new().domain("0.0.0.0".to_string()).port(3001);
    assert_eq!(api.listen_address(), "0.0.0.0:3001");
    let vipps = VippsConfig::new("https://v".to_string(), "a".to_string(), "b".to_string(), "c".to_string(), "d".to_string());
    let stripe = StripeConfig::new("https://s".to_string(), "sk".to_string(), "pk".to_string(), "wh".to_string(), None);
    let solari = Solari::new().vipps(vipps).stripe(stripe).port(8080);
    assert_eq!(solari.listen_address(), "localhost:8080");
    let service = solari.build_payment_service();
    assert!(service.vipps_provider.is_some() && service.stripe_provider.is_some());
    assert!(SolariApi::new().vipps(VippsConfig::new(String::new(), String::new(), String::new(), String::new(), String::new())).payment_module.vipps_provider.is_some());
}

#[test]
fn webhook_events_name_their_provider() {
    let v = VippsWebhookPayload {
        msn: "1".to_string(), reference: "r".to_string(), psp_reference: None, name: "AUTHORIZED".to_string(),
        currency: "NOK".to_string(), amount: 100, timestamp: "t".to_string(), idempotency_key: None, success: true,
    };
    let e = vipps_webhook_event(v);
    assert_eq!(e.provider, PaymentType::Vipps);
    assert_eq!(e.payload.amount, 100);
    let s = StripeWebhookPayload { id: "evt".to_string(), object: "event".to_string(), event_type: "payment_intent.succeeded".to_string(), created: 1, data: StripeWebhookData { object: "{}".to_string() } };
    assert_eq!(stripe_webhook_event(s).provider, PaymentType::Stripe);
}
