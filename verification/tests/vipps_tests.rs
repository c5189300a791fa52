use solari::{
    CachedToken, HttpMethod, HttpReply, PaymentProviderError, PaymentStatus,
    VippsAccessTokenResponse, VippsConfig, VippsCreatePaymentRequest, VippsCreatePaymentResponse,
    VippsExpiresIn, VippsPaymentDetails, VippsProvider,
};
use solari::vipps::status_from_state;

fn config(base: &str) -> VippsConfig {
    VippsConfig::new(
        base.to_string(),
        "client-id".to_string(),
        "client-secret".to_string(),
        "sub-key".to_string(),
        "123456".to_string(),
    )
}

fn reply(status: u16, text: &str, body: &str) -> HttpReply {
    HttpReply { status, status_text: text.to_string(), body: body.to_string() }
}

fn pairs(h: &[(String, String)]) -> Vec<(&str, &str)> {
    h.iter().map(|(a, b)| (a.as_str(), b.as_str())).collect()
}

#[test]
fn config_keeps_its_fields() {
    let c = config("https://apitest.vipps.no");
    assert_eq!(c.base_url, "https://apitest.vipps.no");
    assert_eq!(c.client_id, "client-id");
    assert_eq!(c.client_secret, "client-secret");
    assert_eq!(c.subscription_key, "sub-key");
    assert_eq!(c.merchant_serial_number, "123456");
}

#[test]
fn token_lifetime_from_reply() {
    let with = |e: Option<VippsExpiresIn>| VippsAccessTokenResponse { access_token: "t".to_string(), expires_in: e };
    assert_eq!(with(Some(VippsExpiresIn::Number(900))).expires_in_seconds(), 900);
    assert_eq!(with(Some(VippsExpiresIn::Text("86400".to_string()))).expires_in_seconds(), 86400);
    assert_eq!(with(Some(VippsExpiresIn::Text("soon".to_string()))).expires_in_seconds(), 3600);
    assert_eq!(with(Some(VippsExpiresIn::Text("".to_string()))).expires_in_seconds(), 3600);
    assert_eq!(with(None).expires_in_seconds(), 3600);
}

#[test]
fn create_payment_payload_in_ore() {
    let r = VippsCreatePaymentRequest::new(100, "https://shop/back".to_string(), "WEB_REDIRECT".to_string(), 1700000000);
    assert_eq!(r.request_id, "solari-req-1700000000-100");
    assert_eq!(r.reference, "solari-1700000000-100");
    assert_eq!(r.amount.currency, "NOK");
    assert_eq!(r.amount.value, 10000);
    assert_eq!(r.payment_method.kind, "WALLET");
    assert_eq!(r.return_url, "https://shop/back");
    assert_eq!(r.user_flow, "WEB_REDIRECT");
    let largest = VippsCreatePaymentRequest::new(42949672, String::new(), String::new(), 0);
    assert_eq!(largest.amount.value, 4294967200);
}

#[test]
fn access_token_request_shape() {
    let p = VippsProvider::new(config("https://apitest.vipps.no//"));
    assert!(p.token_cache.is_none());
    let r = p.access_token_request();
    assert_eq!(r.method, HttpMethod::Post);
    assert_eq!(r.url, "https://apitest.vipps.no/accesstoken/get");
    assert_eq!(
        pairs(&r.headers),
        vec![
            ("Content-Type", "application/json"),
            ("client_id", "client-id"),
            ("client_secret", "client-secret"),
            ("Ocp-Apim-Subscription-Key", "sub-key"),
            ("Merchant-Serial-Number", "123456"),
        ]
    );
    assert!(r.body.is_none());
}

#[test]
fn access_token_reply_outcomes() {
    let ok_payload = || Ok(VippsAccessTokenResponse { access_token: "abc".to_string(), expires_in: Some(VippsExpiresIn::Text("120".to_string())) });
    let t = VippsProvider::token_from_reply(&reply(200, "200 OK", "{}"), ok_payload(), 1000).unwrap();
    assert_eq!(t.token, "abc");
    assert_eq!(t.expires_at, 1120);

    match VippsProvider::token_from_reply(&reply(401, "401 Unauthorized", "denied"), ok_payload(), 1000) {
        Err(PaymentProviderError::RequestFailed(m)) => {
            assert_eq!(m, "vipps access token request failed (401 Unauthorized): denied")
        }
        other => panic!("unexpected {other:?}"),
    }
    match VippsProvider::token_from_reply(&reply(200, "200 OK", "x"), Err("bad json".to_string()), 1000) {
        Err(PaymentProviderError::Request(m)) => assert_eq!(m, "bad json"),
        other => panic!("unexpected {other:?}"),
    }
    let blank = Ok(VippsAccessTokenResponse { access_token: "  \t".to_string(), expires_in: None });
    assert!(matches!(
        VippsProvider::token_from_reply(&reply(200, "200 OK", ""), blank, 1000),
        Err(PaymentProviderError::AuthenticationFailed)
    ));
}

#[test]
fn cached_token_validity() {
    let mut p = VippsProvider::new(config("https://x"));
    assert!(p.cached_token(0).is_none());
    p.store_token(CachedToken { token: "tok".to_string(), expires_at: 500 });
    assert_eq!(p.cached_token(499).map(|t| t.token), Some("tok".to_string()));
    assert!(p.cached_token(500).is_none());
    assert!(p.cached_token(501).is_none());
}

#[test]
fn create_payment_request_shape() {
    let p = VippsProvider::new(config("https://apitest.vipps.no/"));
    let token = CachedToken { token: "tok".to_string(), expires_at: 9 };
    let (payload, r) = p.create_payment_request(67, None, &token, 1725029869);
    assert_eq!(payload.return_url, "https://example.com/checkout/complete");
    assert_eq!(payload.user_flow, "WEB_REDIRECT");
    assert_eq!(payload.amount.value, 6700);
    assert_eq!(r.url, "https://apitest.vipps.no/epayment/v1/payments");
    assert_eq!(
        pairs(&r.headers),
        vec![
            ("Authorization", "Bearer tok"),
            ("Content-Type", "application/json"),
            ("Accept", "application/json"),
            ("Merchant-Serial-Number", "123456"),
            ("Ocp-Apim-Subscription-Key", "sub-key"),
            ("Idempotency-Key", "solari-req-1725029869-67"),
        ]
    );
    let (payload, _) = p.create_payment_request(1, Some("https://shop/done"), &token, 5);
    assert_eq!(payload.return_url, "https://shop/done");
}

#[test]
fn create_payment_reply_outcomes() {
    let created = || Ok(VippsCreatePaymentResponse { reference: Some("r1".to_string()), redirect_url: Some("https://pay".to_string()) });
    let ok = VippsProvider::payment_from_reply(&reply(201, "201 Created", ""), created()).unwrap();
    assert_eq!(ok.reference.as_deref(), Some("r1"));
    match VippsProvider::payment_from_reply(&reply(400, "400 Bad Request", "No body"), created()) {
        Err(PaymentProviderError::RequestFailed(m)) => assert_eq!(m, "vipps create payment failed (400 Bad Request): No body"),
        other => panic!("unexpected {other:?}"),
    }
}

#[test]
fn payment_lookup_request_and_states() {
    let p = VippsProvider::new(config("https://apitest.vipps.no"));
    let token = CachedToken { token: "tok".to_string(), expires_at: 9 };
    let r = p.payment_status_request("solari-1-2", &token);
    assert_eq!(r.method, HttpMethod::Get);
    assert_eq!(r.url, "https://apitest.vipps.no/epayment/v1/payments/solari-1-2");
    assert_eq!(status_from_state("CREATED"), PaymentStatus::Pending);
    assert_eq!(status_from_state("AUTHORIZED"), PaymentStatus::Completed);
    assert_eq!(status_from_state("ABORTED"), PaymentStatus::Cancelled);
    assert_eq!(status_from_state("TERMINATED"), PaymentStatus::Cancelled);
    assert_eq!(status_from_state("EXPIRED"), PaymentStatus::Failed);
    assert_eq!(status_from_state("SOMETHING"), PaymentStatus::Pending);
    let details = Ok(VippsPaymentDetails { reference: Some("x".to_string()), state: "CREATED".to_string(), currency: None });
    match VippsProvider::payment_status_from_reply(&reply(404, "404 Not Found", "gone"), details) {
        Err(PaymentProviderError::RequestFailed(m)) => assert_eq!(m, "vipps get payment failed (404 Not Found): gone"),
        other => panic!("unexpected {other:?}"),
    }
}
