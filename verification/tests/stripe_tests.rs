use solari::{
    HttpMethod, HttpReply, PaymentProvider, PaymentProviderError, PaymentStatus, PaymentType,
    StripeAdapter, StripeApiPaymentResponse, StripeConfig, StripePaymentRequest, StripePaymentResult,
    StripeProvider,
};

fn config(account: Option<&str>) -> StripeConfig {
    StripeConfig::new(
        "https://api.stripe.com/".to_string(),
        "sk_test".to_string(),
        "pk_test".to_string(),
        "whsec".to_string(),
        account.map(|a| a.to_string()),
    )
}

#[test]
fn stripe_config_keeps_its_fields() {
    let c = config(Some("acct_1"));
    assert_eq!(c.api_base_url, "https://api.stripe.com/");
    assert_eq!(c.secret_key, "sk_test");
    assert_eq!(c.publishable_key, "pk_test");
    assert_eq!(c.webhook_secret, "whsec");
    assert_eq!(c.account_id.as_deref(), Some("acct_1"));
}

#[test]
fn immediate_stripe_payment_is_completed() {
    let r = StripeProvider::new(config(None)).pay(2500);
    assert_eq!(r.provider, PaymentType::Stripe);
    assert_eq!(r.status, PaymentStatus::Completed);
    assert_eq!(r.paid, 2500);
    assert!(r.reference.is_none() && r.redirect_url.is_none() && r.return_url.is_none());
}

#[test]
fn intent_request_form_body() {
    let adapter = StripeAdapter::new(config(None));
    let req = StripePaymentRequest {
        amount: 2500,
        currency: "NOK".to_string(),
        description: Some("  Solari Stripe smoke & test ".to_string()),
    };
    let h = adapter.create_payment_request(&req).unwrap();
    assert_eq!(h.method, HttpMethod::Post);
    assert_eq!(h.url, "https://api.stripe.com/v1/payment_intents");
    assert_eq!(
        h.body.as_deref(),
        Some("amount=2500&currency=nok&confirm=false&description=Solari+Stripe+smoke+%26+test&confirmation_method=automatic&payment_method_types%5B%5D=card")
    );
    let headers: Vec<(&str, &str)> = h.headers.iter().map(|(a, b)| (a.as_str(), b.as_str())).collect();
    assert_eq!(
        headers,
        vec![("Authorization", "Bearer sk_test"), ("Content-Type", "application/x-www-form-urlencoded")]
    );
}

#[test]
fn intent_request_blank_description_and_account() {
    let adapter = StripeAdapter::new(config(Some("acct_9")));
    let req = StripePaymentRequest { amount: 1, currency: "Eur".to_string(), description: Some("   ".to_string()) };
    let h = adapter.create_payment_request(&req).unwrap();
    assert_eq!(
        h.body.as_deref(),
        Some("amount=1&currency=eur&confirm=false&confirmation_method=automatic&payment_method_types%5B%5D=card")
    );
    assert_eq!(h.headers.last().map(|(a, b)| (a.as_str(), b.as_str())), Some(("Stripe-Account", "acct_9")));
}

#[test]
fn intent_request_refuses_zero() {
    let adapter = StripeAdapter::new(config(None));
    let req = StripePaymentRequest { amount: 0, currency: "nok".to_string(), description: None };
    assert!(matches!(adapter.create_payment_request(&req), Err(PaymentProviderError::InvalidAmount(0))));
}

#[test]
fn intent_reply_outcomes() {
    let ok = || Ok(StripeApiPaymentResponse { id: "pi_1".to_string(), status: "requires_payment_method".to_string(), amount: 2500, currency: "nok".to_string() });
    let reply = |s: u16, body: &str| HttpReply { status: s, status_text: String::new(), body: body.to_string() };
    let r = StripeAdapter::payment_from_reply(&reply(200, "{}"), ok()).unwrap();
    assert_eq!(r.id, "pi_1");
    assert_eq!(r.amount, 2500);
    match StripeAdapter::payment_from_reply(&reply(402, "card declined"), ok()) {
        Err(PaymentProviderError::RequestFailed(m)) => assert_eq!(m, "card declined"),
        other => panic!("unexpected {other:?}"),
    }
    assert!(matches!(StripeAdapter::payment_from_reply(&reply(200, ""), Err("eof".to_string())), Err(PaymentProviderError::Request(_))));
}

#[test]
fn card_payment_shortcut() {
    let req = StripeAdapter::card_payment(300);
    assert_eq!(req.amount, 300);
    assert_eq!(req.currency, "nok");
    assert_eq!(req.description.as_deref(), Some("Solari card payment"));
    let resp = StripeAdapter::pay_response(StripePaymentResult { id: "pi_2".to_string(), status: "s".to_string(), amount: 300, currency: "nok".to_string() });
    assert_eq!(resp.provider, PaymentProvider::Stripe);
    assert_eq!(resp.status, PaymentStatus::Pending);
    assert_eq!(resp.paid, 0);
    assert_eq!(resp.reference.as_deref(), Some("pi_2"));
}
