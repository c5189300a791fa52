use solari::{ApplePayConfig, ApplePayProvider, PaymentProviderError, PaymentStatus, PaymentType};

fn full() -> ApplePayConfig {
    ApplePayConfig::new(
        "merchant.no.solari".to_string(),
        "Solari".to_string(),
        "web".to_string(),
        "shop.example".to_string(),
        "https://apple-pay-gateway.apple.com/paymentservices/startSession".to_string(),
        "CERT".to_string(),
        "KEY".to_string(),
    )
}

#[test]
fn apple_pay_config_keeps_its_fields() {
    let c = full();
    assert_eq!(c.merchant_id, "merchant.no.solari");
    assert_eq!(c.payment_processing_key_pem, "KEY");
}

#[test]
fn apple_pay_validation_names_blank_settings() {
    assert!(ApplePayProvider::new(full()).validate_config().is_ok());
    let mut c = full();
    c.merchant_id = "  ".to_string();
    c.initiative_context = String::new();
    c.payment_processing_key_pem = "\n".to_string();
    match ApplePayProvider::new(c).validate_config() {
        Err(PaymentProviderError::RequestFailed(m)) => assert_eq!(
            m,
            "apple_pay is missing required config values: merchant_id, initiative_context, payment_processing_key_pem"
        ),
        other => panic!("unexpected {other:?}"),
    }
}

#[test]
fn apple_pay_payment_outcomes() {
    let p = ApplePayProvider::new(full());
    assert!(matches!(p.pay(0, 10), Err(PaymentProviderError::InvalidAmount(0))));
    let r = p.pay(149, 1725029869).unwrap();
    assert_eq!(r.provider, PaymentType::ApplePay);
    assert_eq!(r.status, PaymentStatus::Pending);
    assert_eq!(r.paid, 0);
    assert_eq!(r.reference.as_deref(), Some("applepay-1725029869-149"));
    let mut c = full();
    c.merchant_display_name = String::new();
    assert!(matches!(ApplePayProvider::new(c).pay(5, 1), Err(PaymentProviderError::RequestFailed(_))));
}
