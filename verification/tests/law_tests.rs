use solari::text::{parse_u64_str, u64_to_decimal};
use solari::{CachedToken, VippsAccessTokenResponse, VippsConfig, VippsExpiresIn, VippsProvider};
use solari::{PaymentProviderError, PaymentType, SolariApiError};

#[test]
fn decimal_text_reads_back() {
    for n in [0u64, 1, 9, 10, 3600, 86399, 1725029869, u64::MAX - 1, u64::MAX] {
        assert_eq!(parse_u64_str(&u64_to_decimal(n)), Some(n));
    }
}

#[test]
fn lifetime_text_counts_as_number() {
    for n in [0u64, 60, 3600, 86400] {
        let text = VippsAccessTokenResponse { access_token: "t".to_string(), expires_in: Some(VippsExpiresIn::Text(u64_to_decimal(n))) };
        let number = VippsAccessTokenResponse { access_token: "t".to_string(), expires_in: Some(VippsExpiresIn::Number(n)) };
        assert_eq!(text.expires_in_seconds(), number.expires_in_seconds());
    }
}

#[test]
fn repeated_token_lookups_agree_until_expiry() {
    let mut p = VippsProvider::new(VippsConfig::new(String::new(), String::new(), String::new(), String::new(), String::new()));
    p.store_token(CachedToken { token: "same".to_string(), expires_at: 100 });
    let first = p.cached_token(10).map(|t| t.token);
    let second = p.cached_token(99).map(|t| t.token);
    assert_eq!(first, Some("same".to_string()));
    assert_eq!(first, second);
    assert!(p.cached_token(100).is_none());
}

#[test]
fn client_mistakes_are_4xx_and_failures_5xx() {
    let status = |e: PaymentProviderError| SolariApiError::Payment(e).status_code();
    assert!((400..500).contains(&status(PaymentProviderError::NotConfigured(PaymentType::Stripe))));
    assert!((400..500).contains(&status(PaymentProviderError::AuthenticationFailed)));
    assert!((500..600).contains(&status(PaymentProviderError::NetworkError("x".to_string()))));
    assert!((500..600).contains(&status(PaymentProviderError::ReadLockError("x".to_string()))));
}
