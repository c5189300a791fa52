use vstd::prelude::*;

use crate::error::{PaymentProviderError, ProviderErrorView};
use crate::payment::{PaymentProviderResponse, PaymentStatus, PaymentType};
use crate::text::{decimal, is_blank, join, join_strs, str_is_blank, u64_to_decimal};

verus! {

/// Merchant identity and certificates for Apple Pay.
#[derive(Debug, Clone)]
pub struct ApplePayConfig {
    pub merchant_id: String,
    pub merchant_display_name: String,
    pub initiative: String,
    pub initiative_context: String,
    pub merchant_validation_url: String,
    pub payment_processing_cert_pem: String,
    pub payment_processing_key_pem: String,
}

impl ApplePayConfig {
    pub fn new(
        merchant_id: String,
        merchant_display_name: String,
        initiative: String,
        initiative_context: String,
        merchant_validation_url: String,
        payment_processing_cert_pem: String,
        payment_processing_key_pem: String,
    ) -> (c: Self)
        ensures
            c.merchant_id == merchant_id,
            c.merchant_display_name == merchant_display_name,
            c.initiative == initiative,
            c.initiative_context == initiative_context,
            c.merchant_validation_url == merchant_validation_url,
            c.payment_processing_cert_pem == payment_processing_cert_pem,
            c.payment_processing_key_pem == payment_processing_key_pem,
    {
        ApplePayConfig {
            merchant_id,
            merchant_display_name,
            initiative,
            initiative_context,
            merchant_validation_url,
            payment_processing_cert_pem,
            payment_processing_key_pem,
        }
    }
}

/// `[name]` when `value` is blank, nothing otherwise.
pub open spec fn missing_if_blank(value: Seq<char>, name: Seq<char>) -> Seq<Seq<char>> {
    if is_blank(value) {
        seq![name]
    } else {
        Seq::empty()
    }
}

/// The names of the settings that are blank, in declaration order.
pub open spec fn missing_config_fields(c: ApplePayConfig) -> Seq<Seq<char>> {
    missing_if_blank(c.merchant_id@, "merchant_id"@)
        + missing_if_blank(c.merchant_display_name@, "merchant_display_name"@)
        + missing_if_blank(c.initiative@, "initiative"@)
        + missing_if_blank(c.initiative_context@, "initiative_context"@)
        + missing_if_blank(c.merchant_validation_url@, "merchant_validation_url"@)
        + missing_if_blank(c.payment_processing_cert_pem@, "payment_processing_cert_pem"@)
        + missing_if_blank(c.payment_processing_key_pem@, "payment_processing_key_pem"@)
}

/// The error for a configuration with the given blank settings.
pub open spec fn missing_config_error(missing: Seq<Seq<char>>) -> ProviderErrorView {
    ProviderErrorView::RequestFailed(
        "apple_pay is missing required config values: "@ + join(missing, ", "@),
    )
}

/// The reference of an Apple Pay payment started at second `now`.
pub open spec fn apple_pay_reference(now: u64, amount: u32) -> Seq<char> {
    "applepay-"@ + decimal(now as nat) + "-"@ + decimal(amount as nat)
}

fn note_if_blank(missing: &mut Vec<&str>, value: &String, name: &'static str)
    ensures
        final(missing).deep_view() == old(missing).deep_view() + missing_if_blank(value@, name@),
{
    let ghost before = missing.deep_view();
    if str_is_blank(value.as_str()) {
        missing.push(name);
        assert(missing.deep_view() =~= before + seq![name@]);
    } else {
        assert(before + Seq::<Seq<char>>::empty() =~= before);
    }
}

/// An Apple Pay merchant.
#[derive(Debug)]
pub struct ApplePayProvider {
    pub config: ApplePayConfig,
}

impl ApplePayProvider {
    pub fn new(config: ApplePayConfig) -> (p: Self)
        ensures
            p.config == config,
    {
        ApplePayProvider { config }
    }

    /// Succeeds when no setting is blank; otherwise `RequestFailed` names
    /// every blank setting, in declaration order.
    pub fn validate_config(&self) -> (r: Result<(), PaymentProviderError>)
        ensures
            missing_config_fields(self.config).len() == 0 ==> r is Ok,
            missing_config_fields(self.config).len() != 0 ==> (r matches Err(e) && e@
                == missing_config_error(missing_config_fields(self.config))),
    {
        let mut missing: Vec<&str> = Vec::new();
        assert(missing.deep_view() =~= Seq::<Seq<char>>::empty());
        note_if_blank(&mut missing, &self.config.merchant_id, "merchant_id");
        note_if_blank(&mut missing, &self.config.merchant_display_name, "merchant_display_name");
        note_if_blank(&mut missing, &self.config.initiative, "initiative");
        note_if_blank(&mut missing, &self.config.initiative_context, "initiative_context");
        note_if_blank(&mut missing, &self.config.merchant_validation_url, "merchant_validation_url");
        note_if_blank(
            &mut missing,
            &self.config.payment_processing_cert_pem,
            "payment_processing_cert_pem",
        );
        note_if_blank(
            &mut missing,
            &self.config.payment_processing_key_pem,
            "payment_processing_key_pem",
        );
        assert(missing.deep_view() =~= missing_config_fields(self.config));
        if missing.len() != 0 {
            let listed = join_strs(&missing, ", ");
            let mut m = String::from_str("apple_pay is missing required config values: ");
            m.append(listed.as_str());
            return Err(PaymentProviderError::RequestFailed(m));
        }
        Ok(())
    }

    /// Starts a payment of `amount` at second `now`: a zero amount is refused,
    /// then an incomplete configuration; otherwise the payment is pending,
    /// nothing is paid yet, and its reference carries the time and amount.
    pub fn pay(&self, amount: u32, now: u64) -> (r: Result<PaymentProviderResponse, PaymentProviderError>)
        ensures
            amount == 0 ==> (r matches Err(e) && e@ == ProviderErrorView::InvalidAmount(0)),
            amount != 0 && missing_config_fields(self.config).len() != 0 ==> (r matches Err(e)
                && e@ == missing_config_error(missing_config_fields(self.config))),
            amount != 0 && missing_config_fields(self.config).len() == 0 ==> (r matches Ok(p) && {
                &&& p.provider == PaymentType::ApplePay
                &&& p.status == PaymentStatus::Pending
                &&& p.paid == 0
                &&& p.reference matches Some(reference) && reference@ == apple_pay_reference(now, amount)
                &&& p.redirect_url is None
                &&& p.return_url is None
            }),
    {
        if amount == 0 {
            return Err(PaymentProviderError::InvalidAmount(amount));
        }
        match self.validate_config() {
            Err(e) => return Err(e),
            Ok(()) => {},
        }
        let mut reference = String::from_str("applepay-");
        let t = u64_to_decimal(now);
        reference.append(t.as_str());
        reference.append("-");
        let a = u64_to_decimal(amount as u64);
        reference.append(a.as_str());
        Ok(
            PaymentProviderResponse {
                provider: PaymentType::ApplePay,
                status: PaymentStatus::Pending,
                paid: 0,
                reference: Some(reference),
                redirect_url: None,
                return_url: None,
            },
        )
    }
}

} // verus!
