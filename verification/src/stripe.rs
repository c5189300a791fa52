use vstd::prelude::*;

use crate::error::{PaymentProviderError, ProviderErrorView};
use crate::http::{header, is_success, is_success_status, push_header, HttpMethod, HttpReply, HttpRequest, HttpRequestView};
use crate::payment::{PaymentProvider, PaymentProviderResponse, PaymentResponse, PaymentStatus, PaymentType};
use crate::text::{decimal, is_blank, strip_trailing, strip_trailing_char, trim, trim_str, u64_to_decimal};
use crate::vipps::same_outcome;

verus! {

/// The error that `serde_urlencoded` reports when a value cannot be encoded.
#[verifier::external_type_specification]
#[verifier::external_body]
pub struct ExUrlEncodeError(serde_urlencoded::ser::Error);

/// The `application/x-www-form-urlencoded` text of the name/value pairs
/// `pairs`, in order, as `serde_urlencoded::to_string` produces it.
pub uninterp spec fn form_urlencoded(pairs: Seq<(Seq<char>, Seq<char>)>) -> Seq<char>;

/// The lower-case form of `s`, as `str::to_lowercase` produces it.
pub uninterp spec fn lowercase(s: Seq<char>) -> Seq<char>;

/// Calls `serde_urlencoded::to_string` on a list of name/value pairs. On
/// string pairs it always succeeds (a two-element tuple is a pair, and a
/// string key or value is appended as it is), and the text is the form
/// encoding of exactly those pairs, in order.
#[verifier::external_body]
fn encode_form(pairs: &Vec<(String, String)>) -> (r: Result<String, serde_urlencoded::ser::Error>)
    ensures
        r is Ok,
        r matches Ok(s) ==> s@ == form_urlencoded(pairs.deep_view()),
{
    serde_urlencoded::to_string(pairs)
}

/// Calls `str::to_lowercase`: the result is the lower-case form of `s`.
#[verifier::external_body]
fn to_lowercase(s: &str) -> (r: String)
    ensures
        r@ == lowercase(s@),
{
    s.to_lowercase()
}

/// Credentials and endpoint of a Stripe account.
#[derive(Debug, Clone)]
pub struct StripeConfig {
    pub api_base_url: String,
    pub secret_key: String,
    pub publishable_key: String,
    pub webhook_secret: String,
    pub account_id: Option<String>,
}

impl StripeConfig {
    pub fn new(
        api_base_url: String,
        secret_key: String,
        publishable_key: String,
        webhook_secret: String,
        account_id: Option<String>,
    ) -> (c: Self)
        ensures
            c.api_base_url == api_base_url,
            c.secret_key == secret_key,
            c.publishable_key == publishable_key,
            c.webhook_secret == webhook_secret,
            c.account_id == account_id,
    {
        StripeConfig { api_base_url, secret_key, publishable_key, webhook_secret, account_id }
    }
}

/// A Stripe account that settles payments on the spot, without a network call.
#[derive(Debug)]
pub struct StripeProvider {
    pub config: StripeConfig,
}

impl StripeProvider {
    pub fn new(config: StripeConfig) -> (p: Self)
        ensures
            p.config == config,
    {
        StripeProvider { config }
    }

    /// Settles `amount` at once: the payment is completed for the full amount.
    pub fn pay(&self, amount: u32) -> (r: PaymentProviderResponse)
        ensures
            r.provider == PaymentType::Stripe,
            r.status == PaymentStatus::Completed,
            r.paid == amount,
            r.reference is None,
            r.redirect_url is None,
            r.return_url is None,
    {
        PaymentProviderResponse {
            provider: PaymentType::Stripe,
            status: PaymentStatus::Completed,
            paid: amount,
            reference: None,
            redirect_url: None,
            return_url: None,
        }
    }
}

/// How a Stripe payment is taken.
#[derive(Debug, Clone, Copy, PartialEq, Eq, Structural)]
pub enum StripePaymentFlow {
    Card,
    ApplePay,
}

/// A payment intent to be created for a given flow.
#[derive(Debug, Clone)]
pub struct StripeCreatePaymentIntentRequest {
    pub amount: u32,
    pub currency: String,
    pub description: Option<String>,
    pub flow: StripePaymentFlow,
}

/// A created payment intent with what a client needs to confirm it.
#[derive(Debug, Clone)]
pub struct StripePaymentIntentResult {
    pub id: String,
    pub client_secret: String,
    pub status: String,
    pub amount: u32,
    pub currency: String,
    pub publishable_key: String,
    pub account_id: Option<String>,
}

/// The message part of a Stripe error reply.
#[derive(Debug, Clone)]
pub struct StripeErrorObject {
    pub message: Option<String>,
}

/// The envelope of a Stripe error reply.
#[derive(Debug, Clone)]
pub struct StripeErrorEnvelope {
    pub error: Option<StripeErrorObject>,
}

/// A payment to be created through the payment-intents API.
#[derive(Debug, Clone)]
pub struct StripePaymentRequest {
    pub amount: u32,
    pub currency: String,
    pub description: Option<String>,
}

/// The body of a successful payment-intent reply.
#[derive(Debug, Clone)]
pub struct StripeApiPaymentResponse {
    pub id: String,
    pub status: String,
    pub amount: u32,
    pub currency: String,
}

/// A created payment intent.
#[derive(Debug, Clone)]
pub struct StripePaymentResult {
    pub id: String,
    pub status: String,
    pub amount: u32,
    pub currency: String,
}

/// The Stripe base URL without trailing slashes.
pub open spec fn stripe_base(c: StripeConfig) -> Seq<char> {
    strip_trailing(c.api_base_url@, '/')
}

/// The form fields of a payment intent for `amount` in `currency`: the
/// amount, the lower-cased currency, `confirm=false`, the trimmed
/// description when it is not blank, automatic confirmation and card as the
/// method type.
pub open spec fn intent_form_fields(
    amount: u32,
    currency: Seq<char>,
    description: Option<Seq<char>>,
) -> Seq<(Seq<char>, Seq<char>)> {
    let head = seq![
        header("amount"@, decimal(amount as nat)),
        header("currency"@, lowercase(currency)),
        header("confirm"@, "false"@),
    ];
    let with_description = match description {
        Some(d) => if is_blank(d) {
            head
        } else {
            head.push(header("description"@, trim(d)))
        },
        None => head,
    };
    with_description.push(header("confirmation_method"@, "automatic"@)).push(
        header("payment_method_types[]"@, "card"@),
    )
}

/// The headers of a payment-intent request.
pub open spec fn intent_headers(c: StripeConfig) -> Seq<(Seq<char>, Seq<char>)> {
    let base = seq![
        header("Authorization"@, "Bearer "@ + c.secret_key@),
        header("Content-Type"@, "application/x-www-form-urlencoded"@),
    ];
    match c.account_id {
        Some(a) => base.push(header("Stripe-Account"@, a@)),
        None => base,
    }
}

/// The request that creates a payment intent for `request` with the given form body.
pub open spec fn intent_request_spec(c: StripeConfig, body: Seq<char>) -> HttpRequestView {
    HttpRequestView {
        method: HttpMethod::Post,
        url: stripe_base(c) + "/v1/payment_intents"@,
        headers: intent_headers(c),
        body: Some(body),
    }
}

/// What a payment-intent reply yields: a failed status gives its body as
/// the failure text, an undecodable body a `Request` error.
pub open spec fn intent_outcome(
    reply: HttpReply,
    payload: Result<StripeApiPaymentResponse, String>,
) -> Result<StripePaymentResult, ProviderErrorView> {
    if !is_success_status(reply.status) {
        Err(ProviderErrorView::RequestFailed(reply.body@))
    } else {
        match payload {
            Err(m) => Err(ProviderErrorView::Request(m@)),
            Ok(p) => Ok(
                StripePaymentResult { id: p.id, status: p.status, amount: p.amount, currency: p.currency },
            ),
        }
    }
}

/// The description that the card-payment shortcut attaches.
pub open spec fn card_payment_description() -> Seq<char> {
    "Solari card payment"@
}

/// A Stripe account that creates payment intents.
#[derive(Debug)]
pub struct StripeAdapter {
    pub config: StripeConfig,
}

impl StripeAdapter {
    pub fn new(config: StripeConfig) -> (a: Self)
        ensures
            a.config == config,
    {
        StripeAdapter { config }
    }

    /// The request that creates a payment intent for `request`. A zero amount
    /// is refused with `InvalidAmount`; any other amount gives the request,
    /// whose body is the form encoding of the fields of `intent_form_fields`,
    /// in that order.
    pub fn create_payment_request(&self, request: &StripePaymentRequest) -> (r: Result<
        HttpRequest,
        PaymentProviderError,
    >)
        ensures
            request.amount == 0 ==> (r matches Err(e) && e@ == ProviderErrorView::InvalidAmount(0)),
            request.amount != 0 ==> (r matches Ok(h) && h@ == intent_request_spec(
                self.config,
                form_urlencoded(
                    intent_form_fields(request.amount, request.currency@, request.description.deep_view()),
                ),
            )),
    {
        if request.amount == 0 {
            return Err(PaymentProviderError::InvalidAmount(request.amount));
        }
        let mut fields: Vec<(String, String)> = Vec::new();
        let amount_text = u64_to_decimal(request.amount as u64);
        push_header(&mut fields, "amount", amount_text.as_str());
        let currency = to_lowercase(request.currency.as_str());
        push_header(&mut fields, "currency", currency.as_str());
        push_header(&mut fields, "confirm", "false");
        match &request.description {
            Some(d) => {
                let trimmed = trim_str(d.as_str());
                if trimmed.unicode_len() != 0 {
                    push_header(&mut fields, "description", trimmed);
                }
            },
            None => {},
        }
        push_header(&mut fields, "confirmation_method", "automatic");
        push_header(&mut fields, "payment_method_types[]", "card");
        assert(fields.deep_view() =~= intent_form_fields(request.amount, request.currency@, request.description.deep_view()));
        let encoded = match encode_form(&fields) {
            Ok(s) => s,
            Err(_) => {
                // `encode_form` never fails on string pairs.
                proof {
                    assert(false);
                }
                return Err(PaymentProviderError::RequestFailed(String::new()));
            },
        };
        let mut url = String::from_str(strip_trailing_char(self.config.api_base_url.as_str(), '/'));
        url.append("/v1/payment_intents");
        let mut bearer = String::from_str("Bearer ");
        bearer.append(self.config.secret_key.as_str());
        let mut headers: Vec<(String, String)> = Vec::new();
        push_header(&mut headers, "Authorization", bearer.as_str());
        push_header(&mut headers, "Content-Type", "application/x-www-form-urlencoded");
        match &self.config.account_id {
            Some(a) => push_header(&mut headers, "Stripe-Account", a.as_str()),
            None => {},
        }
        assert(headers.deep_view() =~= intent_headers(self.config));
        Ok(HttpRequest { method: HttpMethod::Post, url, headers, body: Some(encoded) })
    }

    /// Reads a payment-intent reply.
    pub fn payment_from_reply(
        reply: &HttpReply,
        payload: Result<StripeApiPaymentResponse, String>,
    ) -> (r: Result<StripePaymentResult, PaymentProviderError>)
        ensures
            same_outcome(r, intent_outcome(*reply, payload)),
    {
        if !is_success(reply.status) {
            return Err(PaymentProviderError::RequestFailed(reply.body.clone()));
        }
        match payload {
            Err(m) => Err(PaymentProviderError::Request(m)),
            Ok(p) => Ok(
                StripePaymentResult { id: p.id, status: p.status, amount: p.amount, currency: p.currency },
            ),
        }
    }

    /// The card payment of `amount` in NOK that the shortcut creates.
    pub fn card_payment(amount: u32) -> (r: StripePaymentRequest)
        ensures
            r.amount == amount,
            r.currency@ == "nok"@,
            (r.description matches Some(d) && d@ == card_payment_description()),
    {
        StripePaymentRequest {
            amount,
            currency: String::from_str("nok"),
            description: Some(String::from_str("Solari card payment")),
        }
    }

    /// How a created intent is reported: pending, nothing paid yet, the
    /// intent id as the reference.
    pub fn pay_response(result: StripePaymentResult) -> (r: PaymentResponse)
        ensures
            r.provider == PaymentProvider::Stripe,
            r.status == PaymentStatus::Pending,
            r.paid == 0,
            r.reference == Some(result.id),
            r.redirect_url is None,
            r.return_url is None,
    {
        PaymentResponse {
            provider: PaymentProvider::Stripe,
            status: PaymentStatus::Pending,
            paid: 0,
            reference: Some(result.id),
            redirect_url: None,
            return_url: None,
        }
    }
}

} // verus!
