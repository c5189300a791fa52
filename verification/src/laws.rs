use vstd::prelude::*;

use crate::api::{
    as_solari_error_view, listen_address_of, payment_error_status, solari_error_message,
    solari_error_status, SolariError,
};
use crate::apple_pay::{apple_pay_reference, missing_config_error, missing_config_fields, ApplePayConfig};
use crate::error::{provider_error_message, PaymentProviderError, ProviderErrorView};
use crate::http::{is_success_status, HttpMethod, HttpReply, HttpRequest};
use crate::payment::{
    payment_type_name, provider_name, provider_type, status_name, PaymentProvider, PaymentStatus,
    PaymentType,
};
use crate::service::{
    intent_start_view, return_target, stripe_currency, stripe_intent_finished, stripe_intent_started,
    stripe_payment_response, vipps_payment_response, StripePayRequest, StripePaymentFlowType,
    StripePaymentResponse,
};
use crate::stripe::{
    intent_form_fields, intent_outcome, intent_request_spec, lowercase, StripeAdapter,
    StripeApiPaymentResponse, StripeConfig, StripePaymentResult,
};
use crate::text::{
    all_digits, decimal, digit_char, digit_value, digits_value, is_blank, is_digit, is_whitespace,
    parse_u64, strip_trailing, trim, trim_end, trim_start, unsigned_digits,
};
use crate::vipps::{
    access_token_outcome, access_token_request_spec, amount_fits_in_ore, create_payment_outcome,
    create_payment_request_spec, default_token_lifetime, expires_in_seconds_of,
    is_create_payment_payload, payment_status_outcome, reference_for, request_id_for, payment_status_request_spec, result_view,
    same_outcome, token_expiry_fits, valid_cached_token, CachedToken, VippsAccessTokenResponse,
    VippsConfig, VippsCreatePaymentRequest, VippsCreatePaymentResponse, VippsExpiresIn,
    VippsPaymentDetails,
};

verus! {

proof fn lemma_digit_char(d: nat)
    requires
        d < 10,
    ensures
        is_digit(digit_char(d)),
        digit_value(digit_char(d)) == d,
{
}

proof fn lemma_decimal_digits(n: nat)
    ensures
        decimal(n).len() > 0,
        all_digits(decimal(n)),
        digits_value(decimal(n)) == n,
    decreases n,
{
    if n < 10 {
        lemma_digit_char(n);
        let s = decimal(n);
        assert(s.drop_last() =~= Seq::<char>::empty());
        assert(digits_value(s.drop_last()) == 0);
        assert(digits_value(s) == digit_value(s.last()));
        assert(all_digits(s)) by {
            assert forall|i: int| 0 <= i < s.len() implies #[trigger] is_digit(s[i]) by {
                assert(i == 0);
            }
        }
    } else {
        lemma_decimal_digits(n / 10);
        lemma_digit_char(n % 10);
        let s = decimal(n);
        let p = decimal(n / 10);
        assert(s.drop_last() =~= p);
        assert(s.last() == digit_char(n % 10));
        assert(all_digits(s)) by {
            assert forall|i: int| 0 <= i < s.len() implies #[trigger] is_digit(s[i]) by {
                if i < p.len() {
                    assert(s[i] == p[i]);
                }
            }
        }
        assert(digits_value(s) == digits_value(p) * 10 + n % 10);
        assert((n / 10) * 10 + n % 10 == n) by (nonlinear_arith);
    }
}

/// Reading back the decimal rendering of a number gives that number: the
/// text that `u64_to_decimal` produces is what `parse_u64_str` reads.
pub proof fn law_parse_reads_back_decimal(n: u64)
    ensures
        parse_u64(decimal(n as nat)) == Some(n),
{
    lemma_decimal_digits(n as nat);
    let s = decimal(n as nat);
    assert(is_digit(s[0]));
    assert(unsigned_digits(s) == s);
}

/// A token lifetime that Vipps sends as the text of a number counts exactly
/// as the same lifetime sent as a number.
pub proof fn law_lifetime_text_counts_as_number(n: u64, text: String)
    requires
        text@ == decimal(n as nat),
    ensures
        expires_in_seconds_of(Some(VippsExpiresIn::Text(text))) == expires_in_seconds_of(
            Some(VippsExpiresIn::Number(n)),
        ),
{
    law_parse_reads_back_decimal(n);
}

/// A token that Vipps grants at second `now` and that is cached is what
/// every later lookup gives until its lifetime has run out, and no lookup
/// gives it from then on.
pub proof fn law_granted_token_reused_until_expiry(
    reply: HttpReply,
    payload: Result<VippsAccessTokenResponse, String>,
    now: u64,
    token: CachedToken,
    later: u64,
)
    requires
        token_expiry_fits(reply, payload, now),
        access_token_outcome(reply, payload, now) == Ok::<(Seq<char>, u64), ProviderErrorView>(token@),
        now <= later,
    ensures
        later < now + expires_in_seconds_of(payload->Ok_0.expires_in) ==> valid_cached_token(
            Some(token),
            later,
        ) == Some(token),
        later >= now + expires_in_seconds_of(payload->Ok_0.expires_in) ==> valid_cached_token(
            Some(token),
            later,
        ) is None,
{
}

/// A token that is still valid at some second was valid at every earlier
/// second too, and is the same token: repeated lookups before expiry give
/// the same token.
pub proof fn law_token_lookups_agree_until_expiry(cache: Option<CachedToken>, earlier: u64, later: u64)
    requires
        earlier <= later,
        valid_cached_token(cache, later) is Some,
    ensures
        valid_cached_token(cache, earlier) == valid_cached_token(cache, later),
{
}

/// No expired token is ever handed out by a lookup.
pub proof fn law_lookup_never_yields_expired_token(cache: Option<CachedToken>, now: u64)
    ensures
        valid_cached_token(cache, now) matches Some(t) ==> t.expires_at > now,
{
}

/// The card and the Apple Pay intent functions give exactly what the general
/// intent function gives for their flow: two results that meet the contract
/// for the same adapter, request and flow are one and the same, taken by
/// their views.
pub proof fn law_intent_start_is_determined(
    adapter: Option<StripeAdapter>,
    request: StripePayRequest,
    flow: StripePaymentFlowType,
    first: Result<(HttpRequest, StripePaymentFlowType), PaymentProviderError>,
    second: Result<(HttpRequest, StripePaymentFlowType), PaymentProviderError>,
)
    requires
        stripe_intent_started(adapter, request, flow, first),
        stripe_intent_started(adapter, request, flow, second),
    ensures
        intent_start_view(first) == intent_start_view(second),
{
}

/// A configured Stripe account starts every intent of a non-zero amount, and
/// the intent is reported with the flow it was started for: a card intent as
/// a card payment, an Apple Pay intent as an Apple Pay payment.
pub proof fn law_intent_reports_its_flow(
    adapter: Option<StripeAdapter>,
    request: StripePayRequest,
    flow: StripePaymentFlowType,
    started: Result<(HttpRequest, StripePaymentFlowType), PaymentProviderError>,
    reply: HttpReply,
    payload: Result<StripeApiPaymentResponse, String>,
    finished: Result<StripePaymentResponse, PaymentProviderError>,
)
    requires
        stripe_intent_started(adapter, request, flow, started),
        started matches Ok((_, f)) ==> stripe_intent_finished(reply, payload, f, finished),
    ensures
        started is Ok <==> (adapter is Some && request.amount != 0),
        started matches Ok((_, f)) ==> f == flow,
        started is Ok ==> (finished matches Ok(resp) ==> resp.flow == flow),
{
}

/// On the Vipps routes the caller's mistakes and a missing provider are
/// answered 4xx, and every failure of the provider, the transport or the
/// service itself 5xx.
pub proof fn law_error_status_classes(e: ProviderErrorView)
    ensures
        (e is InvalidAmount || e is NotConfigured || e is UnsupportedOperation
            || e is AuthenticationFailed) <==> 400 <= payment_error_status(e) < 500,
        (e is Timeout || e is ProviderUnavailable || e is RequestFailed || e is NetworkError
            || e is Request || e is TimeError || e is ReadLockError || e is WriteLockError) <==> 500
            <= payment_error_status(e) < 600,
{
}


/// Reading a payment-intent reply keeps what Stripe sent: a successful reply
/// with a decoded body gives the intent with that body's id, status, amount
/// and currency, each in the field of the same name; a failed reply gives
/// `RequestFailed` with the reply's body, and an undecodable body `Request`.
pub proof fn law_intent_reply_keeps_stripe_fields(
    reply: HttpReply,
    payload: Result<StripeApiPaymentResponse, String>,
    r: Result<StripePaymentResult, PaymentProviderError>,
)
    requires
        same_outcome(r, intent_outcome(reply, payload)),
    ensures
        !is_success_status(reply.status) ==> (r matches Err(e) && e@ == ProviderErrorView::RequestFailed(
            reply.body@,
        )),
        (is_success_status(reply.status) && payload is Err) ==> (r matches Err(e)
            && e@ == ProviderErrorView::Request(payload->Err_0@)),
        (is_success_status(reply.status) && payload is Ok) ==> (r matches Ok(x) && {
            &&& x.id == payload->Ok_0.id
            &&& x.status == payload->Ok_0.status
            &&& x.amount == payload->Ok_0.amount
            &&& x.currency == payload->Ok_0.currency
        }),
{
}

/// A finished payment intent reports what Stripe's reply carries: on a
/// successful reply with a decoded body, the response is a Stripe response
/// for the flow the intent was made for, with the reply's intent id, status,
/// amount and currency; any other reply gives an error.
pub proof fn law_finished_intent_reports_stripe_reply(
    reply: HttpReply,
    payload: Result<StripeApiPaymentResponse, String>,
    flow: StripePaymentFlowType,
    r: Result<StripePaymentResponse, PaymentProviderError>,
)
    requires
        stripe_intent_finished(reply, payload, flow, r),
    ensures
        r is Ok <==> (is_success_status(reply.status) && payload is Ok),
        (is_success_status(reply.status) && payload is Ok) ==> (r matches Ok(x) && {
            &&& x.provider == PaymentProvider::Stripe
            &&& x.flow == flow
            &&& x.payment_intent_id == payload->Ok_0.id
            &&& x.status == payload->Ok_0.status
            &&& x.amount == payload->Ok_0.amount
            &&& x.currency == payload->Ok_0.currency
        }),
{
}

/// On the generic routes, as on the Vipps routes, a caller's mistake is a
/// client error: a missing provider and an invalid amount are answered 400,
/// a refused authentication 401; a failure of the provider or of the
/// transport is answered 502, a timeout 504, an unavailable provider 503,
/// an unsupported operation 501 and an internal fault 500.
pub proof fn law_generic_error_statuses(e: SolariError)
    ensures
        (e is NotConfigured || e is InvalidAmount) ==> solari_error_status(e) == 400,
        e is AuthenticationFailed ==> solari_error_status(e) == 401,
        (e is RequestFailed || e is NetworkError || e is Request) ==> solari_error_status(e) == 502,
        e is Timeout ==> solari_error_status(e) == 504,
        e is ProviderUnavailable ==> solari_error_status(e) == 503,
        e is UnsupportedOperation ==> solari_error_status(e) == 501,
        (e is TimeError || e is ReadLockError || e is WriteLockError) ==> solari_error_status(e) == 500,
        e matches SolariError::ApiError(status, _) ==> solari_error_status(e) == status,
{
}

/// A provider error that reaches the generic routes is answered as the Vipps
/// routes answer it: with the same text, and with the same status, except
/// that an unsupported operation is 501 there. In particular a transport
/// failure stays a 5xx and a caller's mistake a 4xx.
pub proof fn law_converted_error_keeps_status_and_text(e: ProviderErrorView, s: SolariError)
    requires
        as_solari_error_view(e, s),
    ensures
        solari_error_message(s) == provider_error_message(e),
        e is UnsupportedOperation ==> solari_error_status(s) == 501,
        !(e is UnsupportedOperation) ==> solari_error_status(s) == payment_error_status(e),
        (e is RequestFailed || e is NetworkError || e is Request) ==> 500 <= solari_error_status(s) < 600,
        (e is InvalidAmount || e is NotConfigured) ==> solari_error_status(s) == 400,
{
}

proof fn lemma_concat_contains(a: Seq<Seq<char>>, b: Seq<Seq<char>>, x: Seq<char>)
    ensures
        a.contains(x) ==> (a + b).contains(x),
        b.contains(x) ==> (a + b).contains(x),
{
    if a.contains(x) {
        let i = choose|i: int| 0 <= i < a.len() && a[i] == x;
        assert((a + b)[i] == x);
    }
    if b.contains(x) {
        let i = choose|i: int| 0 <= i < b.len() && b[i] == x;
        assert((a + b)[a.len() + i] == x);
    }
}

/// An Apple Pay configuration validates exactly when none of its seven
/// settings is blank; each blank setting makes it fail with `RequestFailed`
/// whose list of missing settings names that setting.
pub proof fn law_apple_pay_config_needs_every_setting(c: ApplePayConfig, r: Result<(), PaymentProviderError>)
    requires
        missing_config_fields(c).len() == 0 ==> r is Ok,
        missing_config_fields(c).len() != 0 ==> (r matches Err(e) && e@ == missing_config_error(
            missing_config_fields(c),
        )),
    ensures
        r is Ok <==> !(is_blank(c.merchant_id@) || is_blank(c.merchant_display_name@) || is_blank(
            c.initiative@,
        ) || is_blank(c.initiative_context@) || is_blank(c.merchant_validation_url@) || is_blank(
            c.payment_processing_cert_pem@,
        ) || is_blank(c.payment_processing_key_pem@)),
        is_blank(c.merchant_id@) ==> missing_config_fields(c).contains("merchant_id"@),
        is_blank(c.merchant_display_name@) ==> missing_config_fields(c).contains("merchant_display_name"@),
        is_blank(c.initiative@) ==> missing_config_fields(c).contains("initiative"@),
        is_blank(c.initiative_context@) ==> missing_config_fields(c).contains("initiative_context"@),
        is_blank(c.merchant_validation_url@) ==> missing_config_fields(c).contains(
            "merchant_validation_url"@,
        ),
        is_blank(c.payment_processing_cert_pem@) ==> missing_config_fields(c).contains(
            "payment_processing_cert_pem"@,
        ),
        is_blank(c.payment_processing_key_pem@) ==> missing_config_fields(c).contains(
            "payment_processing_key_pem"@,
        ),
        r matches Err(e) ==> e@ is RequestFailed,
{
    let names = seq![
        "merchant_id"@,
        "merchant_display_name"@,
        "initiative"@,
        "initiative_context"@,
        "merchant_validation_url"@,
        "payment_processing_cert_pem"@,
        "payment_processing_key_pem"@,
    ];
    let values = seq![
        c.merchant_id@,
        c.merchant_display_name@,
        c.initiative@,
        c.initiative_context@,
        c.merchant_validation_url@,
        c.payment_processing_cert_pem@,
        c.payment_processing_key_pem@,
    ];
    let parts = Seq::new(7, |i: int| crate::apple_pay::missing_if_blank(values[i], names[i]));
    assert forall|i: int| 0 <= i < 7 && is_blank(values[i]) implies parts[i].contains(names[i]) by {
        assert(parts[i][0] == names[i]);
    }
    let p01 = parts[0] + parts[1];
    let p02 = p01 + parts[2];
    let p03 = p02 + parts[3];
    let p04 = p03 + parts[4];
    let p05 = p04 + parts[5];
    let p06 = p05 + parts[6];
    assert(p06 == missing_config_fields(c));
    lemma_concat_contains(parts[0], parts[1], names[0]);
    lemma_concat_contains(parts[0], parts[1], names[1]);
    lemma_concat_contains(p01, parts[2], names[0]);
    lemma_concat_contains(p01, parts[2], names[1]);
    lemma_concat_contains(p01, parts[2], names[2]);
    lemma_concat_contains(p02, parts[3], names[0]);
    lemma_concat_contains(p02, parts[3], names[1]);
    lemma_concat_contains(p02, parts[3], names[2]);
    lemma_concat_contains(p02, parts[3], names[3]);
    lemma_concat_contains(p03, parts[4], names[0]);
    lemma_concat_contains(p03, parts[4], names[1]);
    lemma_concat_contains(p03, parts[4], names[2]);
    lemma_concat_contains(p03, parts[4], names[3]);
    lemma_concat_contains(p03, parts[4], names[4]);
    lemma_concat_contains(p04, parts[5], names[0]);
    lemma_concat_contains(p04, parts[5], names[1]);
    lemma_concat_contains(p04, parts[5], names[2]);
    lemma_concat_contains(p04, parts[5], names[3]);
    lemma_concat_contains(p04, parts[5], names[4]);
    lemma_concat_contains(p04, parts[5], names[5]);
    lemma_concat_contains(p05, parts[6], names[0]);
    lemma_concat_contains(p05, parts[6], names[1]);
    lemma_concat_contains(p05, parts[6], names[2]);
    lemma_concat_contains(p05, parts[6], names[3]);
    lemma_concat_contains(p05, parts[6], names[4]);
    lemma_concat_contains(p05, parts[6], names[5]);
    lemma_concat_contains(p05, parts[6], names[6]);
}


/// On the Vipps routes each failure has the status the server answers it
/// with: a caller's mistake (invalid amount, missing provider, unsupported
/// operation) 400, a refused authentication 401, a timeout 504, an
/// unavailable provider 503, a failure of the provider or the transport
/// 502, and a fault of the service itself 500.
pub proof fn law_vipps_route_error_statuses(e: ProviderErrorView)
    ensures
        (e is InvalidAmount || e is NotConfigured || e is UnsupportedOperation) ==> payment_error_status(e)
            == 400,
        e is AuthenticationFailed ==> payment_error_status(e) == 401,
        e is Timeout ==> payment_error_status(e) == 504,
        e is ProviderUnavailable ==> payment_error_status(e) == 503,
        (e is RequestFailed || e is NetworkError || e is Request) ==> payment_error_status(e) == 502,
        (e is TimeError || e is ReadLockError || e is WriteLockError) ==> payment_error_status(e) == 500,
{
}

/// The text of an error ends with what the error carries: the amount that
/// was refused, the name of the provider that is missing (inside the text),
/// or the reason that the failing component gave. Two errors of the same
/// kind with different reasons therefore read differently.
pub proof fn law_error_text_carries_its_reason(e: ProviderErrorView)
    ensures
        e matches ProviderErrorView::InvalidAmount(a) ==> provider_error_message(e) == "invalid payment amount: "@
            + decimal(a as nat),
        e matches ProviderErrorView::NotConfigured(t) ==> provider_error_message(e) == "payment provider "@
            + crate::payment::payment_type_name(t) + " is not configured"@,
        e matches ProviderErrorView::RequestFailed(m) ==> provider_error_message(e) == "payment request failed: "@ + m,
        e matches ProviderErrorView::Request(m) ==> provider_error_message(e) == "http request failed: "@ + m,
        e matches ProviderErrorView::NetworkError(m) ==> provider_error_message(e)
            == "network error while contacting payment provider: "@ + m,
        e matches ProviderErrorView::UnsupportedOperation(m) ==> provider_error_message(e)
            == "payment operation is not supported: "@ + m,
        e matches ProviderErrorView::TimeError(m) ==> provider_error_message(e) == "time calculation error: "@ + m,
        e matches ProviderErrorView::ReadLockError(m) ==> provider_error_message(e) == "failed to acquire read lock: "@
            + m,
        e matches ProviderErrorView::WriteLockError(m) ==> provider_error_message(e)
            == "failed to acquire write lock: "@ + m,
        e is AuthenticationFailed ==> provider_error_message(e) == "payment provider authentication failed"@,
        e is Timeout ==> provider_error_message(e) == "payment request timed out"@,
        e is ProviderUnavailable ==> provider_error_message(e) == "payment provider is unavailable"@,
{
}

/// Reading an access-token reply at second `now`: a failed status is
/// `RequestFailed` naming the status and the body; an undecodable body is
/// `Request` with the decoding error; a blank token is `AuthenticationFailed`;
/// otherwise the granted token is exactly the one sent, and it expires its
/// lifetime after `now`.
pub proof fn law_token_reply_outcomes(
    reply: HttpReply,
    payload: Result<VippsAccessTokenResponse, String>,
    now: u64,
    r: Result<CachedToken, PaymentProviderError>,
)
    requires
        token_expiry_fits(reply, payload, now),
        result_view(r) == access_token_outcome(reply, payload, now),
    ensures
        !is_success_status(reply.status) ==> (r matches Err(e) && e@ == ProviderErrorView::RequestFailed(
            "vipps access token request failed ("@ + reply.status_text@ + "): "@ + reply.body@,
        )),
        (is_success_status(reply.status) && payload is Err) ==> (r matches Err(e) && e@
            == ProviderErrorView::Request(payload->Err_0@)),
        (is_success_status(reply.status) && payload is Ok && is_blank(payload->Ok_0.access_token@)) ==> (
        r matches Err(e) && e@ is AuthenticationFailed),
        (is_success_status(reply.status) && payload is Ok && !is_blank(payload->Ok_0.access_token@)) ==> (
        r matches Ok(t) && {
            &&& t.token@ == payload->Ok_0.access_token@
            &&& t.expires_at == now + expires_in_seconds_of(payload->Ok_0.expires_in)
        }),
{
    reveal_strlit("vipps ");
    reveal_strlit("access token request");
    reveal_strlit(" failed (");
    reveal_strlit("vipps access token request failed (");
    assert("vipps "@ + "access token request"@ + " failed ("@ =~= "vipps access token request failed ("@);
}

/// The lifetime of a token: the number Vipps sends, the number its text
/// reads as, and one hour when it sends none or a text that is no number.
pub proof fn law_token_lifetime(e: Option<VippsExpiresIn>)
    ensures
        default_token_lifetime() == 3600,
        e is None ==> expires_in_seconds_of(e) == 3600,
        e matches Some(VippsExpiresIn::Number(n)) ==> expires_in_seconds_of(e) == n,
        (e matches Some(VippsExpiresIn::Text(t)) && parse_u64(t@) is Some) ==> expires_in_seconds_of(e)
            == parse_u64(e->0->Text_0@)->0,
        (e matches Some(VippsExpiresIn::Text(t)) && parse_u64(t@) is None) ==> expires_in_seconds_of(e)
            == 3600,
{
}

/// Reading a create-payment reply keeps what Vipps sent: a successful reply
/// with a decoded body gives its reference and redirect URL; a failed status
/// is `RequestFailed` naming the status and the body.
pub proof fn law_create_payment_reply_outcomes(
    reply: HttpReply,
    payload: Result<VippsCreatePaymentResponse, String>,
    r: Result<VippsCreatePaymentResponse, PaymentProviderError>,
)
    requires
        same_outcome(r, create_payment_outcome(reply, payload)),
    ensures
        !is_success_status(reply.status) ==> (r matches Err(e) && e@ == ProviderErrorView::RequestFailed(
            "vipps create payment failed ("@ + reply.status_text@ + "): "@ + reply.body@,
        )),
        (is_success_status(reply.status) && payload is Err) ==> (r matches Err(e) && e@
            == ProviderErrorView::Request(payload->Err_0@)),
        (is_success_status(reply.status) && payload is Ok) ==> (r matches Ok(c) && {
            &&& c.reference == payload->Ok_0.reference
            &&& c.redirect_url == payload->Ok_0.redirect_url
        }),
{
    reveal_strlit("vipps ");
    reveal_strlit("create payment");
    reveal_strlit(" failed (");
    reveal_strlit("vipps create payment failed (");
    assert("vipps "@ + "create payment"@ + " failed ("@ =~= "vipps create payment failed ("@);
}

/// Reading a payment lookup reply keeps what Vipps sent: a successful reply
/// with a decoded body gives its reference, state and currency; a failed
/// status is `RequestFailed` naming the status and the body.
pub proof fn law_payment_lookup_reply_outcomes(
    reply: HttpReply,
    payload: Result<VippsPaymentDetails, String>,
    r: Result<VippsPaymentDetails, PaymentProviderError>,
)
    requires
        same_outcome(r, payment_status_outcome(reply, payload)),
    ensures
        !is_success_status(reply.status) ==> (r matches Err(e) && e@ == ProviderErrorView::RequestFailed(
            "vipps get payment failed ("@ + reply.status_text@ + "): "@ + reply.body@,
        )),
        (is_success_status(reply.status) && payload is Err) ==> (r matches Err(e) && e@
            == ProviderErrorView::Request(payload->Err_0@)),
        (is_success_status(reply.status) && payload is Ok) ==> (r matches Ok(d) && {
            &&& d.reference == payload->Ok_0.reference
            &&& d.state == payload->Ok_0.state
            &&& d.currency == payload->Ok_0.currency
        }),
{
    reveal_strlit("vipps ");
    reveal_strlit("get payment");
    reveal_strlit(" failed (");
    reveal_strlit("vipps get payment failed (");
    assert("vipps "@ + "get payment"@ + " failed ("@ =~= "vipps get payment failed ("@);
}

/// A payment that a provider has created is reported as pending with
/// nothing paid yet: a Vipps payment with the reference and redirect URL
/// that Vipps sent and the return URL the caller asked for, a Stripe
/// payment with the intent id as its reference and no URLs.
pub proof fn law_created_payment_is_reported_pending(
    created: VippsCreatePaymentResponse,
    return_url: Option<String>,
    intent: StripePaymentResult,
)
    ensures
        vipps_payment_response(created, return_url).provider == PaymentType::Vipps,
        vipps_payment_response(created, return_url).status == PaymentStatus::Pending,
        vipps_payment_response(created, return_url).paid == 0,
        vipps_payment_response(created, return_url).reference == created.reference,
        vipps_payment_response(created, return_url).redirect_url == created.redirect_url,
        vipps_payment_response(created, return_url).return_url == return_url,
        stripe_payment_response(intent).provider == PaymentType::Stripe,
        stripe_payment_response(intent).status == PaymentStatus::Pending,
        stripe_payment_response(intent).paid == 0,
        stripe_payment_response(intent).reference == Some(intent.id),
        stripe_payment_response(intent).redirect_url is None,
        stripe_payment_response(intent).return_url is None,
{
}


/// The form of a payment intent: the amount as its decimal text, the
/// currency in lower case, `confirm=false`, then the trimmed description
/// exactly when it is not blank, then automatic confirmation and card as the
/// method type, in that order.
pub proof fn law_intent_form_fields(amount: u32, currency: Seq<char>, description: Option<Seq<char>>)
    ensures
        ({
            let f = intent_form_fields(amount, currency, description);
            let described = description matches Some(d) && !is_blank(d);
            &&& f.len() == if described { 6nat } else { 5nat }
            &&& f[0] == ("amount"@, decimal(amount as nat))
            &&& f[1] == ("currency"@, lowercase(currency))
            &&& f[2] == ("confirm"@, "false"@)
            &&& described ==> f[3] == ("description"@, trim(description->0))
            &&& f[f.len() - 2] == ("confirmation_method"@, "automatic"@)
            &&& f[f.len() - 1] == ("payment_method_types[]"@, "card"@)
        }),
{
}

/// A payment intent is created with a `POST` to the account's base URL,
/// without trailing slashes, followed by `/v1/payment_intents`; it carries
/// the secret key as a bearer token, the form content type, and the
/// connected account exactly when one is configured; its body is the form.
pub proof fn law_intent_request_shape(c: StripeConfig, body: Seq<char>)
    ensures
        ({
            let h = intent_request_spec(c, body);
            &&& h.method == HttpMethod::Post
            &&& h.url == strip_trailing(c.api_base_url@, '/') + "/v1/payment_intents"@
            &&& h.body == Some(body)
            &&& h.headers[0] == ("Authorization"@, "Bearer "@ + c.secret_key@)
            &&& h.headers[1] == ("Content-Type"@, "application/x-www-form-urlencoded"@)
            &&& c.account_id is None ==> h.headers.len() == 2
            &&& c.account_id matches Some(a) ==> h.headers.len() == 3 && h.headers[2] == (
                "Stripe-Account"@,
                a@,
            )
        }),
{
}

/// The token request is a `POST` to the base URL, without trailing slashes,
/// followed by `/accesstoken/get`, carrying the client id, the client
/// secret, the subscription key and the merchant serial number; it has no body.
pub proof fn law_token_request_shape(c: VippsConfig)
    ensures
        ({
            let h = access_token_request_spec(c);
            &&& h.method == HttpMethod::Post
            &&& h.url == strip_trailing(c.base_url@, '/') + "/accesstoken/get"@
            &&& h.body is None
            &&& h.headers == seq![
                ("Content-Type"@, "application/json"@),
                ("client_id"@, c.client_id@),
                ("client_secret"@, c.client_secret@),
                ("Ocp-Apim-Subscription-Key"@, c.subscription_key@),
                ("Merchant-Serial-Number"@, c.merchant_serial_number@),
            ]
        }),
{
}

/// A payment is created with a `POST` to `/epayment/v1/payments` under the
/// base URL and looked up with a `GET` of `/epayment/v1/payments/` and the
/// reference; both carry the access token as a bearer token and the
/// merchant's serial number and subscription key, and the creation carries
/// the request id as its idempotency key.
pub proof fn law_payment_request_shapes(c: VippsConfig, token: Seq<char>, request_id: Seq<char>, reference: Seq<char>)
    ensures
        ({
            let h = create_payment_request_spec(c, token, request_id);
            &&& h.method == HttpMethod::Post
            &&& h.url == strip_trailing(c.base_url@, '/') + "/epayment/v1/payments"@
            &&& h.headers.len() == 6
            &&& h.headers[0] == ("Authorization"@, "Bearer "@ + token)
            &&& h.headers[3] == ("Merchant-Serial-Number"@, c.merchant_serial_number@)
            &&& h.headers[4] == ("Ocp-Apim-Subscription-Key"@, c.subscription_key@)
            &&& h.headers[5] == ("Idempotency-Key"@, request_id)
        }),
        ({
            let h = payment_status_request_spec(c, token, reference);
            &&& h.method == HttpMethod::Get
            &&& h.url == strip_trailing(c.base_url@, '/') + "/epayment/v1/payments/"@ + reference
            &&& h.headers.len() == 4
            &&& h.headers[0] == ("Authorization"@, "Bearer "@ + token)
            &&& h.headers[2] == ("Merchant-Serial-Number"@, c.merchant_serial_number@)
            &&& h.headers[3] == ("Ocp-Apim-Subscription-Key"@, c.subscription_key@)
            &&& h.body is None
        }),
{
}

/// The payload of a Vipps payment of `amount` kroner made at second `now`
/// asks for the amount in øre (a hundred times the kroner) in NOK, paid from
/// the wallet, and names the payment and the request by the time and the
/// amount.
pub proof fn law_create_payment_payload(
    p: VippsCreatePaymentRequest,
    amount: u32,
    return_url: Seq<char>,
    user_flow: Seq<char>,
    now: u64,
)
    requires
        is_create_payment_payload(p, amount, return_url, user_flow, now),
    ensures
        p.amount.value == 100 * amount,
        p.amount.currency@ == "NOK"@,
        p.payment_method.kind@ == "WALLET"@,
        p.reference@ == "solari-"@ + decimal(now as nat) + "-"@ + decimal(amount as nat),
        p.request_id@ == "solari-req-"@ + decimal(now as nat) + "-"@ + decimal(amount as nat),
        p.return_url@ == return_url,
        p.user_flow@ == user_flow,
{
}


proof fn lemma_trim_start_index(s: Seq<char>) -> (i: int)
    ensures
        0 <= i <= s.len(),
        trim_start(s) == s.subrange(i, s.len() as int),
        forall|k: int| 0 <= k < i ==> is_whitespace(#[trigger] s[k]),
        i < s.len() ==> !is_whitespace(s[i]),
    decreases s.len(),
{
    if s.len() > 0 && is_whitespace(s[0]) {
        let rest = s.drop_first();
        let j = lemma_trim_start_index(rest);
        assert(rest.subrange(j, rest.len() as int) =~= s.subrange(j + 1, s.len() as int));
        assert forall|k: int| 0 <= k < j + 1 implies is_whitespace(#[trigger] s[k]) by {
            if k > 0 {
                assert(s[k] == rest[k - 1]);
            }
        }
        if j + 1 < s.len() {
            assert(s[j + 1] == rest[j]);
        }
        j + 1
    } else {
        assert(s.subrange(0, s.len() as int) =~= s);
        0
    }
}

proof fn lemma_trim_end_index(s: Seq<char>) -> (j: int)
    ensures
        0 <= j <= s.len(),
        trim_end(s) == s.subrange(0, j),
        forall|k: int| j <= k < s.len() ==> is_whitespace(#[trigger] s[k]),
        j > 0 ==> !is_whitespace(s[j - 1]),
    decreases s.len(),
{
    if s.len() > 0 && is_whitespace(s.last()) {
        let rest = s.drop_last();
        let j = lemma_trim_end_index(rest);
        assert(rest.subrange(0, j) =~= s.subrange(0, j));
        assert forall|k: int| j <= k < s.len() implies is_whitespace(#[trigger] s[k]) by {
            if k < s.len() - 1 {
                assert(s[k] == rest[k]);
            }
        }
        if j > 0 {
            assert(s[j - 1] == rest[j - 1]);
        }
        j
    } else {
        assert(s.subrange(0, s.len() as int) =~= s);
        s.len() as int
    }
}

/// Trimming keeps exactly the inside of a text: what it gives is a
/// contiguous part of the text, everything cut off on either side is
/// whitespace, and what is kept neither starts nor ends with whitespace.
pub proof fn law_trim_keeps_the_inside(s: Seq<char>)
    ensures
        exists|i: int, j: int|
            {
                &&& 0 <= i <= j <= s.len()
                &&& trim(s) == s.subrange(i, j)
                &&& forall|k: int| 0 <= k < i ==> is_whitespace(#[trigger] s[k])
                &&& forall|k: int| j <= k < s.len() ==> is_whitespace(#[trigger] s[k])
                &&& i < j ==> !is_whitespace(s[i]) && !is_whitespace(s[j - 1])
            },
{
    let i = lemma_trim_start_index(s);
    let t = s.subrange(i, s.len() as int);
    let jt = lemma_trim_end_index(t);
    let j = i + jt;
    assert(t.subrange(0, jt) =~= s.subrange(i, j));
    assert forall|k: int| j <= k < s.len() implies is_whitespace(#[trigger] s[k]) by {
        assert(s[k] == t[k - i]);
    }
    if i < j {
        assert(s[j - 1] == t[jt - 1]);
    }
    assert(trim(s) == s.subrange(i, j));
}

/// A text is blank exactly when every character of it is whitespace.
pub proof fn law_blank_means_all_whitespace(s: Seq<char>)
    ensures
        is_blank(s) <==> forall|k: int| 0 <= k < s.len() ==> is_whitespace(#[trigger] s[k]),
{
    let i = lemma_trim_start_index(s);
    let t = s.subrange(i, s.len() as int);
    let jt = lemma_trim_end_index(t);
    assert(t.subrange(0, jt) =~= s.subrange(i, i + jt));
    assert(trim(s) == s.subrange(i, i + jt));
    if is_blank(s) {
        assert forall|k: int| 0 <= k < s.len() implies is_whitespace(#[trigger] s[k]) by {
            if k >= i {
                assert(s[k] == t[k - i]);
            }
        }
    }
    if forall|k: int| 0 <= k < s.len() ==> is_whitespace(#[trigger] s[k]) {
        if jt > 0 {
            assert(s[i] == t[0]);
            assert(is_whitespace(s[i]));
        }
    }
}

/// Stripping a trailing character keeps a prefix of the text, everything cut
/// off is that character, and the prefix does not end with it.
pub proof fn law_strip_trailing_keeps_a_prefix(s: Seq<char>, c: char)
    ensures
        exists|j: int|
            {
                &&& 0 <= j <= s.len()
                &&& strip_trailing(s, c) == s.subrange(0, j)
                &&& forall|k: int| j <= k < s.len() ==> #[trigger] s[k] == c
                &&& j > 0 ==> s[j - 1] != c
            },
    decreases s.len(),
{
    if s.len() > 0 && s.last() == c {
        let rest = s.drop_last();
        law_strip_trailing_keeps_a_prefix(rest, c);
        let j = choose|j: int|
            {
                &&& 0 <= j <= rest.len()
                &&& strip_trailing(rest, c) == rest.subrange(0, j)
                &&& forall|k: int| j <= k < rest.len() ==> #[trigger] rest[k] == c
                &&& j > 0 ==> rest[j - 1] != c
            };
        assert(rest.subrange(0, j) =~= s.subrange(0, j));
        assert forall|k: int| j <= k < s.len() implies #[trigger] s[k] == c by {
            if k < s.len() - 1 {
                assert(s[k] == rest[k]);
            }
        }
        if j > 0 {
            assert(s[j - 1] == rest[j - 1]);
        }
    } else {
        assert(s.subrange(0, s.len() as int) =~= s);
    }
}


/// The names that replies carry tell the values apart: two statuses, or two
/// payment types, with the same name are the same; a route provider is
/// named as the payment type it stands for; and the statuses read
/// `pending`, `completed`, `failed` and `cancelled`.
pub proof fn law_names_tell_values_apart(
    a: PaymentStatus,
    b: PaymentStatus,
    t: PaymentType,
    u: PaymentType,
    p: PaymentProvider,
)
    ensures
        status_name(a) == status_name(b) ==> a == b,
        payment_type_name(t) == payment_type_name(u) ==> t == u,
        provider_name(p) == payment_type_name(provider_type(p)),
        status_name(PaymentStatus::Pending) == "pending"@,
        status_name(PaymentStatus::Completed) == "completed"@,
        status_name(PaymentStatus::Failed) == "failed"@,
        status_name(PaymentStatus::Cancelled) == "cancelled"@,
{
    reveal_strlit("pending");
    reveal_strlit("completed");
    reveal_strlit("failed");
    reveal_strlit("cancelled");
    reveal_strlit("vipps");
    reveal_strlit("apple_pay");
    reveal_strlit("stripe");
    assert("pending"@.len() == 7);
    assert("completed"@.len() == 9);
    assert("failed"@.len() == 6);
    assert("cancelled"@.len() == 9);
    assert("completed"@[1] != "cancelled"@[1]);
    assert("vipps"@.len() == 5);
    assert("apple_pay"@.len() == 9);
    assert("stripe"@.len() == 6);
}


/// What a caller leaves out is filled in the same way everywhere: a Stripe
/// payment without a currency is in `nok`, a Vipps payment without a return
/// page returns to the default checkout page, and a server without a domain
/// or a port listens on `localhost:6767`; what the caller gives is used as given.
pub proof fn law_defaults_fill_only_what_is_missing(
    currency: Option<String>,
    return_url: Option<String>,
    domain: Option<String>,
    port: Option<u16>,
)
    ensures
        stripe_currency(currency) == match currency {
            Some(c) => c@,
            None => "nok"@,
        },
        return_target(return_url) == match return_url {
            Some(u) => u@,
            None => "https://example.com/checkout/complete"@,
        },
        listen_address_of(domain, port) == match domain {
            Some(d) => d@,
            None => "localhost"@,
        } + ":"@ + decimal(
            match port {
                Some(p) => p as nat,
                None => 6767nat,
            },
        ),
{
}

/// A Vipps amount can be sent exactly when its value in øre fits in 32
/// bits, that is up to 42 949 672 kroner.
pub proof fn law_vipps_amount_limit(amount: u32)
    ensures
        amount_fits_in_ore(amount) <==> amount <= 42949672,
{
}

/// An Apple Pay payment is referenced by the second it started and its
/// amount, and an incomplete configuration is reported by listing the blank
/// settings after a fixed preamble, separated by commas.
pub proof fn law_apple_pay_reference_and_report(now: u64, amount: u32, first: Seq<char>, second: Seq<char>)
    ensures
        apple_pay_reference(now, amount) == "applepay-"@ + decimal(now as nat) + "-"@ + decimal(amount as nat),
        missing_config_error(seq![first]) == ProviderErrorView::RequestFailed(
            "apple_pay is missing required config values: "@ + first,
        ),
        missing_config_error(seq![first, second]) == ProviderErrorView::RequestFailed(
            "apple_pay is missing required config values: "@ + first + ", "@ + second,
        ),
{
    assert(seq![first, second].drop_last() =~= seq![first]);
    assert(crate::text::join(seq![first, second], ", "@) == first + ", "@ + second);
    assert("apple_pay is missing required config values: "@ + (first + ", "@ + second)
        =~= "apple_pay is missing required config values: "@ + first + ", "@ + second);
}


proof fn lemma_tagged_text_is_unique(p: Seq<char>, x: nat, y: nat, x2: nat, y2: nat)
    requires
        p + decimal(x) + "-"@ + decimal(y) == p + decimal(x2) + "-"@ + decimal(y2),
    ensures
        x == x2,
        y == y2,
{
    reveal_strlit("-");
    lemma_decimal_digits(x);
    lemma_decimal_digits(x2);
    lemma_decimal_digits(y);
    lemma_decimal_digits(y2);
    let s1 = p + decimal(x) + "-"@ + decimal(y);
    let s2 = p + decimal(x2) + "-"@ + decimal(y2);
    let l1 = decimal(x).len() as int;
    let l2 = decimal(x2).len() as int;
    let n = p.len() as int;
    if l1 < l2 {
        assert(s1[n + l1] == '-');
        assert(s2[n + l1] == decimal(x2)[l1]);
        assert(is_digit(decimal(x2)[l1]));
    }
    if l2 < l1 {
        assert(s2[n + l2] == '-');
        assert(s1[n + l2] == decimal(x)[l2]);
        assert(is_digit(decimal(x)[l2]));
    }
    assert(l1 == l2);
    assert(decimal(x) =~= s1.subrange(n, n + l1));
    assert(decimal(x2) =~= s2.subrange(n, n + l2));
    assert(decimal(y) =~= s1.subrange(n + l1 + 1, s1.len() as int));
    assert(decimal(y2) =~= s2.subrange(n + l2 + 1, s2.len() as int));
}

/// Payments started at different seconds or for different amounts never
/// share a reference, and their requests never share an idempotency key:
/// equal references (or request ids) mean the same second and the same
/// amount. The same holds of Apple Pay references.
pub proof fn law_references_tell_payments_apart(now: u64, amount: u32, now2: u64, amount2: u32)
    ensures
        reference_for(now, amount) == reference_for(now2, amount2) ==> now == now2 && amount == amount2,
        request_id_for(now, amount) == request_id_for(now2, amount2) ==> now == now2 && amount == amount2,
        apple_pay_reference(now, amount) == apple_pay_reference(now2, amount2) ==> now == now2 && amount
            == amount2,
{
    if reference_for(now, amount) == reference_for(now2, amount2) {
        lemma_tagged_text_is_unique("solari-"@, now as nat, amount as nat, now2 as nat, amount2 as nat);
    }
    if request_id_for(now, amount) == request_id_for(now2, amount2) {
        lemma_tagged_text_is_unique("solari-req-"@, now as nat, amount as nat, now2 as nat, amount2 as nat);
    }
    if apple_pay_reference(now, amount) == apple_pay_reference(now2, amount2) {
        lemma_tagged_text_is_unique("applepay-"@, now as nat, amount as nat, now2 as nat, amount2 as nat);
    }
}

} // verus!
