use vstd::prelude::*;

use crate::error::{PaymentProviderError, ProviderErrorView};
use crate::http::{header, is_success, is_success_status, push_header, HttpMethod, HttpReply, HttpRequest, HttpRequestView};
use crate::payment::PaymentStatus;
use crate::text::{
    decimal, is_blank, parse_u64, parse_u64_str, str_is_blank, strip_trailing,
    strip_trailing_char, u64_to_decimal,
};

verus! {

/// Credentials and endpoint of a Vipps merchant account.
#[derive(Debug, Clone)]
pub struct VippsConfig {
    pub base_url: String,
    pub client_id: String,
    pub client_secret: String,
    pub subscription_key: String,
    pub merchant_serial_number: String,
}

impl VippsConfig {
    pub fn new(
        base_url: String,
        client_id: String,
        client_secret: String,
        subscription_key: String,
        merchant_serial_number: String,
    ) -> (c: Self)
        ensures
            c.base_url == base_url,
            c.client_id == client_id,
            c.client_secret == client_secret,
            c.subscription_key == subscription_key,
            c.merchant_serial_number == merchant_serial_number,
    {
        VippsConfig { base_url, client_id, client_secret, subscription_key, merchant_serial_number }
    }
}

/// An access token together with the second (Unix time) at which it expires.
#[derive(Debug, Clone)]
pub struct CachedToken {
    pub token: String,
    pub expires_at: u64,
}

impl View for CachedToken {
    type V = (Seq<char>, u64);

    open spec fn view(&self) -> (Seq<char>, u64) {
        (self.token@, self.expires_at)
    }
}

impl CachedToken {
    /// An identical copy of this token.
    pub fn duplicate(&self) -> (r: Self)
        ensures
            r == *self,
    {
        CachedToken { token: self.token.clone(), expires_at: self.expires_at }
    }
}

/// The lifetime of an access token as Vipps sends it: a number or a text.
#[derive(Debug, Clone)]
pub enum VippsExpiresIn {
    Number(u64),
    Text(String),
}

/// The body of a successful access-token reply.
#[derive(Debug, Clone)]
pub struct VippsAccessTokenResponse {
    pub access_token: String,
    pub expires_in: Option<VippsExpiresIn>,
}

/// Lifetime assumed when Vipps sends none, or one that is not a number.
pub open spec fn default_token_lifetime() -> u64 {
    3600
}

/// The lifetime in seconds that an access-token reply grants.
pub open spec fn expires_in_seconds_of(e: Option<VippsExpiresIn>) -> u64 {
    match e {
        Some(VippsExpiresIn::Number(v)) => v,
        Some(VippsExpiresIn::Text(t)) => match parse_u64(t@) {
            Some(v) => v,
            None => default_token_lifetime(),
        },
        None => default_token_lifetime(),
    }
}

impl VippsAccessTokenResponse {
    /// The lifetime in seconds: the number sent, the text sent when it reads
    /// as a number, and 3600 otherwise.
    pub fn expires_in_seconds(&self) -> (s: u64)
        ensures
            s == expires_in_seconds_of(self.expires_in),
    {
        match &self.expires_in {
            Some(VippsExpiresIn::Number(v)) => *v,
            Some(VippsExpiresIn::Text(t)) => match parse_u64_str(t.as_str()) {
                Some(v) => v,
                None => 3600,
            },
            None => 3600,
        }
    }
}

/// An amount in minor units of a currency.
#[derive(Debug, Clone)]
pub struct VippsAmount {
    pub currency: String,
    pub value: u32,
}

/// How the customer pays.
#[derive(Debug, Clone)]
pub struct VippsPaymentMethod {
    pub kind: String,
}

/// The payload of a create-payment call.
#[derive(Debug, Clone)]
pub struct VippsCreatePaymentRequest {
    /// Sent as the idempotency key, not in the payload.
    pub request_id: String,
    pub amount: VippsAmount,
    pub payment_method: VippsPaymentMethod,
    pub reference: String,
    pub return_url: String,
    pub user_flow: String,
}

/// The request id of a payment created at second `now` for `amount` kroner.
pub open spec fn request_id_for(now: u64, amount: u32) -> Seq<char> {
    "solari-req-"@ + decimal(now as nat) + "-"@ + decimal(amount as nat)
}

/// The merchant reference of a payment created at second `now` for `amount` kroner.
pub open spec fn reference_for(now: u64, amount: u32) -> Seq<char> {
    "solari-"@ + decimal(now as nat) + "-"@ + decimal(amount as nat)
}

/// Whether `amount` kroner can be expressed in øre within 32 bits.
pub open spec fn amount_fits_in_ore(amount: u32) -> bool {
    amount * 100 <= u32::MAX
}

/// Whether `r` is the create-payment payload for `amount` kroner made at `now`.
pub open spec fn is_create_payment_payload(
    r: VippsCreatePaymentRequest,
    amount: u32,
    return_url: Seq<char>,
    user_flow: Seq<char>,
    now: u64,
) -> bool {
    &&& r.request_id@ == request_id_for(now, amount)
    &&& r.amount.currency@ == "NOK"@
    &&& r.amount.value == amount * 100
    &&& r.payment_method.kind@ == "WALLET"@
    &&& r.reference@ == reference_for(now, amount)
    &&& r.return_url@ == return_url
    &&& r.user_flow@ == user_flow
}

fn tagged_id(prefix: &str, now: u64, amount: u32) -> (s: String)
    ensures
        s@ == prefix@ + decimal(now as nat) + "-"@ + decimal(amount as nat),
{
    let mut s = String::from_str(prefix);
    let n = u64_to_decimal(now);
    s.append(n.as_str());
    s.append("-");
    let a = u64_to_decimal(amount as u64);
    s.append(a.as_str());
    s
}

impl VippsCreatePaymentRequest {
    /// The payload for `amount` kroner, made at second `now` (Unix time):
    /// the amount goes in øre, and the ids carry the time and the amount.
    pub fn new(amount: u32, return_url: String, user_flow: String, now: u64) -> (r: Self)
        requires
            amount_fits_in_ore(amount),
        ensures
            is_create_payment_payload(r, amount, return_url@, user_flow@, now),
            r.return_url == return_url,
            r.user_flow == user_flow,
    {
        let amount_in_ore = amount * 100;
        VippsCreatePaymentRequest {
            request_id: tagged_id("solari-req-", now, amount),
            amount: VippsAmount { currency: String::from_str("NOK"), value: amount_in_ore },
            payment_method: VippsPaymentMethod { kind: String::from_str("WALLET") },
            reference: tagged_id("solari-", now, amount),
            return_url,
            user_flow,
        }
    }
}

/// The body of a successful create-payment reply.
#[derive(Debug, Clone)]
pub struct VippsCreatePaymentResponse {
    pub reference: Option<String>,
    pub redirect_url: Option<String>,
}

/// The parts of a payment lookup reply that the library reads.
#[derive(Debug, Clone)]
pub struct VippsPaymentDetails {
    pub reference: Option<String>,
    pub state: String,
    pub currency: Option<String>,
}

/// How a Vipps payment state reads as a payment status: created payments
/// are pending, authorized ones completed, aborted and terminated ones
/// cancelled, expired ones failed; a state not listed counts as pending.
pub open spec fn status_of_state(state: Seq<char>) -> PaymentStatus {
    if state == "AUTHORIZED"@ {
        PaymentStatus::Completed
    } else if state == "ABORTED"@ || state == "TERMINATED"@ {
        PaymentStatus::Cancelled
    } else if state == "EXPIRED"@ {
        PaymentStatus::Failed
    } else {
        PaymentStatus::Pending
    }
}

/// The payment status that a Vipps payment state stands for.
pub fn status_from_state(state: &str) -> (s: PaymentStatus)
    ensures
        s == status_of_state(state@),
{
    let st = String::from_str(state);
    if st == String::from_str("AUTHORIZED") {
        PaymentStatus::Completed
    } else if st == String::from_str("ABORTED") || st == String::from_str("TERMINATED") {
        PaymentStatus::Cancelled
    } else if st == String::from_str("EXPIRED") {
        PaymentStatus::Failed
    } else {
        PaymentStatus::Pending
    }
}

/// The return URL used when the caller gives none.
pub open spec fn default_return_url() -> Seq<char> {
    "https://example.com/checkout/complete"@
}

/// The Vipps base URL without trailing slashes.
pub open spec fn vipps_base(c: VippsConfig) -> Seq<char> {
    strip_trailing(c.base_url@, '/')
}

/// The request that asks Vipps for an access token.
pub open spec fn access_token_request_spec(c: VippsConfig) -> HttpRequestView {
    HttpRequestView {
        method: HttpMethod::Post,
        url: vipps_base(c) + "/accesstoken/get"@,
        headers: seq![
            header("Content-Type"@, "application/json"@),
            header("client_id"@, c.client_id@),
            header("client_secret"@, c.client_secret@),
            header("Ocp-Apim-Subscription-Key"@, c.subscription_key@),
            header("Merchant-Serial-Number"@, c.merchant_serial_number@),
        ],
        body: None,
    }
}

/// The request that creates a payment with the given access token and request id.
pub open spec fn create_payment_request_spec(
    c: VippsConfig,
    token: Seq<char>,
    request_id: Seq<char>,
) -> HttpRequestView {
    HttpRequestView {
        method: HttpMethod::Post,
        url: vipps_base(c) + "/epayment/v1/payments"@,
        headers: seq![
            header("Authorization"@, "Bearer "@ + token),
            header("Content-Type"@, "application/json"@),
            header("Accept"@, "application/json"@),
            header("Merchant-Serial-Number"@, c.merchant_serial_number@),
            header("Ocp-Apim-Subscription-Key"@, c.subscription_key@),
            header("Idempotency-Key"@, request_id),
        ],
        body: None,
    }
}

/// The request that looks up the payment with the given reference.
pub open spec fn payment_status_request_spec(
    c: VippsConfig,
    token: Seq<char>,
    reference: Seq<char>,
) -> HttpRequestView {
    HttpRequestView {
        method: HttpMethod::Get,
        url: vipps_base(c) + "/epayment/v1/payments/"@ + reference,
        headers: seq![
            header("Authorization"@, "Bearer "@ + token),
            header("Accept"@, "application/json"@),
            header("Merchant-Serial-Number"@, c.merchant_serial_number@),
            header("Ocp-Apim-Subscription-Key"@, c.subscription_key@),
        ],
        body: None,
    }
}

/// The error for a reply whose status is not a success.
pub open spec fn failed_reply_error(what: Seq<char>, reply: HttpReply) -> ProviderErrorView {
    ProviderErrorView::RequestFailed(
        "vipps "@ + what + " failed ("@ + reply.status_text@ + "): "@ + reply.body@,
    )
}

/// What an access-token reply yields: the error it reports, or the token it
/// grants, valid from second `now` for the lifetime the reply gives.
pub open spec fn access_token_outcome(
    reply: HttpReply,
    payload: Result<VippsAccessTokenResponse, String>,
    now: u64,
) -> Result<(Seq<char>, u64), ProviderErrorView> {
    if !is_success_status(reply.status) {
        Err(failed_reply_error("access token request"@, reply))
    } else {
        match payload {
            Err(m) => Err(ProviderErrorView::Request(m@)),
            Ok(p) => if is_blank(p.access_token@) {
                Err(ProviderErrorView::AuthenticationFailed)
            } else {
                Ok((p.access_token@, (now + expires_in_seconds_of(p.expires_in)) as u64))
            },
        }
    }
}

/// Whether the expiry of the token that `reply` grants at `now` stays
/// within 64 bits. Only a successful reply with a token that is not blank
/// grants one; every other reply is answered with an error and needs nothing.
pub open spec fn token_expiry_fits(
    reply: HttpReply,
    payload: Result<VippsAccessTokenResponse, String>,
    now: u64,
) -> bool {
    match payload {
        Ok(p) => is_success_status(reply.status) && !is_blank(p.access_token@) ==> now
            + expires_in_seconds_of(p.expires_in) <= u64::MAX,
        Err(_) => true,
    }
}

/// What a create-payment reply yields.
pub open spec fn create_payment_outcome(
    reply: HttpReply,
    payload: Result<VippsCreatePaymentResponse, String>,
) -> Result<VippsCreatePaymentResponse, ProviderErrorView> {
    if !is_success_status(reply.status) {
        Err(failed_reply_error("create payment"@, reply))
    } else {
        match payload {
            Err(m) => Err(ProviderErrorView::Request(m@)),
            Ok(p) => Ok(p),
        }
    }
}

/// What a payment lookup reply yields: the reference, the raw state and the
/// status it stands for, and the currency.
pub open spec fn payment_status_outcome(
    reply: HttpReply,
    payload: Result<VippsPaymentDetails, String>,
) -> Result<VippsPaymentDetails, ProviderErrorView> {
    if !is_success_status(reply.status) {
        Err(failed_reply_error("get payment"@, reply))
    } else {
        match payload {
            Err(m) => Err(ProviderErrorView::Request(m@)),
            Ok(p) => Ok(p),
        }
    }
}

/// The view of a result whose both sides have views.
pub open spec fn result_view<T: View, E: View>(r: Result<T, E>) -> Result<T::V, E::V> {
    match r {
        Ok(t) => Ok(t@),
        Err(e) => Err(e@),
    }
}

/// Whether `r` carries exactly what `expected` says, errors taken by their view.
pub open spec fn same_outcome<T>(r: Result<T, PaymentProviderError>, expected: Result<T, ProviderErrorView>) -> bool {
    match (r, expected) {
        (Ok(a), Ok(b)) => a == b,
        (Err(a), Err(b)) => a@ == b,
        _ => false,
    }
}

fn failed_reply(what: &str, reply: &HttpReply) -> (e: PaymentProviderError)
    ensures
        e@ == failed_reply_error(what@, *reply),
{
    let mut m = String::from_str("vipps ");
    m.append(what);
    m.append(" failed (");
    m.append(reply.status_text.as_str());
    m.append("): ");
    m.append(reply.body.as_str());
    PaymentProviderError::RequestFailed(m)
}

/// A Vipps merchant account together with the access token it last obtained.
#[derive(Debug)]
pub struct VippsProvider {
    pub config: VippsConfig,
    pub token_cache: Option<CachedToken>,
}

/// The token that the cache holds and that is still valid at second `now`.
pub open spec fn valid_cached_token(cache: Option<CachedToken>, now: u64) -> Option<CachedToken> {
    match cache {
        Some(t) => if t.expires_at > now {
            Some(t)
        } else {
            None
        },
        None => None,
    }
}

impl VippsProvider {
    /// A provider for `config` with no token obtained yet.
    pub fn new(config: VippsConfig) -> (p: Self)
        ensures
            p.config == config,
            p.token_cache is None,
    {
        VippsProvider { config, token_cache: None }
    }

    fn base_url(&self) -> (r: &str)
        ensures
            r@ == vipps_base(self.config),
    {
        strip_trailing_char(self.config.base_url.as_str(), '/')
    }

    /// The request for a fresh access token.
    pub fn access_token_request(&self) -> (r: HttpRequest)
        ensures
            r@ == access_token_request_spec(self.config),
    {
        let mut url = String::from_str(self.base_url());
        url.append("/accesstoken/get");
        let mut headers: Vec<(String, String)> = Vec::new();
        push_header(&mut headers, "Content-Type", "application/json");
        push_header(&mut headers, "client_id", self.config.client_id.as_str());
        push_header(&mut headers, "client_secret", self.config.client_secret.as_str());
        push_header(&mut headers, "Ocp-Apim-Subscription-Key", self.config.subscription_key.as_str());
        push_header(&mut headers, "Merchant-Serial-Number", self.config.merchant_serial_number.as_str());
        let r = HttpRequest { method: HttpMethod::Post, url, headers, body: None };
        assert(r@.headers =~= access_token_request_spec(self.config).headers);
        r
    }

    /// Reads an access-token reply received at second `now`: a failed status
    /// gives `RequestFailed` with the status and body, an undecodable body
    /// `Request`, a blank token `AuthenticationFailed`; otherwise the token,
    /// expiring `expires_in_seconds` after `now`.
    pub fn token_from_reply(
        reply: &HttpReply,
        payload: Result<VippsAccessTokenResponse, String>,
        now: u64,
    ) -> (r: Result<CachedToken, PaymentProviderError>)
        requires
            token_expiry_fits(*reply, payload, now),
        ensures
            result_view(r) == access_token_outcome(*reply, payload, now),
    {
        if !is_success(reply.status) {
            return Err(failed_reply("access token request", reply));
        }
        match payload {
            Err(m) => Err(PaymentProviderError::Request(m)),
            Ok(p) => {
                if str_is_blank(p.access_token.as_str()) {
                    Err(PaymentProviderError::AuthenticationFailed)
                } else {
                    let lifetime = p.expires_in_seconds();
                    Ok(CachedToken { token: p.access_token, expires_at: now + lifetime })
                }
            },
        }
    }

    /// The cached token when it is still valid at second `now`.
    pub fn cached_token(&self, now: u64) -> (r: Option<CachedToken>)
        ensures
            r == valid_cached_token(self.token_cache, now),
    {
        match &self.token_cache {
            Some(t) => if t.expires_at > now {
                Some(t.duplicate())
            } else {
                None
            },
            None => None,
        }
    }

    /// Remembers `token` for later calls.
    pub fn store_token(&mut self, token: CachedToken)
        ensures
            final(self).token_cache == Some(token),
            final(self).config == old(self).config,
    {
        self.token_cache = Some(token);
    }

    /// The payload and request that create a payment of `amount` kroner at
    /// second `now`, returning to `return_url` or to the default page. A zero
    /// amount is refused before any token is obtained, so it never reaches here.
    pub fn create_payment_request(
        &self,
        amount: u32,
        return_url: Option<&str>,
        token: &CachedToken,
        now: u64,
    ) -> (r: (VippsCreatePaymentRequest, HttpRequest))
        requires
            amount != 0,
            amount_fits_in_ore(amount),
        ensures
            is_create_payment_payload(
                r.0,
                amount,
                match return_url {
                    Some(u) => u@,
                    None => default_return_url(),
                },
                "WEB_REDIRECT"@,
                now,
            ),
            r.1@ == create_payment_request_spec(self.config, token.token@, r.0.request_id@),
    {
        let target = match return_url {
            Some(u) => String::from_str(u),
            None => String::from_str("https://example.com/checkout/complete"),
        };
        let payload = VippsCreatePaymentRequest::new(
            amount,
            target,
            String::from_str("WEB_REDIRECT"),
            now,
        );
        let mut url = String::from_str(self.base_url());
        url.append("/epayment/v1/payments");
        let mut bearer = String::from_str("Bearer ");
        bearer.append(token.token.as_str());
        let mut headers: Vec<(String, String)> = Vec::new();
        push_header(&mut headers, "Authorization", bearer.as_str());
        push_header(&mut headers, "Content-Type", "application/json");
        push_header(&mut headers, "Accept", "application/json");
        push_header(&mut headers, "Merchant-Serial-Number", self.config.merchant_serial_number.as_str());
        push_header(&mut headers, "Ocp-Apim-Subscription-Key", self.config.subscription_key.as_str());
        push_header(&mut headers, "Idempotency-Key", payload.request_id.as_str());
        let request = HttpRequest { method: HttpMethod::Post, url, headers, body: None };
        assert(request@.headers =~= create_payment_request_spec(
            self.config,
            token.token@,
            payload.request_id@,
        ).headers);
        (payload, request)
    }

    /// Reads a create-payment reply.
    pub fn payment_from_reply(
        reply: &HttpReply,
        payload: Result<VippsCreatePaymentResponse, String>,
    ) -> (r: Result<VippsCreatePaymentResponse, PaymentProviderError>)
        ensures
            same_outcome(r, create_payment_outcome(*reply, payload)),
    {
        if !is_success(reply.status) {
            return Err(failed_reply("create payment", reply));
        }
        match payload {
            Err(m) => Err(PaymentProviderError::Request(m)),
            Ok(p) => Ok(p),
        }
    }

    /// The request that looks up the payment with `reference`.
    pub fn payment_status_request(&self, reference: &str, token: &CachedToken) -> (r: HttpRequest)
        ensures
            r@ == payment_status_request_spec(self.config, token.token@, reference@),
    {
        let mut url = String::from_str(self.base_url());
        url.append("/epayment/v1/payments/");
        url.append(reference);
        let mut bearer = String::from_str("Bearer ");
        bearer.append(token.token.as_str());
        let mut headers: Vec<(String, String)> = Vec::new();
        push_header(&mut headers, "Authorization", bearer.as_str());
        push_header(&mut headers, "Accept", "application/json");
        push_header(&mut headers, "Merchant-Serial-Number", self.config.merchant_serial_number.as_str());
        push_header(&mut headers, "Ocp-Apim-Subscription-Key", self.config.subscription_key.as_str());
        let request = HttpRequest { method: HttpMethod::Get, url, headers, body: None };
        assert(request@.headers =~= payment_status_request_spec(
            self.config,
            token.token@,
            reference@,
        ).headers);
        request
    }

    /// Reads a payment lookup reply.
    pub fn payment_status_from_reply(
        reply: &HttpReply,
        payload: Result<VippsPaymentDetails, String>,
    ) -> (r: Result<VippsPaymentDetails, PaymentProviderError>)
        ensures
            same_outcome(r, payment_status_outcome(*reply, payload)),
    {
        if !is_success(reply.status) {
            return Err(failed_reply("get payment", reply));
        }
        match payload {
            Err(m) => Err(PaymentProviderError::Request(m)),
            Ok(p) => Ok(p),
        }
    }
}

} // verus!
