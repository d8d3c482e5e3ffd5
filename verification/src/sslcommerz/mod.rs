//! The SSLCommerz payment gateway: endpoints, request parameters, the
//! mapping of its responses and errors onto the gateway interface, and the check
//! of the signature of its payment notifications.
use crate::services::payment_gateway::{GatewayInitResponse, GatewayValidationResponse, PaymentGatewayError};
use crate::text::str_eq;
pub mod ipn;
pub mod signature;

use vstd::prelude::*;

verus! {

/// Configuration for the SSLCommerz payment gateway.
#[derive(Debug, Clone)]
pub struct SslCommerzConfig {
    /// Merchant store id provided by SSLCommerz.
    pub store_id: String,
    /// Merchant store password provided by SSLCommerz.
    pub store_passwd: String,
    /// Base URL for the SSLCommerz API (sandbox or production).
    pub base_url: String,
    /// Success redirect URL (absolute).
    pub success_url: String,
    /// Failure redirect URL (absolute).
    pub fail_url: String,
    /// Cancel redirect URL (absolute).
    pub cancel_url: String,
    /// IPN notification URL (absolute).
    pub ipn_url: String,
}

impl Default for SslCommerzConfig {
    fn default() -> (c: Self)
        ensures
            c.store_id@ == Seq::<char>::empty(),
            c.store_passwd@ == Seq::<char>::empty(),
            c.base_url@ == "https://sandbox.sslcommerz.com"@,
            c.success_url@ == Seq::<char>::empty(),
            c.fail_url@ == Seq::<char>::empty(),
            c.cancel_url@ == Seq::<char>::empty(),
            c.ipn_url@ == Seq::<char>::empty(),
    {
        SslCommerzConfig {
            store_id: String::new(),
            store_passwd: String::new(),
            base_url: "https://sandbox.sslcommerz.com".to_owned(),
            success_url: String::new(),
            fail_url: String::new(),
            cancel_url: String::new(),
            ipn_url: String::new(),
        }
    }
}

/// The endpoint for initiating a payment session.
pub open spec fn gateway_url_text(base: Seq<char>) -> Seq<char> {
    base + "/gwprocess/v4/api.php"@
}

/// The endpoint for validating a transaction.
pub open spec fn validation_url_text(base: Seq<char>, val_id: Seq<char>, store_id: Seq<char>, passwd: Seq<char>) -> Seq<
    char,
> {
    base + "/validator/api/validationserverAPI.php?val_id="@ + val_id + "&store_id="@ + store_id
        + "&store_passwd="@ + passwd + "&v=1&format=json"@
}

/// The form fields of a payment session request, in order.
pub open spec fn init_params_spec(
    c: SslCommerzConfig,
    transaction_id: Seq<char>,
    amount: Seq<char>,
    currency: Seq<char>,
    cus_name: Seq<char>,
    cus_email: Seq<char>,
    cus_phone: Seq<char>,
) -> Seq<(Seq<char>, Seq<char>)> {
    seq![
        ("store_id"@, c.store_id@),
        ("store_passwd"@, c.store_passwd@),
        ("total_amount"@, amount),
        ("currency"@, currency),
        ("tran_id"@, transaction_id),
        ("success_url"@, c.success_url@),
        ("fail_url"@, c.fail_url@),
        ("cancel_url"@, c.cancel_url@),
        ("ipn_url"@, c.ipn_url@),
        ("cus_name"@, cus_name),
        ("cus_email"@, cus_email),
        ("cus_phone"@, cus_phone),
        ("multi_card_name"@, "mastercard,visacard,amex,bank"@),
        ("shipping_method"@, "NO"@),
        ("num_of_item"@, "1"@),
        ("product_name"@, "Workshop Enrollment"@),
        ("product_category"@, "Education"@),
        ("product_profile"@, "general"@),
    ]
}

/// The texts of a list of string pairs.
pub open spec fn pairs_view(v: Seq<(String, String)>) -> Seq<(Seq<char>, Seq<char>)> {
    v.map_values(|p: (String, String)| (p.0@, p.1@))
}

/// A pair of owned strings from two slices.
fn pair(k: &str, v: &str) -> (p: (String, String))
    ensures
        p.0@ == k@,
        p.1@ == v@,
{
    (k.to_owned(), v.to_owned())
}

impl SslCommerzConfig {
    /// The gateway endpoint for initiating a payment session.
    pub fn gateway_url(&self) -> (u: String)
        ensures
            u@ == gateway_url_text(self.base_url@),
    {
        let mut u = self.base_url.clone();
        u.append("/gwprocess/v4/api.php");
        u
    }

    /// The validation endpoint for verifying a transaction.
    pub fn validation_url(&self, val_id: &str) -> (u: String)
        ensures
            u@ == validation_url_text(self.base_url@, val_id@, self.store_id@, self.store_passwd@),
    {
        let mut u = self.base_url.clone();
        u.append("/validator/api/validationserverAPI.php?val_id=");
        u.append(val_id);
        u.append("&store_id=");
        u.append(self.store_id.as_str());
        u.append("&store_passwd=");
        u.append(self.store_passwd.as_str());
        u.append("&v=1&format=json");
        u
    }

    /// The form fields posted to open a payment session, `amount` being the
    /// decimal text of the amount.
    pub fn init_params(
        &self,
        transaction_id: &str,
        amount: &str,
        currency: &str,
        cus_name: &str,
        cus_email: &str,
        cus_phone: &str,
    ) -> (p: Vec<(String, String)>)
        ensures
            pairs_view(p@) == init_params_spec(*self, transaction_id@, amount@, currency@, cus_name@, cus_email@, cus_phone@),
    {
        let mut p: Vec<(String, String)> = Vec::new();
        p.push(pair("store_id", self.store_id.as_str()));
        p.push(pair("store_passwd", self.store_passwd.as_str()));
        p.push(pair("total_amount", amount));
        p.push(pair("currency", currency));
        p.push(pair("tran_id", transaction_id));
        p.push(pair("success_url", self.success_url.as_str()));
        p.push(pair("fail_url", self.fail_url.as_str()));
        p.push(pair("cancel_url", self.cancel_url.as_str()));
        p.push(pair("ipn_url", self.ipn_url.as_str()));
        p.push(pair("cus_name", cus_name));
        p.push(pair("cus_email", cus_email));
        p.push(pair("cus_phone", cus_phone));
        p.push(pair("multi_card_name", "mastercard,visacard,amex,bank"));
        p.push(pair("shipping_method", "NO"));
        p.push(pair("num_of_item", "1"));
        p.push(pair("product_name", "Workshop Enrollment"));
        p.push(pair("product_category", "Education"));
        p.push(pair("product_profile", "general"));
        assert(pairs_view(p@) =~= init_params_spec(*self, transaction_id@, amount@, currency@, cus_name@, cus_email@, cus_phone@));
        p
    }
}

/// Response from the SSLCommerz init API.
#[derive(Debug)]
pub struct SslcInitResponse {
    /// Status indicator: `SUCCESS` or `FAILED`.
    pub status: String,
    /// If successful, the gateway redirect URL.
    pub gateway_page_url: Option<String>,
    /// If failed, the error reason.
    pub failedreason: Option<String>,
    /// Unique session key from the gateway.
    pub sessionkey: Option<String>,
    /// Transaction reference.
    pub transaction_id: Option<String>,
}

impl SslcInitResponse {
    /// The gateway interface's view of this response: successful exactly when the status
    /// is `SUCCESS`.
    pub fn into_gateway_response(self) -> (g: GatewayInitResponse)
        ensures
            g.success == (self.status@ == "SUCCESS"@),
            g.gateway_url == self.gateway_page_url,
            g.session_key == self.sessionkey,
            g.error_message == self.failedreason,
    {
        GatewayInitResponse {
            success: str_eq(self.status.as_str(), "SUCCESS"),
            gateway_url: self.gateway_page_url,
            session_key: self.sessionkey,
            error_message: self.failedreason,
        }
    }
}

/// Response from the SSLCommerz validation API.
#[derive(Debug)]
pub struct SslcValidationResponse {
    /// Status: `VALID`, `VALIDATED`, or `FAILED`.
    pub status: String,
    /// The transaction id that was validated.
    pub transaction_id: Option<String>,
    /// The validation id.
    pub val_id: Option<String>,
    /// The amount that was paid.
    pub amount: Option<String>,
    /// The currency (e.g. `BDT`).
    pub currency: Option<String>,
    /// The card type used.
    pub card_type: Option<String>,
    /// The bank transaction id.
    pub bank_transaction_id: Option<String>,
    /// The other fields of the reply, by name (names are distinct).
    pub extra: Vec<(String, serde_json::Value)>,
}

impl SslcValidationResponse {
    /// The gateway interface's view of this response, with the raw data given: valid
    /// exactly when the status is `VALID` or `VALIDATED`.
    pub fn into_gateway_response(self, raw_data: serde_json::Value) -> (g: GatewayValidationResponse)
        ensures
            g.is_valid == (self.status@ == "VALID"@ || self.status@ == "VALIDATED"@),
            g.amount == self.amount,
            g.currency == self.currency,
            g.transaction_id == self.transaction_id,
            g.raw_data == raw_data,
    {
        let is_valid = str_eq(self.status.as_str(), "VALID") || str_eq(self.status.as_str(), "VALIDATED");
        GatewayValidationResponse {
            is_valid,
            amount: self.amount,
            currency: self.currency,
            transaction_id: self.transaction_id,
            raw_data,
        }
    }
}

/// Errors returned by the SSLCommerz client.
#[derive(Debug)]
pub enum SslCommerzError {
    /// The HTTP request to the gateway failed.
    RequestFailed(String),
    /// Failed to parse the gateway response.
    ResponseParseFailed(String),
    /// The gateway returned a non-success status.
    GatewayError {
        /// Status string from the gateway.
        status: String,
        /// Reason for failure.
        reason: String,
    },
}

/// The display text of an SSLCommerz error.
pub open spec fn sslc_error_text(e: &SslCommerzError) -> Seq<char> {
    match e {
        SslCommerzError::RequestFailed(m) => "SSLCommerz request failed: "@ + m@,
        SslCommerzError::ResponseParseFailed(m) => "SSLCommerz response parse failed: "@ + m@,
        SslCommerzError::GatewayError { status, reason } => "SSLCommerz returned non-success: "@ + status@
            + " - "@ + reason@,
    }
}

impl SslCommerzError {
    /// The display text of this error.
    pub fn to_string(&self) -> (s: String)
        ensures
            s@ == sslc_error_text(self),
    {
        match self {
            SslCommerzError::RequestFailed(m) => {
                let mut s = "SSLCommerz request failed: ".to_owned();
                s.append(m.as_str());
                s
            },
            SslCommerzError::ResponseParseFailed(m) => {
                let mut s = "SSLCommerz response parse failed: ".to_owned();
                s.append(m.as_str());
                s
            },
            SslCommerzError::GatewayError { status, reason } => {
                let mut s = "SSLCommerz returned non-success: ".to_owned();
                s.append(status.as_str());
                s.append(" - ");
                s.append(reason.as_str());
                s
            },
        }
    }

    /// The gateway interface's error for this error: the same kind and message, a
    /// gateway error's text being `status: reason`.
    pub fn into_gateway_error(self) -> (g: PaymentGatewayError)
        ensures
            match (self, g) {
                (SslCommerzError::RequestFailed(m), PaymentGatewayError::RequestFailed(n)) => n == m,
                (SslCommerzError::ResponseParseFailed(m), PaymentGatewayError::ResponseParseFailed(n)) => n == m,
                (SslCommerzError::GatewayError { status, reason }, PaymentGatewayError::GatewayError(n)) => n@
                    == status@ + ": "@ + reason@,
                _ => false,
            },
    {
        match self {
            SslCommerzError::RequestFailed(m) => PaymentGatewayError::RequestFailed(m),
            SslCommerzError::ResponseParseFailed(m) => PaymentGatewayError::ResponseParseFailed(m),
            SslCommerzError::GatewayError { status, reason } => {
                let mut s = status;
                s.append(": ");
                s.append(reason.as_str());
                PaymentGatewayError::GatewayError(s)
            },
        }
    }
}

} // verus!
