//! Values returned by the payment gateway interface.
use vstd::prelude::*;

verus! {

/// Response from a payment gateway init call.
#[derive(Debug, Clone)]
pub struct GatewayInitResponse {
    /// Whether the init was successful.
    pub success: bool,
    /// The URL to redirect the user to for payment.
    pub gateway_url: Option<String>,
    /// The gateway session key.
    pub session_key: Option<String>,
    /// Error message if init failed.
    pub error_message: Option<String>,
}

/// Response from a payment gateway validation call.
#[derive(Debug, Clone)]
pub struct GatewayValidationResponse {
    /// Whether the payment is valid.
    pub is_valid: bool,
    /// The transaction amount as returned by the gateway.
    pub amount: Option<String>,
    /// The currency of the transaction.
    pub currency: Option<String>,
    /// The transaction id from the gateway.
    pub transaction_id: Option<String>,
    /// Raw gateway response data.
    pub raw_data: serde_json::Value,
}

/// Errors returned by the payment gateway.
#[derive(Debug)]
pub enum PaymentGatewayError {
    /// The HTTP request to the gateway failed.
    RequestFailed(String),
    /// Failed to parse the gateway response.
    ResponseParseFailed(String),
    /// The gateway returned a business-level error.
    GatewayError(String),
}

/// The display text of a payment gateway error.
pub open spec fn gateway_error_text(e: &PaymentGatewayError) -> Seq<char> {
    match e {
        PaymentGatewayError::RequestFailed(m) => "Gateway request failed: "@ + m@,
        PaymentGatewayError::ResponseParseFailed(m) => "Gateway response parse failed: "@ + m@,
        PaymentGatewayError::GatewayError(m) => "Gateway returned error: "@ + m@,
    }
}

impl PaymentGatewayError {
    /// The display text of this error.
    pub fn to_string(&self) -> (s: String)
        ensures
            s@ == gateway_error_text(self),
    {
        let (prefix, m) = match self {
            PaymentGatewayError::RequestFailed(m) => ("Gateway request failed: ", m),
            PaymentGatewayError::ResponseParseFailed(m) => ("Gateway response parse failed: ", m),
            PaymentGatewayError::GatewayError(m) => ("Gateway returned error: ", m),
        };
        let mut s = prefix.to_owned();
        s.append(m.as_str());
        s
    }
}

} // verus!
