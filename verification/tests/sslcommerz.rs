use sha2::Digest;
use skill_workshop::services::PaymentGatewayError;
use skill_workshop::sslcommerz::ipn::SslcIpnData;
use skill_workshop::sslcommerz::signature::hex_digest_matches;
use skill_workshop::sslcommerz::{SslCommerzConfig, SslCommerzError, SslcInitResponse, SslcValidationResponse};

fn config() -> SslCommerzConfig {
    SslCommerzConfig {
        store_id: "store1".to_string(),
        store_passwd: "secret".to_string(),
        base_url: "https://gw.example".to_string(),
        success_url: "https://app/ok".to_string(),
        fail_url: "https://app/fail".to_string(),
        cancel_url: "https://app/cancel".to_string(),
        ipn_url: "https://app/ipn".to_string(),
    }
}

fn pairs(items: &[(&str, &str)]) -> Vec<(String, String)> {
    items.iter().map(|(k, v)| (k.to_string(), v.to_string())).collect()
}

fn sha512_hex(text: &str) -> String {
    hex::encode(sha2::Sha512::digest(text.as_bytes()))
}

#[test]
fn default_config_points_at_sandbox() {
    let c = SslCommerzConfig::default();
    assert_eq!(c.base_url, "https://sandbox.sslcommerz.com");
    assert!(c.store_id.is_empty() && c.store_passwd.is_empty() && c.ipn_url.is_empty());
    assert_eq!(c.gateway_url(), "https://sandbox.sslcommerz.com/gwprocess/v4/api.php");
}

#[test]
fn endpoints() {
    let c = config();
    assert_eq!(c.gateway_url(), "https://gw.example/gwprocess/v4/api.php");
    assert_eq!(
        c.validation_url("VAL9"),
        "https://gw.example/validator/api/validationserverAPI.php?val_id=VAL9&store_id=store1&store_passwd=secret&v=1&format=json"
    );
}

#[test]
fn init_params_in_order() {
    let p = config().init_params("TX1", "50.00", "BDT", "Ann", "ann@x.com", "0123");
    assert_eq!(p.len(), 18);
    assert_eq!(p[0], ("store_id".to_string(), "store1".to_string()));
    assert_eq!(p[2], ("total_amount".to_string(), "50.00".to_string()));
    assert_eq!(p[4], ("tran_id".to_string(), "TX1".to_string()));
    assert_eq!(p[8], ("ipn_url".to_string(), "https://app/ipn".to_string()));
    assert_eq!(p[11], ("cus_phone".to_string(), "0123".to_string()));
    assert_eq!(p[12], ("multi_card_name".to_string(), "mastercard,visacard,amex,bank".to_string()));
    assert_eq!(p[17], ("product_profile".to_string(), "general".to_string()));
}

#[test]
fn init_response_success_only_for_success_status() {
    let ok = SslcInitResponse {
        status: "SUCCESS".to_string(),
        gateway_page_url: Some("https://pay".to_string()),
        failedreason: None,
        sessionkey: Some("k".to_string()),
        transaction_id: None,
    };
    let g = ok.into_gateway_response();
    assert!(g.success);
    assert_eq!(g.gateway_url.as_deref(), Some("https://pay"));
    assert_eq!(g.session_key.as_deref(), Some("k"));
    let failed = SslcInitResponse {
        status: "success".to_string(),
        gateway_page_url: None,
        failedreason: Some("bad".to_string()),
        sessionkey: None,
        transaction_id: None,
    };
    let g = failed.into_gateway_response();
    assert!(!g.success);
    assert_eq!(g.error_message.as_deref(), Some("bad"));
}

#[test]
fn validation_response_valid_statuses() {
    for (status, valid) in [("VALID", true), ("VALIDATED", true), ("FAILED", false), ("valid", false)] {
        let r = SslcValidationResponse {
            status: status.to_string(),
            transaction_id: Some("T".to_string()),
            val_id: None,
            amount: Some("10.00".to_string()),
            currency: Some("BDT".to_string()),
            card_type: None,
            bank_transaction_id: None,
            extra: vec![("store_amount".to_string(), serde_json::Value::String("9.75".to_string()))],
        };
        let g = r.into_gateway_response(serde_json::Value::Null);
        assert_eq!(g.is_valid, valid);
        assert_eq!(g.amount.as_deref(), Some("10.00"));
        assert_eq!(g.transaction_id.as_deref(), Some("T"));
    }
}

#[test]
fn sslcommerz_error_texts_and_mapping() {
    let e = SslCommerzError::GatewayError { status: "FAILED".to_string(), reason: "no funds".to_string() };
    assert_eq!(e.to_string(), "SSLCommerz returned non-success: FAILED - no funds");
    match e.into_gateway_error() {
        PaymentGatewayError::GatewayError(m) => assert_eq!(m, "FAILED: no funds"),
        _ => panic!("wrong kind"),
    }
    let e = SslCommerzError::RequestFailed("timeout".to_string());
    assert_eq!(e.to_string(), "SSLCommerz request failed: timeout");
    assert!(matches!(e.into_gateway_error(), PaymentGatewayError::RequestFailed(m) if m == "timeout"));
    let e = SslCommerzError::ResponseParseFailed("json".to_string());
    assert_eq!(e.to_string(), "SSLCommerz response parse failed: json");
    assert!(matches!(e.into_gateway_error(), PaymentGatewayError::ResponseParseFailed(m) if m == "json"));
}

#[test]
fn ipn_from_pairs_fills_named_fields_and_extra() {
    let d = SslcIpnData::from_pairs(&pairs(&[
        ("val_id", "V1"),
        ("transaction_id", "T-alt"),
        ("status", "VALID"),
        ("store_id", "store1"),
        ("verify_key", "val_id,status"),
    ]));
    assert_eq!(d.val_id.as_deref(), Some("V1"));
    assert_eq!(d.transaction_id.as_deref(), Some("T-alt"));
    assert_eq!(d.status.as_deref(), Some("VALID"));
    assert_eq!(d.verify_key.as_deref(), Some("val_id,status"));
    assert!(d.verify_sign.is_none());
    assert_eq!(d.extra, vec![("store_id".to_string(), Some("store1".to_string()))]);

    let d = SslcIpnData::from_pairs(&pairs(&[("transaction_id", "T-alt"), ("tran_id", "T-main")]));
    assert_eq!(d.transaction_id.as_deref(), Some("T-main"));
}

#[test]
fn ipn_signed_values() {
    let mut d = SslcIpnData::from_pairs(&pairs(&[("amount", "10.00"), ("value_a", "A")]));
    assert_eq!(d.signed_value("amount"), "10.00");
    assert_eq!(d.signed_value("value_a"), "A");
    assert_eq!(d.signed_value("card_issuer_country"), "");
    assert_eq!(d.signed_value("missing"), "");
    // An extra field that is not a string falls back to the named field.
    d.extra.push(("amount".to_string(), None));
    assert_eq!(d.signed_value("amount"), "10.00");
    d.extra.insert(0, ("status".to_string(), Some("FROM_EXTRA".to_string())));
    d.status = Some("NAMED".to_string());
    assert_eq!(d.signed_value("status"), "FROM_EXTRA");
}

#[test]
fn ipn_signature_message_joins_trimmed_keys() {
    let d = SslcIpnData::from_pairs(&pairs(&[
        ("val_id", "V1"),
        ("tran_id", "T1"),
        ("amount", "100.00"),
        ("verify_sign", "x"),
        ("verify_key", "val_id, tran_id ,amount,,nope"),
    ]));
    assert_eq!(d.signature_message("pw").as_deref(), Some("V1&T1&100.00&&pw"));
    let no_sign = SslcIpnData::from_pairs(&pairs(&[("verify_key", "val_id")]));
    assert_eq!(no_sign.signature_message("pw"), None);
    let no_key = SslcIpnData::from_pairs(&pairs(&[("verify_sign", "abc")]));
    assert_eq!(no_key.signature_message("pw"), None);
    let empty_key = SslcIpnData::from_pairs(&pairs(&[("verify_sign", "abc"), ("verify_key", "")]));
    assert_eq!(empty_key.signature_message("pw").as_deref(), Some("pw"));
}

#[test]
fn hex_digest_comparison() {
    assert!(hex_digest_matches(&[0xab, 0x01, 0xff], "ab01ff"));
    assert!(!hex_digest_matches(&[0xab, 0x01, 0xff], "AB01FF"));
    assert!(!hex_digest_matches(&[0xab], "ab01"));
    assert!(hex_digest_matches(&[], ""));
}

#[test]
fn ipn_signature_accepts_the_right_hash_in_any_case() {
    let c = config();
    let sign = sha512_hex("V1&T1&100.00secret").to_uppercase();
    let data = pairs(&[
        ("val_id", "V1"),
        ("tran_id", "T1"),
        ("amount", "100.00"),
        ("verify_sign", sign.as_str()),
        ("verify_key", "val_id,tran_id,amount"),
    ]);
    assert!(c.verify_ipn_signature(&data));
    let d = SslcIpnData::from_pairs(&data);
    assert!(c.compute_ipn_signature(&d));
}

#[test]
fn ipn_signature_rejects_tampering_and_missing_parts() {
    let c = config();
    let sign = sha512_hex("V1&T1&100.00secret");
    let tampered = pairs(&[
        ("val_id", "V1"),
        ("tran_id", "T1"),
        ("amount", "999.00"),
        ("verify_sign", sign.as_str()),
        ("verify_key", "val_id,tran_id,amount"),
    ]);
    assert!(!c.verify_ipn_signature(&tampered));
    let no_key = pairs(&[("val_id", "V1"), ("verify_sign", sign.as_str())]);
    assert!(!c.verify_ipn_signature(&no_key));
    let no_sign = pairs(&[("val_id", "V1"), ("verify_key", "val_id")]);
    assert!(!c.verify_ipn_signature(&no_sign));
}

#[test]
fn ipn_signature_uses_extra_fields() {
    let c = config();
    let sign = sha512_hex("store1&Xsecret");
    let data = pairs(&[("store_id", "store1"), ("value_b", "X"), ("verify_sign", sign.as_str()), ("verify_key", "store_id,value_b")]);
    assert!(c.verify_ipn_signature(&data));
}

#[test]
fn ipn_keyed_message_uses_the_keys_as_given() {
    let d = SslcIpnData::from_pairs(&pairs(&[("val_id", "V"), ("amount", "5.00")]));
    let keys = vec!["amount".to_string(), " val_id".to_string(), "val_id".to_string()];
    assert_eq!(d.keyed_message(&keys, "pw"), "5.00&&Vpw");
    assert_eq!(d.keyed_message(&Vec::new(), "pw"), "pw");
}
