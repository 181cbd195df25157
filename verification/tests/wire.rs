use pwinty::json::{parse_json, parse_u64_str, to_json_string, u64_string, Json};
use pwinty::payloads::{
    ImageResizingMethod, OrderCreate, OrderPayment, OrderShippingCarrier, OrderShippingMethod,
    OrderStatus,
};
use pwinty::Api;

#[test]
fn numbers_render_and_parse_back() {
    assert_eq!(u64_string(0), "0");
    assert_eq!(u64_string(42), "42");
    assert_eq!(u64_string(18446744073709551615), "18446744073709551615");
    assert_eq!(parse_u64_str("0"), Some(0));
    assert_eq!(parse_u64_str("0042"), Some(42));
    assert_eq!(parse_u64_str("18446744073709551615"), Some(u64::MAX));
    assert_eq!(parse_u64_str("18446744073709551616"), None);
    assert_eq!(parse_u64_str(""), None);
    assert_eq!(parse_u64_str("12a"), None);
    assert_eq!(parse_u64_str("-3"), None);
}

#[test]
fn rendering_escapes_strings() {
    let v = Json::Str("a\"b\\c\nd\te\u{1}".to_string());
    assert_eq!(to_json_string(&v), "\"a\\\"b\\\\c\\nd\\te\\u0001\"");
}

#[test]
fn parser_accepts_whitespace_and_nesting() {
    let text = " { \"a\" : [ 1 , true , null , \"x\\ty\" ] , \"b\" : { } } ";
    let v = parse_json(text).expect("well-formed document");
    match v {
        Json::Obj(ms) => {
            assert_eq!(ms.len(), 2);
            assert_eq!(ms[0].0, "a");
            match &ms[0].1 {
                Json::Arr(items) => {
                    assert_eq!(items.len(), 4);
                    assert!(matches!(&items[0], Json::Num(t) if t == "1"));
                    assert!(matches!(&items[1], Json::Bool(true)));
                    assert!(matches!(&items[2], Json::Null));
                    assert!(matches!(&items[3], Json::Str(s) if s == "x\ty"));
                }
                other => panic!("expected an array, got {:?}", other),
            }
            assert!(matches!(&ms[1].1, Json::Obj(inner) if inner.is_empty()));
        }
        other => panic!("expected an object, got {:?}", other),
    }
}

#[test]
fn parser_rejects_malformed_documents() {
    assert!(parse_json("").is_none());
    assert!(parse_json("{").is_none());
    assert!(parse_json("[1,]").is_none());
    assert!(parse_json("{\"a\":1,}").is_none());
    assert!(parse_json("\"unterminated").is_none());
    assert!(parse_json("[1] trailing").is_none());
    assert!(parse_json("tru").is_none());
}

#[test]
fn parser_holds_numbers_to_the_json_grammar() {
    assert!(matches!(parse_json("-0.5"), Some(Json::Num(t)) if t == "-0.5"));
    assert!(matches!(parse_json("1e+10"), Some(Json::Num(t)) if t == "1e+10"));
    assert!(matches!(parse_json("20E2"), Some(Json::Num(t)) if t == "20E2"));
    assert!(parse_json("01").is_none());
    assert!(parse_json("-").is_none());
    assert!(parse_json("1.").is_none());
    assert!(parse_json("1e++2").is_none());
    assert!(parse_json("1.5.2").is_none());
    assert!(parse_json("+1").is_none());
}

#[test]
fn parser_decodes_unicode_escapes() {
    assert!(matches!(parse_json("\"\\u0041\""), Some(Json::Str(s)) if s == "A"));
    assert!(matches!(parse_json("\"\\u00f1\""), Some(Json::Str(s)) if s == "\u{f1}"));
    assert!(matches!(parse_json("\"\\u20AC\""), Some(Json::Str(s)) if s == "\u{20ac}"));
    // A supplementary character is written as a surrogate pair.
    assert!(matches!(parse_json("\"\\ud83d\\ude00\""), Some(Json::Str(s)) if s == "\u{1f600}"));
    // A lone surrogate, either half, is not a character.
    assert!(parse_json("\"\\ud83d\"").is_none());
    assert!(parse_json("\"\\ude00\"").is_none());
    assert!(parse_json("\"\\u00g1\"").is_none());
    assert!(parse_json("\"\\u001\"").is_none());
}

#[test]
fn rendered_control_escapes_parse_back() {
    let v = Json::Str("a\u{1}b\u{1f}c".to_string());
    let text = to_json_string(&v);
    assert_eq!(text, "\"a\\u0001b\\u001fc\"");
    assert!(matches!(parse_json(&text), Some(Json::Str(s)) if s == "a\u{1}b\u{1f}c"));
}

#[test]
fn countries_response_decodes_escaped_names() {
    let body = "{\"data\":[{\"name\":\"Espa\\u00f1a\",\"isoCode\":\"ES\"}]}";
    let countries = Api::countries_response(200, body).unwrap();
    assert_eq!(countries[0].name, "España");
    assert_eq!(countries[0].iso_code, "ES");
}

#[test]
fn parse_of_rendered_document_gives_the_tree_back() {
    let v = Json::Obj(vec![
        ("k".to_string(), Json::Arr(vec![Json::Num("7".to_string()), Json::Str("v".to_string())])),
        ("n".to_string(), Json::Null),
    ]);
    let text = to_json_string(&v);
    let back = parse_json(&text).expect("rendered text parses");
    assert_eq!(to_json_string(&back), text);
}

#[test]
fn shipping_method_names_round_trip() {
    let all = [
        OrderShippingMethod::Budget,
        OrderShippingMethod::Standard,
        OrderShippingMethod::Express,
        OrderShippingMethod::Overnight,
    ];
    for m in all {
        assert_eq!(OrderShippingMethod::from_wire(&m.wire_name()), Some(m));
    }
    assert_eq!(OrderShippingMethod::from_wire(&"Teleport".to_string()), None);
}

#[test]
fn status_payment_and_resizing_names_round_trip() {
    let statuses = [
        OrderStatus::NotYetDownloaded,
        OrderStatus::NotYetSubmitted,
        OrderStatus::Submitted,
        OrderStatus::AwaitingPayment,
        OrderStatus::Complete,
        OrderStatus::Cancelled,
    ];
    for s in statuses {
        assert_eq!(OrderStatus::from_wire(&s.wire_name()), Some(s));
    }
    for p in [OrderPayment::InvoiceMe, OrderPayment::InvoiceRecipient] {
        assert_eq!(OrderPayment::from_wire(&p.wire_name()), Some(p));
    }
    let sizes = [
        ImageResizingMethod::Crop,
        ImageResizingMethod::ShrinkToFit,
        ImageResizingMethod::ShrinkToExactFit,
    ];
    for z in sizes {
        assert_eq!(ImageResizingMethod::from_wire(&z.wire_name()), Some(z));
    }
}

#[test]
fn carrier_names_round_trip() {
    let all = [
        OrderShippingCarrier::RoyalMail,
        OrderShippingCarrier::RoyalMailFirstClass,
        OrderShippingCarrier::RoyalMailSecondClass,
        OrderShippingCarrier::FedEx,
        OrderShippingCarrier::FedExUK,
        OrderShippingCarrier::FedExIntl,
        OrderShippingCarrier::Interlink,
        OrderShippingCarrier::UPS,
        OrderShippingCarrier::UpsTwoDay,
        OrderShippingCarrier::UKMail,
        OrderShippingCarrier::TNT,
        OrderShippingCarrier::ParcelForce,
        OrderShippingCarrier::DHL,
        OrderShippingCarrier::UPSMI,
        OrderShippingCarrier::DpdNextDay,
        OrderShippingCarrier::EuPostal,
        OrderShippingCarrier::AuPost,
        OrderShippingCarrier::AirMail,
        OrderShippingCarrier::NotKnown,
    ];
    for c in all {
        assert_eq!(OrderShippingCarrier::from_wire(&c.wire_name()), Some(c));
    }
    assert_eq!(OrderShippingCarrier::from_wire(&"Pigeon".to_string()), None);
}

#[test]
fn order_body_is_json_that_serde_agrees_with() {
    let api = Api::new_sandbox("m", "k").unwrap();
    let order = OrderCreate::base(
        "Name with \"quotes\" and \\slashes\\".to_string(),
        "012345".to_string(),
        "US".to_string(),
        OrderShippingMethod::Overnight,
    );
    let plan = api.create_order(&order).unwrap();
    let body = plan.body.unwrap();
    let parsed: serde_json::Value = serde_json::from_str(&body).expect("the body is valid JSON");
    assert_eq!(
        parsed.get("recipientName").and_then(|v| v.as_str()),
        Some("Name with \"quotes\" and \\slashes\\")
    );
    assert_eq!(parsed.get("preferredShippingMethod").and_then(|v| v.as_str()), Some("Overnight"));
    assert!(parsed.get("merchantOrderId").unwrap().is_null());
    assert_eq!(parsed.as_object().unwrap().len(), 16);
}

#[test]
fn shipments_decode_with_carrier_and_photo_ids() {
    let body = "{\"data\":{\"id\":5,\"postalOrZipCode\":\"z\",\"countryCode\":\"GB\",\
\"recipientName\":\"r\",\"status\":\"Complete\",\"payment\":\"InvoiceMe\",\"price\":9,\
\"shippingInfo\":{\"price\":1,\"shipments\":[{\"carrier\":\"RoyalMail\",\"photoIds\":[3,4],\
\"shipmentId\":\"s1\",\"isTracked\":true,\"shippedOn\":\"2019-06-02T08:00:00Z\"}]},\
\"images\":[],\"preferredShippingMethod\":\"Budget\",\"created\":\"2019-06-01T12:00:00Z\",\
\"lastUpdated\":\"2019-06-01T12:30:00Z\",\"canCancel\":false,\"canHold\":false,\
\"canUpdateShipping\":false,\"canUpdateImages\":false}}";
    let order = Api::create_order_response(201, body).unwrap();
    assert_eq!(order.shipping_info.shipments.len(), 1);
    let sh = &order.shipping_info.shipments[0];
    assert_eq!(sh.carrier, OrderShippingCarrier::RoyalMail);
    assert_eq!(sh.photo_ids, vec![3, 4]);
    assert!(sh.is_tracked);
    assert_eq!(sh.tracking_number, None);
}
