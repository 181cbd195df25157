use pwinty::payloads::{Country, OrderCreate, OrderImageAdd, OrderShippingMethod, OrderStatus};
use pwinty::payloads::ImageResizingMethod;
use pwinty::{Api, ApiError, HttpMethod};

fn sandbox() -> Api {
    Api::new_sandbox("test-merchant", "test-key").expect("legal credentials")
}

fn minimal_add(sku: &str, url: &str, copies: u64) -> OrderImageAdd {
    OrderImageAdd {
        sku: sku.to_string(),
        url: url.to_string(),
        copies,
        sizing: ImageResizingMethod::Crop,
        price_to_user: None,
        md5_hash: None,
        attributes: None,
    }
}

const ORDER_BODY: &str = "{\"data\":{\"id\":42,\"postalOrZipCode\":\"012345\",\
\"countryCode\":\"US\",\"recipientName\":\"Best Customer Ever\",\
\"status\":\"NotYetSubmitted\",\"payment\":\"InvoiceMe\",\"price\":12.5,\
\"shippingInfo\":{\"price\":3.5,\"shipments\":[]},\"images\":[],\
\"preferredShippingMethod\":\"Express\",\"created\":\"2019-06-01T12:00:00Z\",\
\"lastUpdated\":\"2019-06-01T12:30:00Z\",\"canCancel\":true,\"canHold\":true,\
\"canUpdateShipping\":false,\"canUpdateImages\":true}}";

#[test]
fn construction_succeeds_with_legal_credentials() {
    assert!(Api::new_sandbox("merchant", "key").is_ok());
    assert!(Api::new_live("merchant", "key").is_ok());
    let api = Api::new_sandbox("m", "k").unwrap();
    assert_eq!(api.base_url, "https://sandbox.pwinty.com/");
    assert_eq!(api.version, "v3.0");
    let live = Api::new_live("m", "k").unwrap();
    assert_eq!(live.base_url, "https://api.pwinty.com/");
}

#[test]
fn construction_fails_on_illegal_header_characters() {
    let r = Api::new_sandbox("bad\nmerchant", "key");
    assert!(matches!(r, Err(ApiError::InternalError(_))));
    let r = Api::new_sandbox("merchant", "bad\u{0}key");
    assert!(matches!(r, Err(ApiError::InternalError(_))));
    let r = Api::new_live("\u{7f}", "key");
    assert!(matches!(r, Err(ApiError::InternalError(_))));
    // Tab is the one control character a header value may hold.
    assert!(Api::new_sandbox("a\tb", "key").is_ok());
}

#[test]
fn countries_plan_is_a_bare_get() {
    let api = sandbox();
    let plan = api.countries();
    assert_eq!(plan.method, HttpMethod::Get);
    assert_eq!(plan.url, "https://sandbox.pwinty.com/v3.0/countries");
    assert!(plan.headers.is_empty());
    assert!(plan.body.is_none());
}

#[test]
fn countries_response_decodes_the_listing() {
    let body = "{\"data\":[{\"name\":\"United States\",\"isoCode\":\"US\"}]}";
    let countries = Api::countries_response(200, body).unwrap();
    assert_eq!(
        countries,
        vec![Country { name: "United States".to_string(), iso_code: "US".to_string() }]
    );
}

#[test]
fn create_order_serializes_exactly_the_populated_fields() {
    let api = sandbox();
    let order = OrderCreate::base(
        "Best Customer Ever".to_string(),
        "012345".to_string(),
        "US".to_string(),
        OrderShippingMethod::Express,
    );
    let plan = api.create_order(&order).unwrap();
    assert_eq!(plan.method, HttpMethod::Post);
    assert_eq!(plan.url, "https://sandbox.pwinty.com/v3.0/orders");
    let expected = "{\"merchantOrderId\":null,\"recipientName\":\"Best Customer Ever\",\
\"address1\":null,\"address2\":null,\"addressTownOrCity\":null,\"stateOrCounty\":null,\
\"postalOrZipCode\":\"012345\",\"countryCode\":\"US\",\
\"preferredShippingMethod\":\"Express\",\"payment\":null,\"packingSlipUrl\":null,\
\"mobileTelephone\":null,\"email\":null,\"invoiceAmountNet\":null,\"invoiceTax\":null,\
\"invoiceCurrency\":null}";
    assert_eq!(plan.body.as_deref(), Some(expected));
}

#[test]
fn create_order_plan_carries_the_auth_headers() {
    let api = sandbox();
    let order = OrderCreate::base(
        "r".to_string(),
        "z".to_string(),
        "US".to_string(),
        OrderShippingMethod::Budget,
    );
    let plan = api.create_order(&order).unwrap();
    let headers: Vec<(String, String)> = plan.headers;
    assert_eq!(headers.len(), 4);
    assert_eq!(headers[0], ("X-Pwinty-MerchantId".to_string(), "test-merchant".to_string()));
    assert_eq!(headers[1], ("X-Pwinty-REST-API-Key".to_string(), "test-key".to_string()));
    assert_eq!(headers[2], ("Content-Type".to_string(), "application/json".to_string()));
    assert_eq!(headers[3], ("accept".to_string(), "application/json".to_string()));
}

#[test]
fn create_order_response_returns_the_inner_order() {
    let order = Api::create_order_response(200, ORDER_BODY).unwrap();
    assert_eq!(order.id, 42);
    assert_eq!(order.recipient_name, "Best Customer Ever");
    assert_eq!(order.status, OrderStatus::NotYetSubmitted);
    assert_eq!(order.price, "12.5");
    assert_eq!(order.shipping_info.price, "3.5");
    assert!(order.images.is_empty());
    assert!(order.can_cancel);
    assert!(!order.can_update_shipping);
    assert_eq!(order.created, "2019-06-01T12:00:00Z");
}

#[test]
fn add_images_with_empty_list_is_a_local_error() {
    let api = sandbox();
    let r = api.add_images_to_order(42, &[]);
    assert_eq!(r, Err(ApiError::InternalError("No images provided".to_string())));
}

#[test]
fn a_non_numeric_invoice_amount_is_a_local_error() {
    let api = sandbox();
    let mut order = OrderCreate::base(
        "r".to_string(),
        "z".to_string(),
        "US".to_string(),
        OrderShippingMethod::Budget,
    );
    order.invoice_amount_net = Some("not a number".to_string());
    assert!(matches!(api.create_order(&order), Err(ApiError::InternalError(_))));
    order.invoice_amount_net = Some("12.50".to_string());
    order.invoice_tax = Some("01".to_string());
    assert!(matches!(api.create_order(&order), Err(ApiError::InternalError(_))));
    order.invoice_tax = Some("2.5e-1".to_string());
    let plan = api.create_order(&order).unwrap();
    let body = plan.body.unwrap();
    assert!(body.contains("\"invoiceAmountNet\":12.50"));
    assert!(body.contains("\"invoiceTax\":2.5e-1"));
}

#[test]
fn a_non_numeric_price_to_user_is_a_local_error() {
    let api = sandbox();
    let mut add = minimal_add("ART-001", "https://example.com/a.png", 1);
    add.price_to_user = Some("cheap".to_string());
    let r = api.add_images_to_order(42, &vec![add.clone()]);
    assert!(matches!(r, Err(ApiError::InternalError(_))));
    add.price_to_user = Some("19.99".to_string());
    let plan = api.add_images_to_order(42, &vec![add]).unwrap();
    assert!(plan.body.unwrap().contains("\"priceToUser\":19.99"));
}

#[test]
fn add_one_image_posts_to_the_single_image_path() {
    let api = sandbox();
    let adds = vec![minimal_add("ART-001", "https://example.com/a.png", 2)];
    let plan = api.add_images_to_order(42, &adds).unwrap();
    assert_eq!(plan.method, HttpMethod::Post);
    assert_eq!(plan.url, "https://sandbox.pwinty.com/v3.0/orders/42/images");
    let expected = "{\"sku\":\"ART-001\",\"url\":\"https://example.com/a.png\",\
\"copies\":2,\"sizing\":\"Crop\",\"priceToUser\":null,\"md5Hash\":null,\"attributes\":null}";
    assert_eq!(plan.body.as_deref(), Some(expected));
}

#[test]
fn add_two_images_posts_to_the_batch_path() {
    let api = sandbox();
    let adds = vec![
        minimal_add("ART-001", "https://example.com/a.png", 1),
        minimal_add("ART-002", "https://example.com/b.png", 3),
    ];
    let plan = api.add_images_to_order(7, &adds).unwrap();
    assert_eq!(plan.url, "https://sandbox.pwinty.com/v3.0/orders/7/images/batch");
    let body = plan.body.unwrap();
    assert!(body.starts_with("[{\"sku\":\"ART-001\""));
    assert!(body.contains("\"sku\":\"ART-002\""));
}

#[test]
fn add_images_response_unwraps_the_single_envelope() {
    let body = "{\"data\":{\"id\":9,\"sku\":\"ART-001\",\"url\":\"https://example.com/a.png\",\
\"status\":\"NotYetDownloaded\",\"copies\":2,\"sizing\":\"Crop\",\"price\":1.5}}";
    let images = Api::add_images_response(true, 200, body).unwrap();
    assert_eq!(images.len(), 1);
    assert_eq!(images[0].id, 9);
    assert_eq!(images[0].sku, "ART-001");
    assert_eq!(images[0].copies, 2);
}

#[test]
fn add_images_response_keeps_the_batch_order() {
    let body = "{\"data\":{\"items\":[\
{\"id\":1,\"sku\":\"B\",\"url\":\"u1\",\"status\":\"Submitted\",\"copies\":1,\
\"sizing\":\"Crop\",\"price\":1},\
{\"id\":2,\"sku\":\"A\",\"url\":\"u2\",\"status\":\"Submitted\",\"copies\":4,\
\"sizing\":\"ShrinkToFit\",\"price\":2}]}}";
    let images = Api::add_images_response(false, 200, body).unwrap();
    assert_eq!(images.len(), 2);
    assert_eq!(images[0].sku, "B");
    assert_eq!(images[1].sku, "A");
    assert_eq!(images[1].copies, 4);
    assert_eq!(images[1].sizing, "ShrinkToFit");
}

#[test]
fn non_success_statuses_carry_their_exact_code() {
    assert_eq!(
        Api::countries_response(404, "anything"),
        Err(ApiError::ResponseError { status: 404 })
    );
    assert_eq!(
        Api::create_order_response(500, "{\"data\":{}}"),
        Err(ApiError::ResponseError { status: 500 })
    );
    assert!(matches!(
        Api::add_images_response(true, 404, ""),
        Err(ApiError::ResponseError { status: 404 })
    ));
    assert!(matches!(
        Api::add_images_response(false, 503, "{}"),
        Err(ApiError::ResponseError { status: 503 })
    ));
}

#[test]
fn the_success_range_ends_at_three_hundred() {
    let empty = "{\"data\":[]}";
    assert_eq!(Api::countries_response(299, empty), Ok(vec![]));
    assert_eq!(
        Api::countries_response(300, empty),
        Err(ApiError::ResponseError { status: 300 })
    );
    assert_eq!(
        Api::countries_response(199, empty),
        Err(ApiError::ResponseError { status: 199 })
    );
}

#[test]
fn a_malformed_success_body_is_a_local_error() {
    assert!(matches!(
        Api::countries_response(200, "not json at all"),
        Err(ApiError::InternalError(_))
    ));
    assert!(matches!(
        Api::create_order_response(200, "{\"data\":{}}"),
        Err(ApiError::InternalError(_))
    ));
}

#[test]
fn image_add_round_trips_through_the_wire_shape() {
    let api = sandbox();
    let add = minimal_add("ART-XYZ", "https://example.com/art.png", 5);
    let plan = api.add_images_to_order(1, &vec![add.clone()]).unwrap();
    let sent = plan.body.unwrap();
    // The vendor's reply echoes the record, adding the server-side fields.
    let echo = format!(
        "{{\"data\":{{\"id\":77,\"sku\":\"{}\",\"url\":\"{}\",\"status\":\"NotYetDownloaded\",\
\"copies\":{},\"sizing\":\"Crop\",\"price\":0}}}}",
        add.sku, add.url, add.copies
    );
    assert!(sent.contains("\"sku\":\"ART-XYZ\""));
    let images = Api::add_images_response(true, 200, &echo).unwrap();
    assert_eq!(images[0].sku, add.sku);
    assert_eq!(images[0].url, add.url);
    assert_eq!(images[0].copies, add.copies);
}
