//! Typed client for a print-fulfillment vendor's REST API.
//!
//! The client assembles requests (URL, headers, JSON body) as plain data and
//! decodes the vendor's JSON responses into typed records.  The HTTP transport
//! itself is left to the caller: every operation is split into a function that
//! builds a [`RequestPlan`] and a function that interprets the response's
//! status code and body.

pub mod codec;
pub mod json;
pub mod payloads;

use vstd::prelude::*;

verus! {

/// A character is legal inside an HTTP header value when it is a horizontal
/// tab or any character that is neither a control character nor delete.
pub open spec fn is_header_value_char(c: char) -> bool {
    c == '\t' || (c as u32 >= 32 && c as u32 != 127)
}

/// A string is a well-formed HTTP header value when every character is legal.
pub open spec fn is_header_value(s: Seq<char>) -> bool {
    forall|i: int| 0 <= i < s.len() ==> is_header_value_char(s[i])
}

/// A failure of one client operation.
#[derive(Debug, Clone, PartialEq)]
pub enum ApiError {
    /// A local problem before or after the exchange: an illegal header
    /// value, an empty image batch, or a response body that could not be
    /// decoded.
    InternalError(String),
    /// The transport failed to carry the request; holds the transport's
    /// description of the failure.
    RequestError(String),
    /// The server replied with a status outside the success range.
    ResponseError { status: u16 },
}

/// The HTTP method of a request.
#[derive(Debug, Clone, Copy, PartialEq, Eq, Structural)]
pub enum HttpMethod {
    Get,
    Post,
}

/// Everything the transport needs to send one request.
#[derive(Debug, Clone, PartialEq)]
pub struct RequestPlan {
    pub method: HttpMethod,
    pub url: String,
    pub headers: Vec<(String, String)>,
    pub body: Option<String>,
}

/// The view of a header list.
pub open spec fn headers_view(s: Seq<(String, String)>) -> Seq<(Seq<char>, Seq<char>)> {
    s.map_values(|p: (String, String)| (p.0@, p.1@))
}

/// The four headers every authenticated call carries.
pub open spec fn auth_header_list(merchant_id: Seq<char>, api_key: Seq<char>) -> Seq<
    (Seq<char>, Seq<char>),
> {
    seq![
        ("X-Pwinty-MerchantId"@, merchant_id),
        ("X-Pwinty-REST-API-Key"@, api_key),
        ("Content-Type"@, "application/json"@),
        ("accept"@, "application/json"@),
    ]
}

/// A status in the HTTP success range.
pub open spec fn is_success_status(status: u16) -> bool {
    200 <= status < 300
}

/// Decide whether `s` may be sent as an HTTP header value.
pub fn check_header_value(s: &str) -> (r: bool)
    ensures
        r == is_header_value(s@),
{
    let n = s.unicode_len();
    let mut i: usize = 0;
    while i < n
        invariant
            n == s@.len(),
            i <= n,
            forall|j: int| 0 <= j < i ==> is_header_value_char(s@[j]),
        decreases n - i,
    {
        let c = s.get_char(i);
        let v = c as u32;
        if !(c == '\t' || (v >= 32 && v != 127)) {
            return false;
        }
        i = i + 1;
    }
    true
}

/// The client: base URL, API version and credentials.  Immutable after
/// construction; the transport itself is the caller's.
pub struct Api {
    pub base_url: String,
    pub version: String,
    pub merchant_id: String,
    pub api_key: String,
}

impl Api {
    /// A client for the sandbox deployment.  Construction succeeds exactly
    /// when both credentials are legal header values.
    pub fn new_sandbox(merchant_id: &str, api_key: &str) -> (r: Result<Api, ApiError>)
        ensures
            (r is Ok) == (is_header_value(merchant_id@) && is_header_value(api_key@)),
            r matches Ok(api) ==> (api.base_url@ == "https://sandbox.pwinty.com/"@ && api.version@
                == "v3.0"@ && api.merchant_id@ == merchant_id@ && api.api_key@ == api_key@),
            r matches Err(e) ==> e is InternalError,
    {
        if !check_header_value(merchant_id) {
            return Err(
                ApiError::InternalError("the merchant id is not a legal header value".to_owned()),
            );
        }
        if !check_header_value(api_key) {
            return Err(
                ApiError::InternalError("the API key is not a legal header value".to_owned()),
            );
        }
        Ok(
            Api {
                base_url: "https://sandbox.pwinty.com/".to_owned(),
                version: "v3.0".to_owned(),
                merchant_id: merchant_id.to_owned(),
                api_key: api_key.to_owned(),
            },
        )
    }

    /// A client for the live deployment.  Construction succeeds exactly
    /// when both credentials are legal header values.
    pub fn new_live(merchant_id: &str, api_key: &str) -> (r: Result<Api, ApiError>)
        ensures
            (r is Ok) == (is_header_value(merchant_id@) && is_header_value(api_key@)),
            r matches Ok(api) ==> (api.base_url@ == "https://api.pwinty.com/"@ && api.version@
                == "v3.0"@ && api.merchant_id@ == merchant_id@ && api.api_key@ == api_key@),
            r matches Err(e) ==> e is InternalError,
    {
        if !check_header_value(merchant_id) {
            return Err(
                ApiError::InternalError("the merchant id is not a legal header value".to_owned()),
            );
        }
        if !check_header_value(api_key) {
            return Err(
                ApiError::InternalError("the API key is not a legal header value".to_owned()),
            );
        }
        Ok(
            Api {
                base_url: "https://api.pwinty.com/".to_owned(),
                version: "v3.0".to_owned(),
                merchant_id: merchant_id.to_owned(),
                api_key: api_key.to_owned(),
            },
        )
    }

    /// The full URL of an endpoint: base URL, then version, then path.
    fn url_for_endpoint(&self, endpoint: &str) -> (r: String)
        ensures
            r@ == self.base_url@ + self.version@ + endpoint@,
    {
        let mut url = self.base_url.clone();
        url.append(self.version.as_str());
        url.append(endpoint);
        url
    }

    /// The headers of an authenticated call.
    fn auth_headers(&self) -> (r: Vec<(String, String)>)
        ensures
            headers_view(r@) == auth_header_list(self.merchant_id@, self.api_key@),
    {
        let mut h: Vec<(String, String)> = Vec::new();
        h.push(("X-Pwinty-MerchantId".to_owned(), self.merchant_id.clone()));
        h.push(("X-Pwinty-REST-API-Key".to_owned(), self.api_key.clone()));
        h.push(("Content-Type".to_owned(), "application/json".to_owned()));
        h.push(("accept".to_owned(), "application/json".to_owned()));
        proof {
            assert(headers_view(h@) =~= auth_header_list(self.merchant_id@, self.api_key@));
        }
        h
    }

    /// Whether an optional number text may be sent.
    fn check_opt_number(o: &Option<String>) -> (r: bool)
        ensures
            r == crate::json::opt_number_ok(crate::payloads::opt_view(*o)),
    {
        match o {
            None => true,
            Some(s) => crate::json::check_json_number(s.as_str()),
        }
    }

    /// The request that lists countries: a GET without auth headers or body.
    pub fn countries(&self) -> (plan: RequestPlan)
        ensures
            plan.method == HttpMethod::Get,
            plan.url@ == self.base_url@ + self.version@ + "/countries"@,
            plan.headers@.len() == 0,
            plan.body is None,
    {
        RequestPlan {
            method: HttpMethod::Get,
            url: self.url_for_endpoint("/countries"),
            headers: Vec::new(),
            body: None,
        }
    }

    /// Interpret the response to a country listing.  A status outside the
    /// success range is reported as is; a body that is not JSON or not a
    /// country-listing envelope is a local error.
    pub fn countries_response(status: u16, body: &str) -> (r: Result<
        Vec<crate::payloads::Country>,
        ApiError,
    >)
        ensures
            !is_success_status(status) ==> r == Err::<Vec<crate::payloads::Country>, ApiError>(
                ApiError::ResponseError { status },
            ),
            is_success_status(status) ==> match crate::json::spec_parse_json(body@) {
                Some(v) => match crate::codec::countries_of_envelope(v) {
                    Some(cs) => (r matches Ok(out) && crate::payloads::countries_view(out@) == cs),
                    None => (r matches Err(e) && e is InternalError),
                },
                None => (r matches Err(e) && e is InternalError),
            },
    {
        if !(200 <= status && status < 300) {
            return Err(ApiError::ResponseError { status });
        }
        match crate::json::parse_json(body) {
            Some(v) => match crate::codec::decode_countries_envelope(&v) {
                Some(w) => Ok(w.data),
                None => Err(
                    ApiError::InternalError("the response is not a country listing".to_owned()),
                ),
            },
            None => Err(ApiError::InternalError("the response body is not JSON".to_owned())),
        }
    }

    /// The request that creates an order: a POST with auth headers whose
    /// body is the order-creation record on the wire.  An invoice amount or
    /// tax that is not a JSON number token cannot be serialized and is a
    /// local error before any request exists.
    pub fn create_order(&self, order_info: &crate::payloads::OrderCreate) -> (r: Result<
        RequestPlan,
        ApiError,
    >)
        ensures
            (r is Ok) == (crate::json::opt_number_ok(order_info@.invoice_amount_net)
                && crate::json::opt_number_ok(order_info@.invoice_tax)),
            r matches Err(e) ==> e is InternalError,
            r matches Ok(plan) ==> (plan.method == HttpMethod::Post && plan.url@ == self.base_url@
                + self.version@ + "/orders"@ && headers_view(plan.headers@) == auth_header_list(
                self.merchant_id@,
                self.api_key@,
            ) && (plan.body matches Some(b) && b@ == crate::json::render(
                crate::codec::order_create_jv(order_info@),
            ))),
    {
        if !Self::check_opt_number(&order_info.invoice_amount_net) {
            return Err(
                ApiError::InternalError("the net invoice amount is not a number".to_owned()),
            );
        }
        if !Self::check_opt_number(&order_info.invoice_tax) {
            return Err(ApiError::InternalError("the invoice tax is not a number".to_owned()));
        }
        let body = crate::json::to_json_string(&crate::codec::encode_order_create(order_info));
        Ok(
            RequestPlan {
                method: HttpMethod::Post,
                url: self.url_for_endpoint("/orders"),
                headers: self.auth_headers(),
                body: Some(body),
            },
        )
    }

    /// Interpret the response to creating an order.
    pub fn create_order_response(status: u16, body: &str) -> (r: Result<
        crate::payloads::Order,
        ApiError,
    >)
        ensures
            !is_success_status(status) ==> r == Err::<crate::payloads::Order, ApiError>(
                ApiError::ResponseError { status },
            ),
            is_success_status(status) ==> match crate::json::spec_parse_json(body@) {
                Some(v) => match crate::codec::order_of_envelope(v) {
                    Some(ov) => (r matches Ok(o) && o@ == ov),
                    None => (r matches Err(e) && e is InternalError),
                },
                None => (r matches Err(e) && e is InternalError),
            },
    {
        if !(200 <= status && status < 300) {
            return Err(ApiError::ResponseError { status });
        }
        match crate::json::parse_json(body) {
            Some(v) => match crate::codec::decode_order_envelope(&v) {
                Some(w) => Ok(w.data),
                None => Err(
                    ApiError::InternalError("the response is not an order envelope".to_owned()),
                ),
            },
            None => Err(ApiError::InternalError("the response body is not JSON".to_owned())),
        }
    }

    /// The request that adds images to an order.  An empty batch is refused
    /// locally, with the exact message "No images provided"; a price that is
    /// not a JSON number token cannot be serialized and is a local error
    /// too.  One image goes to the single-image endpoint, more go to the
    /// batch endpoint.
    pub fn add_images_to_order(
        &self,
        order_id: u64,
        images_info: &[crate::payloads::OrderImageAdd],
    ) -> (r: Result<RequestPlan, ApiError>)
        ensures
            (r is Ok) == (images_info@.len() > 0 && (forall|k: int|
                0 <= k < images_info@.len() ==> crate::json::opt_number_ok(
                    images_info@[k]@.price_to_user,
                ))),
            images_info@.len() == 0 ==> (r matches Err(e) && e matches ApiError::InternalError(m)
                && m@ == "No images provided"@),
            r matches Err(e) ==> e is InternalError,
            r matches Ok(plan) ==> (plan.method == HttpMethod::Post && headers_view(plan.headers@)
                == auth_header_list(self.merchant_id@, self.api_key@) && (if images_info@.len()
                == 1 {
                plan.url@ == self.base_url@ + self.version@ + "/orders/"@ + crate::json::dec_str(
                    order_id as nat,
                ) + "/images"@ && (plan.body matches Some(b) && b@ == crate::json::render(
                    crate::codec::image_add_jv(images_info@[0]@),
                ))
            } else {
                plan.url@ == self.base_url@ + self.version@ + "/orders/"@ + crate::json::dec_str(
                    order_id as nat,
                ) + "/images/batch"@ && (plan.body matches Some(b) && b@ == crate::json::render(
                    crate::codec::image_adds_jv(crate::payloads::image_adds_view(images_info@)),
                ))
            })),
    {
        if images_info.len() == 0 {
            return Err(ApiError::InternalError("No images provided".to_owned()));
        }
        let mut k: usize = 0;
        while k < images_info.len()
            invariant
                k <= images_info@.len(),
                forall|j: int|
                    0 <= j < k ==> crate::json::opt_number_ok(images_info@[j]@.price_to_user),
            decreases images_info@.len() - k,
        {
            if !Self::check_opt_number(&images_info[k].price_to_user) {
                return Err(
                    ApiError::InternalError("a price to the user is not a number".to_owned()),
                );
            }
            k = k + 1;
        }
        if images_info.len() == 1 {
            let body = crate::json::to_json_string(
                &crate::codec::encode_image_add(&images_info[0]),
            );
            let mut ep = "/orders/".to_owned();
            crate::json::write_u64(&mut ep, order_id);
            ep.append("/images");
            let url = self.url_for_endpoint(ep.as_str());
            proof {
                assert(url@ =~= self.base_url@ + self.version@ + "/orders/"@
                    + crate::json::dec_str(order_id as nat) + "/images"@);
            }
            Ok(
                RequestPlan {
                    method: HttpMethod::Post,
                    url,
                    headers: self.auth_headers(),
                    body: Some(body),
                },
            )
        } else {
            let body = crate::json::to_json_string(&crate::codec::encode_image_adds(images_info));
            let mut ep = "/orders/".to_owned();
            crate::json::write_u64(&mut ep, order_id);
            ep.append("/images/batch");
            let url = self.url_for_endpoint(ep.as_str());
            proof {
                assert(url@ =~= self.base_url@ + self.version@ + "/orders/"@
                    + crate::json::dec_str(order_id as nat) + "/images/batch"@);
            }
            Ok(
                RequestPlan {
                    method: HttpMethod::Post,
                    url,
                    headers: self.auth_headers(),
                    body: Some(body),
                },
            )
        }
    }

    /// Interpret the response to adding images.  `single` says which
    /// endpoint was called: the single-image envelope holds one image, the
    /// batch envelope holds a list, and either way the result is the list
    /// of images in the order the server sent them.
    pub fn add_images_response(single: bool, status: u16, body: &str) -> (r: Result<
        Vec<crate::payloads::OrderImage>,
        ApiError,
    >)
        ensures
            !is_success_status(status) ==> r == Err::<Vec<crate::payloads::OrderImage>, ApiError>(
                ApiError::ResponseError { status },
            ),
            (is_success_status(status) && single) ==> match crate::json::spec_parse_json(body@) {
                Some(v) => match crate::codec::image_of_envelope(v) {
                    Some(iv) => (r matches Ok(out) && crate::payloads::images_view(out@) == seq![
                        iv,
                    ]),
                    None => (r matches Err(e) && e is InternalError),
                },
                None => (r matches Err(e) && e is InternalError),
            },
            (is_success_status(status) && !single) ==> match crate::json::spec_parse_json(body@) {
                Some(v) => match crate::codec::images_of_envelope(v) {
                    Some(ivs) => (r matches Ok(out) && crate::payloads::images_view(out@) == ivs),
                    None => (r matches Err(e) && e is InternalError),
                },
                None => (r matches Err(e) && e is InternalError),
            },
    {
        if !(200 <= status && status < 300) {
            return Err(ApiError::ResponseError { status });
        }
        match crate::json::parse_json(body) {
            Some(v) => {
                if single {
                    match crate::codec::decode_image_envelope(&v) {
                        Some(w) => {
                            let mut out: Vec<crate::payloads::OrderImage> = Vec::new();
                            out.push(w.data);
                            proof {
                                let ghost iv = crate::codec::image_of_envelope(
                                    crate::json::spec_parse_json(body@)->Some_0,
                                )->Some_0;
                                assert(crate::payloads::images_view(out@) =~= seq![iv]);
                            }
                            Ok(out)
                        }
                        None => Err(
                            ApiError::InternalError(
                                "the response is not an image envelope".to_owned(),
                            ),
                        ),
                    }
                } else {
                    match crate::codec::decode_images_envelope(&v) {
                        Some(w) => Ok(w.data.items),
                        None => Err(
                            ApiError::InternalError(
                                "the response is not a batch envelope".to_owned(),
                            ),
                        ),
                    }
                }
            }
            None => Err(ApiError::InternalError("the response body is not JSON".to_owned())),
        }
    }
}

} // verus!

