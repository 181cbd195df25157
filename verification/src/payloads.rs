//! Typed records mirroring the vendor's JSON shapes, plus the closed
//! enumerations the vendor defines.
//!
//! Monetary amounts and timestamps are carried as their wire text: the client
//! never computes with them, it only passes them through.  Absent optional
//! fields are `None`, never an empty string.

use vstd::prelude::*;

verus! {

/// A country as returned by the listing endpoint.
#[derive(Debug, Clone, PartialEq)]
pub struct Country {
    pub name: String,
    pub iso_code: String,
}

/// Envelope of the country listing response.
#[derive(Debug, Clone)]
pub(crate) struct Countries {
    pub data: Vec<Country>,
}

/// Outbound record describing a new order.
#[derive(Debug, Clone, PartialEq)]
pub struct OrderCreate {
    pub merchant_order_id: Option<u64>,
    pub recipient_name: String,
    pub address1: Option<String>,
    pub address2: Option<String>,
    pub address_town_or_city: Option<String>,
    pub state_or_county: Option<String>,
    pub postal_or_zip_code: String,
    pub country_code: String,
    pub preferred_shipping_method: OrderShippingMethod,
    pub payment: Option<OrderPayment>,
    pub packing_slip_url: Option<String>,
    pub mobile_telephone: Option<String>,
    pub email: Option<String>,
    pub invoice_amount_net: Option<String>,
    pub invoice_tax: Option<String>,
    pub invoice_currency: Option<String>,
}

impl OrderCreate {
    /// Fill the required fields and default every optional field to absent.
    pub fn base(
        recipient_name: String,
        postal_or_zip_code: String,
        country_code: String,
        preferred_shipping_method: OrderShippingMethod,
    ) -> (r: Self)
        ensures
            r.merchant_order_id is None,
            r.recipient_name@ == recipient_name@,
            r.address1 is None,
            r.address2 is None,
            r.address_town_or_city is None,
            r.state_or_county is None,
            r.postal_or_zip_code@ == postal_or_zip_code@,
            r.country_code@ == country_code@,
            r.preferred_shipping_method == preferred_shipping_method,
            r.payment is None,
            r.packing_slip_url is None,
            r.mobile_telephone is None,
            r.email is None,
            r.invoice_amount_net is None,
            r.invoice_tax is None,
            r.invoice_currency is None,
    {
        OrderCreate {
            merchant_order_id: None,
            recipient_name,
            address1: None,
            address2: None,
            address_town_or_city: None,
            state_or_county: None,
            postal_or_zip_code,
            country_code,
            preferred_shipping_method,
            payment: None,
            packing_slip_url: None,
            mobile_telephone: None,
            email: None,
            invoice_amount_net: None,
            invoice_tax: None,
            invoice_currency: None,
        }
    }
}

/// Envelope of the create-order response.
#[derive(Debug, Clone)]
pub(crate) struct OrderWrapper {
    pub data: Order,
}

/// Shipping service level requested for an order.
#[derive(Debug, Clone, Copy, PartialEq, Eq, Structural)]
pub enum OrderShippingMethod {
    Budget,
    Standard,
    Express,
    Overnight,
}

/// Who is invoiced for an order.
#[derive(Debug, Clone, Copy, PartialEq, Eq, Structural)]
pub enum OrderPayment {
    InvoiceMe,
    InvoiceRecipient,
}

/// Lifecycle status the vendor reports for an order or an image.
#[derive(Debug, Clone, Copy, PartialEq, Eq, Structural)]
pub enum OrderStatus {
    NotYetDownloaded,
    NotYetSubmitted,
    Submitted,
    AwaitingPayment,
    Complete,
    Cancelled,
}

/// Inbound record for an order as the vendor reports it.
#[derive(Debug, Clone, PartialEq)]
pub struct Order {
    pub id: u64,
    pub address1: Option<String>,
    pub address2: Option<String>,
    pub postal_or_zip_code: String,
    pub country_code: String,
    pub address_town_or_city: Option<String>,
    pub recipient_name: String,
    pub state_or_county: Option<String>,
    pub status: OrderStatus,
    pub payment: OrderPayment,
    pub payment_url: Option<String>,
    pub price: String,
    pub shipping_info: OrderShippingInfo,
    pub images: Vec<OrderImage>,
    pub invoice_ammount_net: Option<String>,
    pub invoice_tax: Option<String>,
    pub invoice_currency: Option<String>,
    pub merchant_order_id: Option<String>,
    pub preferred_shipping_method: OrderShippingMethod,
    pub mobile_telephone: Option<String>,
    pub created: String,
    pub last_updated: String,
    pub can_cancel: bool,
    pub can_hold: bool,
    pub can_update_shipping: bool,
    pub can_update_images: bool,
    pub tag: Option<String>,
    pub packing_slip_url: Option<String>,
    pub error_message: Option<String>,
}

/// Carrier the vendor hands a shipment to.
#[derive(Debug, Clone, Copy, PartialEq, Eq, Structural)]
pub enum OrderShippingCarrier {
    RoyalMail,
    RoyalMailFirstClass,
    RoyalMailSecondClass,
    FedEx,
    FedExUK,
    FedExIntl,
    Interlink,
    UPS,
    UpsTwoDay,
    UKMail,
    TNT,
    ParcelForce,
    DHL,
    UPSMI,
    DpdNextDay,
    EuPostal,
    AuPost,
    AirMail,
    NotKnown,
}

/// Aggregate shipping price and the shipments of an order.
#[derive(Debug, Clone, PartialEq)]
pub struct OrderShippingInfo {
    pub price: String,
    pub shipments: Vec<OrderShipment>,
}

/// One shipment of an order.
#[derive(Debug, Clone, PartialEq)]
pub struct OrderShipment {
    pub carrier: OrderShippingCarrier,
    pub photo_ids: Vec<u64>,
    pub shipment_id: String,
    pub tracking_number: Option<String>,
    pub tracking_url: Option<String>,
    pub is_tracked: bool,
    pub earliest_estimated_arrival_date: Option<String>,
    pub latest_estimated_arrival_date: Option<String>,
    pub shipped_on: String,
}

/// Envelope of the single-image upload response.
#[derive(Debug, Clone)]
pub struct OrderImageWrapper {
    pub data: OrderImage,
}

/// Inner object of the batch upload response envelope.
#[derive(Debug, Clone)]
pub struct OrderImagesWrapperInner {
    pub items: Vec<OrderImage>,
}

/// Envelope of the batch upload response.
#[derive(Debug, Clone)]
pub struct OrderImagesWrapper {
    pub data: OrderImagesWrapperInner,
}

/// Inbound record for an image attached to an order.
#[derive(Debug, Clone, PartialEq)]
pub struct OrderImage {
    pub id: u64,
    pub sku: String,
    pub url: String,
    pub status: OrderStatus,
    pub copies: u64,
    pub sizing: String,
    pub price_to_user: Option<String>,
    pub price: String,
    pub md5_hash: Option<String>,
    pub preview_url: Option<String>,
    pub thumbnail_url: Option<String>,
    pub attributes: Option<OrderImageAttributes>,
    pub error_message: Option<String>,
}

/// Print attributes of an image.
#[derive(Debug, Clone, PartialEq)]
pub struct OrderImageAttributes {
    pub substrate_weight: Option<String>,
    pub frame: Option<String>,
    pub edge: Option<String>,
    pub paper_type: Option<String>,
    pub frame_colour: Option<String>,
}

/// How the vendor fits the source image to the print size.
#[derive(Debug, Clone, Copy, PartialEq, Eq, Structural)]
pub enum ImageResizingMethod {
    Crop,
    ShrinkToFit,
    ShrinkToExactFit,
}

/// Outbound record adding one image to an order.
#[derive(Debug, Clone, PartialEq)]
pub struct OrderImageAdd {
    pub sku: String,
    pub url: String,
    pub copies: u64,
    pub sizing: ImageResizingMethod,
    pub price_to_user: Option<String>,
    pub md5_hash: Option<String>,
    pub attributes: Option<OrderImageAttributes>,
}

/// The view of an optional string.
pub open spec fn opt_view(o: Option<String>) -> Option<Seq<char>> {
    match o {
        Option::None => Option::None,
        Option::Some(s) => Option::Some(s@),
    }
}

/// Mathematical view of a [`Country`].
pub struct CountryView {
    pub name: Seq<char>,
    pub iso_code: Seq<char>,
}

impl View for Country {
    type V = CountryView;

    open spec fn view(&self) -> CountryView {
        CountryView { name: self.name@, iso_code: self.iso_code@ }
    }
}

/// Mathematical view of an [`OrderCreate`].
pub struct OrderCreateView {
    pub merchant_order_id: Option<u64>,
    pub recipient_name: Seq<char>,
    pub address1: Option<Seq<char>>,
    pub address2: Option<Seq<char>>,
    pub address_town_or_city: Option<Seq<char>>,
    pub state_or_county: Option<Seq<char>>,
    pub postal_or_zip_code: Seq<char>,
    pub country_code: Seq<char>,
    pub preferred_shipping_method: OrderShippingMethod,
    pub payment: Option<OrderPayment>,
    pub packing_slip_url: Option<Seq<char>>,
    pub mobile_telephone: Option<Seq<char>>,
    pub email: Option<Seq<char>>,
    pub invoice_amount_net: Option<Seq<char>>,
    pub invoice_tax: Option<Seq<char>>,
    pub invoice_currency: Option<Seq<char>>,
}

impl View for OrderCreate {
    type V = OrderCreateView;

    open spec fn view(&self) -> OrderCreateView {
        OrderCreateView {
            merchant_order_id: self.merchant_order_id,
            recipient_name: self.recipient_name@,
            address1: opt_view(self.address1),
            address2: opt_view(self.address2),
            address_town_or_city: opt_view(self.address_town_or_city),
            state_or_county: opt_view(self.state_or_county),
            postal_or_zip_code: self.postal_or_zip_code@,
            country_code: self.country_code@,
            preferred_shipping_method: self.preferred_shipping_method,
            payment: self.payment,
            packing_slip_url: opt_view(self.packing_slip_url),
            mobile_telephone: opt_view(self.mobile_telephone),
            email: opt_view(self.email),
            invoice_amount_net: opt_view(self.invoice_amount_net),
            invoice_tax: opt_view(self.invoice_tax),
            invoice_currency: opt_view(self.invoice_currency),
        }
    }
}

/// Mathematical view of [`OrderImageAttributes`].
pub struct OrderImageAttributesView {
    pub substrate_weight: Option<Seq<char>>,
    pub frame: Option<Seq<char>>,
    pub edge: Option<Seq<char>>,
    pub paper_type: Option<Seq<char>>,
    pub frame_colour: Option<Seq<char>>,
}

impl View for OrderImageAttributes {
    type V = OrderImageAttributesView;

    open spec fn view(&self) -> OrderImageAttributesView {
        OrderImageAttributesView {
            substrate_weight: opt_view(self.substrate_weight),
            frame: opt_view(self.frame),
            edge: opt_view(self.edge),
            paper_type: opt_view(self.paper_type),
            frame_colour: opt_view(self.frame_colour),
        }
    }
}

/// The view of optional attributes.
pub open spec fn attrs_view(o: Option<OrderImageAttributes>) -> Option<OrderImageAttributesView> {
    match o {
        Option::None => Option::None,
        Option::Some(a) => Option::Some(a@),
    }
}

/// Mathematical view of an [`OrderImage`].
pub struct OrderImageView {
    pub id: u64,
    pub sku: Seq<char>,
    pub url: Seq<char>,
    pub status: OrderStatus,
    pub copies: u64,
    pub sizing: Seq<char>,
    pub price_to_user: Option<Seq<char>>,
    pub price: Seq<char>,
    pub md5_hash: Option<Seq<char>>,
    pub preview_url: Option<Seq<char>>,
    pub thumbnail_url: Option<Seq<char>>,
    pub attributes: Option<OrderImageAttributesView>,
    pub error_message: Option<Seq<char>>,
}

impl View for OrderImage {
    type V = OrderImageView;

    open spec fn view(&self) -> OrderImageView {
        OrderImageView {
            id: self.id,
            sku: self.sku@,
            url: self.url@,
            status: self.status,
            copies: self.copies,
            sizing: self.sizing@,
            price_to_user: opt_view(self.price_to_user),
            price: self.price@,
            md5_hash: opt_view(self.md5_hash),
            preview_url: opt_view(self.preview_url),
            thumbnail_url: opt_view(self.thumbnail_url),
            attributes: attrs_view(self.attributes),
            error_message: opt_view(self.error_message),
        }
    }
}

/// The views of a sequence of images, in order.
pub open spec fn images_view(s: Seq<OrderImage>) -> Seq<OrderImageView> {
    s.map_values(|i: OrderImage| i@)
}

/// Mathematical view of an [`OrderShipment`].
pub struct OrderShipmentView {
    pub carrier: OrderShippingCarrier,
    pub photo_ids: Seq<u64>,
    pub shipment_id: Seq<char>,
    pub tracking_number: Option<Seq<char>>,
    pub tracking_url: Option<Seq<char>>,
    pub is_tracked: bool,
    pub earliest_estimated_arrival_date: Option<Seq<char>>,
    pub latest_estimated_arrival_date: Option<Seq<char>>,
    pub shipped_on: Seq<char>,
}

impl View for OrderShipment {
    type V = OrderShipmentView;

    open spec fn view(&self) -> OrderShipmentView {
        OrderShipmentView {
            carrier: self.carrier,
            photo_ids: self.photo_ids@,
            shipment_id: self.shipment_id@,
            tracking_number: opt_view(self.tracking_number),
            tracking_url: opt_view(self.tracking_url),
            is_tracked: self.is_tracked,
            earliest_estimated_arrival_date: opt_view(self.earliest_estimated_arrival_date),
            latest_estimated_arrival_date: opt_view(self.latest_estimated_arrival_date),
            shipped_on: self.shipped_on@,
        }
    }
}

/// The views of a sequence of shipments, in order.
pub open spec fn shipments_view(s: Seq<OrderShipment>) -> Seq<OrderShipmentView> {
    s.map_values(|x: OrderShipment| x@)
}

/// Mathematical view of an [`OrderShippingInfo`].
pub struct OrderShippingInfoView {
    pub price: Seq<char>,
    pub shipments: Seq<OrderShipmentView>,
}

impl View for OrderShippingInfo {
    type V = OrderShippingInfoView;

    open spec fn view(&self) -> OrderShippingInfoView {
        OrderShippingInfoView { price: self.price@, shipments: shipments_view(self.shipments@) }
    }
}

/// Mathematical view of an [`Order`].
pub struct OrderView {
    pub id: u64,
    pub address1: Option<Seq<char>>,
    pub address2: Option<Seq<char>>,
    pub postal_or_zip_code: Seq<char>,
    pub country_code: Seq<char>,
    pub address_town_or_city: Option<Seq<char>>,
    pub recipient_name: Seq<char>,
    pub state_or_county: Option<Seq<char>>,
    pub status: OrderStatus,
    pub payment: OrderPayment,
    pub payment_url: Option<Seq<char>>,
    pub price: Seq<char>,
    pub shipping_info: OrderShippingInfoView,
    pub images: Seq<OrderImageView>,
    pub invoice_ammount_net: Option<Seq<char>>,
    pub invoice_tax: Option<Seq<char>>,
    pub invoice_currency: Option<Seq<char>>,
    pub merchant_order_id: Option<Seq<char>>,
    pub preferred_shipping_method: OrderShippingMethod,
    pub mobile_telephone: Option<Seq<char>>,
    pub created: Seq<char>,
    pub last_updated: Seq<char>,
    pub can_cancel: bool,
    pub can_hold: bool,
    pub can_update_shipping: bool,
    pub can_update_images: bool,
    pub tag: Option<Seq<char>>,
    pub packing_slip_url: Option<Seq<char>>,
    pub error_message: Option<Seq<char>>,
}

impl View for Order {
    type V = OrderView;

    open spec fn view(&self) -> OrderView {
        OrderView {
            id: self.id,
            address1: opt_view(self.address1),
            address2: opt_view(self.address2),
            postal_or_zip_code: self.postal_or_zip_code@,
            country_code: self.country_code@,
            address_town_or_city: opt_view(self.address_town_or_city),
            recipient_name: self.recipient_name@,
            state_or_county: opt_view(self.state_or_county),
            status: self.status,
            payment: self.payment,
            payment_url: opt_view(self.payment_url),
            price: self.price@,
            shipping_info: self.shipping_info@,
            images: images_view(self.images@),
            invoice_ammount_net: opt_view(self.invoice_ammount_net),
            invoice_tax: opt_view(self.invoice_tax),
            invoice_currency: opt_view(self.invoice_currency),
            merchant_order_id: opt_view(self.merchant_order_id),
            preferred_shipping_method: self.preferred_shipping_method,
            mobile_telephone: opt_view(self.mobile_telephone),
            created: self.created@,
            last_updated: self.last_updated@,
            can_cancel: self.can_cancel,
            can_hold: self.can_hold,
            can_update_shipping: self.can_update_shipping,
            can_update_images: self.can_update_images,
            tag: opt_view(self.tag),
            packing_slip_url: opt_view(self.packing_slip_url),
            error_message: opt_view(self.error_message),
        }
    }
}

/// Mathematical view of an [`OrderImageAdd`].
pub struct OrderImageAddView {
    pub sku: Seq<char>,
    pub url: Seq<char>,
    pub copies: u64,
    pub sizing: ImageResizingMethod,
    pub price_to_user: Option<Seq<char>>,
    pub md5_hash: Option<Seq<char>>,
    pub attributes: Option<OrderImageAttributesView>,
}

impl View for OrderImageAdd {
    type V = OrderImageAddView;

    open spec fn view(&self) -> OrderImageAddView {
        OrderImageAddView {
            sku: self.sku@,
            url: self.url@,
            copies: self.copies,
            sizing: self.sizing,
            price_to_user: opt_view(self.price_to_user),
            md5_hash: opt_view(self.md5_hash),
            attributes: attrs_view(self.attributes),
        }
    }
}

/// The views of a sequence of countries, in order.
pub open spec fn countries_view(s: Seq<Country>) -> Seq<CountryView> {
    s.map_values(|c: Country| c@)
}

/// The views of a sequence of image-add records, in order.
pub open spec fn image_adds_view(s: Seq<OrderImageAdd>) -> Seq<OrderImageAddView> {
    s.map_values(|x: OrderImageAdd| x@)
}

/// Wire spelling of a shipping method.
pub open spec fn shipping_method_wire(m: OrderShippingMethod) -> Seq<char> {
    match m {
        OrderShippingMethod::Budget => "Budget"@,
        OrderShippingMethod::Standard => "Standard"@,
        OrderShippingMethod::Express => "Express"@,
        OrderShippingMethod::Overnight => "Overnight"@,
    }
}

/// The shipping method a wire string names, if any.
pub open spec fn shipping_method_of_wire(s: Seq<char>) -> Option<OrderShippingMethod> {
    if s == "Budget"@ {
        Some(OrderShippingMethod::Budget)
    } else if s == "Standard"@ {
        Some(OrderShippingMethod::Standard)
    } else if s == "Express"@ {
        Some(OrderShippingMethod::Express)
    } else if s == "Overnight"@ {
        Some(OrderShippingMethod::Overnight)
    } else {
        None
    }
}

impl OrderShippingMethod {
    /// The spelling this variant has on the wire.
    pub fn wire_name(&self) -> (r: String)
        ensures
            r@ == shipping_method_wire(*self),
    {
        match self {
            OrderShippingMethod::Budget => "Budget".to_owned(),
            OrderShippingMethod::Standard => "Standard".to_owned(),
            OrderShippingMethod::Express => "Express".to_owned(),
            OrderShippingMethod::Overnight => "Overnight".to_owned(),
        }
    }

    /// Parse a wire spelling back into a variant.
    pub fn from_wire(s: &String) -> (r: Option<Self>)
        ensures
            r == shipping_method_of_wire(s@),
    {
        if *s == "Budget".to_owned() {
            Some(OrderShippingMethod::Budget)
        } else if *s == "Standard".to_owned() {
            Some(OrderShippingMethod::Standard)
        } else if *s == "Express".to_owned() {
            Some(OrderShippingMethod::Express)
        } else if *s == "Overnight".to_owned() {
            Some(OrderShippingMethod::Overnight)
        } else {
            None
        }
    }
}

/// Wire spelling of a payment choice.
pub open spec fn payment_wire(p: OrderPayment) -> Seq<char> {
    match p {
        OrderPayment::InvoiceMe => "InvoiceMe"@,
        OrderPayment::InvoiceRecipient => "InvoiceRecipient"@,
    }
}

/// The payment choice a wire string names, if any.
pub open spec fn payment_of_wire(s: Seq<char>) -> Option<OrderPayment> {
    if s == "InvoiceMe"@ {
        Some(OrderPayment::InvoiceMe)
    } else if s == "InvoiceRecipient"@ {
        Some(OrderPayment::InvoiceRecipient)
    } else {
        None
    }
}

impl OrderPayment {
    /// The spelling this variant has on the wire.
    pub fn wire_name(&self) -> (r: String)
        ensures
            r@ == payment_wire(*self),
    {
        match self {
            OrderPayment::InvoiceMe => "InvoiceMe".to_owned(),
            OrderPayment::InvoiceRecipient => "InvoiceRecipient".to_owned(),
        }
    }

    /// Parse a wire spelling back into a variant.
    pub fn from_wire(s: &String) -> (r: Option<Self>)
        ensures
            r == payment_of_wire(s@),
    {
        if *s == "InvoiceMe".to_owned() {
            Some(OrderPayment::InvoiceMe)
        } else if *s == "InvoiceRecipient".to_owned() {
            Some(OrderPayment::InvoiceRecipient)
        } else {
            None
        }
    }
}

/// Wire spelling of an order or image status.
pub open spec fn status_wire(s: OrderStatus) -> Seq<char> {
    match s {
        OrderStatus::NotYetDownloaded => "NotYetDownloaded"@,
        OrderStatus::NotYetSubmitted => "NotYetSubmitted"@,
        OrderStatus::Submitted => "Submitted"@,
        OrderStatus::AwaitingPayment => "AwaitingPayment"@,
        OrderStatus::Complete => "Complete"@,
        OrderStatus::Cancelled => "Cancelled"@,
    }
}

/// The status a wire string names, if any.
pub open spec fn status_of_wire(s: Seq<char>) -> Option<OrderStatus> {
    if s == "NotYetDownloaded"@ {
        Some(OrderStatus::NotYetDownloaded)
    } else if s == "NotYetSubmitted"@ {
        Some(OrderStatus::NotYetSubmitted)
    } else if s == "Submitted"@ {
        Some(OrderStatus::Submitted)
    } else if s == "AwaitingPayment"@ {
        Some(OrderStatus::AwaitingPayment)
    } else if s == "Complete"@ {
        Some(OrderStatus::Complete)
    } else if s == "Cancelled"@ {
        Some(OrderStatus::Cancelled)
    } else {
        None
    }
}

impl OrderStatus {
    /// The spelling this variant has on the wire.
    pub fn wire_name(&self) -> (r: String)
        ensures
            r@ == status_wire(*self),
    {
        match self {
            OrderStatus::NotYetDownloaded => "NotYetDownloaded".to_owned(),
            OrderStatus::NotYetSubmitted => "NotYetSubmitted".to_owned(),
            OrderStatus::Submitted => "Submitted".to_owned(),
            OrderStatus::AwaitingPayment => "AwaitingPayment".to_owned(),
            OrderStatus::Complete => "Complete".to_owned(),
            OrderStatus::Cancelled => "Cancelled".to_owned(),
        }
    }

    /// Parse a wire spelling back into a variant.
    pub fn from_wire(s: &String) -> (r: Option<Self>)
        ensures
            r == status_of_wire(s@),
    {
        if *s == "NotYetDownloaded".to_owned() {
            Some(OrderStatus::NotYetDownloaded)
        } else if *s == "NotYetSubmitted".to_owned() {
            Some(OrderStatus::NotYetSubmitted)
        } else if *s == "Submitted".to_owned() {
            Some(OrderStatus::Submitted)
        } else if *s == "AwaitingPayment".to_owned() {
            Some(OrderStatus::AwaitingPayment)
        } else if *s == "Complete".to_owned() {
            Some(OrderStatus::Complete)
        } else if *s == "Cancelled".to_owned() {
            Some(OrderStatus::Cancelled)
        } else {
            None
        }
    }
}

/// Wire spelling of a shipping carrier.
pub open spec fn carrier_wire(c: OrderShippingCarrier) -> Seq<char> {
    match c {
        OrderShippingCarrier::RoyalMail => "RoyalMail"@,
        OrderShippingCarrier::RoyalMailFirstClass => "RoyalMailFirstClass"@,
        OrderShippingCarrier::RoyalMailSecondClass => "RoyalMailSecondClass"@,
        OrderShippingCarrier::FedEx => "FedEx"@,
        OrderShippingCarrier::FedExUK => "FedExUK"@,
        OrderShippingCarrier::FedExIntl => "FedExIntl"@,
        OrderShippingCarrier::Interlink => "Interlink"@,
        OrderShippingCarrier::UPS => "UPS"@,
        OrderShippingCarrier::UpsTwoDay => "UpsTwoDay"@,
        OrderShippingCarrier::UKMail => "UKMail"@,
        OrderShippingCarrier::TNT => "TNT"@,
        OrderShippingCarrier::ParcelForce => "ParcelForce"@,
        OrderShippingCarrier::DHL => "DHL"@,
        OrderShippingCarrier::UPSMI => "UPSMI"@,
        OrderShippingCarrier::DpdNextDay => "DpdNextDay"@,
        OrderShippingCarrier::EuPostal => "EuPostal"@,
        OrderShippingCarrier::AuPost => "AuPost"@,
        OrderShippingCarrier::AirMail => "AirMail"@,
        OrderShippingCarrier::NotKnown => "NotKnown"@,
    }
}

/// The carrier a wire string names, if any.
pub open spec fn carrier_of_wire(s: Seq<char>) -> Option<OrderShippingCarrier> {
    if s == "RoyalMail"@ {
        Some(OrderShippingCarrier::RoyalMail)
    } else if s == "RoyalMailFirstClass"@ {
        Some(OrderShippingCarrier::RoyalMailFirstClass)
    } else if s == "RoyalMailSecondClass"@ {
        Some(OrderShippingCarrier::RoyalMailSecondClass)
    } else if s == "FedEx"@ {
        Some(OrderShippingCarrier::FedEx)
    } else if s == "FedExUK"@ {
        Some(OrderShippingCarrier::FedExUK)
    } else if s == "FedExIntl"@ {
        Some(OrderShippingCarrier::FedExIntl)
    } else if s == "Interlink"@ {
        Some(OrderShippingCarrier::Interlink)
    } else if s == "UPS"@ {
        Some(OrderShippingCarrier::UPS)
    } else if s == "UpsTwoDay"@ {
        Some(OrderShippingCarrier::UpsTwoDay)
    } else if s == "UKMail"@ {
        Some(OrderShippingCarrier::UKMail)
    } else if s == "TNT"@ {
        Some(OrderShippingCarrier::TNT)
    } else if s == "ParcelForce"@ {
        Some(OrderShippingCarrier::ParcelForce)
    } else if s == "DHL"@ {
        Some(OrderShippingCarrier::DHL)
    } else if s == "UPSMI"@ {
        Some(OrderShippingCarrier::UPSMI)
    } else if s == "DpdNextDay"@ {
        Some(OrderShippingCarrier::DpdNextDay)
    } else if s == "EuPostal"@ {
        Some(OrderShippingCarrier::EuPostal)
    } else if s == "AuPost"@ {
        Some(OrderShippingCarrier::AuPost)
    } else if s == "AirMail"@ {
        Some(OrderShippingCarrier::AirMail)
    } else if s == "NotKnown"@ {
        Some(OrderShippingCarrier::NotKnown)
    } else {
        None
    }
}

impl OrderShippingCarrier {
    /// The spelling this variant has on the wire.
    pub fn wire_name(&self) -> (r: String)
        ensures
            r@ == carrier_wire(*self),
    {
        match self {
            OrderShippingCarrier::RoyalMail => "RoyalMail".to_owned(),
            OrderShippingCarrier::RoyalMailFirstClass => "RoyalMailFirstClass".to_owned(),
            OrderShippingCarrier::RoyalMailSecondClass => "RoyalMailSecondClass".to_owned(),
            OrderShippingCarrier::FedEx => "FedEx".to_owned(),
            OrderShippingCarrier::FedExUK => "FedExUK".to_owned(),
            OrderShippingCarrier::FedExIntl => "FedExIntl".to_owned(),
            OrderShippingCarrier::Interlink => "Interlink".to_owned(),
            OrderShippingCarrier::UPS => "UPS".to_owned(),
            OrderShippingCarrier::UpsTwoDay => "UpsTwoDay".to_owned(),
            OrderShippingCarrier::UKMail => "UKMail".to_owned(),
            OrderShippingCarrier::TNT => "TNT".to_owned(),
            OrderShippingCarrier::ParcelForce => "ParcelForce".to_owned(),
            OrderShippingCarrier::DHL => "DHL".to_owned(),
            OrderShippingCarrier::UPSMI => "UPSMI".to_owned(),
            OrderShippingCarrier::DpdNextDay => "DpdNextDay".to_owned(),
            OrderShippingCarrier::EuPostal => "EuPostal".to_owned(),
            OrderShippingCarrier::AuPost => "AuPost".to_owned(),
            OrderShippingCarrier::AirMail => "AirMail".to_owned(),
            OrderShippingCarrier::NotKnown => "NotKnown".to_owned(),
        }
    }

    /// Parse a wire spelling back into a variant.
    pub fn from_wire(s: &String) -> (r: Option<Self>)
        ensures
            r == carrier_of_wire(s@),
    {
        if *s == "RoyalMail".to_owned() {
            Some(OrderShippingCarrier::RoyalMail)
        } else if *s == "RoyalMailFirstClass".to_owned() {
            Some(OrderShippingCarrier::RoyalMailFirstClass)
        } else if *s == "RoyalMailSecondClass".to_owned() {
            Some(OrderShippingCarrier::RoyalMailSecondClass)
        } else if *s == "FedEx".to_owned() {
            Some(OrderShippingCarrier::FedEx)
        } else if *s == "FedExUK".to_owned() {
            Some(OrderShippingCarrier::FedExUK)
        } else if *s == "FedExIntl".to_owned() {
            Some(OrderShippingCarrier::FedExIntl)
        } else if *s == "Interlink".to_owned() {
            Some(OrderShippingCarrier::Interlink)
        } else if *s == "UPS".to_owned() {
            Some(OrderShippingCarrier::UPS)
        } else if *s == "UpsTwoDay".to_owned() {
            Some(OrderShippingCarrier::UpsTwoDay)
        } else if *s == "UKMail".to_owned() {
            Some(OrderShippingCarrier::UKMail)
        } else if *s == "TNT".to_owned() {
            Some(OrderShippingCarrier::TNT)
        } else if *s == "ParcelForce".to_owned() {
            Some(OrderShippingCarrier::ParcelForce)
        } else if *s == "DHL".to_owned() {
            Some(OrderShippingCarrier::DHL)
        } else if *s == "UPSMI".to_owned() {
            Some(OrderShippingCarrier::UPSMI)
        } else if *s == "DpdNextDay".to_owned() {
            Some(OrderShippingCarrier::DpdNextDay)
        } else if *s == "EuPostal".to_owned() {
            Some(OrderShippingCarrier::EuPostal)
        } else if *s == "AuPost".to_owned() {
            Some(OrderShippingCarrier::AuPost)
        } else if *s == "AirMail".to_owned() {
            Some(OrderShippingCarrier::AirMail)
        } else if *s == "NotKnown".to_owned() {
            Some(OrderShippingCarrier::NotKnown)
        } else {
            None
        }
    }
}

/// Wire spelling of a resizing method.
pub open spec fn resizing_wire(m: ImageResizingMethod) -> Seq<char> {
    match m {
        ImageResizingMethod::Crop => "Crop"@,
        ImageResizingMethod::ShrinkToFit => "ShrinkToFit"@,
        ImageResizingMethod::ShrinkToExactFit => "ShrinkToExactFit"@,
    }
}

/// The resizing method a wire string names, if any.
pub open spec fn resizing_of_wire(s: Seq<char>) -> Option<ImageResizingMethod> {
    if s == "Crop"@ {
        Some(ImageResizingMethod::Crop)
    } else if s == "ShrinkToFit"@ {
        Some(ImageResizingMethod::ShrinkToFit)
    } else if s == "ShrinkToExactFit"@ {
        Some(ImageResizingMethod::ShrinkToExactFit)
    } else {
        None
    }
}

impl ImageResizingMethod {
    /// The spelling this variant has on the wire.
    pub fn wire_name(&self) -> (r: String)
        ensures
            r@ == resizing_wire(*self),
    {
        match self {
            ImageResizingMethod::Crop => "Crop".to_owned(),
            ImageResizingMethod::ShrinkToFit => "ShrinkToFit".to_owned(),
            ImageResizingMethod::ShrinkToExactFit => "ShrinkToExactFit".to_owned(),
        }
    }

    /// Parse a wire spelling back into a variant.
    pub fn from_wire(s: &String) -> (r: Option<Self>)
        ensures
            r == resizing_of_wire(s@),
    {
        if *s == "Crop".to_owned() {
            Some(ImageResizingMethod::Crop)
        } else if *s == "ShrinkToFit".to_owned() {
            Some(ImageResizingMethod::ShrinkToFit)
        } else if *s == "ShrinkToExactFit".to_owned() {
            Some(ImageResizingMethod::ShrinkToExactFit)
        } else {
            None
        }
    }
}

} // verus!
