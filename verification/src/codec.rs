//! Codecs between the payload records and the JSON tree.
//!
//! Decoding tolerates members the records do not mention and accepts the
//! members in any order, as the vendor may send them.  A missing or null
//! optional member decodes to an absent field; a missing or ill-typed
//! required member fails the decode.

use vstd::prelude::*;

use crate::json::{
    jv_of, jv_of_members, jv_of_seq, lemma_jv_of_members_props, lemma_jv_of_seq_props,
    parse_u64_str, parse_u64_val, Json, Jv,
};
use crate::payloads::{
    attrs_view, carrier_of_wire, countries_view, images_view, opt_view, shipments_view,
    status_of_wire, payment_of_wire, shipping_method_of_wire, Countries, Country, CountryView,
    Order, OrderImage, OrderImageAttributes, OrderImageAttributesView, OrderImageView,
    OrderImageWrapper, OrderImagesWrapper, OrderImagesWrapperInner, OrderShipment,
    OrderShipmentView, OrderShippingInfo, OrderShippingInfoView, OrderView, OrderWrapper,
};

verus! {

/// The value of the first member with the given key, if any.
pub open spec fn lookup(ms: Seq<(Seq<char>, Jv)>, key: Seq<char>) -> Option<Jv>
    decreases ms.len(),
{
    if ms.len() == 0 {
        None
    } else if ms[0].0 == key {
        Some(ms[0].1)
    } else {
        lookup(ms.drop_first(), key)
    }
}

fn obj_find(ms: &Vec<(String, Json)>, key: &String) -> (r: Option<usize>)
    ensures
        (r is Some) == (lookup(jv_of_members(ms@), key@) is Some),
        r matches Some(ix) ==> (ix < ms.len() && lookup(jv_of_members(ms@), key@) == Some(
            jv_of(ms@[ix as int].1),
        )),
{
    let ghost t = jv_of_members(ms@);
    proof {
        lemma_jv_of_members_props(ms@);
        assert(t.skip(0) =~= t);
    }
    let mut i: usize = 0;
    while i < ms.len()
        invariant
            i <= ms@.len(),
            t == jv_of_members(ms@),
            t.len() == ms@.len(),
            forall|k: int| 0 <= k < ms@.len() ==> t[k] == (ms@[k].0@, jv_of(ms@[k].1)),
            lookup(t, key@) == lookup(t.skip(i as int), key@),
        decreases ms@.len() - i,
    {
        if ms[i].0 == *key {
            proof {
                assert(t.skip(i as int)[0] == t[i as int]);
                assert(lookup(t.skip(i as int), key@) == Some(jv_of(ms@[i as int].1)));
            }
            return Some(i);
        }
        proof {
            assert(t.skip(i as int)[0] == t[i as int]);
            assert(t.skip(i as int).drop_first() =~= t.skip(i + 1));
        }
        i = i + 1;
    }
    proof {
        assert(t.skip(ms@.len() as int) =~= Seq::<(Seq<char>, Jv)>::empty());
    }
    None
}

/// A required string member.
pub open spec fn get_str(ms: Seq<(Seq<char>, Jv)>, key: Seq<char>) -> Option<Seq<char>> {
    match lookup(ms, key) {
        Some(Jv::Str(s)) => Some(s),
        _ => None,
    }
}

/// A required number member, as its wire text.
pub open spec fn get_num(ms: Seq<(Seq<char>, Jv)>, key: Seq<char>) -> Option<Seq<char>> {
    match lookup(ms, key) {
        Some(Jv::Num(t)) => Some(t),
        _ => None,
    }
}

/// A required unsigned integer member.
pub open spec fn get_u64(ms: Seq<(Seq<char>, Jv)>, key: Seq<char>) -> Option<u64> {
    match get_num(ms, key) {
        Some(t) => parse_u64_val(t),
        None => None,
    }
}

/// A required boolean member.
pub open spec fn get_bool(ms: Seq<(Seq<char>, Jv)>, key: Seq<char>) -> Option<bool> {
    match lookup(ms, key) {
        Some(Jv::Bool(b)) => Some(b),
        _ => None,
    }
}

/// An optional string member: absent or null means absent.
pub open spec fn get_opt_str(ms: Seq<(Seq<char>, Jv)>, key: Seq<char>) -> Option<
    Option<Seq<char>>,
> {
    match lookup(ms, key) {
        None => Some(None),
        Some(Jv::Null) => Some(None),
        Some(Jv::Str(s)) => Some(Some(s)),
        _ => None,
    }
}

/// An optional number member: absent or null means absent.
pub open spec fn get_opt_num(ms: Seq<(Seq<char>, Jv)>, key: Seq<char>) -> Option<
    Option<Seq<char>>,
> {
    match lookup(ms, key) {
        None => Some(None),
        Some(Jv::Null) => Some(None),
        Some(Jv::Num(t)) => Some(Some(t)),
        _ => None,
    }
}

fn get_str_x(ms: &Vec<(String, Json)>, key: &str) -> (r: Option<String>)
    ensures
        (r is Some) == (get_str(jv_of_members(ms@), key@) is Some),
        r matches Some(s) ==> get_str(jv_of_members(ms@), key@) == Some(s@),
{
    let k = key.to_owned();
    match obj_find(ms, &k) {
        Some(ix) => match &ms[ix].1 {
            Json::Str(s) => Some(s.clone()),
            _ => None,
        },
        None => None,
    }
}

fn get_num_x(ms: &Vec<(String, Json)>, key: &str) -> (r: Option<String>)
    ensures
        (r is Some) == (get_num(jv_of_members(ms@), key@) is Some),
        r matches Some(s) ==> get_num(jv_of_members(ms@), key@) == Some(s@),
{
    let k = key.to_owned();
    match obj_find(ms, &k) {
        Some(ix) => match &ms[ix].1 {
            Json::Num(s) => Some(s.clone()),
            _ => None,
        },
        None => None,
    }
}

fn get_u64_x(ms: &Vec<(String, Json)>, key: &str) -> (r: Option<u64>)
    ensures
        r == get_u64(jv_of_members(ms@), key@),
{
    match get_num_x(ms, key) {
        Some(t) => parse_u64_str(t.as_str()),
        None => None,
    }
}

fn get_bool_x(ms: &Vec<(String, Json)>, key: &str) -> (r: Option<bool>)
    ensures
        r == get_bool(jv_of_members(ms@), key@),
{
    let k = key.to_owned();
    match obj_find(ms, &k) {
        Some(ix) => match &ms[ix].1 {
            Json::Bool(b) => Some(*b),
            _ => None,
        },
        None => None,
    }
}

fn get_opt_str_x(ms: &Vec<(String, Json)>, key: &str) -> (r: Option<Option<String>>)
    ensures
        (r is Some) == (get_opt_str(jv_of_members(ms@), key@) is Some),
        r matches Some(o) ==> get_opt_str(jv_of_members(ms@), key@) == Some(opt_view(o)),
{
    let k = key.to_owned();
    match obj_find(ms, &k) {
        None => Some(None),
        Some(ix) => match &ms[ix].1 {
            Json::Null => Some(None),
            Json::Str(s) => Some(Some(s.clone())),
            _ => None,
        },
    }
}

fn get_opt_num_x(ms: &Vec<(String, Json)>, key: &str) -> (r: Option<Option<String>>)
    ensures
        (r is Some) == (get_opt_num(jv_of_members(ms@), key@) is Some),
        r matches Some(o) ==> get_opt_num(jv_of_members(ms@), key@) == Some(opt_view(o)),
{
    let k = key.to_owned();
    match obj_find(ms, &k) {
        None => Some(None),
        Some(ix) => match &ms[ix].1 {
            Json::Null => Some(None),
            Json::Num(s) => Some(Some(s.clone())),
            _ => None,
        },
    }
}

/// What a JSON value holds as print attributes.
pub open spec fn attrs_of_jv(v: Jv) -> Option<OrderImageAttributesView> {
    match v {
        Jv::Obj(ms) => {
            let sw = get_opt_str(ms, "substrateWeight"@);
            let fr = get_opt_str(ms, "frame"@);
            let ed = get_opt_str(ms, "edge"@);
            let pt = get_opt_str(ms, "paperType"@);
            let fc = get_opt_str(ms, "frameColour"@);
            if sw is Some && fr is Some && ed is Some && pt is Some && fc is Some {
                Some(
                    OrderImageAttributesView {
                        substrate_weight: sw->Some_0,
                        frame: fr->Some_0,
                        edge: ed->Some_0,
                        paper_type: pt->Some_0,
                        frame_colour: fc->Some_0,
                    },
                )
            } else {
                None
            }
        }
        _ => None,
    }
}

/// Decode print attributes.
pub fn decode_attrs(v: &Json) -> (r: Option<OrderImageAttributes>)
    ensures
        (r is Some) == (attrs_of_jv(v@) is Some),
        r matches Some(a) ==> attrs_of_jv(v@) == Some(a@),
{
    match v {
        Json::Obj(ms) => {
            let sw = match get_opt_str_x(ms, "substrateWeight") {
                Some(x) => x,
                None => return None,
            };
            let fr = match get_opt_str_x(ms, "frame") {
                Some(x) => x,
                None => return None,
            };
            let ed = match get_opt_str_x(ms, "edge") {
                Some(x) => x,
                None => return None,
            };
            let pt = match get_opt_str_x(ms, "paperType") {
                Some(x) => x,
                None => return None,
            };
            let fc = match get_opt_str_x(ms, "frameColour") {
                Some(x) => x,
                None => return None,
            };
            Some(
                OrderImageAttributes {
                    substrate_weight: sw,
                    frame: fr,
                    edge: ed,
                    paper_type: pt,
                    frame_colour: fc,
                },
            )
        }
        _ => None,
    }
}

/// An optional attributes member: absent or null means absent.
pub open spec fn get_opt_attrs(ms: Seq<(Seq<char>, Jv)>) -> Option<
    Option<OrderImageAttributesView>,
> {
    match lookup(ms, "attributes"@) {
        None => Some(None),
        Some(Jv::Null) => Some(None),
        Some(a) => match attrs_of_jv(a) {
            Some(x) => Some(Some(x)),
            None => None,
        },
    }
}

fn get_opt_attrs_x(ms: &Vec<(String, Json)>) -> (r: Option<Option<OrderImageAttributes>>)
    ensures
        (r is Some) == (get_opt_attrs(jv_of_members(ms@)) is Some),
        r matches Some(o) ==> get_opt_attrs(jv_of_members(ms@)) == Some(attrs_view(o)),
{
    let k = "attributes".to_owned();
    match obj_find(ms, &k) {
        None => Some(None),
        Some(ix) => match &ms[ix].1 {
            Json::Null => Some(None),
            a => match decode_attrs(a) {
                Some(x) => Some(Some(x)),
                None => None,
            },
        },
    }
}

/// What a JSON value holds as an image record.
pub open spec fn image_of_jv(v: Jv) -> Option<OrderImageView> {
    match v {
        Jv::Obj(ms) => {
            let id = get_u64(ms, "id"@);
            let sku = get_str(ms, "sku"@);
            let url = get_str(ms, "url"@);
            let status = match get_str(ms, "status"@) {
                Some(t) => status_of_wire(t),
                None => None,
            };
            let copies = get_u64(ms, "copies"@);
            let sizing = get_str(ms, "sizing"@);
            let ptu = get_opt_num(ms, "priceToUser"@);
            let price = get_num(ms, "price"@);
            let md5 = get_opt_str(ms, "md5Hash"@);
            let prev = get_opt_str(ms, "previewUrl"@);
            let thumb = get_opt_str(ms, "thumbnailUrl"@);
            let attrs = get_opt_attrs(ms);
            let err = get_opt_str(ms, "errorMessage"@);
            if id is Some && sku is Some && url is Some && status is Some && copies is Some
                && sizing is Some && ptu is Some && price is Some && md5 is Some && prev is Some
                && thumb is Some && attrs is Some && err is Some {
                Some(
                    OrderImageView {
                        id: id->Some_0,
                        sku: sku->Some_0,
                        url: url->Some_0,
                        status: status->Some_0,
                        copies: copies->Some_0,
                        sizing: sizing->Some_0,
                        price_to_user: ptu->Some_0,
                        price: price->Some_0,
                        md5_hash: md5->Some_0,
                        preview_url: prev->Some_0,
                        thumbnail_url: thumb->Some_0,
                        attributes: attrs->Some_0,
                        error_message: err->Some_0,
                    },
                )
            } else {
                None
            }
        }
        _ => None,
    }
}

/// Decode an image record.
pub fn decode_image(v: &Json) -> (r: Option<OrderImage>)
    ensures
        (r is Some) == (image_of_jv(v@) is Some),
        r matches Some(img) ==> image_of_jv(v@) == Some(img@),
{
    match v {
        Json::Obj(ms) => {
            let id = match get_u64_x(ms, "id") {
                Some(x) => x,
                None => return None,
            };
            let sku = match get_str_x(ms, "sku") {
                Some(x) => x,
                None => return None,
            };
            let url = match get_str_x(ms, "url") {
                Some(x) => x,
                None => return None,
            };
            let status_s = match get_str_x(ms, "status") {
                Some(x) => x,
                None => return None,
            };
            let status = match crate::payloads::OrderStatus::from_wire(&status_s) {
                Some(x) => x,
                None => return None,
            };
            let copies = match get_u64_x(ms, "copies") {
                Some(x) => x,
                None => return None,
            };
            let sizing = match get_str_x(ms, "sizing") {
                Some(x) => x,
                None => return None,
            };
            let ptu = match get_opt_num_x(ms, "priceToUser") {
                Some(x) => x,
                None => return None,
            };
            let price = match get_num_x(ms, "price") {
                Some(x) => x,
                None => return None,
            };
            let md5 = match get_opt_str_x(ms, "md5Hash") {
                Some(x) => x,
                None => return None,
            };
            let prev = match get_opt_str_x(ms, "previewUrl") {
                Some(x) => x,
                None => return None,
            };
            let thumb = match get_opt_str_x(ms, "thumbnailUrl") {
                Some(x) => x,
                None => return None,
            };
            let attrs = match get_opt_attrs_x(ms) {
                Some(x) => x,
                None => return None,
            };
            let err = match get_opt_str_x(ms, "errorMessage") {
                Some(x) => x,
                None => return None,
            };
            Some(
                OrderImage {
                    id,
                    sku,
                    url,
                    status,
                    copies,
                    sizing,
                    price_to_user: ptu,
                    price,
                    md5_hash: md5,
                    preview_url: prev,
                    thumbnail_url: thumb,
                    attributes: attrs,
                    error_message: err,
                },
            )
        }
        _ => None,
    }
}

/// What a JSON array holds as a sequence of image records.
pub open spec fn images_of_arr(items: Seq<Jv>) -> Option<Seq<OrderImageView>>
    decreases items.len(),
{
    if items.len() == 0 {
        Some(Seq::empty())
    } else {
        match image_of_jv(items[0]) {
            Some(iv) => match images_of_arr(items.drop_first()) {
                Some(rest) => Some(seq![iv] + rest),
                None => None,
            },
            None => None,
        }
    }
}

fn decode_images_arr(items: &Vec<Json>, i: usize, acc: Vec<OrderImage>) -> (r: Option<
    Vec<OrderImage>,
>)
    requires
        i <= items.len(),
    ensures
        (r is Some) == (images_of_arr(jv_of_seq(items@).skip(i as int)) is Some),
        r matches Some(p) ==> (images_of_arr(jv_of_seq(items@).skip(i as int)) matches Some(q)
            && images_view(p@) == images_view(acc@) + q),
    decreases items.len() - i,
{
    proof {
        lemma_jv_of_seq_props(items@);
    }
    if i == items.len() {
        proof {
            assert(jv_of_seq(items@).skip(i as int) =~= Seq::<Jv>::empty());
            assert(images_view(acc@) + Seq::<OrderImageView>::empty() =~= images_view(acc@));
        }
        return Some(acc);
    }
    proof {
        assert(jv_of_seq(items@).skip(i as int)[0] == jv_of(items@[i as int]));
        assert(jv_of_seq(items@).skip(i as int).drop_first() =~= jv_of_seq(items@).skip(i + 1));
    }
    match decode_image(&items[i]) {
        Some(img) => {
            let mut acc2 = acc;
            let ghost acc0 = acc2@;
            acc2.push(img);
            let r = decode_images_arr(items, i + 1, acc2);
            proof {
                if r is Some {
                    let q = images_of_arr(jv_of_seq(items@).skip(i + 1))->Some_0;
                    assert(images_view(acc0.push(img)) =~= images_view(acc0).push(img@));
                    assert(images_view(acc0).push(img@) + q =~= images_view(acc0) + (seq![img@]
                        + q));
                }
            }
            r
        }
        None => None,
    }
}

/// What a JSON array holds as a sequence of unsigned integers.
pub open spec fn u64s_of_arr(items: Seq<Jv>) -> Option<Seq<u64>>
    decreases items.len(),
{
    if items.len() == 0 {
        Some(Seq::empty())
    } else {
        match items[0] {
            Jv::Num(t) => match parse_u64_val(t) {
                Some(n) => match u64s_of_arr(items.drop_first()) {
                    Some(rest) => Some(seq![n] + rest),
                    None => None,
                },
                None => None,
            },
            _ => None,
        }
    }
}

fn decode_u64s_arr(items: &Vec<Json>, i: usize, acc: Vec<u64>) -> (r: Option<Vec<u64>>)
    requires
        i <= items.len(),
    ensures
        (r is Some) == (u64s_of_arr(jv_of_seq(items@).skip(i as int)) is Some),
        r matches Some(p) ==> (u64s_of_arr(jv_of_seq(items@).skip(i as int)) matches Some(q) && p@
            == acc@ + q),
    decreases items.len() - i,
{
    proof {
        lemma_jv_of_seq_props(items@);
    }
    if i == items.len() {
        proof {
            assert(jv_of_seq(items@).skip(i as int) =~= Seq::<Jv>::empty());
            assert(acc@ + Seq::<u64>::empty() =~= acc@);
        }
        return Some(acc);
    }
    proof {
        assert(jv_of_seq(items@).skip(i as int)[0] == jv_of(items@[i as int]));
        assert(jv_of_seq(items@).skip(i as int).drop_first() =~= jv_of_seq(items@).skip(i + 1));
    }
    match &items[i] {
        Json::Num(t) => match parse_u64_str(t.as_str()) {
            Some(n) => {
                let mut acc2 = acc;
                let ghost acc0 = acc2@;
                acc2.push(n);
                let r = decode_u64s_arr(items, i + 1, acc2);
                proof {
                    if r is Some {
                        let q = u64s_of_arr(jv_of_seq(items@).skip(i + 1))->Some_0;
                        assert(acc0.push(n) + q =~= acc0 + (seq![n] + q));
                    }
                }
                r
            }
            None => None,
        },
        _ => None,
    }
}

/// What a JSON value holds as a country.
pub open spec fn country_of_jv(v: Jv) -> Option<CountryView> {
    match v {
        Jv::Obj(ms) => {
            let name = get_str(ms, "name"@);
            let code = get_str(ms, "isoCode"@);
            if name is Some && code is Some {
                Some(CountryView { name: name->Some_0, iso_code: code->Some_0 })
            } else {
                None
            }
        }
        _ => None,
    }
}

/// Decode a country.
pub fn decode_country(v: &Json) -> (r: Option<Country>)
    ensures
        (r is Some) == (country_of_jv(v@) is Some),
        r matches Some(c) ==> country_of_jv(v@) == Some(c@),
{
    match v {
        Json::Obj(ms) => {
            let name = match get_str_x(ms, "name") {
                Some(x) => x,
                None => return None,
            };
            let code = match get_str_x(ms, "isoCode") {
                Some(x) => x,
                None => return None,
            };
            Some(Country { name, iso_code: code })
        }
        _ => None,
    }
}

/// What a JSON array holds as a sequence of countries.
pub open spec fn countries_of_arr(items: Seq<Jv>) -> Option<Seq<CountryView>>
    decreases items.len(),
{
    if items.len() == 0 {
        Some(Seq::empty())
    } else {
        match country_of_jv(items[0]) {
            Some(cv) => match countries_of_arr(items.drop_first()) {
                Some(rest) => Some(seq![cv] + rest),
                None => None,
            },
            None => None,
        }
    }
}

fn decode_countries_arr(items: &Vec<Json>, i: usize, acc: Vec<Country>) -> (r: Option<
    Vec<Country>,
>)
    requires
        i <= items.len(),
    ensures
        (r is Some) == (countries_of_arr(jv_of_seq(items@).skip(i as int)) is Some),
        r matches Some(p) ==> (countries_of_arr(jv_of_seq(items@).skip(i as int)) matches Some(q)
            && countries_view(p@) == countries_view(acc@) + q),
    decreases items.len() - i,
{
    proof {
        lemma_jv_of_seq_props(items@);
    }
    if i == items.len() {
        proof {
            assert(jv_of_seq(items@).skip(i as int) =~= Seq::<Jv>::empty());
            assert(countries_view(acc@) + Seq::<CountryView>::empty() =~= countries_view(acc@));
        }
        return Some(acc);
    }
    proof {
        assert(jv_of_seq(items@).skip(i as int)[0] == jv_of(items@[i as int]));
        assert(jv_of_seq(items@).skip(i as int).drop_first() =~= jv_of_seq(items@).skip(i + 1));
    }
    match decode_country(&items[i]) {
        Some(c) => {
            let mut acc2 = acc;
            let ghost acc0 = acc2@;
            acc2.push(c);
            let r = decode_countries_arr(items, i + 1, acc2);
            proof {
                if r is Some {
                    let q = countries_of_arr(jv_of_seq(items@).skip(i + 1))->Some_0;
                    assert(countries_view(acc0.push(c)) =~= countries_view(acc0).push(c@));
                    assert(countries_view(acc0).push(c@) + q =~= countries_view(acc0) + (seq![c@]
                        + q));
                }
            }
            r
        }
        None => None,
    }
}

/// What a JSON value holds as a shipment.
pub open spec fn shipment_of_jv(v: Jv) -> Option<OrderShipmentView> {
    match v {
        Jv::Obj(ms) => {
            let carrier = match get_str(ms, "carrier"@) {
                Some(t) => carrier_of_wire(t),
                None => None,
            };
            let pids = match lookup(ms, "photoIds"@) {
                Some(Jv::Arr(items)) => u64s_of_arr(items),
                _ => None,
            };
            let sid = get_str(ms, "shipmentId"@);
            let tn = get_opt_str(ms, "trackingNumber"@);
            let tu = get_opt_str(ms, "trackingUrl"@);
            let trk = get_bool(ms, "isTracked"@);
            let ee = get_opt_str(ms, "earliestEstimatedArrivalDate"@);
            let le = get_opt_str(ms, "latestEstimatedArrivalDate"@);
            let so = get_str(ms, "shippedOn"@);
            if carrier is Some && pids is Some && sid is Some && tn is Some && tu is Some
                && trk is Some && ee is Some && le is Some && so is Some {
                Some(
                    OrderShipmentView {
                        carrier: carrier->Some_0,
                        photo_ids: pids->Some_0,
                        shipment_id: sid->Some_0,
                        tracking_number: tn->Some_0,
                        tracking_url: tu->Some_0,
                        is_tracked: trk->Some_0,
                        earliest_estimated_arrival_date: ee->Some_0,
                        latest_estimated_arrival_date: le->Some_0,
                        shipped_on: so->Some_0,
                    },
                )
            } else {
                None
            }
        }
        _ => None,
    }
}

/// Decode a shipment.
pub fn decode_shipment(v: &Json) -> (r: Option<OrderShipment>)
    ensures
        (r is Some) == (shipment_of_jv(v@) is Some),
        r matches Some(s) ==> shipment_of_jv(v@) == Some(s@),
{
    match v {
        Json::Obj(ms) => {
            let carrier_s = match get_str_x(ms, "carrier") {
                Some(x) => x,
                None => return None,
            };
            let carrier = match crate::payloads::OrderShippingCarrier::from_wire(&carrier_s) {
                Some(x) => x,
                None => return None,
            };
            let k = "photoIds".to_owned();
            let pids = match obj_find(ms, &k) {
                Some(ix) => match &ms[ix].1 {
                    Json::Arr(items) => {
                        proof {
                            assert(jv_of_seq(items@).skip(0) =~= jv_of_seq(items@));
                        }
                        match decode_u64s_arr(items, 0, Vec::new()) {
                            Some(p) => {
                                proof {
                                    let q = u64s_of_arr(jv_of_seq(items@))->Some_0;
                                    assert(Seq::<u64>::empty() + q =~= q);
                                }
                                p
                            }
                            None => return None,
                        }
                    }
                    _ => return None,
                },
                None => return None,
            };
            let sid = match get_str_x(ms, "shipmentId") {
                Some(x) => x,
                None => return None,
            };
            let tn = match get_opt_str_x(ms, "trackingNumber") {
                Some(x) => x,
                None => return None,
            };
            let tu = match get_opt_str_x(ms, "trackingUrl") {
                Some(x) => x,
                None => return None,
            };
            let trk = match get_bool_x(ms, "isTracked") {
                Some(x) => x,
                None => return None,
            };
            let ee = match get_opt_str_x(ms, "earliestEstimatedArrivalDate") {
                Some(x) => x,
                None => return None,
            };
            let le = match get_opt_str_x(ms, "latestEstimatedArrivalDate") {
                Some(x) => x,
                None => return None,
            };
            let so = match get_str_x(ms, "shippedOn") {
                Some(x) => x,
                None => return None,
            };
            Some(
                OrderShipment {
                    carrier,
                    photo_ids: pids,
                    shipment_id: sid,
                    tracking_number: tn,
                    tracking_url: tu,
                    is_tracked: trk,
                    earliest_estimated_arrival_date: ee,
                    latest_estimated_arrival_date: le,
                    shipped_on: so,
                },
            )
        }
        _ => None,
    }
}

/// What a JSON array holds as a sequence of shipments.
pub open spec fn shipments_of_arr(items: Seq<Jv>) -> Option<Seq<OrderShipmentView>>
    decreases items.len(),
{
    if items.len() == 0 {
        Some(Seq::empty())
    } else {
        match shipment_of_jv(items[0]) {
            Some(sv) => match shipments_of_arr(items.drop_first()) {
                Some(rest) => Some(seq![sv] + rest),
                None => None,
            },
            None => None,
        }
    }
}

fn decode_shipments_arr(items: &Vec<Json>, i: usize, acc: Vec<OrderShipment>) -> (r: Option<
    Vec<OrderShipment>,
>)
    requires
        i <= items.len(),
    ensures
        (r is Some) == (shipments_of_arr(jv_of_seq(items@).skip(i as int)) is Some),
        r matches Some(p) ==> (shipments_of_arr(jv_of_seq(items@).skip(i as int)) matches Some(q)
            && shipments_view(p@) == shipments_view(acc@) + q),
    decreases items.len() - i,
{
    proof {
        lemma_jv_of_seq_props(items@);
    }
    if i == items.len() {
        proof {
            assert(jv_of_seq(items@).skip(i as int) =~= Seq::<Jv>::empty());
            assert(shipments_view(acc@) + Seq::<OrderShipmentView>::empty() =~= shipments_view(
                acc@,
            ));
        }
        return Some(acc);
    }
    proof {
        assert(jv_of_seq(items@).skip(i as int)[0] == jv_of(items@[i as int]));
        assert(jv_of_seq(items@).skip(i as int).drop_first() =~= jv_of_seq(items@).skip(i + 1));
    }
    match decode_shipment(&items[i]) {
        Some(s) => {
            let mut acc2 = acc;
            let ghost acc0 = acc2@;
            acc2.push(s);
            let r = decode_shipments_arr(items, i + 1, acc2);
            proof {
                if r is Some {
                    let q = shipments_of_arr(jv_of_seq(items@).skip(i + 1))->Some_0;
                    assert(shipments_view(acc0.push(s)) =~= shipments_view(acc0).push(s@));
                    assert(shipments_view(acc0).push(s@) + q =~= shipments_view(acc0) + (seq![s@]
                        + q));
                }
            }
            r
        }
        None => None,
    }
}

/// What a JSON value holds as shipping information.
pub open spec fn shipping_info_of_jv(v: Jv) -> Option<OrderShippingInfoView> {
    match v {
        Jv::Obj(ms) => {
            let price = get_num(ms, "price"@);
            let shipments = match lookup(ms, "shipments"@) {
                Some(Jv::Arr(items)) => shipments_of_arr(items),
                _ => None,
            };
            if price is Some && shipments is Some {
                Some(OrderShippingInfoView { price: price->Some_0, shipments: shipments->Some_0 })
            } else {
                None
            }
        }
        _ => None,
    }
}

/// Decode shipping information.
pub fn decode_shipping_info(v: &Json) -> (r: Option<OrderShippingInfo>)
    ensures
        (r is Some) == (shipping_info_of_jv(v@) is Some),
        r matches Some(s) ==> shipping_info_of_jv(v@) == Some(s@),
{
    match v {
        Json::Obj(ms) => {
            let price = match get_num_x(ms, "price") {
                Some(x) => x,
                None => return None,
            };
            let k = "shipments".to_owned();
            let shipments = match obj_find(ms, &k) {
                Some(ix) => match &ms[ix].1 {
                    Json::Arr(items) => {
                        proof {
                            assert(jv_of_seq(items@).skip(0) =~= jv_of_seq(items@));
                        }
                        match decode_shipments_arr(items, 0, Vec::new()) {
                            Some(p) => {
                                proof {
                                    let q = shipments_of_arr(jv_of_seq(items@))->Some_0;
                                    assert(shipments_view(Seq::<OrderShipment>::empty())
                                        =~= Seq::<OrderShipmentView>::empty());
                                    assert(Seq::<OrderShipmentView>::empty() + q =~= q);
                                }
                                p
                            }
                            None => return None,
                        }
                    }
                    _ => return None,
                },
                None => return None,
            };
            Some(OrderShippingInfo { price, shipments })
        }
        _ => None,
    }
}

/// What a JSON value holds as an order.
pub open spec fn order_of_jv(v: Jv) -> Option<OrderView> {
    match v {
        Jv::Obj(ms) => {
            let id = get_u64(ms, "id"@);
            let a1 = get_opt_str(ms, "address1"@);
            let a2 = get_opt_str(ms, "address2"@);
            let zip = get_str(ms, "postalOrZipCode"@);
            let cc = get_str(ms, "countryCode"@);
            let town = get_opt_str(ms, "addressTownOrCity"@);
            let rn = get_str(ms, "recipientName"@);
            let county = get_opt_str(ms, "stateOrCounty"@);
            let status = match get_str(ms, "status"@) {
                Some(t) => status_of_wire(t),
                None => None,
            };
            let payment = match get_str(ms, "payment"@) {
                Some(t) => payment_of_wire(t),
                None => None,
            };
            let purl = get_opt_str(ms, "paymentUrl"@);
            let price = get_num(ms, "price"@);
            let sinfo = match lookup(ms, "shippingInfo"@) {
                Some(w) => shipping_info_of_jv(w),
                None => None,
            };
            let images = match lookup(ms, "images"@) {
                Some(Jv::Arr(items)) => images_of_arr(items),
                _ => None,
            };
            let ian = get_opt_num(ms, "invoiceAmmountNet"@);
            let itax = get_opt_num(ms, "invoiceTax"@);
            let icur = get_opt_str(ms, "invoiceCurrency"@);
            let moid = get_opt_str(ms, "merchantOrderId"@);
            let psm = match get_str(ms, "preferredShippingMethod"@) {
                Some(t) => shipping_method_of_wire(t),
                None => None,
            };
            let mob = get_opt_str(ms, "mobileTelephone"@);
            let created = get_str(ms, "created"@);
            let updated = get_str(ms, "lastUpdated"@);
            let cc1 = get_bool(ms, "canCancel"@);
            let ch = get_bool(ms, "canHold"@);
            let cus = get_bool(ms, "canUpdateShipping"@);
            let cui = get_bool(ms, "canUpdateImages"@);
            let tag = get_opt_str(ms, "tag"@);
            let psu = get_opt_str(ms, "packingSlipUrl"@);
            let err = get_opt_str(ms, "errorMessage"@);
            if id is Some && a1 is Some && a2 is Some && zip is Some && cc is Some && town is Some
                && rn is Some && county is Some && status is Some && payment is Some
                && purl is Some && price is Some && sinfo is Some && images is Some && ian is Some
                && itax is Some && icur is Some && moid is Some && psm is Some && mob is Some
                && created is Some && updated is Some && cc1 is Some && ch is Some && cus is Some
                && cui is Some && tag is Some && psu is Some && err is Some {
                Some(
                    OrderView {
                        id: id->Some_0,
                        address1: a1->Some_0,
                        address2: a2->Some_0,
                        postal_or_zip_code: zip->Some_0,
                        country_code: cc->Some_0,
                        address_town_or_city: town->Some_0,
                        recipient_name: rn->Some_0,
                        state_or_county: county->Some_0,
                        status: status->Some_0,
                        payment: payment->Some_0,
                        payment_url: purl->Some_0,
                        price: price->Some_0,
                        shipping_info: sinfo->Some_0,
                        images: images->Some_0,
                        invoice_ammount_net: ian->Some_0,
                        invoice_tax: itax->Some_0,
                        invoice_currency: icur->Some_0,
                        merchant_order_id: moid->Some_0,
                        preferred_shipping_method: psm->Some_0,
                        mobile_telephone: mob->Some_0,
                        created: created->Some_0,
                        last_updated: updated->Some_0,
                        can_cancel: cc1->Some_0,
                        can_hold: ch->Some_0,
                        can_update_shipping: cus->Some_0,
                        can_update_images: cui->Some_0,
                        tag: tag->Some_0,
                        packing_slip_url: psu->Some_0,
                        error_message: err->Some_0,
                    },
                )
            } else {
                None
            }
        }
        _ => None,
    }
}

/// Decode an order.
pub fn decode_order(v: &Json) -> (r: Option<Order>)
    ensures
        (r is Some) == (order_of_jv(v@) is Some),
        r matches Some(o) ==> order_of_jv(v@) == Some(o@),
{
    match v {
        Json::Obj(ms) => {
            let id = match get_u64_x(ms, "id") {
                Some(x) => x,
                None => return None,
            };
            let a1 = match get_opt_str_x(ms, "address1") {
                Some(x) => x,
                None => return None,
            };
            let a2 = match get_opt_str_x(ms, "address2") {
                Some(x) => x,
                None => return None,
            };
            let zip = match get_str_x(ms, "postalOrZipCode") {
                Some(x) => x,
                None => return None,
            };
            let cc = match get_str_x(ms, "countryCode") {
                Some(x) => x,
                None => return None,
            };
            let town = match get_opt_str_x(ms, "addressTownOrCity") {
                Some(x) => x,
                None => return None,
            };
            let rn = match get_str_x(ms, "recipientName") {
                Some(x) => x,
                None => return None,
            };
            let county = match get_opt_str_x(ms, "stateOrCounty") {
                Some(x) => x,
                None => return None,
            };
            let status_s = match get_str_x(ms, "status") {
                Some(x) => x,
                None => return None,
            };
            let status = match crate::payloads::OrderStatus::from_wire(&status_s) {
                Some(x) => x,
                None => return None,
            };
            let payment_s = match get_str_x(ms, "payment") {
                Some(x) => x,
                None => return None,
            };
            let payment = match crate::payloads::OrderPayment::from_wire(&payment_s) {
                Some(x) => x,
                None => return None,
            };
            let purl = match get_opt_str_x(ms, "paymentUrl") {
                Some(x) => x,
                None => return None,
            };
            let price = match get_num_x(ms, "price") {
                Some(x) => x,
                None => return None,
            };
            let ksi = "shippingInfo".to_owned();
            let sinfo = match obj_find(ms, &ksi) {
                Some(ix) => match decode_shipping_info(&ms[ix].1) {
                    Some(x) => x,
                    None => return None,
                },
                None => return None,
            };
            let kim = "images".to_owned();
            let images = match obj_find(ms, &kim) {
                Some(ix) => match &ms[ix].1 {
                    Json::Arr(items) => {
                        proof {
                            assert(jv_of_seq(items@).skip(0) =~= jv_of_seq(items@));
                        }
                        match decode_images_arr(items, 0, Vec::new()) {
                            Some(p) => {
                                proof {
                                    let q = images_of_arr(jv_of_seq(items@))->Some_0;
                                    assert(images_view(Seq::<OrderImage>::empty())
                                        =~= Seq::<OrderImageView>::empty());
                                    assert(Seq::<OrderImageView>::empty() + q =~= q);
                                }
                                p
                            }
                            None => return None,
                        }
                    }
                    _ => return None,
                },
                None => return None,
            };
            let ian = match get_opt_num_x(ms, "invoiceAmmountNet") {
                Some(x) => x,
                None => return None,
            };
            let itax = match get_opt_num_x(ms, "invoiceTax") {
                Some(x) => x,
                None => return None,
            };
            let icur = match get_opt_str_x(ms, "invoiceCurrency") {
                Some(x) => x,
                None => return None,
            };
            let moid = match get_opt_str_x(ms, "merchantOrderId") {
                Some(x) => x,
                None => return None,
            };
            let psm_s = match get_str_x(ms, "preferredShippingMethod") {
                Some(x) => x,
                None => return None,
            };
            let psm = match crate::payloads::OrderShippingMethod::from_wire(&psm_s) {
                Some(x) => x,
                None => return None,
            };
            let mob = match get_opt_str_x(ms, "mobileTelephone") {
                Some(x) => x,
                None => return None,
            };
            let created = match get_str_x(ms, "created") {
                Some(x) => x,
                None => return None,
            };
            let updated = match get_str_x(ms, "lastUpdated") {
                Some(x) => x,
                None => return None,
            };
            let cc1 = match get_bool_x(ms, "canCancel") {
                Some(x) => x,
                None => return None,
            };
            let ch = match get_bool_x(ms, "canHold") {
                Some(x) => x,
                None => return None,
            };
            let cus = match get_bool_x(ms, "canUpdateShipping") {
                Some(x) => x,
                None => return None,
            };
            let cui = match get_bool_x(ms, "canUpdateImages") {
                Some(x) => x,
                None => return None,
            };
            let tag = match get_opt_str_x(ms, "tag") {
                Some(x) => x,
                None => return None,
            };
            let psu = match get_opt_str_x(ms, "packingSlipUrl") {
                Some(x) => x,
                None => return None,
            };
            let err = match get_opt_str_x(ms, "errorMessage") {
                Some(x) => x,
                None => return None,
            };
            Some(
                Order {
                    id,
                    address1: a1,
                    address2: a2,
                    postal_or_zip_code: zip,
                    country_code: cc,
                    address_town_or_city: town,
                    recipient_name: rn,
                    state_or_county: county,
                    status,
                    payment,
                    payment_url: purl,
                    price,
                    shipping_info: sinfo,
                    images,
                    invoice_ammount_net: ian,
                    invoice_tax: itax,
                    invoice_currency: icur,
                    merchant_order_id: moid,
                    preferred_shipping_method: psm,
                    mobile_telephone: mob,
                    created,
                    last_updated: updated,
                    can_cancel: cc1,
                    can_hold: ch,
                    can_update_shipping: cus,
                    can_update_images: cui,
                    tag,
                    packing_slip_url: psu,
                    error_message: err,
                },
            )
        }
        _ => None,
    }
}

/// What a country-listing envelope holds.
pub open spec fn countries_of_envelope(v: Jv) -> Option<Seq<CountryView>> {
    match v {
        Jv::Obj(ms) => match lookup(ms, "data"@) {
            Some(Jv::Arr(items)) => countries_of_arr(items),
            _ => None,
        },
        _ => None,
    }
}

/// Decode a country-listing envelope.
pub(crate) fn decode_countries_envelope(v: &Json) -> (r: Option<Countries>)
    ensures
        (r is Some) == (countries_of_envelope(v@) is Some),
        r matches Some(w) ==> countries_of_envelope(v@) == Some(countries_view(w.data@)),
{
    match v {
        Json::Obj(ms) => {
            let k = "data".to_owned();
            match obj_find(ms, &k) {
                Some(ix) => match &ms[ix].1 {
                    Json::Arr(items) => {
                        proof {
                            assert(jv_of_seq(items@).skip(0) =~= jv_of_seq(items@));
                        }
                        match decode_countries_arr(items, 0, Vec::new()) {
                            Some(p) => {
                                proof {
                                    let q = countries_of_arr(jv_of_seq(items@))->Some_0;
                                    assert(countries_view(Seq::<Country>::empty())
                                        =~= Seq::<CountryView>::empty());
                                    assert(Seq::<CountryView>::empty() + q =~= q);
                                }
                                Some(Countries { data: p })
                            }
                            None => None,
                        }
                    }
                    _ => None,
                },
                None => None,
            }
        }
        _ => None,
    }
}

/// What a create-order envelope holds.
pub open spec fn order_of_envelope(v: Jv) -> Option<OrderView> {
    match v {
        Jv::Obj(ms) => match lookup(ms, "data"@) {
            Some(w) => order_of_jv(w),
            None => None,
        },
        _ => None,
    }
}

/// Decode a create-order envelope.
pub(crate) fn decode_order_envelope(v: &Json) -> (r: Option<OrderWrapper>)
    ensures
        (r is Some) == (order_of_envelope(v@) is Some),
        r matches Some(w) ==> order_of_envelope(v@) == Some(w.data@),
{
    match v {
        Json::Obj(ms) => {
            let k = "data".to_owned();
            match obj_find(ms, &k) {
                Some(ix) => match decode_order(&ms[ix].1) {
                    Some(o) => Some(OrderWrapper { data: o }),
                    None => None,
                },
                None => None,
            }
        }
        _ => None,
    }
}

/// What a single-image envelope holds.
pub open spec fn image_of_envelope(v: Jv) -> Option<OrderImageView> {
    match v {
        Jv::Obj(ms) => match lookup(ms, "data"@) {
            Some(w) => image_of_jv(w),
            None => None,
        },
        _ => None,
    }
}

/// Decode a single-image envelope.
pub fn decode_image_envelope(v: &Json) -> (r: Option<OrderImageWrapper>)
    ensures
        (r is Some) == (image_of_envelope(v@) is Some),
        r matches Some(w) ==> image_of_envelope(v@) == Some(w.data@),
{
    match v {
        Json::Obj(ms) => {
            let k = "data".to_owned();
            match obj_find(ms, &k) {
                Some(ix) => match decode_image(&ms[ix].1) {
                    Some(img) => Some(OrderImageWrapper { data: img }),
                    None => None,
                },
                None => None,
            }
        }
        _ => None,
    }
}

/// What a batch-image envelope holds.
pub open spec fn images_of_envelope(v: Jv) -> Option<Seq<OrderImageView>> {
    match v {
        Jv::Obj(ms) => match lookup(ms, "data"@) {
            Some(Jv::Obj(inner)) => match lookup(inner, "items"@) {
                Some(Jv::Arr(items)) => images_of_arr(items),
                _ => None,
            },
            _ => None,
        },
        _ => None,
    }
}

/// Decode a batch-image envelope.
pub fn decode_images_envelope(v: &Json) -> (r: Option<OrderImagesWrapper>)
    ensures
        (r is Some) == (images_of_envelope(v@) is Some),
        r matches Some(w) ==> images_of_envelope(v@) == Some(images_view(w.data.items@)),
{
    match v {
        Json::Obj(ms) => {
            let k = "data".to_owned();
            match obj_find(ms, &k) {
                Some(ix) => match &ms[ix].1 {
                    Json::Obj(inner) => {
                        let ki = "items".to_owned();
                        match obj_find(inner, &ki) {
                            Some(jx) => match &inner[jx].1 {
                                Json::Arr(items) => {
                                    proof {
                                        assert(jv_of_seq(items@).skip(0) =~= jv_of_seq(items@));
                                    }
                                    match decode_images_arr(items, 0, Vec::new()) {
                                        Some(p) => {
                                            proof {
                                                let q = images_of_arr(jv_of_seq(items@))->Some_0;
                                                assert(images_view(Seq::<OrderImage>::empty())
                                                    =~= Seq::<OrderImageView>::empty());
                                                assert(Seq::<OrderImageView>::empty() + q =~= q);
                                            }
                                            Some(
                                                OrderImagesWrapper {
                                                    data: OrderImagesWrapperInner { items: p },
                                                },
                                            )
                                        }
                                        None => None,
                                    }
                                }
                                _ => None,
                            },
                            None => None,
                        }
                    }
                    _ => None,
                },
                None => None,
            }
        }
        _ => None,
    }
}

/// How an optional string is sent: null when absent.
pub open spec fn jv_opt_str(o: Option<Seq<char>>) -> Jv {
    match o {
        Option::None => Jv::Null,
        Option::Some(s) => Jv::Str(s),
    }
}

/// How an optional number is sent: null when absent.
pub open spec fn jv_opt_num(o: Option<Seq<char>>) -> Jv {
    match o {
        Option::None => Jv::Null,
        Option::Some(s) => Jv::Num(s),
    }
}

fn json_opt_str(o: &Option<String>) -> (r: Json)
    ensures
        r@ == jv_opt_str(opt_view(*o)),
{
    match o {
        None => Json::Null,
        Some(s) => Json::Str(s.clone()),
    }
}

fn json_opt_num(o: &Option<String>) -> (r: Json)
    ensures
        r@ == jv_opt_num(opt_view(*o)),
{
    match o {
        None => Json::Null,
        Some(s) => Json::Num(s.clone()),
    }
}

/// The wire object of print attributes.
pub open spec fn attrs_jv(a: OrderImageAttributesView) -> Jv {
    Jv::Obj(
        seq![
            ("substrateWeight"@, jv_opt_str(a.substrate_weight)),
            ("frame"@, jv_opt_str(a.frame)),
            ("edge"@, jv_opt_str(a.edge)),
            ("paperType"@, jv_opt_str(a.paper_type)),
            ("frameColour"@, jv_opt_str(a.frame_colour)),
        ],
    )
}

/// Encode print attributes.
pub fn encode_attrs(a: &OrderImageAttributes) -> (r: Json)
    ensures
        r@ == attrs_jv(a@),
{
    let mut ms: Vec<(String, Json)> = Vec::new();
    ms.push(("substrateWeight".to_owned(), json_opt_str(&a.substrate_weight)));
    ms.push(("frame".to_owned(), json_opt_str(&a.frame)));
    ms.push(("edge".to_owned(), json_opt_str(&a.edge)));
    ms.push(("paperType".to_owned(), json_opt_str(&a.paper_type)));
    ms.push(("frameColour".to_owned(), json_opt_str(&a.frame_colour)));
    let r = Json::Obj(ms);
    proof {
        lemma_jv_of_members_props(r->Obj_0@);
        assert(jv_of_members(r->Obj_0@) =~= attrs_jv(a@)->Obj_0);
    }
    r
}

/// The wire object of an order-creation record: every field is present, an
/// absent optional field is sent as null.
pub open spec fn order_create_jv(o: crate::payloads::OrderCreateView) -> Jv {
    Jv::Obj(
        seq![
            (
                "merchantOrderId"@,
                match o.merchant_order_id {
                    Option::None => Jv::Null,
                    Option::Some(n) => Jv::Num(crate::json::dec_str(n as nat)),
                },
            ),
            ("recipientName"@, Jv::Str(o.recipient_name)),
            ("address1"@, jv_opt_str(o.address1)),
            ("address2"@, jv_opt_str(o.address2)),
            ("addressTownOrCity"@, jv_opt_str(o.address_town_or_city)),
            ("stateOrCounty"@, jv_opt_str(o.state_or_county)),
            ("postalOrZipCode"@, Jv::Str(o.postal_or_zip_code)),
            ("countryCode"@, Jv::Str(o.country_code)),
            (
                "preferredShippingMethod"@,
                Jv::Str(crate::payloads::shipping_method_wire(o.preferred_shipping_method)),
            ),
            (
                "payment"@,
                match o.payment {
                    Option::None => Jv::Null,
                    Option::Some(p) => Jv::Str(crate::payloads::payment_wire(p)),
                },
            ),
            ("packingSlipUrl"@, jv_opt_str(o.packing_slip_url)),
            ("mobileTelephone"@, jv_opt_str(o.mobile_telephone)),
            ("email"@, jv_opt_str(o.email)),
            ("invoiceAmountNet"@, jv_opt_num(o.invoice_amount_net)),
            ("invoiceTax"@, jv_opt_num(o.invoice_tax)),
            ("invoiceCurrency"@, jv_opt_str(o.invoice_currency)),
        ],
    )
}

/// Encode an order-creation record.
pub fn encode_order_create(o: &crate::payloads::OrderCreate) -> (r: Json)
    ensures
        r@ == order_create_jv(o@),
{
    let mut ms: Vec<(String, Json)> = Vec::new();
    let moid = match &o.merchant_order_id {
        None => Json::Null,
        Some(n) => Json::Num(crate::json::u64_string(*n)),
    };
    ms.push(("merchantOrderId".to_owned(), moid));
    ms.push(("recipientName".to_owned(), Json::Str(o.recipient_name.clone())));
    ms.push(("address1".to_owned(), json_opt_str(&o.address1)));
    ms.push(("address2".to_owned(), json_opt_str(&o.address2)));
    ms.push(("addressTownOrCity".to_owned(), json_opt_str(&o.address_town_or_city)));
    ms.push(("stateOrCounty".to_owned(), json_opt_str(&o.state_or_county)));
    ms.push(("postalOrZipCode".to_owned(), Json::Str(o.postal_or_zip_code.clone())));
    ms.push(("countryCode".to_owned(), Json::Str(o.country_code.clone())));
    ms.push(
        ("preferredShippingMethod".to_owned(), Json::Str(o.preferred_shipping_method.wire_name())),
    );
    let pay = match &o.payment {
        None => Json::Null,
        Some(p) => Json::Str(p.wire_name()),
    };
    ms.push(("payment".to_owned(), pay));
    ms.push(("packingSlipUrl".to_owned(), json_opt_str(&o.packing_slip_url)));
    ms.push(("mobileTelephone".to_owned(), json_opt_str(&o.mobile_telephone)));
    ms.push(("email".to_owned(), json_opt_str(&o.email)));
    ms.push(("invoiceAmountNet".to_owned(), json_opt_num(&o.invoice_amount_net)));
    ms.push(("invoiceTax".to_owned(), json_opt_num(&o.invoice_tax)));
    ms.push(("invoiceCurrency".to_owned(), json_opt_str(&o.invoice_currency)));
    let r = Json::Obj(ms);
    proof {
        lemma_jv_of_members_props(r->Obj_0@);
        assert(jv_of_members(r->Obj_0@) =~= order_create_jv(o@)->Obj_0);
    }
    r
}

/// The wire object of an image-add record.
pub open spec fn image_add_jv(a: crate::payloads::OrderImageAddView) -> Jv {
    Jv::Obj(
        seq![
            ("sku"@, Jv::Str(a.sku)),
            ("url"@, Jv::Str(a.url)),
            ("copies"@, Jv::Num(crate::json::dec_str(a.copies as nat))),
            ("sizing"@, Jv::Str(crate::payloads::resizing_wire(a.sizing))),
            ("priceToUser"@, jv_opt_num(a.price_to_user)),
            ("md5Hash"@, jv_opt_str(a.md5_hash)),
            (
                "attributes"@,
                match a.attributes {
                    Option::None => Jv::Null,
                    Option::Some(at) => attrs_jv(at),
                },
            ),
        ],
    )
}

/// Encode an image-add record.
pub fn encode_image_add(a: &crate::payloads::OrderImageAdd) -> (r: Json)
    ensures
        r@ == image_add_jv(a@),
{
    let mut ms: Vec<(String, Json)> = Vec::new();
    ms.push(("sku".to_owned(), Json::Str(a.sku.clone())));
    ms.push(("url".to_owned(), Json::Str(a.url.clone())));
    ms.push(("copies".to_owned(), Json::Num(crate::json::u64_string(a.copies))));
    ms.push(("sizing".to_owned(), Json::Str(a.sizing.wire_name())));
    ms.push(("priceToUser".to_owned(), json_opt_num(&a.price_to_user)));
    ms.push(("md5Hash".to_owned(), json_opt_str(&a.md5_hash)));
    let at = match &a.attributes {
        None => Json::Null,
        Some(x) => encode_attrs(x),
    };
    ms.push(("attributes".to_owned(), at));
    let r = Json::Obj(ms);
    proof {
        lemma_jv_of_members_props(r->Obj_0@);
        assert(jv_of_members(r->Obj_0@) =~= image_add_jv(a@)->Obj_0);
    }
    r
}

/// The wire array of a sequence of image-add records.
pub open spec fn image_adds_jv(s: Seq<crate::payloads::OrderImageAddView>) -> Jv {
    Jv::Arr(s.map_values(|a: crate::payloads::OrderImageAddView| image_add_jv(a)))
}

/// Encode a batch of image-add records.
pub fn encode_image_adds(v: &[crate::payloads::OrderImageAdd]) -> (r: Json)
    ensures
        r@ == image_adds_jv(crate::payloads::image_adds_view(v@)),
{
    let mut items: Vec<Json> = Vec::new();
    let mut i: usize = 0;
    while i < v.len()
        invariant
            i <= v@.len(),
            items@.len() == i,
            forall|k: int| 0 <= k < i ==> jv_of(items@[k]) == image_add_jv(v@[k]@),
        decreases v@.len() - i,
    {
        let a = &v[i];
        items.push(encode_image_add(a));
        i = i + 1;
    }
    let r = Json::Arr(items);
    proof {
        lemma_jv_of_seq_props(r->Arr_0@);
        assert(jv_of_seq(r->Arr_0@) =~= image_adds_jv(crate::payloads::image_adds_view(v@))
            ->Arr_0);
    }
    r
}

/// Law: the wire object of an image-add record carries its sku, url and
/// copy count under those member names.
pub proof fn lemma_image_add_wire_fields(a: crate::payloads::OrderImageAddView)
    ensures
        image_add_jv(a) is Obj,
        lookup(image_add_jv(a)->Obj_0, "sku"@) == Some(Jv::Str(a.sku)),
        lookup(image_add_jv(a)->Obj_0, "url"@) == Some(Jv::Str(a.url)),
        lookup(image_add_jv(a)->Obj_0, "copies"@) == Some(
            Jv::Num(crate::json::dec_str(a.copies as nat)),
        ),
{
    reveal_strlit("sku");
    reveal_strlit("url");
    reveal_strlit("copies");
    let ms = image_add_jv(a)->Obj_0;
    assert(ms[0].0 == "sku"@);
    assert(("url"@)[0] == 'u' && ("sku"@)[0] == 's' && ("copies"@)[0] == 'c');
    assert("url"@ != "sku"@);
    assert("copies"@ != "sku"@);
    assert("copies"@ != "url"@);
    assert(lookup(ms, "url"@) == lookup(ms.drop_first(), "url"@));
    assert(ms.drop_first()[0] == ms[1]);
    assert(lookup(ms, "copies"@) == lookup(ms.drop_first(), "copies"@));
    assert(lookup(ms.drop_first(), "copies"@) == lookup(ms.drop_first().drop_first(), "copies"@));
    assert(ms.drop_first().drop_first()[0] == ms[2]);
}

/// Law: take an image-add record, serialize it, and take any image object
/// whose sku, url and copies members are the serialized ones — the vendor's
/// echo of the record.  If that object decodes as an image at all, the
/// decoded image carries the record's sku, url and copy count unchanged.
pub proof fn lemma_image_add_round_trip(a: crate::payloads::OrderImageAddView, v: Jv)
    requires
        v is Obj,
        lookup(v->Obj_0, "sku"@) == lookup(image_add_jv(a)->Obj_0, "sku"@),
        lookup(v->Obj_0, "url"@) == lookup(image_add_jv(a)->Obj_0, "url"@),
        lookup(v->Obj_0, "copies"@) == lookup(image_add_jv(a)->Obj_0, "copies"@),
        image_of_jv(v) is Some,
    ensures
        image_of_jv(v)->Some_0.sku == a.sku,
        image_of_jv(v)->Some_0.url == a.url,
        image_of_jv(v)->Some_0.copies == a.copies,
{
    lemma_image_add_wire_fields(a);
    crate::json::lemma_dec_round_trip(a.copies as nat);
}

} // verus!
