//! Verified decoding of JSON response bodies into the typed records, and the
//! shared status-code dispatch. Every decoder is a pure function of the JSON
//! tree; what each accepts and returns is pinned by the `dec_*` spec
//! functions over the JSON model.

use vstd::prelude::*;
use crate::error::ClientError;
use crate::json::JsonV;
use crate::json::lemma_lookup_found;
use crate::json::lemma_lookup_missing;
use crate::json::lookup;
use crate::json_raw::arr_elems;
use crate::json_raw::json_model;
use crate::json_raw::json_of;
use crate::json_raw::num_text;
use crate::json_raw::obj_entries;
use crate::json_raw::parse_json;
use crate::json_raw::str_value;
use crate::model::BasicDetails;
use crate::model::BasicDetailsV;
use crate::model::LastChanged;
use crate::model::LastChangedV;
use crate::model::MonthlySalesReport;
use crate::model::PriceConditions;
use crate::model::PriceConditionsReport;
use crate::model::PriceElement;
use crate::model::PriceElementV;
use crate::model::ProductDetails;
use crate::model::ProductDetailsReport;
use crate::model::ProductDetailsV;
use crate::model::ProductSales;
use crate::model::ProductSalesV;
use crate::model::StoreSales;
use crate::model::StoreSalesV;
use crate::numbers::int_text_parses_i32;
use crate::numbers::int_text_val;
use crate::numbers::parse_i32_text;
use crate::text::str_eq;

verus! {

/// The entries of an object value, as key/model pairs.
pub open spec fn entries_model(es: Seq<(String, serde_json::Value)>) -> Seq<
    (Seq<char>, JsonV),
> {
    es.map_values(|e: (String, serde_json::Value)| (e.0@, json_model(e.1)))
}

/// Finds the first entry with the given key.
fn find_key<'a>(es: &'a Vec<(String, serde_json::Value)>, key: &str) -> (r: Option<
    &'a serde_json::Value,
>)
    ensures
        r is Some <==> lookup(entries_model(es@), key@) is Some,
        r matches Some(v) ==> lookup(entries_model(es@), key@) == Some(json_model(*v)),
{
    let ghost ms = entries_model(es@);
    let mut i: usize = 0;
    while i < es.len()
        invariant
            i <= es@.len(),
            ms == entries_model(es@),
            ms.len() == es@.len(),
            forall|j: int| 0 <= j < i ==> (#[trigger] ms[j]).0 != key@,
        decreases es@.len() - i,
    {
        if str_eq(es[i].0.as_str(), key) {
            proof {
                lemma_lookup_found(ms, key@, i as int);
            }
            return Some(&es[i].1);
        }
        i = i + 1;
    }
    proof {
        lemma_lookup_missing(ms, key@);
    }
    None
}

/// Shape of a last-changed stamp: an object with string fields `date` and
/// `time`.
pub open spec fn dec_last_changed(j: JsonV) -> Option<LastChangedV> {
    match j {
        JsonV::Obj(es) => match (lookup(es, "date"@), lookup(es, "time"@)) {
            (Some(JsonV::StrV(d)), Some(JsonV::StrV(t))) => Some(
                LastChangedV { date: d, time: t },
            ),
            _ => None,
        },
        _ => None,
    }
}

/// Links the entry vector a decoder walks to the object model it came from.
proof fn lemma_entries_model(es: Seq<(String, serde_json::Value)>, m: Seq<(Seq<char>, JsonV)>)
    requires
        es.len() == m.len(),
        forall|i: int| 0 <= i < m.len() ==> (#[trigger] es[i]).0@ == m[i].0 && json_model(es[i].1)
            == m[i].1,
    ensures
        entries_model(es) == m,
{
    assert forall|i: int| 0 <= i < m.len() implies entries_model(es)[i] == m[i] by {
        assert(entries_model(es)[i] =~= m[i]);
    }
    assert(entries_model(es) =~= m);
}

/// Decodes a last-changed stamp.
pub fn decode_last_changed(v: &serde_json::Value) -> (r: Option<LastChanged>)
    ensures
        r is Some <==> dec_last_changed(json_model(*v)) is Some,
        r matches Some(x) ==> Some(x@) == dec_last_changed(json_model(*v)),
{
    let es = match obj_entries(v) {
        Some(es) => es,
        None => {
            return None;
        },
    };
    proof {
        lemma_entries_model(es@, json_model(*v)->Obj_0);
    }
    let date = match find_key(&es, "date") {
        Some(x) => x,
        None => {
            return None;
        },
    };
    let date = match str_value(date) {
        Some(s) => s,
        None => {
            return None;
        },
    };
    let time = match find_key(&es, "time") {
        Some(x) => x,
        None => {
            return None;
        },
    };
    let time = match str_value(time) {
        Some(s) => s,
        None => {
            return None;
        },
    };
    Some(LastChanged { date, time })
}

/// Shape of basic details: an object with string fields `productId` and
/// `productShortName`.
pub open spec fn dec_basic_details(j: JsonV) -> Option<BasicDetailsV> {
    match j {
        JsonV::Obj(es) => match (lookup(es, "productId"@), lookup(es, "productShortName"@)) {
            (Some(JsonV::StrV(id)), Some(JsonV::StrV(name))) => Some(
                BasicDetailsV { product_id: id, product_short_name: name },
            ),
            _ => None,
        },
        _ => None,
    }
}

/// Decodes a basic-details record.
pub fn decode_basic_details(v: &serde_json::Value) -> (r: Option<BasicDetails>)
    ensures
        r is Some <==> dec_basic_details(json_model(*v)) is Some,
        r matches Some(x) ==> Some(x@) == dec_basic_details(json_model(*v)),
{
    let es = match obj_entries(v) {
        Some(es) => es,
        None => {
            return None;
        },
    };
    proof {
        lemma_entries_model(es@, json_model(*v)->Obj_0);
    }
    let id = match find_key(&es, "productId") {
        Some(x) => x,
        None => {
            return None;
        },
    };
    let id = match str_value(id) {
        Some(s) => s,
        None => {
            return None;
        },
    };
    let name = match find_key(&es, "productShortName") {
        Some(x) => x,
        None => {
            return None;
        },
    };
    let name = match str_value(name) {
        Some(s) => s,
        None => {
            return None;
        },
    };
    Some(BasicDetails { product_id: id, product_short_name: name })
}

/// Shape of product details: an object with a `basic` record and a
/// `lastChanged` stamp.
pub open spec fn dec_product_details(j: JsonV) -> Option<ProductDetailsV> {
    match j {
        JsonV::Obj(es) => match (lookup(es, "basic"@), lookup(es, "lastChanged"@)) {
            (Some(b), Some(lc)) => match (dec_basic_details(b), dec_last_changed(lc)) {
                (Some(bv), Some(lcv)) => Some(ProductDetailsV { basic: bv, last_changed: lcv }),
                _ => None,
            },
            _ => None,
        },
        _ => None,
    }
}

/// Decodes a product-details record.
pub fn decode_product_details(v: &serde_json::Value) -> (r: Option<ProductDetails>)
    ensures
        r is Some <==> dec_product_details(json_model(*v)) is Some,
        r matches Some(x) ==> Some(x@) == dec_product_details(json_model(*v)),
{
    let es = match obj_entries(v) {
        Some(es) => es,
        None => {
            return None;
        },
    };
    proof {
        lemma_entries_model(es@, json_model(*v)->Obj_0);
    }
    let basic = match find_key(&es, "basic") {
        Some(x) => x,
        None => {
            return None;
        },
    };
    let basic = match decode_basic_details(basic) {
        Some(b) => b,
        None => {
            return None;
        },
    };
    let lc = match find_key(&es, "lastChanged") {
        Some(x) => x,
        None => {
            return None;
        },
    };
    let lc = match decode_last_changed(lc) {
        Some(x) => x,
        None => {
            return None;
        },
    };
    Some(ProductDetails { basic, last_changed: lc })
}

/// The number text under a key, where the entry exists and is a number.
pub open spec fn num_at(es: Seq<(Seq<char>, JsonV)>, k: Seq<char>) -> Option<Seq<char>> {
    match lookup(es, k) {
        Some(JsonV::Num(s)) => Some(s),
        _ => None,
    }
}

/// Finds a numeric entry and yields its canonical decimal text.
fn find_num(es: &Vec<(String, serde_json::Value)>, key: &str) -> (r: Option<String>)
    ensures
        r is Some <==> num_at(entries_model(es@), key@) is Some,
        r matches Some(s) ==> num_at(entries_model(es@), key@) == Some(s@),
{
    match find_key(es, key) {
        Some(v) => num_text(v),
        None => None,
    }
}

/// Shape of one product's sales line.
pub open spec fn dec_product_sales(j: JsonV) -> Option<ProductSalesV> {
    match j {
        JsonV::Obj(es) => match (
            lookup(es, "productId"@),
            num_at(es, "salesVolume"@),
            num_at(es, "salesQuantity"@),
            lookup(es, "lastChanged"@),
        ) {
            (Some(JsonV::StrV(pid)), Some(vol), Some(q), Some(lc)) => {
                if int_text_parses_i32(q) {
                    match dec_last_changed(lc) {
                        Some(lcv) => Some(
                            ProductSalesV {
                                product_id: pid,
                                sales_volume: vol,
                                sales_quantity: int_text_val(q) as i32,
                                last_changed: lcv,
                            },
                        ),
                        None => None,
                    }
                } else {
                    None
                }
            },
            _ => None,
        },
        _ => None,
    }
}

/// Decodes one product's sales line.
pub fn decode_product_sales(v: &serde_json::Value) -> (r: Option<ProductSales>)
    ensures
        r is Some <==> dec_product_sales(json_model(*v)) is Some,
        r matches Some(x) ==> Some(x@) == dec_product_sales(json_model(*v)),
{
    let es = match obj_entries(v) {
        Some(es) => es,
        None => {
            return None;
        },
    };
    proof {
        lemma_entries_model(es@, json_model(*v)->Obj_0);
    }
    let pid = match find_key(&es, "productId") {
        Some(x) => x,
        None => {
            return None;
        },
    };
    let pid = match str_value(pid) {
        Some(s) => s,
        None => {
            return None;
        },
    };
    let vol = match find_num(&es, "salesVolume") {
        Some(s) => s,
        None => {
            return None;
        },
    };
    let qtext = match find_num(&es, "salesQuantity") {
        Some(s) => s,
        None => {
            return None;
        },
    };
    let quantity = match parse_i32_text(qtext.as_str()) {
        Some(n) => n,
        None => {
            return None;
        },
    };
    let lc = match find_key(&es, "lastChanged") {
        Some(x) => x,
        None => {
            return None;
        },
    };
    let lc = match decode_last_changed(lc) {
        Some(x) => x,
        None => {
            return None;
        },
    };
    Some(
        ProductSales {
            product_id: pid,
            sales_volume: vol,
            sales_quantity: quantity,
            last_changed: lc,
        },
    )
}

/// Elementwise decoding of a JSON array of sales lines: succeeds only when
/// every element does, keeping the order.
pub open spec fn dec_product_sales_seq(xs: Seq<JsonV>) -> Option<Seq<ProductSalesV>> {
    if forall|i: int| 0 <= i < xs.len() ==> dec_product_sales(#[trigger] xs[i]) is Some {
        Some(Seq::new(xs.len(), |i: int| dec_product_sales(xs[i]).unwrap()))
    } else {
        None
    }
}

/// Links an element vector to the array model it came from.
proof fn lemma_elems_model(xs: Seq<serde_json::Value>, m: Seq<JsonV>)
    requires
        xs.len() == m.len(),
        forall|i: int| 0 <= i < m.len() ==> json_model(#[trigger] xs[i]) == m[i],
    ensures
        xs.map_values(|x: serde_json::Value| json_model(x)) == m,
{
    assert(xs.map_values(|x: serde_json::Value| json_model(x)) =~= m);
}

fn decode_product_sales_vec(xs: &Vec<serde_json::Value>) -> (r: Option<Vec<ProductSales>>)
    ensures
        r is Some <==> dec_product_sales_seq(
            xs@.map_values(|x: serde_json::Value| json_model(x)),
        ) is Some,
        r matches Some(v) ==> Some(v@.map_values(|p: ProductSales| p@)) == dec_product_sales_seq(
            xs@.map_values(|x: serde_json::Value| json_model(x)),
        ),
{
    let ghost ms = xs@.map_values(|x: serde_json::Value| json_model(x));
    let mut out: Vec<ProductSales> = Vec::new();
    let mut i: usize = 0;
    while i < xs.len()
        invariant
            i <= xs@.len(),
            ms == xs@.map_values(|x: serde_json::Value| json_model(x)),
            ms.len() == xs@.len(),
            out@.len() == i as int,
            forall|j: int| 0 <= j < i ==> dec_product_sales(#[trigger] ms[j]) is Some,
            forall|j: int| 0 <= j < i ==> Some((#[trigger] out@[j])@) == dec_product_sales(ms[j]),
        decreases xs@.len() - i,
    {
        match decode_product_sales(&xs[i]) {
            Some(p) => {
                out.push(p);
            },
            None => {
                proof {
                    assert(dec_product_sales(ms[i as int]) is None);
                }
                return None;
            },
        }
        i = i + 1;
    }
    proof {
        assert(dec_product_sales_seq(ms) is Some);
        assert(out@.map_values(|p: ProductSales| p@) =~= dec_product_sales_seq(ms).unwrap());
    }
    Some(out)
}

/// Shape of one store's sales: an object with a `storeId` string and a
/// `sales` array.
pub open spec fn dec_store_sales(j: JsonV) -> Option<StoreSalesV> {
    match j {
        JsonV::Obj(es) => match (lookup(es, "storeId"@), lookup(es, "sales"@)) {
            (Some(JsonV::StrV(sid)), Some(JsonV::Arr(xs))) => match dec_product_sales_seq(xs) {
                Some(ps) => Some(StoreSalesV { store_id: sid, sales: ps }),
                None => None,
            },
            _ => None,
        },
        _ => None,
    }
}

/// Decodes one store's sales.
pub fn decode_store_sales(v: &serde_json::Value) -> (r: Option<StoreSales>)
    ensures
        r is Some <==> dec_store_sales(json_model(*v)) is Some,
        r matches Some(x) ==> Some(x@) == dec_store_sales(json_model(*v)),
{
    let es = match obj_entries(v) {
        Some(es) => es,
        None => {
            return None;
        },
    };
    proof {
        lemma_entries_model(es@, json_model(*v)->Obj_0);
    }
    let sid = match find_key(&es, "storeId") {
        Some(x) => x,
        None => {
            return None;
        },
    };
    let sid = match str_value(sid) {
        Some(s) => s,
        None => {
            return None;
        },
    };
    let sales = match find_key(&es, "sales") {
        Some(x) => x,
        None => {
            return None;
        },
    };
    let elems = match arr_elems(sales) {
        Some(xs) => xs,
        None => {
            return None;
        },
    };
    proof {
        lemma_elems_model(elems@, json_model(*sales)->Arr_0);
    }
    let sales = match decode_product_sales_vec(&elems) {
        Some(ps) => ps,
        None => {
            return None;
        },
    };
    Some(StoreSales { store_id: sid, sales })
}

/// Elementwise decoding of a JSON array of store sales.
pub open spec fn dec_store_sales_seq(xs: Seq<JsonV>) -> Option<Seq<StoreSalesV>> {
    if forall|i: int| 0 <= i < xs.len() ==> dec_store_sales(#[trigger] xs[i]) is Some {
        Some(Seq::new(xs.len(), |i: int| dec_store_sales(xs[i]).unwrap()))
    } else {
        None
    }
}

/// A JSON array of store sales, as one monthly-report entry holds it.
pub open spec fn dec_store_list(j: JsonV) -> Option<Seq<StoreSalesV>> {
    match j {
        JsonV::Arr(xs) => dec_store_sales_seq(xs),
        _ => None,
    }
}

fn decode_store_list(v: &serde_json::Value) -> (r: Option<Vec<StoreSales>>)
    ensures
        r is Some <==> dec_store_list(json_model(*v)) is Some,
        r matches Some(x) ==> Some(x@.map_values(|s: StoreSales| s@)) == dec_store_list(
            json_model(*v),
        ),
{
    let elems = match arr_elems(v) {
        Some(xs) => xs,
        None => {
            return None;
        },
    };
    proof {
        lemma_elems_model(elems@, json_model(*v)->Arr_0);
    }
    let ghost ms = elems@.map_values(|x: serde_json::Value| json_model(x));
    let mut out: Vec<StoreSales> = Vec::new();
    let mut i: usize = 0;
    while i < elems.len()
        invariant
            i <= elems@.len(),
            ms == elems@.map_values(|x: serde_json::Value| json_model(x)),
            ms.len() == elems@.len(),
            dec_store_list(json_model(*v)) == dec_store_sales_seq(ms),
            out@.len() == i as int,
            forall|j: int| 0 <= j < i ==> dec_store_sales(#[trigger] ms[j]) is Some,
            forall|j: int| 0 <= j < i ==> Some((#[trigger] out@[j])@) == dec_store_sales(ms[j]),
        decreases elems@.len() - i,
    {
        match decode_store_sales(&elems[i]) {
            Some(s) => {
                out.push(s);
            },
            None => {
                proof {
                    assert(dec_store_sales(ms[i as int]) is None);
                }
                return None;
            },
        }
        i = i + 1;
    }
    proof {
        assert(dec_store_sales_seq(ms) is Some);
        assert(out@.map_values(|s: StoreSales| s@) =~= dec_store_sales_seq(ms).unwrap());
    }
    Some(out)
}

/// Shape of a price element: an object with the nine numeric figures.
pub open spec fn dec_price_element(j: JsonV) -> Option<PriceElementV> {
    match j {
        JsonV::Obj(es) => {
            if num_at(es, "salesPrice"@) is Some && num_at(es, "markup"@) is Some && num_at(
                es,
                "dduPrice"@,
            ) is Some && num_at(es, "salesPricePrLiter"@) is Some && num_at(
                es,
                "valueAddedTax"@,
            ) is Some && num_at(es, "alcoholTax"@) is Some && num_at(es, "ecoTax"@) is Some
                && num_at(es, "packagingTax"@) is Some && num_at(es, "bottleReturnValue"@)
                is Some {
                Some(
                    PriceElementV {
                        sales_price: num_at(es, "salesPrice"@).unwrap(),
                        markup: num_at(es, "markup"@).unwrap(),
                        ddu_price: num_at(es, "dduPrice"@).unwrap(),
                        sales_price_pr_liter: num_at(es, "salesPricePrLiter"@).unwrap(),
                        value_added_tax: num_at(es, "valueAddedTax"@).unwrap(),
                        alcohol_tax: num_at(es, "alcoholTax"@).unwrap(),
                        eco_tax: num_at(es, "ecoTax"@).unwrap(),
                        packaging_tax: num_at(es, "packagingTax"@).unwrap(),
                        bottle_return_value: num_at(es, "bottleReturnValue"@).unwrap(),
                    },
                )
            } else {
                None
            }
        },
        _ => None,
    }
}

/// Decodes a price element.
pub fn decode_price_element(v: &serde_json::Value) -> (r: Option<PriceElement>)
    ensures
        r is Some <==> dec_price_element(json_model(*v)) is Some,
        r matches Some(x) ==> Some(x@) == dec_price_element(json_model(*v)),
{
    let es = match obj_entries(v) {
        Some(es) => es,
        None => {
            return None;
        },
    };
    proof {
        lemma_entries_model(es@, json_model(*v)->Obj_0);
    }
    let sales_price = match find_num(&es, "salesPrice") {
        Some(s) => s,
        None => {
            return None;
        },
    };
    let markup = match find_num(&es, "markup") {
        Some(s) => s,
        None => {
            return None;
        },
    };
    let ddu_price = match find_num(&es, "dduPrice") {
        Some(s) => s,
        None => {
            return None;
        },
    };
    let sales_price_pr_liter = match find_num(&es, "salesPricePrLiter") {
        Some(s) => s,
        None => {
            return None;
        },
    };
    let value_added_tax = match find_num(&es, "valueAddedTax") {
        Some(s) => s,
        None => {
            return None;
        },
    };
    let alcohol_tax = match find_num(&es, "alcoholTax") {
        Some(s) => s,
        None => {
            return None;
        },
    };
    let eco_tax = match find_num(&es, "ecoTax") {
        Some(s) => s,
        None => {
            return None;
        },
    };
    let packaging_tax = match find_num(&es, "packagingTax") {
        Some(s) => s,
        None => {
            return None;
        },
    };
    let bottle_return_value = match find_num(&es, "bottleReturnValue") {
        Some(s) => s,
        None => {
            return None;
        },
    };
    Some(
        PriceElement {
            sales_price,
            markup,
            ddu_price,
            sales_price_pr_liter,
            value_added_tax,
            alcohol_tax,
            eco_tax,
            packaging_tax,
            bottle_return_value,
        },
    )
}

/// The JSON object a price element re-serialises to: the nine figures under
/// their keys, each number rendered exactly as held.
pub open spec fn enc_price_element(p: PriceElementV) -> JsonV {
    JsonV::Obj(
        seq![
            ("salesPrice"@, JsonV::Num(p.sales_price)),
            ("markup"@, JsonV::Num(p.markup)),
            ("dduPrice"@, JsonV::Num(p.ddu_price)),
            ("salesPricePrLiter"@, JsonV::Num(p.sales_price_pr_liter)),
            ("valueAddedTax"@, JsonV::Num(p.value_added_tax)),
            ("alcoholTax"@, JsonV::Num(p.alcohol_tax)),
            ("ecoTax"@, JsonV::Num(p.eco_tax)),
            ("packagingTax"@, JsonV::Num(p.packaging_tax)),
            ("bottleReturnValue"@, JsonV::Num(p.bottle_return_value)),
        ],
    )
}

/// Round trip: decoding the object a price element encodes to yields the
/// element back, every numeric rendering unchanged.
pub proof fn lemma_price_element_round_trip(p: PriceElementV)
    ensures
        dec_price_element(enc_price_element(p)) == Some(p),
{
    reveal_strlit("salesPrice");
    reveal_strlit("markup");
    reveal_strlit("dduPrice");
    reveal_strlit("salesPricePrLiter");
    reveal_strlit("valueAddedTax");
    reveal_strlit("alcoholTax");
    reveal_strlit("ecoTax");
    reveal_strlit("packagingTax");
    reveal_strlit("bottleReturnValue");
    assert("salesPrice"@.len() == 10);
    assert("markup"@.len() == 6);
    assert("dduPrice"@.len() == 8);
    assert("salesPricePrLiter"@.len() == 17);
    assert("valueAddedTax"@.len() == 13);
    assert("alcoholTax"@.len() == 10);
    assert("ecoTax"@.len() == 6);
    assert("packagingTax"@.len() == 12);
    assert("bottleReturnValue"@.len() == 17);
    assert("salesPrice"@[0] == 's' && "alcoholTax"@[0] == 'a');
    assert("markup"@[0] == 'm' && "ecoTax"@[0] == 'e');
    assert("salesPricePrLiter"@[0] == 's' && "bottleReturnValue"@[0] == 'b');
    let es = enc_price_element(p)->Obj_0;
    lemma_lookup_found(es, "salesPrice"@, 0);
    lemma_lookup_found(es, "markup"@, 1);
    lemma_lookup_found(es, "dduPrice"@, 2);
    lemma_lookup_found(es, "salesPricePrLiter"@, 3);
    lemma_lookup_found(es, "valueAddedTax"@, 4);
    lemma_lookup_found(es, "alcoholTax"@, 5);
    lemma_lookup_found(es, "ecoTax"@, 6);
    lemma_lookup_found(es, "packagingTax"@, 7);
    lemma_lookup_found(es, "bottleReturnValue"@, 8);
    assert(dec_price_element(enc_price_element(p)).unwrap() =~= p);
}

/// Elementwise decoding of a JSON array of price elements.
pub open spec fn dec_price_element_seq(xs: Seq<JsonV>) -> Option<Seq<PriceElementV>> {
    if forall|i: int| 0 <= i < xs.len() ==> dec_price_element(#[trigger] xs[i]) is Some {
        Some(Seq::new(xs.len(), |i: int| dec_price_element(xs[i]).unwrap()))
    } else {
        None
    }
}

/// Shape of a price-conditions record: an object whose `priceElements`
/// entry is an array of price elements.
pub open spec fn dec_price_conditions(j: JsonV) -> Option<Seq<PriceElementV>> {
    match j {
        JsonV::Obj(es) => match lookup(es, "priceElements"@) {
            Some(JsonV::Arr(xs)) => dec_price_element_seq(xs),
            _ => None,
        },
        _ => None,
    }
}

/// Decodes a price-conditions record.
pub fn decode_price_conditions(v: &serde_json::Value) -> (r: Option<PriceConditions>)
    ensures
        r is Some <==> dec_price_conditions(json_model(*v)) is Some,
        r matches Some(x) ==> Some(x@) == dec_price_conditions(json_model(*v)),
{
    let es = match obj_entries(v) {
        Some(es) => es,
        None => {
            return None;
        },
    };
    proof {
        lemma_entries_model(es@, json_model(*v)->Obj_0);
    }
    let arr = match find_key(&es, "priceElements") {
        Some(x) => x,
        None => {
            return None;
        },
    };
    let elems = match arr_elems(arr) {
        Some(xs) => xs,
        None => {
            return None;
        },
    };
    proof {
        lemma_elems_model(elems@, json_model(*arr)->Arr_0);
    }
    let ghost ms = elems@.map_values(|x: serde_json::Value| json_model(x));
    let mut out: Vec<PriceElement> = Vec::new();
    let mut i: usize = 0;
    while i < elems.len()
        invariant
            i <= elems@.len(),
            ms == elems@.map_values(|x: serde_json::Value| json_model(x)),
            ms.len() == elems@.len(),
            dec_price_conditions(json_model(*v)) == dec_price_element_seq(ms),
            out@.len() == i as int,
            forall|j: int| 0 <= j < i ==> dec_price_element(#[trigger] ms[j]) is Some,
            forall|j: int| 0 <= j < i ==> Some((#[trigger] out@[j])@) == dec_price_element(ms[j]),
        decreases elems@.len() - i,
    {
        match decode_price_element(&elems[i]) {
            Some(p) => {
                out.push(p);
            },
            None => {
                proof {
                    assert(dec_price_element(ms[i as int]) is None);
                }
                return None;
            },
        }
        i = i + 1;
    }
    proof {
        assert(dec_price_element_seq(ms) is Some);
        assert(out@.map_values(|p: PriceElement| p@) =~= dec_price_element_seq(ms).unwrap());
    }
    Some(PriceConditions { price_elements: out })
}

/// Shape of the product-details report: an object whose every entry holds a
/// product-details record, keys kept verbatim and in order.
pub open spec fn dec_details_report(j: JsonV) -> Option<Seq<(Seq<char>, ProductDetailsV)>> {
    match j {
        JsonV::Obj(es) => {
            if forall|i: int| 0 <= i < es.len() ==> dec_product_details((#[trigger] es[i]).1)
                is Some {
                Some(Seq::new(es.len(), |i: int| (es[i].0, dec_product_details(es[i].1).unwrap())))
            } else {
                None
            }
        },
        _ => None,
    }
}

/// Decodes the product-details report.
pub fn decode_details_report(v: &serde_json::Value) -> (r: Option<ProductDetailsReport>)
    ensures
        r is Some <==> dec_details_report(json_model(*v)) is Some,
        r matches Some(x) ==> Some(x@) == dec_details_report(json_model(*v)),
{
    let es = match obj_entries(v) {
        Some(es) => es,
        None => {
            return None;
        },
    };
    proof {
        lemma_entries_model(es@, json_model(*v)->Obj_0);
    }
    let ghost m = entries_model(es@);
    let mut out: Vec<(String, ProductDetails)> = Vec::new();
    let mut i: usize = 0;
    while i < es.len()
        invariant
            i <= es@.len(),
            m == entries_model(es@),
            m.len() == es@.len(),
            json_model(*v) == JsonV::Obj(m),
            out@.len() == i as int,
            forall|j: int| 0 <= j < i ==> dec_product_details((#[trigger] m[j]).1) is Some,
            forall|j: int|
                0 <= j < i ==> (#[trigger] out@[j]).0@ == m[j].0 && Some(out@[j].1@)
                    == dec_product_details(m[j].1),
        decreases es@.len() - i,
    {
        let d = match decode_product_details(&es[i].1) {
            Some(d) => d,
            None => {
                proof {
                    assert(dec_product_details(m[i as int].1) is None);
                }
                return None;
            },
        };
        let key = es[i].0.clone();
        out.push((key, d));
        i = i + 1;
    }
    let rep = ProductDetailsReport { entries: out };
    proof {
        assert(dec_details_report(json_model(*v)) is Some);
        assert forall|j: int| 0 <= j < m.len() implies rep@[j] == dec_details_report(
            json_model(*v),
        ).unwrap()[j] by {
            assert(rep@[j] =~= dec_details_report(json_model(*v)).unwrap()[j]);
        }
        assert(rep@ =~= dec_details_report(json_model(*v)).unwrap());
    }
    Some(rep)
}

/// Shape of the price-conditions report.
pub open spec fn dec_price_report(j: JsonV) -> Option<Seq<(Seq<char>, Seq<PriceElementV>)>> {
    match j {
        JsonV::Obj(es) => {
            if forall|i: int| 0 <= i < es.len() ==> dec_price_conditions((#[trigger] es[i]).1)
                is Some {
                Some(
                    Seq::new(es.len(), |i: int| (es[i].0, dec_price_conditions(es[i].1).unwrap())),
                )
            } else {
                None
            }
        },
        _ => None,
    }
}

/// Decodes the price-conditions report.
pub fn decode_price_report(v: &serde_json::Value) -> (r: Option<PriceConditionsReport>)
    ensures
        r is Some <==> dec_price_report(json_model(*v)) is Some,
        r matches Some(x) ==> Some(x@) == dec_price_report(json_model(*v)),
{
    let es = match obj_entries(v) {
        Some(es) => es,
        None => {
            return None;
        },
    };
    proof {
        lemma_entries_model(es@, json_model(*v)->Obj_0);
    }
    let ghost m = entries_model(es@);
    let mut out: Vec<(String, PriceConditions)> = Vec::new();
    let mut i: usize = 0;
    while i < es.len()
        invariant
            i <= es@.len(),
            m == entries_model(es@),
            m.len() == es@.len(),
            json_model(*v) == JsonV::Obj(m),
            out@.len() == i as int,
            forall|j: int| 0 <= j < i ==> dec_price_conditions((#[trigger] m[j]).1) is Some,
            forall|j: int|
                0 <= j < i ==> (#[trigger] out@[j]).0@ == m[j].0 && Some(out@[j].1@)
                    == dec_price_conditions(m[j].1),
        decreases es@.len() - i,
    {
        let c = match decode_price_conditions(&es[i].1) {
            Some(c) => c,
            None => {
                proof {
                    assert(dec_price_conditions(m[i as int].1) is None);
                }
                return None;
            },
        };
        let key = es[i].0.clone();
        out.push((key, c));
        i = i + 1;
    }
    let rep = PriceConditionsReport { entries: out };
    proof {
        assert(dec_price_report(json_model(*v)) is Some);
        assert forall|j: int| 0 <= j < m.len() implies rep@[j] == dec_price_report(
            json_model(*v),
        ).unwrap()[j] by {
            assert(rep@[j] =~= dec_price_report(json_model(*v)).unwrap()[j]);
        }
        assert(rep@ =~= dec_price_report(json_model(*v)).unwrap());
    }
    Some(rep)
}

/// Shape of the monthly-sales report: an object whose every entry holds an
/// array of store sales.
pub open spec fn dec_monthly_report(j: JsonV) -> Option<Seq<(Seq<char>, Seq<StoreSalesV>)>> {
    match j {
        JsonV::Obj(es) => {
            if forall|i: int| 0 <= i < es.len() ==> dec_store_list((#[trigger] es[i]).1) is Some {
                Some(Seq::new(es.len(), |i: int| (es[i].0, dec_store_list(es[i].1).unwrap())))
            } else {
                None
            }
        },
        _ => None,
    }
}

/// Decodes the monthly-sales report.
pub fn decode_monthly_report(v: &serde_json::Value) -> (r: Option<MonthlySalesReport>)
    ensures
        r is Some <==> dec_monthly_report(json_model(*v)) is Some,
        r matches Some(x) ==> Some(x@) == dec_monthly_report(json_model(*v)),
{
    let es = match obj_entries(v) {
        Some(es) => es,
        None => {
            return None;
        },
    };
    proof {
        lemma_entries_model(es@, json_model(*v)->Obj_0);
    }
    let ghost m = entries_model(es@);
    let mut out: Vec<(String, Vec<StoreSales>)> = Vec::new();
    let mut i: usize = 0;
    while i < es.len()
        invariant
            i <= es@.len(),
            m == entries_model(es@),
            m.len() == es@.len(),
            json_model(*v) == JsonV::Obj(m),
            out@.len() == i as int,
            forall|j: int| 0 <= j < i ==> dec_store_list((#[trigger] m[j]).1) is Some,
            forall|j: int|
                0 <= j < i ==> (#[trigger] out@[j]).0@ == m[j].0 && Some(
                    out@[j].1@.map_values(|s: StoreSales| s@),
                ) == dec_store_list(m[j].1),
        decreases es@.len() - i,
    {
        let sl = match decode_store_list(&es[i].1) {
            Some(sl) => sl,
            None => {
                proof {
                    assert(dec_store_list(m[i as int].1) is None);
                }
                return None;
            },
        };
        let key = es[i].0.clone();
        out.push((key, sl));
        i = i + 1;
    }
    let rep = MonthlySalesReport { entries: out };
    proof {
        assert(dec_monthly_report(json_model(*v)) is Some);
        assert forall|j: int| 0 <= j < m.len() implies rep@[j] == dec_monthly_report(
            json_model(*v),
        ).unwrap()[j] by {
            assert(rep@[j] =~= dec_monthly_report(json_model(*v)).unwrap()[j]);
        }
        assert(rep@ =~= dec_monthly_report(json_model(*v)).unwrap());
    }
    Some(rep)
}

/// The error owed for a non-success status code.
pub open spec fn spec_status_error(status: u16) -> ClientError {
    if status == 404 {
        ClientError::NotFound
    } else if status == 401 {
        ClientError::Unauthorized
    } else if status == 500 {
        ClientError::ServerError
    } else {
        ClientError::Unknown(status)
    }
}

fn status_error(status: u16) -> (r: ClientError)
    requires
        status != 200,
    ensures
        r == spec_status_error(status),
{
    if status == 404 {
        ClientError::NotFound
    } else if status == 401 {
        ClientError::Unauthorized
    } else if status == 500 {
        ClientError::ServerError
    } else {
        ClientError::Unknown(status)
    }
}

/// What a monthly-sales body decodes to, if anything.
pub open spec fn decoded_monthly(body: Seq<char>) -> Option<Seq<(Seq<char>, Seq<StoreSalesV>)>> {
    match json_of(body) {
        Some(j) => dec_monthly_report(j),
        None => None,
    }
}

/// What a product-details body decodes to, if anything.
pub open spec fn decoded_details(body: Seq<char>) -> Option<Seq<(Seq<char>, ProductDetailsV)>> {
    match json_of(body) {
        Some(j) => dec_details_report(j),
        None => None,
    }
}

/// What a price-conditions body decodes to, if anything.
pub open spec fn decoded_prices(body: Seq<char>) -> Option<Seq<(Seq<char>, Seq<PriceElementV>)>> {
    match json_of(body) {
        Some(j) => dec_price_report(j),
        None => None,
    }
}

/// The shared response contract: a pure function of status code and body.
/// Status 200 decodes the body or reports a malformed payload; 404, 401 and
/// 500 map to their errors; any other status is unknown, its code kept.
pub fn decode_monthly_response(status: u16, body: &str) -> (r: Result<
    MonthlySalesReport,
    ClientError,
>)
    ensures
        status == 200 && decoded_monthly(body@) is Some ==> (r matches Ok(rep) && Some(rep@)
            == decoded_monthly(body@)),
        status == 200 && decoded_monthly(body@) is None ==> r == Err::<
            MonthlySalesReport,
            ClientError,
        >(ClientError::MalformedPayload),
        status != 200 ==> r == Err::<MonthlySalesReport, ClientError>(spec_status_error(status)),
{
    if status != 200 {
        return Err(status_error(status));
    }
    let v = match parse_json(body) {
        Some(v) => v,
        None => {
            return Err(ClientError::MalformedPayload);
        },
    };
    match decode_monthly_report(&v) {
        Some(rep) => Ok(rep),
        None => Err(ClientError::MalformedPayload),
    }
}

/// The shared response contract, decoding a product-details report.
pub fn decode_details_response(status: u16, body: &str) -> (r: Result<
    ProductDetailsReport,
    ClientError,
>)
    ensures
        status == 200 && decoded_details(body@) is Some ==> (r matches Ok(rep) && Some(rep@)
            == decoded_details(body@)),
        status == 200 && decoded_details(body@) is None ==> r == Err::<
            ProductDetailsReport,
            ClientError,
        >(ClientError::MalformedPayload),
        status != 200 ==> r == Err::<ProductDetailsReport, ClientError>(spec_status_error(status)),
{
    if status != 200 {
        return Err(status_error(status));
    }
    let v = match parse_json(body) {
        Some(v) => v,
        None => {
            return Err(ClientError::MalformedPayload);
        },
    };
    match decode_details_report(&v) {
        Some(rep) => Ok(rep),
        None => Err(ClientError::MalformedPayload),
    }
}

/// The shared response contract, decoding a price-conditions report.
pub fn decode_prices_response(status: u16, body: &str) -> (r: Result<
    PriceConditionsReport,
    ClientError,
>)
    ensures
        status == 200 && decoded_prices(body@) is Some ==> (r matches Ok(rep) && Some(rep@)
            == decoded_prices(body@)),
        status == 200 && decoded_prices(body@) is None ==> r == Err::<
            PriceConditionsReport,
            ClientError,
        >(ClientError::MalformedPayload),
        status != 200 ==> r == Err::<PriceConditionsReport, ClientError>(spec_status_error(status)),
{
    if status != 200 {
        return Err(status_error(status));
    }
    let v = match parse_json(body) {
        Some(v) => v,
        None => {
            return Err(ClientError::MalformedPayload);
        },
    };
    match decode_price_report(&v) {
        Some(rep) => Ok(rep),
        None => Err(ClientError::MalformedPayload),
    }
}

} // verus!
