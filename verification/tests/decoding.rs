use vinmonopolet_client::decode::decode_details_response;
use vinmonopolet_client::decode::decode_monthly_response;
use vinmonopolet_client::decode::decode_prices_response;
use vinmonopolet_client::error::ClientError;
use vinmonopolet_client::error::u16_text;
use vinmonopolet_client::model::BasicDetails;
use vinmonopolet_client::model::LastChanged;
use vinmonopolet_client::model::PriceElement;
use vinmonopolet_client::model::ProductDetails;

fn details_body() -> String {
    "{\"ABC123\": {\"basic\": {\"productId\": \"ABC123\", \"productShortName\": \"Test Wine\"}, \
     \"lastChanged\": {\"date\": \"2024-01-01\", \"time\": \"10:00\"}}}"
        .to_string()
}

#[test]
fn details_ok_decodes_the_record() {
    let rep = decode_details_response(200, &details_body()).unwrap();
    assert_eq!(rep.entries.len(), 1);
    let (key, details) = &rep.entries[0];
    assert_eq!(key, "ABC123");
    assert_eq!(
        *details,
        ProductDetails {
            basic: BasicDetails {
                product_id: "ABC123".to_string(),
                product_short_name: "Test Wine".to_string(),
            },
            last_changed: LastChanged {
                date: "2024-01-01".to_string(),
                time: "10:00".to_string(),
            },
        }
    );
    let printed = format!("{:?}", rep);
    assert!(printed.contains("ABC123"));
    assert!(printed.contains("Test Wine"));
}

#[test]
fn not_found_is_reported_whatever_the_body() {
    let r = decode_details_response(404, &details_body());
    assert_eq!(r, Err(ClientError::NotFound));
    assert_eq!(ClientError::NotFound.describe(), "Resource not found");
}

#[test]
fn unauthorized_and_server_error_map_one_to_one() {
    assert_eq!(decode_details_response(401, ""), Err(ClientError::Unauthorized));
    assert_eq!(ClientError::Unauthorized.describe(), "Unauthorized");
    assert_eq!(decode_details_response(500, ""), Err(ClientError::ServerError));
    assert_eq!(ClientError::ServerError.describe(), "Server error");
}

#[test]
fn unmapped_status_keeps_the_literal_code() {
    let r = decode_details_response(418, &details_body());
    assert_eq!(r, Err(ClientError::Unknown(418)));
    assert_eq!(
        ClientError::Unknown(418).describe(),
        "Unknown error: unexpected status code 418"
    );
    assert!(ClientError::Unknown(418).describe().contains("418"));
}

#[test]
fn invalid_json_is_a_malformed_payload() {
    assert_eq!(decode_details_response(200, "not json"), Err(ClientError::MalformedPayload));
    assert_eq!(
        ClientError::MalformedPayload.describe(),
        "Malformed response payload"
    );
}

#[test]
fn wrong_shape_is_a_malformed_payload() {
    assert_eq!(decode_details_response(200, "{\"A\": 5}"), Err(ClientError::MalformedPayload));
    assert_eq!(decode_details_response(200, "[]"), Err(ClientError::MalformedPayload));
    assert_eq!(
        decode_details_response(200, "{\"A\": {\"basic\": {}, \"lastChanged\": {}}}"),
        Err(ClientError::MalformedPayload)
    );
}

#[test]
fn transport_error_description_carries_the_cause() {
    let e = ClientError::RequestFailed("connection refused".to_string());
    assert_eq!(e.describe(), "HTTP request failed: connection refused");
}

#[test]
fn status_text_renders_decimal() {
    assert_eq!(u16_text(0), "0");
    assert_eq!(u16_text(7), "7");
    assert_eq!(u16_text(418), "418");
    assert_eq!(u16_text(65535), "65535");
}

fn monthly_body(quantity: &str) -> String {
    format!(
        "{{\"report-1\": [{{\"storeId\": \"S1\", \"sales\": [{{\"productId\": \"P1\", \
         \"salesVolume\": 12.5, \"salesQuantity\": {}, \"lastChanged\": \
         {{\"date\": \"2024-01-01\", \"time\": \"10:00\"}}}}]}}]}}",
        quantity
    )
}

#[test]
fn monthly_ok_decodes_stores_and_lines() {
    let rep = decode_monthly_response(200, &monthly_body("3")).unwrap();
    assert_eq!(rep.entries.len(), 1);
    let (key, stores) = &rep.entries[0];
    assert_eq!(key, "report-1");
    assert_eq!(stores.len(), 1);
    assert_eq!(stores[0].store_id, "S1");
    assert_eq!(stores[0].sales.len(), 1);
    let line = &stores[0].sales[0];
    assert_eq!(line.product_id, "P1");
    assert_eq!(line.sales_volume, "12.5");
    assert_eq!(line.sales_quantity, 3);
    assert_eq!(line.last_changed.date, "2024-01-01");
}

#[test]
fn monthly_fractional_quantity_is_malformed() {
    assert_eq!(
        decode_monthly_response(200, &monthly_body("3.5")),
        Err(ClientError::MalformedPayload)
    );
}

#[test]
fn monthly_negative_quantity_is_kept() {
    let rep = decode_monthly_response(200, &monthly_body("-12")).unwrap();
    assert_eq!(rep.entries[0].1[0].sales[0].sales_quantity, -12);
}

fn price_body() -> String {
    "{\"ABC123\": {\"priceElements\": [{\"salesPrice\": 129.9, \"markup\": 1.75, \
     \"dduPrice\": 85.5, \"salesPricePrLiter\": 173.2, \"valueAddedTax\": 25.98, \
     \"alcoholTax\": 40.25, \"ecoTax\": 0.5, \"packagingTax\": 1.0, \
     \"bottleReturnValue\": 2.5}]}}"
        .to_string()
}

fn reserialize(p: &PriceElement) -> String {
    format!(
        "{{\"salesPrice\": {}, \"markup\": {}, \"dduPrice\": {}, \"salesPricePrLiter\": {}, \
         \"valueAddedTax\": {}, \"alcoholTax\": {}, \"ecoTax\": {}, \"packagingTax\": {}, \
         \"bottleReturnValue\": {}}}",
        p.sales_price,
        p.markup,
        p.ddu_price,
        p.sales_price_pr_liter,
        p.value_added_tax,
        p.alcohol_tax,
        p.eco_tax,
        p.packaging_tax,
        p.bottle_return_value
    )
}

#[test]
fn prices_ok_decodes_the_nine_figures() {
    let rep = decode_prices_response(200, &price_body()).unwrap();
    assert_eq!(rep.entries.len(), 1);
    assert_eq!(rep.entries[0].0, "ABC123");
    let elems = &rep.entries[0].1.price_elements;
    assert_eq!(elems.len(), 1);
    let p = &elems[0];
    assert_eq!(p.sales_price, "129.9");
    assert_eq!(p.markup, "1.75");
    assert_eq!(p.ddu_price, "85.5");
    assert_eq!(p.sales_price_pr_liter, "173.2");
    assert_eq!(p.value_added_tax, "25.98");
    assert_eq!(p.alcohol_tax, "40.25");
    assert_eq!(p.eco_tax, "0.5");
    assert_eq!(p.packaging_tax, "1.0");
    assert_eq!(p.bottle_return_value, "2.5");
}

#[test]
fn price_element_round_trips_with_equal_numeric_values() {
    let rep = decode_prices_response(200, &price_body()).unwrap();
    let p = rep.entries[0].1.price_elements[0].clone();
    // Re-serialise from the decoded element and decode again: the same
    // element comes back.
    let body = format!("{{\"K\": {{\"priceElements\": [{}]}}}}", reserialize(&p));
    let rep2 = decode_prices_response(200, &body).unwrap();
    let q = &rep2.entries[0].1.price_elements[0];
    assert_eq!(*q, p);
    // And the rendered figures are numerically the originals.
    assert_eq!(p.sales_price.parse::<f64>().unwrap(), 129.9f64);
    assert_eq!(p.value_added_tax.parse::<f64>().unwrap(), 25.98f64);
    assert_eq!(p.packaging_tax.parse::<f64>().unwrap(), 1.0f64);
}

#[test]
fn prices_missing_field_is_malformed() {
    let body = "{\"K\": {\"priceElements\": [{\"salesPrice\": 1.0}]}}";
    assert_eq!(decode_prices_response(200, body), Err(ClientError::MalformedPayload));
}
