use vinmonopolet_client::date::Date;
use vinmonopolet_client::request::Client;

const BASE: &str = "https://apis.vinmonopolet.no/products/v0";

#[test]
fn client_holds_the_base_url_and_key() {
    let c = Client::new("SECRET-REDACTED".to_string());
    assert_eq!(c.base_url, BASE);
    assert_eq!(c.api_key, "SECRET-REDACTED");
}

#[test]
fn monthly_sales_sends_exactly_the_two_month_parameters() {
    let c = Client::new("k".to_string());
    let r = c.monthly_sales_request("2024-01", "2024-02");
    assert_eq!(r.url, format!("{}/monthly-sales-per-store", BASE));
    assert_eq!(
        r.query,
        vec![
            ("fromSalesMonth".to_string(), "2024-01".to_string()),
            ("toSalesMonth".to_string(), "2024-02".to_string()),
        ]
    );
    assert_eq!(r.header_name, "Ocp-Apim-Subscription-Key");
    assert_eq!(r.header_value, "k");
}

#[test]
fn monthly_sales_forwards_argument_strings_verbatim() {
    let c = Client::new("k".to_string());
    let r = c.monthly_sales_request("not a month ?&=", "");
    assert_eq!(r.query[0].1, "not a month ?&=");
    assert_eq!(r.query[1].1, "");
}

#[test]
fn product_details_sends_the_product_id() {
    let c = Client::new("k".to_string());
    let r = c.product_details_request("ABC123");
    assert_eq!(r.url, format!("{}/details-normal", BASE));
    assert_eq!(r.query, vec![("productId".to_string(), "ABC123".to_string())]);
    assert_eq!(r.header_name, "Ocp-Apim-Subscription-Key");
}

#[test]
fn price_conditions_sends_the_product_id() {
    let c = Client::new("k".to_string());
    let r = c.price_conditions_request("ABC123");
    assert_eq!(r.url, format!("{}/price-conditions", BASE));
    assert_eq!(r.query, vec![("productId".to_string(), "ABC123".to_string())]);
}

#[test]
fn updated_products_sends_the_rendered_date() {
    let c = Client::new("k".to_string());
    let r = c.updated_products_request(&Date { year: 2024, month: 1, day: 2 });
    assert_eq!(r.url, format!("{}/details-normal", BASE));
    assert_eq!(r.query, vec![("changedSince".to_string(), "2024-01-02".to_string())]);
}
