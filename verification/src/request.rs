//! The API client: a fixed base URL plus the subscription key, and one
//! request builder per endpoint. Each builder pins the exact URL path, the
//! query parameters with their literal values, and the authentication
//! header.

use vstd::prelude::*;
use crate::date::Date;
use crate::date::date_render;
use crate::date::format_date;

verus! {

/// One outbound GET: full URL, query parameters in order, and the
/// subscription-key header.
#[derive(Debug, Clone, PartialEq, Eq)]
pub struct ApiRequest {
    pub url: String,
    pub query: Vec<(String, String)>,
    pub header_name: String,
    pub header_value: String,
}

/// The client: read-only after construction.
#[derive(Debug, Clone, PartialEq, Eq)]
pub struct Client {
    pub base_url: String,
    pub api_key: String,
}

impl Client {
    /// A client for the vendor API, holding the given subscription key.
    pub fn new(api_key: String) -> (r: Client)
        ensures
            r.base_url@ == "https://apis.vinmonopolet.no/products/v0"@,
            r.api_key == api_key,
    {
        Client {
            base_url: String::from_str("https://apis.vinmonopolet.no/products/v0"),
            api_key,
        }
    }

    fn request(&self, path: &str, query: Vec<(String, String)>) -> (r: ApiRequest)
        ensures
            r.url@ == self.base_url@ + path@,
            r.query == query,
            r.header_name@ == "Ocp-Apim-Subscription-Key"@,
            r.header_value@ == self.api_key@,
    {
        let mut url = self.base_url.clone();
        url.append(path);
        ApiRequest {
            url,
            query,
            header_name: String::from_str("Ocp-Apim-Subscription-Key"),
            header_value: self.api_key.clone(),
        }
    }

    /// The monthly-sales-per-store request: sends exactly `fromSalesMonth`
    /// and `toSalesMonth`, with the argument strings unmodified.
    pub fn monthly_sales_request(&self, from_sales_month: &str, to_sales_month: &str) -> (r:
        ApiRequest)
        ensures
            r.url@ == self.base_url@ + "/monthly-sales-per-store"@,
            r.query@.len() == 2,
            r.query@[0].0@ == "fromSalesMonth"@,
            r.query@[0].1@ == from_sales_month@,
            r.query@[1].0@ == "toSalesMonth"@,
            r.query@[1].1@ == to_sales_month@,
            r.header_name@ == "Ocp-Apim-Subscription-Key"@,
            r.header_value@ == self.api_key@,
    {
        let mut query: Vec<(String, String)> = Vec::new();
        query.push((String::from_str("fromSalesMonth"), String::from_str(from_sales_month)));
        query.push((String::from_str("toSalesMonth"), String::from_str(to_sales_month)));
        self.request("/monthly-sales-per-store", query)
    }

    /// The product-details request: sends exactly `productId`.
    pub fn product_details_request(&self, product_id: &str) -> (r: ApiRequest)
        ensures
            r.url@ == self.base_url@ + "/details-normal"@,
            r.query@.len() == 1,
            r.query@[0].0@ == "productId"@,
            r.query@[0].1@ == product_id@,
            r.header_name@ == "Ocp-Apim-Subscription-Key"@,
            r.header_value@ == self.api_key@,
    {
        let mut query: Vec<(String, String)> = Vec::new();
        query.push((String::from_str("productId"), String::from_str(product_id)));
        self.request("/details-normal", query)
    }

    /// The price-conditions request: sends exactly `productId`.
    pub fn price_conditions_request(&self, product_id: &str) -> (r: ApiRequest)
        ensures
            r.url@ == self.base_url@ + "/price-conditions"@,
            r.query@.len() == 1,
            r.query@[0].0@ == "productId"@,
            r.query@[0].1@ == product_id@,
            r.header_name@ == "Ocp-Apim-Subscription-Key"@,
            r.header_value@ == self.api_key@,
    {
        let mut query: Vec<(String, String)> = Vec::new();
        query.push((String::from_str("productId"), String::from_str(product_id)));
        self.request("/price-conditions", query)
    }

    /// The updated-products request: sends exactly `changedSince`, the date
    /// rendered as `YYYY-MM-DD`.
    pub fn updated_products_request(&self, changed_since: &Date) -> (r: ApiRequest)
        requires
            changed_since.valid(),
        ensures
            r.url@ == self.base_url@ + "/details-normal"@,
            r.query@.len() == 1,
            r.query@[0].0@ == "changedSince"@,
            r.query@[0].1@ == date_render(*changed_since),
            r.header_name@ == "Ocp-Apim-Subscription-Key"@,
            r.header_value@ == self.api_key@,
    {
        let mut query: Vec<(String, String)> = Vec::new();
        query.push((String::from_str("changedSince"), format_date(changed_since)));
        self.request("/details-normal", query)
    }
}

} // verus!
