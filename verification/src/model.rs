//! The typed records the API returns, together with their mathematical
//! views. Monetary and volume figures are kept as the canonical decimal
//! rendering of the number the API sent, so nothing of the upstream
//! representation is lost; quantities are plain integers.

use vstd::prelude::*;

verus! {

pub struct LastChangedV {
    pub date: Seq<char>,
    pub time: Seq<char>,
}

/// A calendar-date text and a time-of-day text, kept as opaque fields.
#[derive(Debug, Clone, PartialEq, Eq)]
pub struct LastChanged {
    pub date: String,
    pub time: String,
}

impl View for LastChanged {
    type V = LastChangedV;

    open spec fn view(&self) -> LastChangedV {
        LastChangedV { date: self.date@, time: self.time@ }
    }
}

pub struct ProductSalesV {
    pub product_id: Seq<char>,
    pub sales_volume: Seq<char>,
    pub sales_quantity: i32,
    pub last_changed: LastChangedV,
}

/// One product's sales line within a store's report.
#[derive(Debug, Clone, PartialEq, Eq)]
pub struct ProductSales {
    pub product_id: String,
    /// Decimal rendering of the volume figure, exactly as the API sent it.
    pub sales_volume: String,
    pub sales_quantity: i32,
    pub last_changed: LastChanged,
}

impl View for ProductSales {
    type V = ProductSalesV;

    open spec fn view(&self) -> ProductSalesV {
        ProductSalesV {
            product_id: self.product_id@,
            sales_volume: self.sales_volume@,
            sales_quantity: self.sales_quantity,
            last_changed: self.last_changed@,
        }
    }
}

pub struct StoreSalesV {
    pub store_id: Seq<char>,
    pub sales: Seq<ProductSalesV>,
}

/// A store identifier and its ordered sales lines.
#[derive(Debug, Clone, PartialEq, Eq)]
pub struct StoreSales {
    pub store_id: String,
    pub sales: Vec<ProductSales>,
}

impl View for StoreSales {
    type V = StoreSalesV;

    open spec fn view(&self) -> StoreSalesV {
        StoreSalesV {
            store_id: self.store_id@,
            sales: self.sales@.map_values(|p: ProductSales| p@),
        }
    }
}

/// A report keyed by opaque upstream strings, each key holding the ordered
/// store sales received under it. Entry order is the order received.
#[derive(Debug, Clone, PartialEq, Eq)]
pub struct MonthlySalesReport {
    pub entries: Vec<(String, Vec<StoreSales>)>,
}

impl View for MonthlySalesReport {
    type V = Seq<(Seq<char>, Seq<StoreSalesV>)>;

    open spec fn view(&self) -> Seq<(Seq<char>, Seq<StoreSalesV>)> {
        self.entries@.map_values(
            |e: (String, Vec<StoreSales>)| (e.0@, e.1@.map_values(|s: StoreSales| s@)),
        )
    }
}

pub struct BasicDetailsV {
    pub product_id: Seq<char>,
    pub product_short_name: Seq<char>,
}

/// Product identifier and short name.
#[derive(Debug, Clone, PartialEq, Eq)]
pub struct BasicDetails {
    pub product_id: String,
    pub product_short_name: String,
}

impl View for BasicDetails {
    type V = BasicDetailsV;

    open spec fn view(&self) -> BasicDetailsV {
        BasicDetailsV {
            product_id: self.product_id@,
            product_short_name: self.product_short_name@,
        }
    }
}

pub struct ProductDetailsV {
    pub basic: BasicDetailsV,
    pub last_changed: LastChangedV,
}

/// Basic details together with the record's last-changed stamp.
#[derive(Debug, Clone, PartialEq, Eq)]
pub struct ProductDetails {
    pub basic: BasicDetails,
    pub last_changed: LastChanged,
}

impl View for ProductDetails {
    type V = ProductDetailsV;

    open spec fn view(&self) -> ProductDetailsV {
        ProductDetailsV { basic: self.basic@, last_changed: self.last_changed@ }
    }
}

/// A report keyed by opaque upstream strings, each holding one product's
/// details. Entry order is the order received.
#[derive(Debug, Clone, PartialEq, Eq)]
pub struct ProductDetailsReport {
    pub entries: Vec<(String, ProductDetails)>,
}

impl View for ProductDetailsReport {
    type V = Seq<(Seq<char>, ProductDetailsV)>;

    open spec fn view(&self) -> Seq<(Seq<char>, ProductDetailsV)> {
        self.entries@.map_values(|e: (String, ProductDetails)| (e.0@, e.1@))
    }
}

#[verifier::ext_equal]
pub struct PriceElementV {
    pub sales_price: Seq<char>,
    pub markup: Seq<char>,
    pub ddu_price: Seq<char>,
    pub sales_price_pr_liter: Seq<char>,
    pub value_added_tax: Seq<char>,
    pub alcohol_tax: Seq<char>,
    pub eco_tax: Seq<char>,
    pub packaging_tax: Seq<char>,
    pub bottle_return_value: Seq<char>,
}

/// Nine independent monetary and tax figures, each kept as the decimal
/// rendering the API sent, so re-serialisation reproduces the same number.
#[derive(Debug, Clone, PartialEq, Eq)]
pub struct PriceElement {
    pub sales_price: String,
    pub markup: String,
    pub ddu_price: String,
    pub sales_price_pr_liter: String,
    pub value_added_tax: String,
    pub alcohol_tax: String,
    pub eco_tax: String,
    pub packaging_tax: String,
    pub bottle_return_value: String,
}

impl View for PriceElement {
    type V = PriceElementV;

    open spec fn view(&self) -> PriceElementV {
        PriceElementV {
            sales_price: self.sales_price@,
            markup: self.markup@,
            ddu_price: self.ddu_price@,
            sales_price_pr_liter: self.sales_price_pr_liter@,
            value_added_tax: self.value_added_tax@,
            alcohol_tax: self.alcohol_tax@,
            eco_tax: self.eco_tax@,
            packaging_tax: self.packaging_tax@,
            bottle_return_value: self.bottle_return_value@,
        }
    }
}

/// The ordered price tiers of one price-conditions record.
#[derive(Debug, Clone, PartialEq, Eq)]
pub struct PriceConditions {
    pub price_elements: Vec<PriceElement>,
}

impl View for PriceConditions {
    type V = Seq<PriceElementV>;

    open spec fn view(&self) -> Seq<PriceElementV> {
        self.price_elements@.map_values(|p: PriceElement| p@)
    }
}

/// A report keyed by opaque upstream strings, each holding one
/// price-conditions record. Entry order is the order received.
#[derive(Debug, Clone, PartialEq, Eq)]
pub struct PriceConditionsReport {
    pub entries: Vec<(String, PriceConditions)>,
}

impl View for PriceConditionsReport {
    type V = Seq<(Seq<char>, Seq<PriceElementV>)>;

    open spec fn view(&self) -> Seq<(Seq<char>, Seq<PriceElementV>)> {
        self.entries@.map_values(|e: (String, PriceConditions)| (e.0@, e.1@))
    }
}

} // verus!
