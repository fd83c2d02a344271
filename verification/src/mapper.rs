//! Mapping of raw store rows onto `Product` entities, including the
//! normalization of the two timestamp columns to the fixed textual format.

use vstd::prelude::*;

use crate::product::Product;
use crate::product::ProductView;
use crate::timefmt::format_rfc2822_utc;
use crate::timefmt::rfc2822_of;
use crate::timefmt::MAX_RFC2822_SECS;

verus! {

/// One row of the product table, in column order. The timestamp columns
/// arrive as whole seconds since the Unix epoch.
pub struct ProductRow {
    pub id: String,
    pub name: String,
    pub typ: String,
    pub country: String,
    pub price: String,
    pub unit: String,
    pub metric: String,
    pub url: String,
    pub image_url: String,
    pub department: String,
    pub category: String,
    pub subcategory: String,
    pub department_url: String,
    pub category_url: String,
    pub subcategory_url: String,
    pub created_secs: i64,
    pub updated_secs: i64,
}

/// The mathematical value of a `ProductRow`.
pub struct ProductRowView {
    pub id: Seq<char>,
    pub name: Seq<char>,
    pub typ: Seq<char>,
    pub country: Seq<char>,
    pub price: Seq<char>,
    pub unit: Seq<char>,
    pub metric: Seq<char>,
    pub url: Seq<char>,
    pub image_url: Seq<char>,
    pub department: Seq<char>,
    pub category: Seq<char>,
    pub subcategory: Seq<char>,
    pub department_url: Seq<char>,
    pub category_url: Seq<char>,
    pub subcategory_url: Seq<char>,
    pub created_secs: int,
    pub updated_secs: int,
}

impl View for ProductRow {
    type V = ProductRowView;

    open spec fn view(&self) -> ProductRowView {
        ProductRowView {
            id: self.id@,
            name: self.name@,
            typ: self.typ@,
            country: self.country@,
            price: self.price@,
            unit: self.unit@,
            metric: self.metric@,
            url: self.url@,
            image_url: self.image_url@,
            department: self.department@,
            category: self.category@,
            subcategory: self.subcategory@,
            department_url: self.department_url@,
            category_url: self.category_url@,
            subcategory_url: self.subcategory_url@,
            created_secs: self.created_secs as int,
            updated_secs: self.updated_secs as int,
        }
    }
}

/// Both timestamps of the row lie in the representable range of the fixed
/// textual format. A row outside it violates the store contract and is a
/// hard error, not a recoverable per-row condition.
pub open spec fn row_in_range(r: ProductRowView) -> bool {
    &&& 0 <= r.created_secs <= MAX_RFC2822_SECS as int
    &&& 0 <= r.updated_secs <= MAX_RFC2822_SECS as int
}

/// The product a row maps to: every column carried over verbatim, the two
/// timestamps rendered as RFC 2822 text.
pub open spec fn product_of_row(r: ProductRowView) -> ProductView {
    ProductView {
        id: r.id,
        name: r.name,
        typ: r.typ,
        country: r.country,
        unit: r.unit,
        price: r.price,
        metric: r.metric,
        image_url: r.image_url,
        url: r.url,
        department: r.department,
        category: r.category,
        subcategory: r.subcategory,
        department_url: r.department_url,
        category_url: r.category_url,
        subcategory_url: r.subcategory_url,
        created_at: rfc2822_of(r.created_secs),
        updated_at: rfc2822_of(r.updated_secs),
    }
}

/// Maps one store row to a `Product`; fails exactly when a timestamp lies
/// outside the representable range.
pub fn product_from_row(row: &ProductRow) -> (r: Option<Product>)
    ensures
        r is Some <==> row_in_range(row@),
        r matches Some(p) ==> p@ == product_of_row(row@),
{
    if row.created_secs < 0 || row.created_secs > MAX_RFC2822_SECS {
        return None;
    }
    if row.updated_secs < 0 || row.updated_secs > MAX_RFC2822_SECS {
        return None;
    }
    let created_at = format_rfc2822_utc(row.created_secs);
    let updated_at = format_rfc2822_utc(row.updated_secs);
    Some(
        Product {
            id: row.id.clone(),
            name: row.name.clone(),
            typ: row.typ.clone(),
            country: row.country.clone(),
            unit: row.unit.clone(),
            price: row.price.clone(),
            metric: row.metric.clone(),
            image_url: row.image_url.clone(),
            url: row.url.clone(),
            department: row.department.clone(),
            category: row.category.clone(),
            subcategory: row.subcategory.clone(),
            department_url: row.department_url.clone(),
            category_url: row.category_url.clone(),
            subcategory_url: row.subcategory_url.clone(),
            created_at,
            updated_at,
        },
    )
}

/// Maps a whole result set; fails exactly when some row fails.
pub fn products_from_rows(rows: &Vec<ProductRow>) -> (r: Option<Vec<Product>>)
    ensures
        r is Some <==> (forall|k: int| 0 <= k < rows@.len() ==> row_in_range(#[trigger] rows@[k]@)),
        r matches Some(ps) ==> ps@.len() == rows@.len() && (forall|k: int|
            0 <= k < rows@.len() ==> (#[trigger] ps@[k])@ == product_of_row(rows@[k]@)),
{
    let mut products: Vec<Product> = Vec::new();
    let mut i: usize = 0;
    while i < rows.len()
        invariant
            i <= rows.len(),
            products@.len() == i,
            forall|k: int| 0 <= k < i ==> row_in_range(#[trigger] rows@[k]@),
            forall|k: int| 0 <= k < i ==> (#[trigger] products@[k])@ == product_of_row(rows@[k]@),
        decreases rows.len() - i,
    {
        match product_from_row(&rows[i]) {
            Some(p) => {
                products.push(p);
            },
            None => {
                return None;
            },
        }
        i = i + 1;
    }
    Some(products)
}

} // verus!
