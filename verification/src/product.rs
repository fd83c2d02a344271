//! The catalog entities: `Product`, a single catalog row, and `Market`, a
//! country-scoped grouping of products produced for multi-identifier lookups.

use vstd::prelude::*;

verus! {

/// One catalog entry. All fields are flat strings; the two instants are kept
/// in the fixed textual transport format.
pub struct Product {
    pub id: String,
    pub name: String,
    pub typ: String,
    pub country: String,
    pub unit: String,
    pub price: String,
    pub metric: String,
    pub image_url: String,
    pub url: String,
    pub department: String,
    pub category: String,
    pub subcategory: String,
    pub department_url: String,
    pub category_url: String,
    pub subcategory_url: String,
    pub created_at: String,
    pub updated_at: String,
}

/// The mathematical value of a `Product`: each field as a character sequence.
pub struct ProductView {
    pub id: Seq<char>,
    pub name: Seq<char>,
    pub typ: Seq<char>,
    pub country: Seq<char>,
    pub unit: Seq<char>,
    pub price: Seq<char>,
    pub metric: Seq<char>,
    pub image_url: Seq<char>,
    pub url: Seq<char>,
    pub department: Seq<char>,
    pub category: Seq<char>,
    pub subcategory: Seq<char>,
    pub department_url: Seq<char>,
    pub category_url: Seq<char>,
    pub subcategory_url: Seq<char>,
    pub created_at: Seq<char>,
    pub updated_at: Seq<char>,
}

impl View for Product {
    type V = ProductView;

    open spec fn view(&self) -> ProductView {
        ProductView {
            id: self.id@,
            name: self.name@,
            typ: self.typ@,
            country: self.country@,
            unit: self.unit@,
            price: self.price@,
            metric: self.metric@,
            image_url: self.image_url@,
            url: self.url@,
            department: self.department@,
            category: self.category@,
            subcategory: self.subcategory@,
            department_url: self.department_url@,
            category_url: self.category_url@,
            subcategory_url: self.subcategory_url@,
            created_at: self.created_at@,
            updated_at: self.updated_at@,
        }
    }
}

impl Product {
    /// A field-by-field copy, proved to carry the same value.
    pub fn duplicate(&self) -> (r: Product)
        ensures
            r == *self,
    {
        Product {
            id: self.id.clone(),
            name: self.name.clone(),
            typ: self.typ.clone(),
            country: self.country.clone(),
            unit: self.unit.clone(),
            price: self.price.clone(),
            metric: self.metric.clone(),
            image_url: self.image_url.clone(),
            url: self.url.clone(),
            department: self.department.clone(),
            category: self.category.clone(),
            subcategory: self.subcategory.clone(),
            department_url: self.department_url.clone(),
            category_url: self.category_url.clone(),
            subcategory_url: self.subcategory_url.clone(),
            created_at: self.created_at.clone(),
            updated_at: self.updated_at.clone(),
        }
    }
}

/// The products of one country within one multi-identifier lookup.
pub struct Market {
    pub country: String,
    pub products: Vec<Product>,
}

/// The mathematical value of a `Market`.
pub struct MarketView {
    pub country: Seq<char>,
    pub products: Seq<ProductView>,
}

impl View for Market {
    type V = MarketView;

    open spec fn view(&self) -> MarketView {
        MarketView {
            country: self.country@,
            products: self.products@.map_values(|p: Product| p@),
        }
    }
}

} // verus!
