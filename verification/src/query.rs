//! Query construction: a filter or an identifier set becomes an executable
//! query description, a fixed predicate text with an ordered list of bound
//! parameters, never values concatenated into the query text. Identifier
//! lists are bound as one array parameter: splicing quoted identifiers into
//! the text would be an injection hole.

use vstd::prelude::*;
use vstd::string::StringExecFns;

use crate::ids::clone_strings;
use crate::params::like_pattern;
use crate::params::opt_str_view;
use crate::params::QueryFilter;

verus! {

/// One bound parameter: a single text value or a text array.
pub enum QueryParam {
    Text(String),
    TextList(Vec<String>),
}

/// The mathematical value of a `QueryParam`.
pub enum QueryParamView {
    Text(Seq<char>),
    TextList(Seq<Seq<char>>),
}

impl View for QueryParam {
    type V = QueryParamView;

    open spec fn view(&self) -> QueryParamView {
        match self {
            QueryParam::Text(s) => QueryParamView::Text(s@),
            QueryParam::TextList(v) => QueryParamView::TextList(
                v@.map_values(|s: String| s@),
            ),
        }
    }
}

/// The shape of the result a query is expected to produce.
#[derive(Clone, Copy, PartialEq, Eq, Structural, Debug)]
pub enum ResultShape {
    SingleRow,
    RowList,
    NameList,
    CountryList,
}

/// An executable query description: predicate text, ordered bound
/// parameters, and the expected result shape.
pub struct StoreQuery {
    pub sql: String,
    pub params: Vec<QueryParam>,
    pub shape: ResultShape,
}

/// Renders an optional criterion as the bound pattern value: match-anywhere
/// around a set criterion, match-everything for an absent one.
pub fn like_pattern_string(crit: &Option<String>) -> (r: String)
    ensures
        r@ == like_pattern(opt_str_view(*crit)),
{
    match crit {
        Some(v) => {
            let mut s = String::from_str("%");
            s.append(v.as_str());
            s.append("%");
            s
        },
        None => String::from_str("%%"),
    }
}

/// The category-listing query, filtered by country.
pub fn categories_query(country: &Option<String>) -> (q: StoreQuery)
    ensures
        q.sql@ == "SELECT category FROM product WHERE country ILIKE $1 GROUP BY category"@,
        q.params@.len() == 1,
        q.params@[0]@ == QueryParamView::Text(like_pattern(opt_str_view(*country))),
        q.shape == ResultShape::NameList,
{
    let mut params: Vec<QueryParam> = Vec::new();
    params.push(QueryParam::Text(like_pattern_string(country)));
    StoreQuery {
        sql: String::from_str("SELECT category FROM product WHERE country ILIKE $1 GROUP BY category"),
        params,
        shape: ResultShape::NameList,
    }
}

/// The subcategory-listing query, filtered by category and country.
pub fn subcategories_query(category: &Option<String>, country: &Option<String>) -> (q: StoreQuery)
    ensures
        q.sql@
            == "SELECT subcategory FROM product WHERE category ILIKE $1 AND country ILIKE $2 GROUP BY subcategory"@,
        q.params@.len() == 2,
        q.params@[0]@ == QueryParamView::Text(like_pattern(opt_str_view(*category))),
        q.params@[1]@ == QueryParamView::Text(like_pattern(opt_str_view(*country))),
        q.shape == ResultShape::NameList,
{
    let mut params: Vec<QueryParam> = Vec::new();
    params.push(QueryParam::Text(like_pattern_string(category)));
    params.push(QueryParam::Text(like_pattern_string(country)));
    StoreQuery {
        sql: String::from_str(
            "SELECT subcategory FROM product WHERE category ILIKE $1 AND country ILIKE $2 GROUP BY subcategory",
        ),
        params,
        shape: ResultShape::NameList,
    }
}

/// The product-listing query: all four criteria as bound partial-match
/// patterns, results ordered by name ascending.
pub fn products_query(f: &QueryFilter) -> (q: StoreQuery)
    ensures
        q.sql@
            == "SELECT * FROM product WHERE department ILIKE $1 AND category ILIKE $2 AND subcategory ILIKE $3 AND country ILIKE $4 ORDER BY name ASC"@,
        q.params@.len() == 4,
        q.params@[0]@ == QueryParamView::Text(like_pattern(f@.department)),
        q.params@[1]@ == QueryParamView::Text(like_pattern(f@.category)),
        q.params@[2]@ == QueryParamView::Text(like_pattern(f@.subcategory)),
        q.params@[3]@ == QueryParamView::Text(like_pattern(f@.country)),
        q.shape == ResultShape::RowList,
{
    let mut params: Vec<QueryParam> = Vec::new();
    params.push(QueryParam::Text(like_pattern_string(&f.department)));
    params.push(QueryParam::Text(like_pattern_string(&f.category)));
    params.push(QueryParam::Text(like_pattern_string(&f.subcategory)));
    params.push(QueryParam::Text(like_pattern_string(&f.country)));
    StoreQuery {
        sql: String::from_str(
            "SELECT * FROM product WHERE department ILIKE $1 AND category ILIKE $2 AND subcategory ILIKE $3 AND country ILIKE $4 ORDER BY name ASC",
        ),
        params,
        shape: ResultShape::RowList,
    }
}

/// The exact-match lookup of one identifier.
pub fn single_product_query(id: &String) -> (q: StoreQuery)
    ensures
        q.sql@ == "SELECT * FROM product WHERE id = $1"@,
        q.params@.len() == 1,
        q.params@[0]@ == QueryParamView::Text(id@),
        q.shape == ResultShape::SingleRow,
{
    let mut params: Vec<QueryParam> = Vec::new();
    params.push(QueryParam::Text(id.clone()));
    StoreQuery {
        sql: String::from_str("SELECT * FROM product WHERE id = $1"),
        params,
        shape: ResultShape::SingleRow,
    }
}

/// The distinct countries among the products of an identifier set, the
/// whole set bound as one array parameter.
pub fn ids_countries_query(ids: &Vec<String>) -> (q: StoreQuery)
    ensures
        q.sql@ == "SELECT country FROM product WHERE id = ANY($1) GROUP BY country"@,
        q.params@.len() == 1,
        q.params@[0]@ == QueryParamView::TextList(ids@.map_values(|s: String| s@)),
        q.shape == ResultShape::CountryList,
{
    let mut params: Vec<QueryParam> = Vec::new();
    params.push(QueryParam::TextList(clone_strings(ids)));
    StoreQuery {
        sql: String::from_str("SELECT country FROM product WHERE id = ANY($1) GROUP BY country"),
        params,
        shape: ResultShape::CountryList,
    }
}

/// All products of an identifier set, the whole set bound as one array
/// parameter.
pub fn ids_products_query(ids: &Vec<String>) -> (q: StoreQuery)
    ensures
        q.sql@ == "SELECT * FROM product WHERE id = ANY($1)"@,
        q.params@.len() == 1,
        q.params@[0]@ == QueryParamView::TextList(ids@.map_values(|s: String| s@)),
        q.shape == ResultShape::RowList,
{
    let mut params: Vec<QueryParam> = Vec::new();
    params.push(QueryParam::TextList(clone_strings(ids)));
    StoreQuery {
        sql: String::from_str("SELECT * FROM product WHERE id = ANY($1)"),
        params,
        shape: ResultShape::RowList,
    }
}

/// The products of an identifier set within one country. The country is an
/// exact bound match; an unanchored LIKE would behave the same only for
/// countries free of pattern metacharacters.
pub fn ids_products_in_country_query(ids: &Vec<String>, country: &String) -> (q: StoreQuery)
    ensures
        q.sql@ == "SELECT * FROM product WHERE id = ANY($1) AND country = $2"@,
        q.params@.len() == 2,
        q.params@[0]@ == QueryParamView::TextList(ids@.map_values(|s: String| s@)),
        q.params@[1]@ == QueryParamView::Text(country@),
        q.shape == ResultShape::RowList,
{
    let mut params: Vec<QueryParam> = Vec::new();
    params.push(QueryParam::TextList(clone_strings(ids)));
    params.push(QueryParam::Text(country.clone()));
    StoreQuery {
        sql: String::from_str("SELECT * FROM product WHERE id = ANY($1) AND country = $2"),
        params,
        shape: ResultShape::RowList,
    }
}

} // verus!
