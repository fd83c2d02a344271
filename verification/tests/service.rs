use product_query::grouper::group_markets;
use product_query::ids::plan_ids;
use product_query::ids::plan_path_ids;
use product_query::ids::split_ids;
use product_query::ids::IdSelection;
use product_query::mapper::product_from_row;
use product_query::mapper::products_from_rows;
use product_query::mapper::ProductRow;
use product_query::params::extract_filter;
use product_query::params::product_matches_filter;
use product_query::params::ParamEntry;
use product_query::params::QueryFilter;
use product_query::product::Product;
use product_query::reply::markets_reply;
use product_query::reply::not_found_reply;
use product_query::reply::server_error_reply;
use product_query::reply::single_product_reply;
use product_query::reply::strings_reply;

fn entry(key: &str, values: &[&str]) -> ParamEntry {
    ParamEntry {
        key: key.to_string(),
        values: values.iter().map(|v| v.to_string()).collect(),
    }
}

fn sample_product(id: &str, name: &str, country: &str, department: &str) -> Product {
    Product {
        id: id.to_string(),
        name: name.to_string(),
        typ: "grocery".to_string(),
        country: country.to_string(),
        unit: "1".to_string(),
        price: "2.49".to_string(),
        metric: "kg".to_string(),
        image_url: "http://img.example/p.png".to_string(),
        url: "http://shop.example/p".to_string(),
        department: department.to_string(),
        category: "Dairy".to_string(),
        subcategory: "Milk".to_string(),
        department_url: "http://shop.example/d".to_string(),
        category_url: "http://shop.example/c".to_string(),
        subcategory_url: "http://shop.example/s".to_string(),
        created_at: "Thu, 1 Jan 1970 00:00:00 +0000".to_string(),
        updated_at: "Thu, 1 Jan 1970 00:00:00 +0000".to_string(),
    }
}

fn sample_row(id: &str, created_secs: i64, updated_secs: i64) -> ProductRow {
    ProductRow {
        id: id.to_string(),
        name: "Whole Milk".to_string(),
        typ: "grocery".to_string(),
        country: "US".to_string(),
        price: "2.49".to_string(),
        unit: "1".to_string(),
        metric: "kg".to_string(),
        url: "http://shop.example/p".to_string(),
        image_url: "http://img.example/p.png".to_string(),
        department: "Food".to_string(),
        category: "Dairy".to_string(),
        subcategory: "Milk".to_string(),
        department_url: "http://shop.example/d".to_string(),
        category_url: "http://shop.example/c".to_string(),
        subcategory_url: "http://shop.example/s".to_string(),
        created_secs,
        updated_secs,
    }
}

#[test]
fn extract_filter_defaults_to_match_all() {
    let f = extract_filter(&Vec::new());
    assert!(f.department.is_none());
    assert!(f.category.is_none());
    assert!(f.subcategory.is_none());
    assert!(f.country.is_none());
}

#[test]
fn extract_filter_reads_first_values() {
    let entries = vec![
        entry("department", &["Food", "Toys"]),
        entry("country", &[""]),
        entry("category", &["Dairy"]),
    ];
    let f = extract_filter(&entries);
    assert_eq!(f.department.as_deref(), Some("Food"));
    assert_eq!(f.category.as_deref(), Some("Dairy"));
    assert!(f.subcategory.is_none());
    // present with an empty first value counts as unset and matches everything
    assert!(f.country.is_none());
}

#[test]
fn unset_filter_matches_every_product() {
    let f = extract_filter(&Vec::new());
    let p = sample_product("a", "Milk", "US", "Food");
    assert!(product_matches_filter(&f, &p));
}

#[test]
fn department_filter_matches_case_insensitive_substrings() {
    let f = QueryFilter {
        department: Some("food".to_string()),
        category: None,
        subcategory: None,
        country: None,
    };
    let matching = sample_product("a", "Milk", "US", "Seafood");
    assert!(product_matches_filter(&f, &matching));
    let other = sample_product("b", "Milk", "US", "Toys");
    assert!(!product_matches_filter(&f, &other));
}

#[test]
fn split_ids_handles_lists_and_empties() {
    let parts = split_ids("a,b");
    assert_eq!(parts, vec!["a".to_string(), "b".to_string()]);
    assert_eq!(split_ids("a"), vec!["a".to_string()]);
    assert_eq!(split_ids(""), vec!["".to_string()]);
    assert_eq!(
        split_ids("a,,b"),
        vec!["a".to_string(), "".to_string(), "b".to_string()]
    );
}

#[test]
fn plan_ids_shapes_by_cardinality() {
    assert!(matches!(plan_ids(&Vec::new()), IdSelection::Missing));
    match plan_ids(&vec!["x1".to_string()]) {
        IdSelection::Single(id) => assert_eq!(id, "x1"),
        _ => panic!("one identifier must plan a single lookup"),
    }
    match plan_ids(&vec!["x1".to_string(), "x2".to_string()]) {
        IdSelection::Multiple(v) => assert_eq!(v, vec!["x1".to_string(), "x2".to_string()]),
        _ => panic!("several identifiers must plan a market grouping"),
    }
}

#[test]
fn plan_path_ids_splits_the_segment() {
    assert!(matches!(plan_path_ids(&None), IdSelection::Missing));
    match plan_path_ids(&Some("x1".to_string())) {
        IdSelection::Single(id) => assert_eq!(id, "x1"),
        _ => panic!("a plain segment must plan a single lookup"),
    }
    match plan_path_ids(&Some("x1,x2".to_string())) {
        IdSelection::Multiple(v) => assert_eq!(v, vec!["x1".to_string(), "x2".to_string()]),
        _ => panic!("a comma-joined segment must plan a market grouping"),
    }
}

#[test]
fn row_maps_to_product_with_rfc2822_timestamps() {
    let row = sample_row("x1", 0, 86400);
    let p = product_from_row(&row).expect("timestamps are in range");
    assert_eq!(p.id, "x1");
    assert_eq!(p.name, "Whole Milk");
    assert_eq!(p.country, "US");
    assert_eq!(p.unit, "1");
    assert_eq!(p.price, "2.49");
    assert_eq!(p.url, "http://shop.example/p");
    assert_eq!(p.image_url, "http://img.example/p.png");
    assert_eq!(p.created_at, "Thu, 1 Jan 1970 00:00:00 +0000");
    assert_eq!(p.updated_at, "Fri, 2 Jan 1970 00:00:00 +0000");
    // the rendering agrees with the calendar library itself
    let expected = chrono::DateTime::<chrono::Utc>::from_timestamp(86400, 0)
        .unwrap()
        .to_rfc2822();
    assert_eq!(p.updated_at, expected);
}

#[test]
fn out_of_range_timestamp_is_a_row_error() {
    assert!(product_from_row(&sample_row("x1", -1, 0)).is_none());
    assert!(product_from_row(&sample_row("x1", 0, 253402300800)).is_none());
    let rows = vec![sample_row("a", 0, 0), sample_row("b", -5, 0)];
    assert!(products_from_rows(&rows).is_none());
}

#[test]
fn rows_map_in_order() {
    let rows = vec![sample_row("a", 0, 0), sample_row("b", 3600, 3600)];
    let ps = products_from_rows(&rows).expect("all rows in range");
    assert_eq!(ps.len(), 2);
    assert_eq!(ps[0].id, "a");
    assert_eq!(ps[1].id, "b");
    assert_eq!(ps[1].created_at, "Thu, 1 Jan 1970 01:00:00 +0000");
}

#[test]
fn two_countries_give_two_markets() {
    let a = sample_product("a", "Milk", "US", "Food");
    let b = sample_product("b", "Brie", "FR", "Food");
    let products = vec![a, b];
    let countries = vec!["US".to_string(), "FR".to_string()];
    let markets = group_markets(&countries, &products);
    assert_eq!(markets.len(), 2);
    assert_eq!(markets[0].country, "US");
    assert_eq!(markets[0].products.len(), 1);
    assert_eq!(markets[0].products[0].id, "a");
    assert_eq!(markets[1].country, "FR");
    assert_eq!(markets[1].products.len(), 1);
    assert_eq!(markets[1].products[0].id, "b");
}

#[test]
fn grouping_keeps_country_order_and_product_order() {
    let products = vec![
        sample_product("a", "Milk", "US", "Food"),
        sample_product("b", "Brie", "FR", "Food"),
        sample_product("c", "Butter", "US", "Food"),
    ];
    let countries = vec!["FR".to_string(), "US".to_string()];
    let markets = group_markets(&countries, &products);
    assert_eq!(markets.len(), 2);
    assert_eq!(markets[0].country, "FR");
    assert_eq!(markets[1].country, "US");
    let ids: Vec<&str> = markets[1].products.iter().map(|p| p.id.as_str()).collect();
    assert_eq!(ids, vec!["a", "c"]);
}

#[test]
fn no_matching_identifier_gives_empty_market_list() {
    let markets = group_markets(&Vec::new(), &Vec::new());
    let r = markets_reply(&markets);
    assert_eq!(r.status, 200);
    assert_eq!(r.body, "[]");
    assert!(r.cors);
}

#[test]
fn missing_single_product_is_not_found_with_empty_body() {
    let r = single_product_reply(&Vec::new());
    assert_eq!(r.status, 404);
    assert_eq!(r.body, "");
    assert!(!r.cors);
    let nf = not_found_reply();
    assert_eq!(nf.status, 404);
    assert_eq!(nf.body, "");
    assert!(!nf.cors);
}

#[test]
fn found_single_product_is_a_lone_object() {
    let ps = vec![sample_product("a", "Milk", "US", "Food")];
    let r = single_product_reply(&ps);
    assert_eq!(r.status, 200);
    assert!(r.cors);
    assert!(r.body.starts_with("{\"id\":\"a\""));
    assert!(r.body.ends_with("}"));
}

#[test]
fn collection_replies_carry_the_cross_origin_header() {
    let names = vec!["Dairy".to_string()];
    assert!(strings_reply(&names).cors);
    assert!(strings_reply(&Vec::new()).cors);
    assert!(markets_reply(&Vec::new()).cors);
    assert!(!server_error_reply().cors);
    assert_eq!(server_error_reply().status, 500);
}

#[test]
fn identical_requests_render_identical_bytes() {
    let mk = || {
        let products = vec![
            sample_product("a", "Milk", "US", "Food"),
            sample_product("b", "Brie", "FR", "Food"),
        ];
        let countries = vec!["US".to_string(), "FR".to_string()];
        let markets = group_markets(&countries, &products);
        markets_reply(&markets).body
    };
    assert_eq!(mk(), mk());
}
