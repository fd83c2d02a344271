use product_query::arrays::encode_products;
use product_query::arrays::encode_strings;
use product_query::jsonenc::encode_json_str;
use product_query::jsonenc::encode_product;
use product_query::product::Product;
use product_query::query::categories_query;
use product_query::query::ids_countries_query;
use product_query::query::ids_products_in_country_query;
use product_query::query::ids_products_query;
use product_query::query::like_pattern_string;
use product_query::query::products_query;
use product_query::query::single_product_query;
use product_query::query::subcategories_query;
use product_query::query::QueryParam;
use product_query::query::ResultShape;

fn tiny_product() -> Product {
    Product {
        id: "x".to_string(),
        name: "N".to_string(),
        typ: "t".to_string(),
        country: "US".to_string(),
        unit: "u".to_string(),
        price: "1".to_string(),
        metric: "m".to_string(),
        image_url: "i".to_string(),
        url: "w".to_string(),
        department: "D".to_string(),
        category: "C".to_string(),
        subcategory: "S".to_string(),
        department_url: "du".to_string(),
        category_url: "cu".to_string(),
        subcategory_url: "su".to_string(),
        created_at: "ca".to_string(),
        updated_at: "ua".to_string(),
    }
}

fn text_value(p: &QueryParam) -> &str {
    match p {
        QueryParam::Text(s) => s.as_str(),
        QueryParam::TextList(_) => panic!("expected a single text parameter"),
    }
}

fn list_value(p: &QueryParam) -> &Vec<String> {
    match p {
        QueryParam::TextList(v) => v,
        QueryParam::Text(_) => panic!("expected an array parameter"),
    }
}

#[test]
fn json_strings_escape_specials() {
    assert_eq!(encode_json_str("plain"), "\"plain\"");
    assert_eq!(encode_json_str("a\"b"), "\"a\\\"b\"");
    assert_eq!(encode_json_str("a\\b"), "\"a\\\\b\"");
    assert_eq!(encode_json_str("a\nb\tc\rd"), "\"a\\nb\\tc\\rd\"");
    assert_eq!(encode_json_str("\u{8}\u{c}"), "\"\\b\\f\"");
    assert_eq!(encode_json_str("\u{1}\u{1f}"), "\"\\u0001\\u001f\"");
    assert_eq!(encode_json_str(""), "\"\"");
}

#[test]
fn string_arrays_render_with_commas() {
    assert_eq!(encode_strings(&Vec::new()), "[]");
    let one = vec!["Dairy".to_string()];
    assert_eq!(encode_strings(&one), "[\"Dairy\"]");
    let two = vec!["Dairy".to_string(), "Bakery".to_string()];
    assert_eq!(encode_strings(&two), "[\"Dairy\",\"Bakery\"]");
}

#[test]
fn product_renders_fields_in_declaration_order() {
    let expected = "{\"id\":\"x\",\"name\":\"N\",\"typ\":\"t\",\"country\":\"US\",\"unit\":\"u\",\"price\":\"1\",\"metric\":\"m\",\"image_url\":\"i\",\"url\":\"w\",\"department\":\"D\",\"category\":\"C\",\"subcategory\":\"S\",\"department_url\":\"du\",\"category_url\":\"cu\",\"subcategory_url\":\"su\",\"created_at\":\"ca\",\"updated_at\":\"ua\"}";
    assert_eq!(encode_product(&tiny_product()), expected);
    let arr = encode_products(&vec![tiny_product(), tiny_product()]);
    assert_eq!(arr, format!("[{},{}]", expected, expected));
}

#[test]
fn patterns_wrap_set_criteria_and_default_to_match_all() {
    assert_eq!(like_pattern_string(&Some("Food".to_string())), "%Food%");
    assert_eq!(like_pattern_string(&None), "%%");
}

#[test]
fn unfiltered_product_listing_queries_the_whole_table_by_name() {
    let f = product_query::params::extract_filter(&Vec::new());
    let q = products_query(&f);
    assert_eq!(
        q.sql,
        "SELECT * FROM product WHERE department ILIKE $1 AND category ILIKE $2 AND subcategory ILIKE $3 AND country ILIKE $4 ORDER BY name ASC"
    );
    assert_eq!(q.params.len(), 4);
    for p in &q.params {
        assert_eq!(text_value(p), "%%");
    }
    assert_eq!(q.shape, ResultShape::RowList);
}

#[test]
fn name_listing_queries_bind_their_patterns() {
    let q = categories_query(&Some("US".to_string()));
    assert_eq!(
        q.sql,
        "SELECT category FROM product WHERE country ILIKE $1 GROUP BY category"
    );
    assert_eq!(q.params.len(), 1);
    assert_eq!(text_value(&q.params[0]), "%US%");
    assert_eq!(q.shape, ResultShape::NameList);

    let q = subcategories_query(&Some("Dairy".to_string()), &None);
    assert_eq!(
        q.sql,
        "SELECT subcategory FROM product WHERE category ILIKE $1 AND country ILIKE $2 GROUP BY subcategory"
    );
    assert_eq!(text_value(&q.params[0]), "%Dairy%");
    assert_eq!(text_value(&q.params[1]), "%%");
}

#[test]
fn identifier_queries_bind_parameters_not_text() {
    let q = single_product_query(&"x'1".to_string());
    assert_eq!(q.sql, "SELECT * FROM product WHERE id = $1");
    assert_eq!(text_value(&q.params[0]), "x'1");
    assert_eq!(q.shape, ResultShape::SingleRow);

    let ids = vec!["a".to_string(), "b'); DROP TABLE product;--".to_string()];
    let q = ids_countries_query(&ids);
    assert_eq!(
        q.sql,
        "SELECT country FROM product WHERE id = ANY($1) GROUP BY country"
    );
    assert_eq!(list_value(&q.params[0]), &ids);
    assert_eq!(q.shape, ResultShape::CountryList);

    let q = ids_products_query(&ids);
    assert_eq!(q.sql, "SELECT * FROM product WHERE id = ANY($1)");
    assert_eq!(list_value(&q.params[0]), &ids);

    let q = ids_products_in_country_query(&ids, &"US".to_string());
    assert_eq!(
        q.sql,
        "SELECT * FROM product WHERE id = ANY($1) AND country = $2"
    );
    assert_eq!(list_value(&q.params[0]), &ids);
    assert_eq!(text_value(&q.params[1]), "US");
}
