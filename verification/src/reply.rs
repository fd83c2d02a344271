//! Response shaping. One rule for the cross-origin header, applied
//! uniformly: every successful response carries the permissive header, and
//! no not-found or server-error response does. Collection and grouping
//! endpoints answer success with an empty array rather than not-found; only
//! the single-entity lookup answers not-found, with an empty body.

use vstd::prelude::*;

use crate::arrays::encode_markets;
use crate::arrays::encode_products;
use crate::arrays::encode_strings;
use crate::jsonenc::encode_product;
use crate::jsonenc::markets_array_json;
use crate::jsonenc::product_json;
use crate::jsonenc::products_array_json;
use crate::jsonenc::strings_array_json;
use crate::product::Market;
use crate::product::MarketView;
use crate::product::Product;

verus! {

pub const STATUS_OK: u16 = 200;

pub const STATUS_NOT_FOUND: u16 = 404;

pub const STATUS_SERVER_ERROR: u16 = 500;

/// What the service answers: a status code, a body, and whether the
/// permissive cross-origin header is attached.
pub struct HttpReply {
    pub status: u16,
    pub body: String,
    pub cors: bool,
}

/// The not-found answer: empty body, no cross-origin header.
pub fn not_found_reply() -> (r: HttpReply)
    ensures
        r.status == STATUS_NOT_FOUND,
        r.body@ == Seq::<char>::empty(),
        !r.cors,
{
    HttpReply { status: STATUS_NOT_FOUND, body: String::new(), cors: false }
}

/// The per-request answer for a failed store call: the process stays up and
/// the one request reports a server error.
pub fn server_error_reply() -> (r: HttpReply)
    ensures
        r.status == STATUS_SERVER_ERROR,
        r.body@ == Seq::<char>::empty(),
        !r.cors,
{
    HttpReply { status: STATUS_SERVER_ERROR, body: String::new(), cors: false }
}

/// The successful answer of a name-listing endpoint: always a JSON array,
/// empty when nothing matches, with the cross-origin header.
pub fn strings_reply(names: &Vec<String>) -> (r: HttpReply)
    ensures
        r.status == STATUS_OK,
        r.body@ == strings_array_json(names@.map_values(|s: String| s@)),
        r.cors,
{
    HttpReply { status: STATUS_OK, body: encode_strings(names), cors: true }
}

/// The successful answer of the product-listing endpoint: always a JSON
/// array, empty when nothing matches, with the cross-origin header.
pub fn products_reply(ps: &Vec<Product>) -> (r: HttpReply)
    ensures
        r.status == STATUS_OK,
        r.body@ == products_array_json(ps@.map_values(|p: Product| p@)),
        r.cors,
{
    HttpReply { status: STATUS_OK, body: encode_products(ps), cors: true }
}

/// The successful answer of the market-grouping endpoint: always a JSON
/// array, empty when no identifier matched, with the cross-origin header.
pub fn markets_reply(ms: &Vec<Market>) -> (r: HttpReply)
    ensures
        r.status == STATUS_OK,
        r.body@ == markets_array_json(ms@.map_values(|m: Market| m@)),
        r.cors,
{
    HttpReply { status: STATUS_OK, body: encode_markets(ms), cors: true }
}

/// The answer of a single-identifier lookup: the one matching product as a
/// JSON object, or not-found with an empty body and no cross-origin header
/// when no row matched.
pub fn single_product_reply(ps: &Vec<Product>) -> (r: HttpReply)
    ensures
        ps@.len() == 0 ==> r.status == STATUS_NOT_FOUND && r.body@ == Seq::<char>::empty()
            && !r.cors,
        ps@.len() > 0 ==> r.status == STATUS_OK && r.body@ == product_json(ps@[0]@) && r.cors,
{
    if ps.len() == 0 {
        not_found_reply()
    } else {
        HttpReply { status: STATUS_OK, body: encode_product(&ps[0]), cors: true }
    }
}

/// One input, one rendering: equal market sequences produce byte-identical
/// JSON, so repeating an identical request repeats its bytes. The order of
/// countries inside the sequence follows the store and is documented as
/// store-dependent, not asserted fixed.
pub proof fn lemma_market_rendering_deterministic(a: Seq<MarketView>, b: Seq<MarketView>)
    requires
        a == b,
    ensures
        markets_array_json(a) == markets_array_json(b),
{
}

} // verus!
