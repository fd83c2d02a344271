//! Builders for the JSON arrays of the collection responses: each element
//! is rendered on its own and the pieces are joined with commas.

use vstd::prelude::*;
use vstd::string::StringExecFns;

use crate::jsonenc::comma_joined;
use crate::jsonenc::encode_json_str;
use crate::jsonenc::encode_product;
use crate::jsonenc::json_str;
use crate::jsonenc::market_json;
use crate::jsonenc::markets_array_json;
use crate::jsonenc::product_json;
use crate::jsonenc::products_array_json;
use crate::jsonenc::strings_array_json;
use crate::product::Market;
use crate::product::MarketView;
use crate::product::Product;
use crate::product::ProductView;

verus! {

/// Joins already-rendered elements into a JSON array.
fn join_array(pieces: &Vec<String>) -> (r: String)
    ensures
        r@ == "["@ + comma_joined(pieces@.map_values(|s: String| s@)) + "]"@,
{
    broadcast use {crate::seqfacts::seq_add_assoc, crate::seqfacts::seq_add_empty_left, crate::seqfacts::seq_add_empty_right};

    let ghost views = pieces@.map_values(|s: String| s@);
    let mut out = String::new();
    out.append("[");
    let mut i: usize = 0;
    while i < pieces.len()
        invariant
            views == pieces@.map_values(|s: String| s@),
            i <= pieces.len(),
            out@ == "["@ + comma_joined(views.take(i as int)),
        decreases pieces.len() - i,
    {
        if i > 0 {
            out.append(",");
        }
        out.append(pieces[i].as_str());
        proof {
            let post = views.take(i + 1 as int);
            assert(post.drop_last() =~= views.take(i as int));
            assert(post.last() == views[i as int]);
            assert(views[i as int] == pieces@[i as int]@);
        }
        i = i + 1;
    }
    proof {
        assert(views.take(pieces@.len() as int) =~= views);
    }
    out.append("]");
    out
}

/// A product list as a JSON array.
pub fn encode_products(ps: &Vec<Product>) -> (r: String)
    ensures
        r@ == products_array_json(ps@.map_values(|p: Product| p@)),
{
    let ghost pseq = ps@.map_values(|p: Product| p@);
    let mut pieces: Vec<String> = Vec::new();
    let mut i: usize = 0;
    while i < ps.len()
        invariant
            pseq == ps@.map_values(|p: Product| p@),
            i <= ps.len(),
            pieces@.len() == i,
            forall|k: int| 0 <= k < i ==> (#[trigger] pieces@[k])@ == product_json(pseq[k]),
        decreases ps.len() - i,
    {
        pieces.push(encode_product(&ps[i]));
        proof {
            assert(pseq[i as int] == ps@[i as int]@);
        }
        i = i + 1;
    }
    let r = join_array(&pieces);
    proof {
        assert(pieces@.map_values(|s: String| s@) =~= pseq.map_values(
            |p: ProductView| product_json(p),
        ));
    }
    r
}

/// A string list as a JSON array.
pub fn encode_strings(items: &Vec<String>) -> (r: String)
    ensures
        r@ == strings_array_json(items@.map_values(|s: String| s@)),
{
    let ghost sseq = items@.map_values(|s: String| s@);
    let mut pieces: Vec<String> = Vec::new();
    let mut i: usize = 0;
    while i < items.len()
        invariant
            sseq == items@.map_values(|s: String| s@),
            i <= items.len(),
            pieces@.len() == i,
            forall|k: int| 0 <= k < i ==> (#[trigger] pieces@[k])@ == json_str(sseq[k]),
        decreases items.len() - i,
    {
        pieces.push(encode_json_str(items[i].as_str()));
        proof {
            assert(sseq[i as int] == items@[i as int]@);
        }
        i = i + 1;
    }
    let r = join_array(&pieces);
    proof {
        assert(pieces@.map_values(|s: String| s@) =~= sseq.map_values(|s: Seq<char>| json_str(s)));
    }
    r
}

/// A single market as a JSON object.
pub fn encode_market(m: &Market) -> (r: String)
    ensures
        r@ == market_json(m@),
{
    broadcast use {crate::seqfacts::seq_add_assoc, crate::seqfacts::seq_add_empty_left, crate::seqfacts::seq_add_empty_right};

    let mut out = String::new();
    out.append("{\"country\":");
    let country = encode_json_str(m.country.as_str());
    out.append(country.as_str());
    out.append(",\"products\":");
    let arr = encode_products(&m.products);
    out.append(arr.as_str());
    out.append("}");
    out
}

/// A market list as a JSON array.
pub fn encode_markets(ms: &Vec<Market>) -> (r: String)
    ensures
        r@ == markets_array_json(ms@.map_values(|m: Market| m@)),
{
    let ghost mseq = ms@.map_values(|m: Market| m@);
    let mut pieces: Vec<String> = Vec::new();
    let mut i: usize = 0;
    while i < ms.len()
        invariant
            mseq == ms@.map_values(|m: Market| m@),
            i <= ms.len(),
            pieces@.len() == i,
            forall|k: int| 0 <= k < i ==> (#[trigger] pieces@[k])@ == market_json(mseq[k]),
        decreases ms.len() - i,
    {
        pieces.push(encode_market(&ms[i]));
        proof {
            assert(mseq[i as int] == ms@[i as int]@);
        }
        i = i + 1;
    }
    let r = join_array(&pieces);
    proof {
        assert(pieces@.map_values(|s: String| s@) =~= mseq.map_values(
            |m: MarketView| market_json(m),
        ));
    }
    r
}

} // verus!
