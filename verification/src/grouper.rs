//! Country grouping for multi-identifier lookups: one `Market` per country,
//! in the order the countries were returned by the store, each holding
//! exactly the matching products of that country in their input order.

use vstd::prelude::*;

use crate::product::Market;
use crate::product::Product;
use crate::product::ProductView;

verus! {

/// The products of one country, kept in their input order.
pub open spec fn products_of_country(ps: Seq<ProductView>, c: Seq<char>) -> Seq<ProductView> {
    ps.filter(|p: ProductView| p.country == c)
}

/// Partitions the matching products by country: one market per listed
/// country, in the listed order. A product appears in the market of its own
/// country and in no other; listing no countries yields no markets.
pub fn group_markets(countries: &Vec<String>, products: &Vec<Product>) -> (r: Vec<Market>)
    ensures
        r@.len() == countries@.len(),
        forall|k: int| 0 <= k < r@.len() ==> (#[trigger] r@[k])@.country == countries@[k]@,
        forall|k: int| 0 <= k < r@.len() ==> (#[trigger] r@[k])@.products == products_of_country(
            products@.map_values(|p: Product| p@),
            countries@[k]@,
        ),
{
    let ghost pseq = products@.map_values(|p: Product| p@);
    let mut markets: Vec<Market> = Vec::new();
    let mut i: usize = 0;
    while i < countries.len()
        invariant
            pseq == products@.map_values(|p: Product| p@),
            i <= countries.len(),
            markets@.len() == i,
            forall|k: int| 0 <= k < i ==> (#[trigger] markets@[k])@.country == countries@[k]@,
            forall|k: int| 0 <= k < i ==> (#[trigger] markets@[k])@.products == products_of_country(
                pseq,
                countries@[k]@,
            ),
        decreases countries.len() - i,
    {
        let ghost cview = countries@[i as int]@;
        let mut bucket: Vec<Product> = Vec::new();
        let mut j: usize = 0;
        while j < products.len()
            invariant
                pseq == products@.map_values(|p: Product| p@),
                i < countries.len(),
                cview == countries@[i as int]@,
                j <= products.len(),
                bucket@.map_values(|p: Product| p@) == products_of_country(
                    pseq.take(j as int),
                    cview,
                ),
            decreases products.len() - j,
        {
            let ghost pre_bucket = bucket@;
            if products[j].country == countries[i] {
                bucket.push(products[j].duplicate());
            }
            proof {
                reveal(Seq::filter);
                let post = pseq.take(j + 1 as int);
                assert(post.drop_last() =~= pseq.take(j as int));
                assert(post.last() == pseq[j as int]);
                assert(pseq[j as int] == products@[j as int]@);
                if bucket@.len() > pre_bucket.len() {
                    assert(bucket@.map_values(|p: Product| p@) =~= pre_bucket.map_values(
                        |p: Product| p@,
                    ).push(products@[j as int]@));
                }
            }
            j = j + 1;
        }
        proof {
            assert(pseq.take(products@.len() as int) =~= pseq);
        }
        let m = Market { country: countries[i].clone(), products: bucket };
        markets.push(m);
        i = i + 1;
    }
    markets
}

/// Every product a grouped market holds carries the market's own country.
pub proof fn lemma_grouped_products_carry_country(ps: Seq<ProductView>, c: Seq<char>)
    ensures
        forall|k: int|
            0 <= k < products_of_country(ps, c).len() ==> (#[trigger] products_of_country(ps, c)[k]).country
                == c,
{
    assert forall|k: int|
        0 <= k < products_of_country(ps, c).len() implies (#[trigger] products_of_country(
        ps,
        c,
    )[k]).country == c by {
        ps.lemma_filter_pred(|p: ProductView| p.country == c, k);
    }
}

} // verus!
