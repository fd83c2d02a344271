//! Identifier handling: splitting a comma-joined path segment and deciding
//! the response shape from the number of identifiers supplied.

use vstd::prelude::*;

use crate::jsonenc::push_char;

verus! {

/// The comma-separated pieces of a character sequence; an empty sequence
/// has one empty piece, like the text between two adjacent commas.
pub open spec fn split_commas(s: Seq<char>) -> Seq<Seq<char>>
    decreases s.len(),
{
    if s.len() == 0 {
        seq![Seq::<char>::empty()]
    } else if s.last() == ',' {
        split_commas(s.drop_last()).push(Seq::<char>::empty())
    } else {
        let r = split_commas(s.drop_last());
        r.update(r.len() - 1, r.last().push(s.last()))
    }
}

/// A split always yields at least one piece.
pub proof fn lemma_split_commas_nonempty(s: Seq<char>)
    ensures
        split_commas(s).len() >= 1,
    decreases s.len(),
{
    if s.len() > 0 {
        lemma_split_commas_nonempty(s.drop_last());
    }
}

/// Splits a comma-joined identifier segment into its pieces.
pub fn split_ids(s: &str) -> (r: Vec<String>)
    ensures
        r@.map_values(|t: String| t@) == split_commas(s@),
        r@.len() >= 1,
{
    let n = s.unicode_len();
    let mut pieces: Vec<String> = Vec::new();
    pieces.push(String::new());
    let mut i: usize = 0;
    while i < n
        invariant
            n == s@.len(),
            i <= n,
            pieces@.len() >= 1,
            pieces@.map_values(|t: String| t@) == split_commas(s@.take(i as int)),
        decreases n - i,
    {
        let ghost pre = pieces@.map_values(|t: String| t@);
        let c = s.get_char(i);
        if c == ',' {
            pieces.push(String::new());
            proof {
                assert(pieces@.map_values(|t: String| t@) =~= pre.push(Seq::<char>::empty()));
            }
        } else {
            let last: usize = pieces.len() - 1;
            push_char(&mut pieces[last], c);
            proof {
                assert(pieces@.map_values(|t: String| t@) =~= pre.update(
                    last as int,
                    pre[last as int].push(c),
                ));
                assert(pre[last as int] == pre.last());
            }
        }
        proof {
            let post = s@.take(i + 1 as int);
            assert(post.drop_last() =~= s@.take(i as int));
            assert(post.last() == s@[i as int]);
        }
        i = i + 1;
    }
    proof {
        assert(s@.take(n as int) =~= s@);
        lemma_split_commas_nonempty(s@);
    }
    pieces
}

/// A verbatim copy of a string list.
pub fn clone_strings(items: &Vec<String>) -> (r: Vec<String>)
    ensures
        r@ == items@,
{
    let mut r: Vec<String> = Vec::new();
    let mut i: usize = 0;
    while i < items.len()
        invariant
            i <= items.len(),
            r@.len() == i,
            forall|k: int| 0 <= k < i ==> r@[k] == items@[k],
        decreases items.len() - i,
    {
        r.push(items[i].clone());
        i = i + 1;
    }
    proof {
        assert(r@ =~= items@);
    }
    r
}

/// How a request's identifier list shapes the response: none at all is a
/// not-found outcome, one identifier a single-product lookup, several a
/// market grouping.
pub enum IdSelection {
    Missing,
    Single(String),
    Multiple(Vec<String>),
}

/// Decides the response shape from the identifier list of the query.
pub fn plan_ids(ids: &Vec<String>) -> (r: IdSelection)
    ensures
        (r matches IdSelection::Missing) <==> ids@.len() == 0,
        (r matches IdSelection::Single(id) && id@ == ids@[0]@) <==> ids@.len() == 1,
        (r matches IdSelection::Multiple(v) && v@ == ids@) <==> ids@.len() > 1,
{
    if ids.len() == 0 {
        IdSelection::Missing
    } else if ids.len() == 1 {
        IdSelection::Single(ids[0].clone())
    } else {
        IdSelection::Multiple(clone_strings(ids))
    }
}

/// Decides the response shape from the path's identifier segment, which may
/// itself be a comma-joined list. An absent segment is a missing
/// identifier and resolves to not-found, not to a sentinel value that no
/// identifier could equal.
pub fn plan_path_ids(seg: &Option<String>) -> (r: IdSelection)
    ensures
        (r matches IdSelection::Missing) <==> seg is None,
        seg matches Some(s) ==> (split_commas(s@).len() == 1 ==> (r matches IdSelection::Single(id)
            && id@ == split_commas(s@)[0])),
        seg matches Some(s) ==> (split_commas(s@).len() > 1 ==> (r matches IdSelection::Multiple(v)
            && v@.map_values(|t: String| t@) == split_commas(s@))),
{
    match seg {
        None => IdSelection::Missing,
        Some(s) => {
            let parts = split_ids(s.as_str());
            if parts.len() == 1 {
                let id = parts[0].clone();
                IdSelection::Single(id)
            } else {
                IdSelection::Multiple(parts)
            }
        },
    }
}

} // verus!
