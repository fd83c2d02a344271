//! Filter extraction: decoded query parameters become a normalized filter
//! record with explicit absent criteria instead of a match-all sentinel.
//!
//! A criterion is set exactly when its key is present with a non-empty
//! first value; everything else, including malformed input, silently
//! defaults to matching everything and never raises an error.

use vstd::prelude::*;

verus! {

/// One decoded query parameter: a key and its listed values.
pub struct ParamEntry {
    pub key: String,
    pub values: Vec<String>,
}

/// The mathematical value of a `ParamEntry`.
pub struct ParamEntryView {
    pub key: Seq<char>,
    pub values: Seq<Seq<char>>,
}

impl View for ParamEntry {
    type V = ParamEntryView;

    open spec fn view(&self) -> ParamEntryView {
        ParamEntryView { key: self.key@, values: self.values@.map_values(|s: String| s@) }
    }
}

/// The values of the first entry with the given key, scanning from `from`.
pub open spec fn lookup_from(entries: Seq<ParamEntryView>, key: Seq<char>, from: int) -> Option<
    Seq<Seq<char>>,
>
    decreases entries.len() - from,
{
    if from < 0 || from >= entries.len() {
        None
    } else if entries[from].key == key {
        Some(entries[from].values)
    } else {
        lookup_from(entries, key, from + 1)
    }
}

/// The values listed under the given key, if any.
pub open spec fn lookup_values(entries: Seq<ParamEntryView>, key: Seq<char>) -> Option<
    Seq<Seq<char>>,
> {
    lookup_from(entries, key, 0)
}

/// The effective criterion under a key: set exactly when the key is present
/// with a non-empty first value.
pub open spec fn criterion(entries: Seq<ParamEntryView>, key: Seq<char>) -> Option<Seq<char>> {
    match lookup_values(entries, key) {
        Some(vs) => if vs.len() > 0 && vs[0].len() > 0 {
            Some(vs[0])
        } else {
            None
        },
        None => None,
    }
}

fn find_values<'a>(entries: &'a Vec<ParamEntry>, key: &str) -> (r: Option<&'a Vec<String>>)
    ensures
        (r matches Some(vs) ==> lookup_values(
            entries@.map_values(|e: ParamEntry| e@),
            key@,
        ) matches Some(w) && vs@.map_values(|s: String| s@) == w),
        r is None ==> lookup_values(entries@.map_values(|e: ParamEntry| e@), key@) is None,
{
    let ghost eseq = entries@.map_values(|e: ParamEntry| e@);
    let key_string = key.to_owned();
    let mut i: usize = 0;
    while i < entries.len()
        invariant
            eseq == entries@.map_values(|e: ParamEntry| e@),
            key_string@ == key@,
            i <= entries.len(),
            lookup_from(eseq, key@, 0) == lookup_from(eseq, key@, i as int),
        decreases entries.len() - i,
    {
        let ghost idx = i as int;
        if entries[i].key == key_string {
            proof {
                assert(eseq[idx] == entries@[idx]@);
                assert(lookup_from(eseq, key@, idx) == Some(eseq[idx].values));
            }
            return Some(&entries[i].values);
        }
        proof {
            assert(eseq[idx] == entries@[idx]@);
            assert(lookup_from(eseq, key@, idx) == lookup_from(eseq, key@, idx + 1));
        }
        i = i + 1;
    }
    None
}

/// Extracts the criterion listed under the given key.
pub fn extract_criterion(entries: &Vec<ParamEntry>, key: &str) -> (r: Option<String>)
    ensures
        (r matches Some(v) && Some(v@) == criterion(
            entries@.map_values(|e: ParamEntry| e@),
            key@,
        )) <==> criterion(entries@.map_values(|e: ParamEntry| e@), key@) is Some,
        r is None <==> criterion(entries@.map_values(|e: ParamEntry| e@), key@) is None,
{
    match find_values(entries, key) {
        Some(vs) => {
            if vs.len() > 0 && !vs[0].as_str().is_empty() {
                Some(vs[0].clone())
            } else {
                None
            }
        },
        None => None,
    }
}

/// The four optional partial-match criteria of a listing query. An absent
/// criterion matches everything, not the empty string.
pub struct QueryFilter {
    pub department: Option<String>,
    pub category: Option<String>,
    pub subcategory: Option<String>,
    pub country: Option<String>,
}

/// The mathematical value of an optional criterion.
pub open spec fn opt_str_view(o: Option<String>) -> Option<Seq<char>> {
    match o {
        Some(s) => Some(s@),
        None => None,
    }
}

/// The mathematical value of a `QueryFilter`.
pub struct FilterView {
    pub department: Option<Seq<char>>,
    pub category: Option<Seq<char>>,
    pub subcategory: Option<Seq<char>>,
    pub country: Option<Seq<char>>,
}

impl View for QueryFilter {
    type V = FilterView;

    open spec fn view(&self) -> FilterView {
        FilterView {
            department: opt_str_view(self.department),
            category: opt_str_view(self.category),
            subcategory: opt_str_view(self.subcategory),
            country: opt_str_view(self.country),
        }
    }
}

/// Builds the filter record from the request's decoded query parameters.
pub fn extract_filter(entries: &Vec<ParamEntry>) -> (f: QueryFilter)
    ensures
        f@.department == criterion(entries@.map_values(|e: ParamEntry| e@), "department"@),
        f@.category == criterion(entries@.map_values(|e: ParamEntry| e@), "category"@),
        f@.subcategory == criterion(entries@.map_values(|e: ParamEntry| e@), "subcategory"@),
        f@.country == criterion(entries@.map_values(|e: ParamEntry| e@), "country"@),
{
    QueryFilter {
        department: extract_criterion(entries, "department"),
        category: extract_criterion(entries, "category"),
        subcategory: extract_criterion(entries, "subcategory"),
        country: extract_criterion(entries, "country"),
    }
}

/// The bound pattern a criterion becomes: the value wrapped in
/// match-anywhere wildcards, or the match-everything pattern when absent.
pub open spec fn like_pattern(crit: Option<Seq<char>>) -> Seq<char> {
    match crit {
        Some(v) => "%"@ + v + "%"@,
        None => "%%"@,
    }
}

/// The lowercase form of an ASCII letter; anything else is unchanged.
pub open spec fn ascii_lower(c: char) -> char {
    if 'A' <= c && c <= 'Z' {
        (((c as u8) + 32) as char)
    } else {
        c
    }
}

/// A character sequence folded to ASCII lowercase.
pub open spec fn lower_seq(s: Seq<char>) -> Seq<char> {
    s.map_values(|c: char| ascii_lower(c))
}

/// The needle occurs somewhere in the hay, compared ASCII-case-insensitively.
/// This is the meaning of the partial-match patterns the query builder
/// emits, for criteria without pattern metacharacters.
pub open spec fn contains_ci(needle: Seq<char>, hay: Seq<char>) -> bool {
    exists|i: int|
        0 <= i <= hay.len() - needle.len() && #[trigger] lower_seq(hay).subrange(
            i,
            i + needle.len(),
        ) == lower_seq(needle)
}

/// One optional criterion against one field: an absent criterion matches
/// every value.
pub open spec fn opt_matches(crit: Option<Seq<char>>, field: Seq<char>) -> bool {
    match crit {
        None => true,
        Some(v) => contains_ci(v, field),
    }
}

/// What the listing query means: all four criteria must match their fields.
pub open spec fn filter_matches(f: FilterView, p: crate::product::ProductView) -> bool {
    &&& opt_matches(f.department, p.department)
    &&& opt_matches(f.category, p.category)
    &&& opt_matches(f.subcategory, p.subcategory)
    &&& opt_matches(f.country, p.country)
}

fn ascii_lower_char(c: char) -> (r: char)
    ensures
        r == ascii_lower(c),
{
    if 'A' <= c && c <= 'Z' {
        ((c as u8) + 32) as char
    } else {
        c
    }
}

fn eq_ci_at(needle: &str, hay: &str, at: usize) -> (r: bool)
    requires
        at + needle@.len() <= hay@.len(),
    ensures
        r == (lower_seq(hay@).subrange(at as int, at + needle@.len()) == lower_seq(needle@)),
{
    let n = needle.unicode_len();
    let h = hay.unicode_len();
    let ghost piece = lower_seq(hay@).subrange(at as int, at + needle@.len());
    let mut k: usize = 0;
    while k < n
        invariant
            n == needle@.len(),
            h == hay@.len(),
            at + n <= h,
            piece == lower_seq(hay@).subrange(at as int, at + needle@.len()),
            k <= n,
            forall|j: int| 0 <= j < k ==> #[trigger] piece[j] == lower_seq(needle@)[j],
        decreases n - k,
    {
        let hc = ascii_lower_char(hay.get_char(at + k));
        let nc = ascii_lower_char(needle.get_char(k));
        proof {
            assert(piece[k as int] == lower_seq(hay@)[at + k]);
            assert(lower_seq(hay@)[at + k] == ascii_lower(hay@[at + k]));
            assert(lower_seq(needle@)[k as int] == ascii_lower(needle@[k as int]));
        }
        if hc != nc {
            proof {
                assert(piece[k as int] != lower_seq(needle@)[k as int]);
            }
            return false;
        }
        k = k + 1;
    }
    proof {
        assert(piece =~= lower_seq(needle@));
    }
    true
}

/// Whether the needle occurs in the hay, compared ASCII-case-insensitively:
/// the executable form of `contains_ci`.
pub fn contains_ci_str(needle: &str, hay: &str) -> (r: bool)
    ensures
        r == contains_ci(needle@, hay@),
{
    let n = needle.unicode_len();
    let h = hay.unicode_len();
    if n > h {
        return false;
    }
    if n == 0 {
        proof {
            assert(lower_seq(hay@).subrange(0, 0 + needle@.len() as int) =~= lower_seq(needle@));
        }
        return true;
    }
    let mut i: usize = 0;
    while i <= h - n
        invariant
            n == needle@.len(),
            h == hay@.len(),
            1 <= n <= h,
            i <= h - n + 1,
            forall|j: int|
                0 <= j < i ==> #[trigger] lower_seq(hay@).subrange(j, j + needle@.len())
                    != lower_seq(needle@),
        decreases h - i,
    {
        if eq_ci_at(needle, hay, i) {
            return true;
        }
        i = i + 1;
    }
    false
}

/// Whether a product satisfies every criterion of a filter: the executable
/// form of `filter_matches`, usable as an in-memory stand-in for the
/// store's pattern matching.
pub fn product_matches_filter(f: &QueryFilter, p: &crate::product::Product) -> (r: bool)
    ensures
        r == filter_matches(f@, p@),
{
    if let Some(v) = &f.department {
        if !contains_ci_str(v.as_str(), p.department.as_str()) {
            return false;
        }
    }
    if let Some(v) = &f.category {
        if !contains_ci_str(v.as_str(), p.category.as_str()) {
            return false;
        }
    }
    if let Some(v) = &f.subcategory {
        if !contains_ci_str(v.as_str(), p.subcategory.as_str()) {
            return false;
        }
    }
    if let Some(v) = &f.country {
        if !contains_ci_str(v.as_str(), p.country.as_str()) {
            return false;
        }
    }
    true
}

/// A filter with every criterion left unset matches every product, so the
/// result set is the full table in the query's name order.
pub proof fn lemma_unset_filter_matches_all(p: crate::product::ProductView)
    ensures
        filter_matches(
            FilterView { department: None, category: None, subcategory: None, country: None },
            p,
        ),
{
}

/// With only the department criterion set, a product matches exactly when
/// its department contains the criterion, case-insensitively; any product
/// whose department does not is excluded.
pub proof fn lemma_department_filter(d: Seq<char>, p: crate::product::ProductView)
    ensures
        filter_matches(
            FilterView { department: Some(d), category: None, subcategory: None, country: None },
            p,
        ) <==> contains_ci(d, p.department),
{
}

} // verus!
